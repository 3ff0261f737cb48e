//! The canonical Microsoft TimeZone IDs paired with friendly labels, and the
//! mapping from IANA zone names to them.
//!
//! Each entry is a value Windows accepts in the `<TimeZone>` element of the
//! `specialize` pass of `autounattend.xml`. Entries are kept in UTC-offset
//! order so the list built from [`labels`] reads from Dateline (-12:00) to
//! Kiritimati (+14:00), matching Windows' own picker.
use crate::text::{
    append_chars, append_str, chars_eq, chars_of, decimal_padded, decimal_padded_chars, find_from,
    first_occ, lemma_first_occ, slice_chars, string_from_chars, trim, trim_chars,
};
use vstd::prelude::*;

verus! {

/// Number of time zones in the table.
pub const TIMEZONE_COUNT: usize = 138;

/// Time zone `i` as `(UTC offset in minutes, Microsoft ID, label)`; the
/// zones are numbered in offset order.
pub open spec fn timezone_entry(i: usize) -> (int, Seq<char>, Seq<char>) {
    match i {
        0 => (-720int, "Dateline Standard Time"@, "International Date Line West"@),
        1 => (-660int, "UTC-11"@, "Coordinated Universal Time-11"@),
        2 => (-600int, "Aleutian Standard Time"@, "Aleutian Islands"@),
        3 => (-600int, "Hawaiian Standard Time"@, "Hawaii"@),
        4 => (-570int, "Marquesas Standard Time"@, "Marquesas Islands"@),
        5 => (-540int, "Alaskan Standard Time"@, "Alaska"@),
        6 => (-540int, "UTC-09"@, "Coordinated Universal Time-09"@),
        7 => (-480int, "Pacific Standard Time (Mexico)"@, "Baja California"@),
        8 => (-480int, "UTC-08"@, "Coordinated Universal Time-08"@),
        9 => (-480int, "Pacific Standard Time"@, "Pacific Time (US & Canada)"@),
        10 => (-420int, "US Mountain Standard Time"@, "Arizona"@),
        11 => (-420int, "Mountain Standard Time (Mexico)"@, "Chihuahua, La Paz, Mazatlán"@),
        12 => (-420int, "Mountain Standard Time"@, "Mountain Time (US & Canada)"@),
        13 => (-420int, "Yukon Standard Time"@, "Yukon"@),
        14 => (-360int, "Central America Standard Time"@, "Central America"@),
        15 => (-360int, "Central Standard Time"@, "Central Time (US & Canada)"@),
        16 => (-360int, "Easter Island Standard Time"@, "Easter Island"@),
        17 => (-360int, "Central Standard Time (Mexico)"@, "Guadalajara, Mexico City, Monterrey"@),
        18 => (-360int, "Canada Central Standard Time"@, "Saskatchewan"@),
        19 => (-300int, "SA Pacific Standard Time"@, "Bogotá, Lima, Quito"@),
        20 => (-300int, "Eastern Standard Time (Mexico)"@, "Chetumal"@),
        21 => (-300int, "Eastern Standard Time"@, "Eastern Time (US & Canada)"@),
        22 => (-300int, "Haiti Standard Time"@, "Haiti"@),
        23 => (-300int, "Cuba Standard Time"@, "Havana"@),
        24 => (-300int, "US Eastern Standard Time"@, "Indiana (East)"@),
        25 => (-300int, "Turks And Caicos Standard Time"@, "Turks and Caicos"@),
        26 => (-240int, "Paraguay Standard Time"@, "Asunción"@),
        27 => (-240int, "Atlantic Standard Time"@, "Atlantic Time (Canada)"@),
        28 => (-240int, "Venezuela Standard Time"@, "Caracas"@),
        29 => (-240int, "Central Brazilian Standard Time"@, "Cuiabá"@),
        30 => (-240int, "SA Western Standard Time"@, "Georgetown, La Paz, Manaus, San Juan"@),
        31 => (-240int, "Pacific SA Standard Time"@, "Santiago"@),
        32 => (-210int, "Newfoundland Standard Time"@, "Newfoundland"@),
        33 => (-180int, "Tocantins Standard Time"@, "Araguaina"@),
        34 => (-180int, "E. South America Standard Time"@, "Brasília"@),
        35 => (-180int, "SA Eastern Standard Time"@, "Cayenne, Fortaleza"@),
        36 => (-180int, "Argentina Standard Time"@, "City of Buenos Aires"@),
        37 => (-180int, "Greenland Standard Time"@, "Greenland"@),
        38 => (-180int, "Montevideo Standard Time"@, "Montevideo"@),
        39 => (-180int, "Magallanes Standard Time"@, "Punta Arenas"@),
        40 => (-180int, "Saint Pierre Standard Time"@, "Saint Pierre and Miquelon"@),
        41 => (-180int, "Bahia Standard Time"@, "Salvador"@),
        42 => (-120int, "UTC-02"@, "Coordinated Universal Time-02"@),
        43 => (-60int, "Azores Standard Time"@, "Azores"@),
        44 => (-60int, "Cape Verde Standard Time"@, "Cabo Verde Is."@),
        45 => (0int, "UTC"@, "Coordinated Universal Time"@),
        46 => (0int, "Morocco Standard Time"@, "Casablanca"@),
        47 => (0int, "GMT Standard Time"@, "Dublin, Edinburgh, Lisbon, London"@),
        48 => (0int, "Greenwich Standard Time"@, "Monrovia, Reykjavík"@),
        49 => (0int, "Sao Tome Standard Time"@, "São Tomé"@),
        50 => (60int, "W. Europe Standard Time"@, "Amsterdam, Berlin, Bern, Rome, Stockholm, Vienna"@),
        51 => (60int, "Central Europe Standard Time"@, "Belgrade, Bratislava, Budapest, Ljubljana, Prague"@),
        52 => (60int, "Romance Standard Time"@, "Brussels, Copenhagen, Madrid, Paris"@),
        53 => (60int, "Central European Standard Time"@, "Sarajevo, Skopje, Warsaw, Zagreb"@),
        54 => (60int, "W. Central Africa Standard Time"@, "West Central Africa"@),
        55 => (120int, "Jordan Standard Time"@, "Amman"@),
        56 => (120int, "GTB Standard Time"@, "Athens, Bucharest"@),
        57 => (120int, "Middle East Standard Time"@, "Beirut"@),
        58 => (120int, "Egypt Standard Time"@, "Cairo"@),
        59 => (120int, "E. Europe Standard Time"@, "Chișinău"@),
        60 => (120int, "Syria Standard Time"@, "Damascus"@),
        61 => (120int, "West Bank Standard Time"@, "Gaza, Hebron"@),
        62 => (120int, "South Africa Standard Time"@, "Harare, Pretoria"@),
        63 => (120int, "FLE Standard Time"@, "Helsinki, Kyiv, Riga, Sofia, Tallinn, Vilnius"@),
        64 => (120int, "Israel Standard Time"@, "Jerusalem"@),
        65 => (120int, "Kaliningrad Standard Time"@, "Kaliningrad"@),
        66 => (120int, "Sudan Standard Time"@, "Khartoum"@),
        67 => (120int, "Libya Standard Time"@, "Tripoli"@),
        68 => (120int, "Namibia Standard Time"@, "Windhoek"@),
        69 => (180int, "Arabic Standard Time"@, "Baghdad"@),
        70 => (180int, "Turkey Standard Time"@, "Istanbul"@),
        71 => (180int, "Arab Standard Time"@, "Kuwait, Riyadh"@),
        72 => (180int, "Belarus Standard Time"@, "Minsk"@),
        73 => (180int, "Russian Standard Time"@, "Moscow, St. Petersburg"@),
        74 => (180int, "E. Africa Standard Time"@, "Nairobi"@),
        75 => (210int, "Iran Standard Time"@, "Tehran"@),
        76 => (240int, "Arabian Standard Time"@, "Abu Dhabi, Muscat"@),
        77 => (240int, "Astrakhan Standard Time"@, "Astrakhan, Ulyanovsk"@),
        78 => (240int, "Azerbaijan Standard Time"@, "Baku"@),
        79 => (240int, "Russia Time Zone 3"@, "Izhevsk, Samara"@),
        80 => (240int, "Mauritius Standard Time"@, "Port Louis"@),
        81 => (240int, "Saratov Standard Time"@, "Saratov"@),
        82 => (240int, "Georgian Standard Time"@, "Tbilisi"@),
        83 => (240int, "Volgograd Standard Time"@, "Volgograd"@),
        84 => (240int, "Caucasus Standard Time"@, "Yerevan"@),
        85 => (270int, "Afghanistan Standard Time"@, "Kabul"@),
        86 => (300int, "West Asia Standard Time"@, "Ashgabat, Tashkent"@),
        87 => (300int, "Ekaterinburg Standard Time"@, "Ekaterinburg"@),
        88 => (300int, "Pakistan Standard Time"@, "Islamabad, Karachi"@),
        89 => (300int, "Qyzylorda Standard Time"@, "Qyzylorda"@),
        90 => (330int, "India Standard Time"@, "Chennai, Kolkata, Mumbai, New Delhi"@),
        91 => (330int, "Sri Lanka Standard Time"@, "Sri Jayawardenepura"@),
        92 => (345int, "Nepal Standard Time"@, "Kathmandu"@),
        93 => (360int, "Central Asia Standard Time"@, "Astana"@),
        94 => (360int, "Bangladesh Standard Time"@, "Dhaka"@),
        95 => (360int, "Omsk Standard Time"@, "Omsk"@),
        96 => (390int, "Myanmar Standard Time"@, "Yangon (Rangoon)"@),
        97 => (420int, "SE Asia Standard Time"@, "Bangkok, Hanoi, Jakarta"@),
        98 => (420int, "Altai Standard Time"@, "Barnaul, Gorno-Altaysk"@),
        99 => (420int, "W. Mongolia Standard Time"@, "Hovd"@),
        100 => (420int, "North Asia Standard Time"@, "Krasnoyarsk"@),
        101 => (420int, "N. Central Asia Standard Time"@, "Novosibirsk"@),
        102 => (420int, "Tomsk Standard Time"@, "Tomsk"@),
        103 => (480int, "China Standard Time"@, "Beijing, Chongqing, Hong Kong"@),
        104 => (480int, "North Asia East Standard Time"@, "Irkutsk"@),
        105 => (480int, "Singapore Standard Time"@, "Kuala Lumpur, Singapore"@),
        106 => (480int, "W. Australia Standard Time"@, "Perth"@),
        107 => (480int, "Taipei Standard Time"@, "Taipei"@),
        108 => (480int, "Ulaanbaatar Standard Time"@, "Ulaanbaatar"@),
        109 => (525int, "Aus Central W. Standard Time"@, "Eucla"@),
        110 => (540int, "Transbaikal Standard Time"@, "Chita"@),
        111 => (540int, "Tokyo Standard Time"@, "Osaka, Sapporo, Tokyo"@),
        112 => (540int, "North Korea Standard Time"@, "Pyongyang"@),
        113 => (540int, "Korea Standard Time"@, "Seoul"@),
        114 => (540int, "Yakutsk Standard Time"@, "Yakutsk"@),
        115 => (570int, "Cen. Australia Standard Time"@, "Adelaide"@),
        116 => (570int, "AUS Central Standard Time"@, "Darwin"@),
        117 => (600int, "E. Australia Standard Time"@, "Brisbane"@),
        118 => (600int, "AUS Eastern Standard Time"@, "Canberra, Melbourne, Sydney"@),
        119 => (600int, "West Pacific Standard Time"@, "Guam, Port Moresby"@),
        120 => (600int, "Tasmania Standard Time"@, "Hobart"@),
        121 => (600int, "Vladivostok Standard Time"@, "Vladivostok"@),
        122 => (630int, "Lord Howe Standard Time"@, "Lord Howe Island"@),
        123 => (660int, "Bougainville Standard Time"@, "Bougainville Island"@),
        124 => (660int, "Russia Time Zone 10"@, "Chokurdakh"@),
        125 => (660int, "Magadan Standard Time"@, "Magadan"@),
        126 => (660int, "Norfolk Standard Time"@, "Norfolk Island"@),
        127 => (660int, "Sakhalin Standard Time"@, "Sakhalin"@),
        128 => (660int, "Central Pacific Standard Time"@, "Solomon Is., New Caledonia"@),
        129 => (720int, "Russia Time Zone 11"@, "Anadyr, Petropavlovsk-Kamchatsky"@),
        130 => (720int, "New Zealand Standard Time"@, "Auckland, Wellington"@),
        131 => (720int, "UTC+12"@, "Coordinated Universal Time+12"@),
        132 => (720int, "Fiji Standard Time"@, "Fiji"@),
        133 => (765int, "Chatham Islands Standard Time"@, "Chatham Islands"@),
        134 => (780int, "UTC+13"@, "Coordinated Universal Time+13"@),
        135 => (780int, "Tonga Standard Time"@, "Nuku'alofa"@),
        136 => (780int, "Samoa Standard Time"@, "Samoa"@),
        137 => (840int, "Line Islands Standard Time"@, "Kiritimati Island"@),
        _ => (0int, seq![], seq![]),
    }
}

/// The time zones, in offset order.
pub open spec fn timezone_table() -> Seq<(int, Seq<char>, Seq<char>)> {
    Seq::new(TIMEZONE_COUNT as nat, |i: int| timezone_entry(i as usize))
}

/// Time zone `i` of the table.
fn timezone_at(i: usize) -> (r: (i32, &'static str, &'static str))
    requires
        i < TIMEZONE_COUNT,
    ensures
        (r.0 as int, r.1@, r.2@) == timezone_entry(i),
{
    match i {
        0 => (-720, "Dateline Standard Time", "International Date Line West"),
        1 => (-660, "UTC-11", "Coordinated Universal Time-11"),
        2 => (-600, "Aleutian Standard Time", "Aleutian Islands"),
        3 => (-600, "Hawaiian Standard Time", "Hawaii"),
        4 => (-570, "Marquesas Standard Time", "Marquesas Islands"),
        5 => (-540, "Alaskan Standard Time", "Alaska"),
        6 => (-540, "UTC-09", "Coordinated Universal Time-09"),
        7 => (-480, "Pacific Standard Time (Mexico)", "Baja California"),
        8 => (-480, "UTC-08", "Coordinated Universal Time-08"),
        9 => (-480, "Pacific Standard Time", "Pacific Time (US & Canada)"),
        10 => (-420, "US Mountain Standard Time", "Arizona"),
        11 => (-420, "Mountain Standard Time (Mexico)", "Chihuahua, La Paz, Mazatlán"),
        12 => (-420, "Mountain Standard Time", "Mountain Time (US & Canada)"),
        13 => (-420, "Yukon Standard Time", "Yukon"),
        14 => (-360, "Central America Standard Time", "Central America"),
        15 => (-360, "Central Standard Time", "Central Time (US & Canada)"),
        16 => (-360, "Easter Island Standard Time", "Easter Island"),
        17 => (-360, "Central Standard Time (Mexico)", "Guadalajara, Mexico City, Monterrey"),
        18 => (-360, "Canada Central Standard Time", "Saskatchewan"),
        19 => (-300, "SA Pacific Standard Time", "Bogotá, Lima, Quito"),
        20 => (-300, "Eastern Standard Time (Mexico)", "Chetumal"),
        21 => (-300, "Eastern Standard Time", "Eastern Time (US & Canada)"),
        22 => (-300, "Haiti Standard Time", "Haiti"),
        23 => (-300, "Cuba Standard Time", "Havana"),
        24 => (-300, "US Eastern Standard Time", "Indiana (East)"),
        25 => (-300, "Turks And Caicos Standard Time", "Turks and Caicos"),
        26 => (-240, "Paraguay Standard Time", "Asunción"),
        27 => (-240, "Atlantic Standard Time", "Atlantic Time (Canada)"),
        28 => (-240, "Venezuela Standard Time", "Caracas"),
        29 => (-240, "Central Brazilian Standard Time", "Cuiabá"),
        30 => (-240, "SA Western Standard Time", "Georgetown, La Paz, Manaus, San Juan"),
        31 => (-240, "Pacific SA Standard Time", "Santiago"),
        32 => (-210, "Newfoundland Standard Time", "Newfoundland"),
        33 => (-180, "Tocantins Standard Time", "Araguaina"),
        34 => (-180, "E. South America Standard Time", "Brasília"),
        35 => (-180, "SA Eastern Standard Time", "Cayenne, Fortaleza"),
        36 => (-180, "Argentina Standard Time", "City of Buenos Aires"),
        37 => (-180, "Greenland Standard Time", "Greenland"),
        38 => (-180, "Montevideo Standard Time", "Montevideo"),
        39 => (-180, "Magallanes Standard Time", "Punta Arenas"),
        40 => (-180, "Saint Pierre Standard Time", "Saint Pierre and Miquelon"),
        41 => (-180, "Bahia Standard Time", "Salvador"),
        42 => (-120, "UTC-02", "Coordinated Universal Time-02"),
        43 => (-60, "Azores Standard Time", "Azores"),
        44 => (-60, "Cape Verde Standard Time", "Cabo Verde Is."),
        45 => (0, "UTC", "Coordinated Universal Time"),
        46 => (0, "Morocco Standard Time", "Casablanca"),
        47 => (0, "GMT Standard Time", "Dublin, Edinburgh, Lisbon, London"),
        48 => (0, "Greenwich Standard Time", "Monrovia, Reykjavík"),
        49 => (0, "Sao Tome Standard Time", "São Tomé"),
        50 => (60, "W. Europe Standard Time", "Amsterdam, Berlin, Bern, Rome, Stockholm, Vienna"),
        51 => (60, "Central Europe Standard Time", "Belgrade, Bratislava, Budapest, Ljubljana, Prague"),
        52 => (60, "Romance Standard Time", "Brussels, Copenhagen, Madrid, Paris"),
        53 => (60, "Central European Standard Time", "Sarajevo, Skopje, Warsaw, Zagreb"),
        54 => (60, "W. Central Africa Standard Time", "West Central Africa"),
        55 => (120, "Jordan Standard Time", "Amman"),
        56 => (120, "GTB Standard Time", "Athens, Bucharest"),
        57 => (120, "Middle East Standard Time", "Beirut"),
        58 => (120, "Egypt Standard Time", "Cairo"),
        59 => (120, "E. Europe Standard Time", "Chișinău"),
        60 => (120, "Syria Standard Time", "Damascus"),
        61 => (120, "West Bank Standard Time", "Gaza, Hebron"),
        62 => (120, "South Africa Standard Time", "Harare, Pretoria"),
        63 => (120, "FLE Standard Time", "Helsinki, Kyiv, Riga, Sofia, Tallinn, Vilnius"),
        64 => (120, "Israel Standard Time", "Jerusalem"),
        65 => (120, "Kaliningrad Standard Time", "Kaliningrad"),
        66 => (120, "Sudan Standard Time", "Khartoum"),
        67 => (120, "Libya Standard Time", "Tripoli"),
        68 => (120, "Namibia Standard Time", "Windhoek"),
        69 => (180, "Arabic Standard Time", "Baghdad"),
        70 => (180, "Turkey Standard Time", "Istanbul"),
        71 => (180, "Arab Standard Time", "Kuwait, Riyadh"),
        72 => (180, "Belarus Standard Time", "Minsk"),
        73 => (180, "Russian Standard Time", "Moscow, St. Petersburg"),
        74 => (180, "E. Africa Standard Time", "Nairobi"),
        75 => (210, "Iran Standard Time", "Tehran"),
        76 => (240, "Arabian Standard Time", "Abu Dhabi, Muscat"),
        77 => (240, "Astrakhan Standard Time", "Astrakhan, Ulyanovsk"),
        78 => (240, "Azerbaijan Standard Time", "Baku"),
        79 => (240, "Russia Time Zone 3", "Izhevsk, Samara"),
        80 => (240, "Mauritius Standard Time", "Port Louis"),
        81 => (240, "Saratov Standard Time", "Saratov"),
        82 => (240, "Georgian Standard Time", "Tbilisi"),
        83 => (240, "Volgograd Standard Time", "Volgograd"),
        84 => (240, "Caucasus Standard Time", "Yerevan"),
        85 => (270, "Afghanistan Standard Time", "Kabul"),
        86 => (300, "West Asia Standard Time", "Ashgabat, Tashkent"),
        87 => (300, "Ekaterinburg Standard Time", "Ekaterinburg"),
        88 => (300, "Pakistan Standard Time", "Islamabad, Karachi"),
        89 => (300, "Qyzylorda Standard Time", "Qyzylorda"),
        90 => (330, "India Standard Time", "Chennai, Kolkata, Mumbai, New Delhi"),
        91 => (330, "Sri Lanka Standard Time", "Sri Jayawardenepura"),
        92 => (345, "Nepal Standard Time", "Kathmandu"),
        93 => (360, "Central Asia Standard Time", "Astana"),
        94 => (360, "Bangladesh Standard Time", "Dhaka"),
        95 => (360, "Omsk Standard Time", "Omsk"),
        96 => (390, "Myanmar Standard Time", "Yangon (Rangoon)"),
        97 => (420, "SE Asia Standard Time", "Bangkok, Hanoi, Jakarta"),
        98 => (420, "Altai Standard Time", "Barnaul, Gorno-Altaysk"),
        99 => (420, "W. Mongolia Standard Time", "Hovd"),
        100 => (420, "North Asia Standard Time", "Krasnoyarsk"),
        101 => (420, "N. Central Asia Standard Time", "Novosibirsk"),
        102 => (420, "Tomsk Standard Time", "Tomsk"),
        103 => (480, "China Standard Time", "Beijing, Chongqing, Hong Kong"),
        104 => (480, "North Asia East Standard Time", "Irkutsk"),
        105 => (480, "Singapore Standard Time", "Kuala Lumpur, Singapore"),
        106 => (480, "W. Australia Standard Time", "Perth"),
        107 => (480, "Taipei Standard Time", "Taipei"),
        108 => (480, "Ulaanbaatar Standard Time", "Ulaanbaatar"),
        109 => (525, "Aus Central W. Standard Time", "Eucla"),
        110 => (540, "Transbaikal Standard Time", "Chita"),
        111 => (540, "Tokyo Standard Time", "Osaka, Sapporo, Tokyo"),
        112 => (540, "North Korea Standard Time", "Pyongyang"),
        113 => (540, "Korea Standard Time", "Seoul"),
        114 => (540, "Yakutsk Standard Time", "Yakutsk"),
        115 => (570, "Cen. Australia Standard Time", "Adelaide"),
        116 => (570, "AUS Central Standard Time", "Darwin"),
        117 => (600, "E. Australia Standard Time", "Brisbane"),
        118 => (600, "AUS Eastern Standard Time", "Canberra, Melbourne, Sydney"),
        119 => (600, "West Pacific Standard Time", "Guam, Port Moresby"),
        120 => (600, "Tasmania Standard Time", "Hobart"),
        121 => (600, "Vladivostok Standard Time", "Vladivostok"),
        122 => (630, "Lord Howe Standard Time", "Lord Howe Island"),
        123 => (660, "Bougainville Standard Time", "Bougainville Island"),
        124 => (660, "Russia Time Zone 10", "Chokurdakh"),
        125 => (660, "Magadan Standard Time", "Magadan"),
        126 => (660, "Norfolk Standard Time", "Norfolk Island"),
        127 => (660, "Sakhalin Standard Time", "Sakhalin"),
        128 => (660, "Central Pacific Standard Time", "Solomon Is., New Caledonia"),
        129 => (720, "Russia Time Zone 11", "Anadyr, Petropavlovsk-Kamchatsky"),
        130 => (720, "New Zealand Standard Time", "Auckland, Wellington"),
        131 => (720, "UTC+12", "Coordinated Universal Time+12"),
        132 => (720, "Fiji Standard Time", "Fiji"),
        133 => (765, "Chatham Islands Standard Time", "Chatham Islands"),
        134 => (780, "UTC+13", "Coordinated Universal Time+13"),
        135 => (780, "Tonga Standard Time", "Nuku'alofa"),
        136 => (780, "Samoa Standard Time", "Samoa"),
        137 => (840, "Line Islands Standard Time", "Kiritimati Island"),
        _ => (0, "", ""),
    }
}

/// An offset in minutes as `±HH:MM`.
pub open spec fn offset_spec(m: int) -> Seq<char> {
    let a = if m < 0 {
        -m
    } else {
        m
    };
    seq![if m < 0 {
        '-'
    } else {
        '+'
    }] + decimal_padded((a / 60) as nat, 2) + seq![':'] + decimal_padded((a % 60) as nat, 2)
}

/// Format an offset in minutes as `±HH:MM`.
pub fn offset_string(minutes: i32) -> (r: String)
    requires
        minutes > i32::MIN,
    ensures
        r@ == offset_spec(minutes as int),
{
    let a: u64 = if minutes < 0 {
        (-minutes) as u64
    } else {
        minutes as u64
    };
    let mut out: Vec<char> = Vec::new();
    if minutes < 0 {
        out.push('-');
    } else {
        out.push('+');
    }
    let h = decimal_padded_chars(a / 60, 2);
    append_chars(&mut out, &h);
    out.push(':');
    let m = decimal_padded_chars(a % 60, 2);
    append_chars(&mut out, &m);
    string_from_chars(&out)
}

/// The picker labels: `(Not set)`, then one `(UTC±HH:MM) label` line per
/// time zone of `t`.
pub open spec fn labels_from(t: Seq<(int, Seq<char>, Seq<char>)>) -> Seq<char>
    decreases t.len(),
{
    if t.len() == 0 {
        "(Not set)"@
    } else {
        labels_from(t.drop_last()) + "\n(UTC"@ + offset_spec(t.last().0) + ") "@ + t.last().2
    }
}

/// The IDs parallel to [`labels_from`]: an empty first line, then one ID
/// per time zone of `t`.
pub open spec fn ids_from(t: Seq<(int, Seq<char>, Seq<char>)>) -> Seq<char>
    decreases t.len(),
{
    if t.len() == 0 {
        seq![]
    } else {
        ids_from(t.drop_last()) + seq!['\n'] + t.last().1
    }
}

/// Newline-separated picker labels, prefixed with their UTC offset; the
/// leading "(Not set)" entry is paired with an empty ID in [`ids`].
pub fn labels() -> (r: String)
    ensures
        r@ == labels_from(timezone_table()),
{
    let ghost tt = timezone_table();
    let mut out = chars_of("(Not set)");
    let mut i: usize = 0;
    while i < TIMEZONE_COUNT
        invariant
            i <= TIMEZONE_COUNT,
            tt == timezone_table(),
            out@ == labels_from(tt.take(i as int)),
        decreases TIMEZONE_COUNT - i,
    {
        assert(tt.take(i + 1).drop_last() =~= tt.take(i as int));
        let (offset, _id, label) = timezone_at(i);
        assert(offset > i32::MIN);
        append_str(&mut out, "\n(UTC");
        let o = offset_string(offset);
        append_str(&mut out, o.as_str());
        append_str(&mut out, ") ");
        append_str(&mut out, label);
        i = i + 1;
    }
    assert(tt.take(i as int) =~= tt);
    string_from_chars(&out)
}

/// Newline-separated TimeZone IDs, parallel to [`labels`]; the leading entry
/// is the empty string, matching the "(Not set)" label.
pub fn ids() -> (r: String)
    ensures
        r@ == ids_from(timezone_table()),
{
    let ghost tt = timezone_table();
    let mut out: Vec<char> = Vec::new();
    let mut i: usize = 0;
    while i < TIMEZONE_COUNT
        invariant
            i <= TIMEZONE_COUNT,
            tt == timezone_table(),
            out@ == ids_from(tt.take(i as int)),
        decreases TIMEZONE_COUNT - i,
    {
        assert(tt.take(i + 1).drop_last() =~= tt.take(i as int));
        out.push('\n');
        let (_offset, id, _label) = timezone_at(i);
        append_str(&mut out, id);
        i = i + 1;
    }
    assert(tt.take(i as int) =~= tt);
    string_from_chars(&out)
}

/// Number of entries in the IANA map.
pub const IANA_COUNT: usize = 183;

/// Entry `i` of the IANA map: a zone name and the Microsoft TimeZone ID it
/// maps to (a subset of CLDR's `windowsZones.xml`, territory `001` targets).
pub open spec fn iana_entry(i: usize) -> (Seq<char>, Seq<char>) {
    match i {
        0 => ("Africa/Abidjan"@, "Greenwich Standard Time"@),
        1 => ("Africa/Accra"@, "Greenwich Standard Time"@),
        2 => ("Africa/Bamako"@, "Greenwich Standard Time"@),
        3 => ("Africa/Conakry"@, "Greenwich Standard Time"@),
        4 => ("Africa/Dakar"@, "Greenwich Standard Time"@),
        5 => ("Africa/Lome"@, "Greenwich Standard Time"@),
        6 => ("Africa/Nouakchott"@, "Greenwich Standard Time"@),
        7 => ("Africa/Ouagadougou"@, "Greenwich Standard Time"@),
        8 => ("Atlantic/Reykjavik"@, "Greenwich Standard Time"@),
        9 => ("Africa/Algiers"@, "W. Central Africa Standard Time"@),
        10 => ("Africa/Tunis"@, "W. Central Africa Standard Time"@),
        11 => ("Africa/Cairo"@, "Egypt Standard Time"@),
        12 => ("Africa/Casablanca"@, "Morocco Standard Time"@),
        13 => ("Africa/El_Aaiun"@, "Morocco Standard Time"@),
        14 => ("Africa/Johannesburg"@, "South Africa Standard Time"@),
        15 => ("Africa/Maseru"@, "South Africa Standard Time"@),
        16 => ("Africa/Mbabane"@, "South Africa Standard Time"@),
        17 => ("Africa/Lagos"@, "W. Central Africa Standard Time"@),
        18 => ("Africa/Bangui"@, "W. Central Africa Standard Time"@),
        19 => ("Africa/Brazzaville"@, "W. Central Africa Standard Time"@),
        20 => ("Africa/Douala"@, "W. Central Africa Standard Time"@),
        21 => ("Africa/Kinshasa"@, "W. Central Africa Standard Time"@),
        22 => ("Africa/Libreville"@, "W. Central Africa Standard Time"@),
        23 => ("Africa/Luanda"@, "W. Central Africa Standard Time"@),
        24 => ("Africa/Malabo"@, "W. Central Africa Standard Time"@),
        25 => ("Africa/Niamey"@, "W. Central Africa Standard Time"@),
        26 => ("Africa/Porto-Novo"@, "W. Central Africa Standard Time"@),
        27 => ("Africa/Nairobi"@, "E. Africa Standard Time"@),
        28 => ("Africa/Addis_Ababa"@, "E. Africa Standard Time"@),
        29 => ("Africa/Asmara"@, "E. Africa Standard Time"@),
        30 => ("Africa/Dar_es_Salaam"@, "E. Africa Standard Time"@),
        31 => ("Africa/Djibouti"@, "E. Africa Standard Time"@),
        32 => ("Africa/Kampala"@, "E. Africa Standard Time"@),
        33 => ("Africa/Mogadishu"@, "E. Africa Standard Time"@),
        34 => ("America/Anchorage"@, "Alaskan Standard Time"@),
        35 => ("America/Juneau"@, "Alaskan Standard Time"@),
        36 => ("America/Nome"@, "Alaskan Standard Time"@),
        37 => ("America/Sitka"@, "Alaskan Standard Time"@),
        38 => ("America/Yakutat"@, "Alaskan Standard Time"@),
        39 => ("America/Argentina/Buenos_Aires"@, "Argentina Standard Time"@),
        40 => ("America/Buenos_Aires"@, "Argentina Standard Time"@),
        41 => ("America/Bogota"@, "SA Pacific Standard Time"@),
        42 => ("America/Guayaquil"@, "SA Pacific Standard Time"@),
        43 => ("America/Lima"@, "SA Pacific Standard Time"@),
        44 => ("America/Panama"@, "SA Pacific Standard Time"@),
        45 => ("America/Caracas"@, "Venezuela Standard Time"@),
        46 => ("America/Chicago"@, "Central Standard Time"@),
        47 => ("America/Mexico_City"@, "Central Standard Time"@),
        48 => ("America/Monterrey"@, "Central Standard Time"@),
        49 => ("America/Tegucigalpa"@, "Central Standard Time"@),
        50 => ("America/Winnipeg"@, "Central Standard Time"@),
        51 => ("America/Denver"@, "Mountain Standard Time"@),
        52 => ("America/Edmonton"@, "Mountain Standard Time"@),
        53 => ("America/Boise"@, "Mountain Standard Time"@),
        54 => ("America/Halifax"@, "Atlantic Standard Time"@),
        55 => ("America/Glace_Bay"@, "Atlantic Standard Time"@),
        56 => ("America/Moncton"@, "Atlantic Standard Time"@),
        57 => ("America/Havana"@, "Cuba Standard Time"@),
        58 => ("America/Indiana/Indianapolis"@, "US Eastern Standard Time"@),
        59 => ("America/Indianapolis"@, "US Eastern Standard Time"@),
        60 => ("America/Los_Angeles"@, "Pacific Standard Time"@),
        61 => ("America/Vancouver"@, "Pacific Standard Time"@),
        62 => ("America/Tijuana"@, "Pacific Standard Time"@),
        63 => ("America/New_York"@, "Eastern Standard Time"@),
        64 => ("America/Detroit"@, "Eastern Standard Time"@),
        65 => ("America/Montreal"@, "Eastern Standard Time"@),
        66 => ("America/Toronto"@, "Eastern Standard Time"@),
        67 => ("America/Noronha"@, "UTC-02"@),
        68 => ("America/Phoenix"@, "US Mountain Standard Time"@),
        69 => ("America/Sao_Paulo"@, "E. South America Standard Time"@),
        70 => ("America/St_Johns"@, "Newfoundland Standard Time"@),
        71 => ("Antarctica/McMurdo"@, "New Zealand Standard Time"@),
        72 => ("Pacific/Auckland"@, "New Zealand Standard Time"@),
        73 => ("Asia/Almaty"@, "Central Asia Standard Time"@),
        74 => ("Asia/Baghdad"@, "Arab Standard Time"@),
        75 => ("Asia/Aden"@, "Arab Standard Time"@),
        76 => ("Asia/Bahrain"@, "Arab Standard Time"@),
        77 => ("Asia/Kuwait"@, "Arab Standard Time"@),
        78 => ("Asia/Qatar"@, "Arab Standard Time"@),
        79 => ("Asia/Riyadh"@, "Arab Standard Time"@),
        80 => ("Asia/Baku"@, "Azerbaijan Standard Time"@),
        81 => ("Asia/Bangkok"@, "SE Asia Standard Time"@),
        82 => ("Asia/Phnom_Penh"@, "SE Asia Standard Time"@),
        83 => ("Asia/Vientiane"@, "SE Asia Standard Time"@),
        84 => ("Asia/Saigon"@, "SE Asia Standard Time"@),
        85 => ("Asia/Ho_Chi_Minh"@, "SE Asia Standard Time"@),
        86 => ("Asia/Jakarta"@, "SE Asia Standard Time"@),
        87 => ("Asia/Beirut"@, "Middle East Standard Time"@),
        88 => ("Asia/Dhaka"@, "Bangladesh Standard Time"@),
        89 => ("Asia/Dubai"@, "Arabian Standard Time"@),
        90 => ("Asia/Muscat"@, "Arabian Standard Time"@),
        91 => ("Asia/Hong_Kong"@, "China Standard Time"@),
        92 => ("Asia/Macau"@, "China Standard Time"@),
        93 => ("Asia/Irkutsk"@, "North Asia East Standard Time"@),
        94 => ("Asia/Jerusalem"@, "Israel Standard Time"@),
        95 => ("Asia/Kabul"@, "Afghanistan Standard Time"@),
        96 => ("Asia/Karachi"@, "Pakistan Standard Time"@),
        97 => ("Asia/Kathmandu"@, "Nepal Standard Time"@),
        98 => ("Asia/Kolkata"@, "India Standard Time"@),
        99 => ("Asia/Calcutta"@, "India Standard Time"@),
        100 => ("Asia/Colombo"@, "India Standard Time"@),
        101 => ("Asia/Krasnoyarsk"@, "North Asia Standard Time"@),
        102 => ("Asia/Manila"@, "Singapore Standard Time"@),
        103 => ("Asia/Riyadh87"@, "Arab Standard Time"@),
        104 => ("Asia/Riyadh88"@, "Arab Standard Time"@),
        105 => ("Asia/Riyadh89"@, "Arab Standard Time"@),
        106 => ("Asia/Seoul"@, "Korea Standard Time"@),
        107 => ("Asia/Pyongyang"@, "Korea Standard Time"@),
        108 => ("Asia/Shanghai"@, "China Standard Time"@),
        109 => ("Asia/Chongqing"@, "China Standard Time"@),
        110 => ("Asia/Urumqi"@, "China Standard Time"@),
        111 => ("Asia/Singapore"@, "Singapore Standard Time"@),
        112 => ("Asia/Taipei"@, "Taipei Standard Time"@),
        113 => ("Asia/Tashkent"@, "West Asia Standard Time"@),
        114 => ("Asia/Tbilisi"@, "Georgian Standard Time"@),
        115 => ("Asia/Tehran"@, "Iran Standard Time"@),
        116 => ("Asia/Tokyo"@, "Tokyo Standard Time"@),
        117 => ("Asia/Vladivostok"@, "Vladivostok Standard Time"@),
        118 => ("Asia/Yakutsk"@, "Yakutsk Standard Time"@),
        119 => ("Asia/Yekaterinburg"@, "Ekaterinburg Standard Time"@),
        120 => ("Asia/Yerevan"@, "Caucasus Standard Time"@),
        121 => ("Atlantic/Azores"@, "Azores Standard Time"@),
        122 => ("Atlantic/Cape_Verde"@, "Cape Verde Standard Time"@),
        123 => ("Australia/Adelaide"@, "Cen. Australia Standard Time"@),
        124 => ("Australia/Brisbane"@, "E. Australia Standard Time"@),
        125 => ("Australia/Darwin"@, "AUS Central Standard Time"@),
        126 => ("Australia/Hobart"@, "Tasmania Standard Time"@),
        127 => ("Australia/Perth"@, "W. Australia Standard Time"@),
        128 => ("Australia/Sydney"@, "AUS Eastern Standard Time"@),
        129 => ("Australia/Melbourne"@, "AUS Eastern Standard Time"@),
        130 => ("Europe/Amsterdam"@, "W. Europe Standard Time"@),
        131 => ("Europe/Berlin"@, "W. Europe Standard Time"@),
        132 => ("Europe/Bern"@, "W. Europe Standard Time"@),
        133 => ("Europe/Brussels"@, "W. Europe Standard Time"@),
        134 => ("Europe/Copenhagen"@, "W. Europe Standard Time"@),
        135 => ("Europe/Luxembourg"@, "W. Europe Standard Time"@),
        136 => ("Europe/Oslo"@, "W. Europe Standard Time"@),
        137 => ("Europe/Rome"@, "W. Europe Standard Time"@),
        138 => ("Europe/Stockholm"@, "W. Europe Standard Time"@),
        139 => ("Europe/Vaduz"@, "W. Europe Standard Time"@),
        140 => ("Europe/Vienna"@, "W. Europe Standard Time"@),
        141 => ("Europe/Zurich"@, "W. Europe Standard Time"@),
        142 => ("Europe/Athens"@, "FLE Standard Time"@),
        143 => ("Europe/Bucharest"@, "FLE Standard Time"@),
        144 => ("Europe/Helsinki"@, "FLE Standard Time"@),
        145 => ("Europe/Kiev"@, "FLE Standard Time"@),
        146 => ("Europe/Kyiv"@, "FLE Standard Time"@),
        147 => ("Europe/Mariehamn"@, "FLE Standard Time"@),
        148 => ("Europe/Nicosia"@, "FLE Standard Time"@),
        149 => ("Europe/Riga"@, "FLE Standard Time"@),
        150 => ("Europe/Sofia"@, "FLE Standard Time"@),
        151 => ("Europe/Tallinn"@, "FLE Standard Time"@),
        152 => ("Europe/Vilnius"@, "FLE Standard Time"@),
        153 => ("Europe/Belgrade"@, "Central European Standard Time"@),
        154 => ("Europe/Bratislava"@, "Central European Standard Time"@),
        155 => ("Europe/Budapest"@, "Central European Standard Time"@),
        156 => ("Europe/Ljubljana"@, "Central European Standard Time"@),
        157 => ("Europe/Prague"@, "Central European Standard Time"@),
        158 => ("Europe/Warsaw"@, "Central European Standard Time"@),
        159 => ("Europe/Istanbul"@, "Turkey Standard Time"@),
        160 => ("Europe/Lisbon"@, "GMT Standard Time"@),
        161 => ("Europe/London"@, "GMT Standard Time"@),
        162 => ("Europe/Dublin"@, "GMT Standard Time"@),
        163 => ("Europe/Guernsey"@, "GMT Standard Time"@),
        164 => ("Europe/Isle_of_Man"@, "GMT Standard Time"@),
        165 => ("Europe/Jersey"@, "GMT Standard Time"@),
        166 => ("Europe/Madrid"@, "Romance Standard Time"@),
        167 => ("Europe/Paris"@, "Romance Standard Time"@),
        168 => ("Europe/Andorra"@, "Romance Standard Time"@),
        169 => ("Europe/Monaco"@, "Romance Standard Time"@),
        170 => ("Africa/Ceuta"@, "Romance Standard Time"@),
        171 => ("Europe/Minsk"@, "Belarus Standard Time"@),
        172 => ("Europe/Moscow"@, "Russian Standard Time"@),
        173 => ("Europe/Volgograd"@, "Russian Standard Time"@),
        174 => ("Pacific/Fiji"@, "Fiji Standard Time"@),
        175 => ("Pacific/Guam"@, "West Pacific Standard Time"@),
        176 => ("Pacific/Port_Moresby"@, "West Pacific Standard Time"@),
        177 => ("Pacific/Saipan"@, "West Pacific Standard Time"@),
        178 => ("Pacific/Honolulu"@, "Hawaiian Standard Time"@),
        179 => ("UTC"@, "UTC"@),
        180 => ("Etc/UTC"@, "UTC"@),
        181 => ("Etc/GMT"@, "UTC"@),
        182 => ("Universal"@, "UTC"@),
        _ => (seq![], seq![]),
    }
}

/// The IANA map, in order.
pub open spec fn iana_table() -> Seq<(Seq<char>, Seq<char>)> {
    Seq::new(IANA_COUNT as nat, |i: int| iana_entry(i as usize))
}

/// Entry `i` of the IANA map.
fn iana_at(i: usize) -> (r: (&'static str, &'static str))
    requires
        i < IANA_COUNT,
    ensures
        (r.0@, r.1@) == iana_entry(i),
{
    match i {
        0 => ("Africa/Abidjan", "Greenwich Standard Time"),
        1 => ("Africa/Accra", "Greenwich Standard Time"),
        2 => ("Africa/Bamako", "Greenwich Standard Time"),
        3 => ("Africa/Conakry", "Greenwich Standard Time"),
        4 => ("Africa/Dakar", "Greenwich Standard Time"),
        5 => ("Africa/Lome", "Greenwich Standard Time"),
        6 => ("Africa/Nouakchott", "Greenwich Standard Time"),
        7 => ("Africa/Ouagadougou", "Greenwich Standard Time"),
        8 => ("Atlantic/Reykjavik", "Greenwich Standard Time"),
        9 => ("Africa/Algiers", "W. Central Africa Standard Time"),
        10 => ("Africa/Tunis", "W. Central Africa Standard Time"),
        11 => ("Africa/Cairo", "Egypt Standard Time"),
        12 => ("Africa/Casablanca", "Morocco Standard Time"),
        13 => ("Africa/El_Aaiun", "Morocco Standard Time"),
        14 => ("Africa/Johannesburg", "South Africa Standard Time"),
        15 => ("Africa/Maseru", "South Africa Standard Time"),
        16 => ("Africa/Mbabane", "South Africa Standard Time"),
        17 => ("Africa/Lagos", "W. Central Africa Standard Time"),
        18 => ("Africa/Bangui", "W. Central Africa Standard Time"),
        19 => ("Africa/Brazzaville", "W. Central Africa Standard Time"),
        20 => ("Africa/Douala", "W. Central Africa Standard Time"),
        21 => ("Africa/Kinshasa", "W. Central Africa Standard Time"),
        22 => ("Africa/Libreville", "W. Central Africa Standard Time"),
        23 => ("Africa/Luanda", "W. Central Africa Standard Time"),
        24 => ("Africa/Malabo", "W. Central Africa Standard Time"),
        25 => ("Africa/Niamey", "W. Central Africa Standard Time"),
        26 => ("Africa/Porto-Novo", "W. Central Africa Standard Time"),
        27 => ("Africa/Nairobi", "E. Africa Standard Time"),
        28 => ("Africa/Addis_Ababa", "E. Africa Standard Time"),
        29 => ("Africa/Asmara", "E. Africa Standard Time"),
        30 => ("Africa/Dar_es_Salaam", "E. Africa Standard Time"),
        31 => ("Africa/Djibouti", "E. Africa Standard Time"),
        32 => ("Africa/Kampala", "E. Africa Standard Time"),
        33 => ("Africa/Mogadishu", "E. Africa Standard Time"),
        34 => ("America/Anchorage", "Alaskan Standard Time"),
        35 => ("America/Juneau", "Alaskan Standard Time"),
        36 => ("America/Nome", "Alaskan Standard Time"),
        37 => ("America/Sitka", "Alaskan Standard Time"),
        38 => ("America/Yakutat", "Alaskan Standard Time"),
        39 => ("America/Argentina/Buenos_Aires", "Argentina Standard Time"),
        40 => ("America/Buenos_Aires", "Argentina Standard Time"),
        41 => ("America/Bogota", "SA Pacific Standard Time"),
        42 => ("America/Guayaquil", "SA Pacific Standard Time"),
        43 => ("America/Lima", "SA Pacific Standard Time"),
        44 => ("America/Panama", "SA Pacific Standard Time"),
        45 => ("America/Caracas", "Venezuela Standard Time"),
        46 => ("America/Chicago", "Central Standard Time"),
        47 => ("America/Mexico_City", "Central Standard Time"),
        48 => ("America/Monterrey", "Central Standard Time"),
        49 => ("America/Tegucigalpa", "Central Standard Time"),
        50 => ("America/Winnipeg", "Central Standard Time"),
        51 => ("America/Denver", "Mountain Standard Time"),
        52 => ("America/Edmonton", "Mountain Standard Time"),
        53 => ("America/Boise", "Mountain Standard Time"),
        54 => ("America/Halifax", "Atlantic Standard Time"),
        55 => ("America/Glace_Bay", "Atlantic Standard Time"),
        56 => ("America/Moncton", "Atlantic Standard Time"),
        57 => ("America/Havana", "Cuba Standard Time"),
        58 => ("America/Indiana/Indianapolis", "US Eastern Standard Time"),
        59 => ("America/Indianapolis", "US Eastern Standard Time"),
        60 => ("America/Los_Angeles", "Pacific Standard Time"),
        61 => ("America/Vancouver", "Pacific Standard Time"),
        62 => ("America/Tijuana", "Pacific Standard Time"),
        63 => ("America/New_York", "Eastern Standard Time"),
        64 => ("America/Detroit", "Eastern Standard Time"),
        65 => ("America/Montreal", "Eastern Standard Time"),
        66 => ("America/Toronto", "Eastern Standard Time"),
        67 => ("America/Noronha", "UTC-02"),
        68 => ("America/Phoenix", "US Mountain Standard Time"),
        69 => ("America/Sao_Paulo", "E. South America Standard Time"),
        70 => ("America/St_Johns", "Newfoundland Standard Time"),
        71 => ("Antarctica/McMurdo", "New Zealand Standard Time"),
        72 => ("Pacific/Auckland", "New Zealand Standard Time"),
        73 => ("Asia/Almaty", "Central Asia Standard Time"),
        74 => ("Asia/Baghdad", "Arab Standard Time"),
        75 => ("Asia/Aden", "Arab Standard Time"),
        76 => ("Asia/Bahrain", "Arab Standard Time"),
        77 => ("Asia/Kuwait", "Arab Standard Time"),
        78 => ("Asia/Qatar", "Arab Standard Time"),
        79 => ("Asia/Riyadh", "Arab Standard Time"),
        80 => ("Asia/Baku", "Azerbaijan Standard Time"),
        81 => ("Asia/Bangkok", "SE Asia Standard Time"),
        82 => ("Asia/Phnom_Penh", "SE Asia Standard Time"),
        83 => ("Asia/Vientiane", "SE Asia Standard Time"),
        84 => ("Asia/Saigon", "SE Asia Standard Time"),
        85 => ("Asia/Ho_Chi_Minh", "SE Asia Standard Time"),
        86 => ("Asia/Jakarta", "SE Asia Standard Time"),
        87 => ("Asia/Beirut", "Middle East Standard Time"),
        88 => ("Asia/Dhaka", "Bangladesh Standard Time"),
        89 => ("Asia/Dubai", "Arabian Standard Time"),
        90 => ("Asia/Muscat", "Arabian Standard Time"),
        91 => ("Asia/Hong_Kong", "China Standard Time"),
        92 => ("Asia/Macau", "China Standard Time"),
        93 => ("Asia/Irkutsk", "North Asia East Standard Time"),
        94 => ("Asia/Jerusalem", "Israel Standard Time"),
        95 => ("Asia/Kabul", "Afghanistan Standard Time"),
        96 => ("Asia/Karachi", "Pakistan Standard Time"),
        97 => ("Asia/Kathmandu", "Nepal Standard Time"),
        98 => ("Asia/Kolkata", "India Standard Time"),
        99 => ("Asia/Calcutta", "India Standard Time"),
        100 => ("Asia/Colombo", "India Standard Time"),
        101 => ("Asia/Krasnoyarsk", "North Asia Standard Time"),
        102 => ("Asia/Manila", "Singapore Standard Time"),
        103 => ("Asia/Riyadh87", "Arab Standard Time"),
        104 => ("Asia/Riyadh88", "Arab Standard Time"),
        105 => ("Asia/Riyadh89", "Arab Standard Time"),
        106 => ("Asia/Seoul", "Korea Standard Time"),
        107 => ("Asia/Pyongyang", "Korea Standard Time"),
        108 => ("Asia/Shanghai", "China Standard Time"),
        109 => ("Asia/Chongqing", "China Standard Time"),
        110 => ("Asia/Urumqi", "China Standard Time"),
        111 => ("Asia/Singapore", "Singapore Standard Time"),
        112 => ("Asia/Taipei", "Taipei Standard Time"),
        113 => ("Asia/Tashkent", "West Asia Standard Time"),
        114 => ("Asia/Tbilisi", "Georgian Standard Time"),
        115 => ("Asia/Tehran", "Iran Standard Time"),
        116 => ("Asia/Tokyo", "Tokyo Standard Time"),
        117 => ("Asia/Vladivostok", "Vladivostok Standard Time"),
        118 => ("Asia/Yakutsk", "Yakutsk Standard Time"),
        119 => ("Asia/Yekaterinburg", "Ekaterinburg Standard Time"),
        120 => ("Asia/Yerevan", "Caucasus Standard Time"),
        121 => ("Atlantic/Azores", "Azores Standard Time"),
        122 => ("Atlantic/Cape_Verde", "Cape Verde Standard Time"),
        123 => ("Australia/Adelaide", "Cen. Australia Standard Time"),
        124 => ("Australia/Brisbane", "E. Australia Standard Time"),
        125 => ("Australia/Darwin", "AUS Central Standard Time"),
        126 => ("Australia/Hobart", "Tasmania Standard Time"),
        127 => ("Australia/Perth", "W. Australia Standard Time"),
        128 => ("Australia/Sydney", "AUS Eastern Standard Time"),
        129 => ("Australia/Melbourne", "AUS Eastern Standard Time"),
        130 => ("Europe/Amsterdam", "W. Europe Standard Time"),
        131 => ("Europe/Berlin", "W. Europe Standard Time"),
        132 => ("Europe/Bern", "W. Europe Standard Time"),
        133 => ("Europe/Brussels", "W. Europe Standard Time"),
        134 => ("Europe/Copenhagen", "W. Europe Standard Time"),
        135 => ("Europe/Luxembourg", "W. Europe Standard Time"),
        136 => ("Europe/Oslo", "W. Europe Standard Time"),
        137 => ("Europe/Rome", "W. Europe Standard Time"),
        138 => ("Europe/Stockholm", "W. Europe Standard Time"),
        139 => ("Europe/Vaduz", "W. Europe Standard Time"),
        140 => ("Europe/Vienna", "W. Europe Standard Time"),
        141 => ("Europe/Zurich", "W. Europe Standard Time"),
        142 => ("Europe/Athens", "FLE Standard Time"),
        143 => ("Europe/Bucharest", "FLE Standard Time"),
        144 => ("Europe/Helsinki", "FLE Standard Time"),
        145 => ("Europe/Kiev", "FLE Standard Time"),
        146 => ("Europe/Kyiv", "FLE Standard Time"),
        147 => ("Europe/Mariehamn", "FLE Standard Time"),
        148 => ("Europe/Nicosia", "FLE Standard Time"),
        149 => ("Europe/Riga", "FLE Standard Time"),
        150 => ("Europe/Sofia", "FLE Standard Time"),
        151 => ("Europe/Tallinn", "FLE Standard Time"),
        152 => ("Europe/Vilnius", "FLE Standard Time"),
        153 => ("Europe/Belgrade", "Central European Standard Time"),
        154 => ("Europe/Bratislava", "Central European Standard Time"),
        155 => ("Europe/Budapest", "Central European Standard Time"),
        156 => ("Europe/Ljubljana", "Central European Standard Time"),
        157 => ("Europe/Prague", "Central European Standard Time"),
        158 => ("Europe/Warsaw", "Central European Standard Time"),
        159 => ("Europe/Istanbul", "Turkey Standard Time"),
        160 => ("Europe/Lisbon", "GMT Standard Time"),
        161 => ("Europe/London", "GMT Standard Time"),
        162 => ("Europe/Dublin", "GMT Standard Time"),
        163 => ("Europe/Guernsey", "GMT Standard Time"),
        164 => ("Europe/Isle_of_Man", "GMT Standard Time"),
        165 => ("Europe/Jersey", "GMT Standard Time"),
        166 => ("Europe/Madrid", "Romance Standard Time"),
        167 => ("Europe/Paris", "Romance Standard Time"),
        168 => ("Europe/Andorra", "Romance Standard Time"),
        169 => ("Europe/Monaco", "Romance Standard Time"),
        170 => ("Africa/Ceuta", "Romance Standard Time"),
        171 => ("Europe/Minsk", "Belarus Standard Time"),
        172 => ("Europe/Moscow", "Russian Standard Time"),
        173 => ("Europe/Volgograd", "Russian Standard Time"),
        174 => ("Pacific/Fiji", "Fiji Standard Time"),
        175 => ("Pacific/Guam", "West Pacific Standard Time"),
        176 => ("Pacific/Port_Moresby", "West Pacific Standard Time"),
        177 => ("Pacific/Saipan", "West Pacific Standard Time"),
        178 => ("Pacific/Honolulu", "Hawaiian Standard Time"),
        179 => ("UTC", "UTC"),
        180 => ("Etc/UTC", "UTC"),
        181 => ("Etc/GMT", "UTC"),
        182 => ("Universal", "UTC"),
        _ => ("", ""),
    }
}

/// The Microsoft ID of the first entry of `t` named `iana`.
pub open spec fn iana_lookup(t: Seq<(Seq<char>, Seq<char>)>, iana: Seq<char>) -> Option<Seq<char>>
    decreases t.len(),
{
    if t.len() == 0 {
        None
    } else if t[0].0 == iana {
        Some(t[0].1)
    } else {
        iana_lookup(t.drop_first(), iana)
    }
}

/// Convert an IANA zone name (e.g. `Europe/Paris`) to its closest Microsoft
/// TimeZone ID (`Romance Standard Time`); `None` for zones the map lacks.
pub fn from_iana(iana: &str) -> (r: Option<&'static str>)
    ensures
        match iana_lookup(iana_table(), iana@) {
            Some(ms) => r matches Some(x) && x@ == ms,
            None => r is None,
        },
{
    let ghost tt = iana_table();
    let name = chars_of(iana);
    let mut i: usize = 0;
    assert(tt.subrange(0, tt.len() as int) =~= tt);
    while i < IANA_COUNT
        invariant
            i <= IANA_COUNT,
            tt == iana_table(),
            name@ == iana@,
            iana_lookup(tt, iana@) == iana_lookup(tt.subrange(i as int, tt.len() as int), iana@),
        decreases IANA_COUNT - i,
    {
        let (candidate, ms) = iana_at(i);
        let c = chars_of(candidate);
        if chars_eq(&c, &name) {
            return Some(ms);
        }
        assert(tt.subrange(i as int, tt.len() as int).drop_first() =~= tt.subrange(
            i + 1,
            tt.len() as int,
        ));
        i = i + 1;
    }
    None
}

/// The row of the time-zone table carrying the Microsoft ID of IANA map
/// entry `i`.
proof fn catalogue_row_of(i: usize) -> (j: usize)
    requires
        i < IANA_COUNT,
    ensures
        j < TIMEZONE_COUNT,
        timezone_entry(j).1 == iana_entry(i).1,
{
    match i {
        0 => {
            assert(timezone_entry(48).1 == iana_entry(0).1);
            48
        },
        1 => {
            assert(timezone_entry(48).1 == iana_entry(1).1);
            48
        },
        2 => {
            assert(timezone_entry(48).1 == iana_entry(2).1);
            48
        },
        3 => {
            assert(timezone_entry(48).1 == iana_entry(3).1);
            48
        },
        4 => {
            assert(timezone_entry(48).1 == iana_entry(4).1);
            48
        },
        5 => {
            assert(timezone_entry(48).1 == iana_entry(5).1);
            48
        },
        6 => {
            assert(timezone_entry(48).1 == iana_entry(6).1);
            48
        },
        7 => {
            assert(timezone_entry(48).1 == iana_entry(7).1);
            48
        },
        8 => {
            assert(timezone_entry(48).1 == iana_entry(8).1);
            48
        },
        9 => {
            assert(timezone_entry(54).1 == iana_entry(9).1);
            54
        },
        10 => {
            assert(timezone_entry(54).1 == iana_entry(10).1);
            54
        },
        11 => {
            assert(timezone_entry(58).1 == iana_entry(11).1);
            58
        },
        12 => {
            assert(timezone_entry(46).1 == iana_entry(12).1);
            46
        },
        13 => {
            assert(timezone_entry(46).1 == iana_entry(13).1);
            46
        },
        14 => {
            assert(timezone_entry(62).1 == iana_entry(14).1);
            62
        },
        15 => {
            assert(timezone_entry(62).1 == iana_entry(15).1);
            62
        },
        16 => {
            assert(timezone_entry(62).1 == iana_entry(16).1);
            62
        },
        17 => {
            assert(timezone_entry(54).1 == iana_entry(17).1);
            54
        },
        18 => {
            assert(timezone_entry(54).1 == iana_entry(18).1);
            54
        },
        19 => {
            assert(timezone_entry(54).1 == iana_entry(19).1);
            54
        },
        20 => {
            assert(timezone_entry(54).1 == iana_entry(20).1);
            54
        },
        21 => {
            assert(timezone_entry(54).1 == iana_entry(21).1);
            54
        },
        22 => {
            assert(timezone_entry(54).1 == iana_entry(22).1);
            54
        },
        23 => {
            assert(timezone_entry(54).1 == iana_entry(23).1);
            54
        },
        24 => {
            assert(timezone_entry(54).1 == iana_entry(24).1);
            54
        },
        25 => {
            assert(timezone_entry(54).1 == iana_entry(25).1);
            54
        },
        26 => {
            assert(timezone_entry(54).1 == iana_entry(26).1);
            54
        },
        27 => {
            assert(timezone_entry(74).1 == iana_entry(27).1);
            74
        },
        28 => {
            assert(timezone_entry(74).1 == iana_entry(28).1);
            74
        },
        29 => {
            assert(timezone_entry(74).1 == iana_entry(29).1);
            74
        },
        30 => {
            assert(timezone_entry(74).1 == iana_entry(30).1);
            74
        },
        31 => {
            assert(timezone_entry(74).1 == iana_entry(31).1);
            74
        },
        32 => {
            assert(timezone_entry(74).1 == iana_entry(32).1);
            74
        },
        33 => {
            assert(timezone_entry(74).1 == iana_entry(33).1);
            74
        },
        34 => {
            assert(timezone_entry(5).1 == iana_entry(34).1);
            5
        },
        35 => {
            assert(timezone_entry(5).1 == iana_entry(35).1);
            5
        },
        36 => {
            assert(timezone_entry(5).1 == iana_entry(36).1);
            5
        },
        37 => {
            assert(timezone_entry(5).1 == iana_entry(37).1);
            5
        },
        38 => {
            assert(timezone_entry(5).1 == iana_entry(38).1);
            5
        },
        39 => {
            assert(timezone_entry(36).1 == iana_entry(39).1);
            36
        },
        40 => {
            assert(timezone_entry(36).1 == iana_entry(40).1);
            36
        },
        41 => {
            assert(timezone_entry(19).1 == iana_entry(41).1);
            19
        },
        42 => {
            assert(timezone_entry(19).1 == iana_entry(42).1);
            19
        },
        43 => {
            assert(timezone_entry(19).1 == iana_entry(43).1);
            19
        },
        44 => {
            assert(timezone_entry(19).1 == iana_entry(44).1);
            19
        },
        45 => {
            assert(timezone_entry(28).1 == iana_entry(45).1);
            28
        },
        46 => {
            assert(timezone_entry(15).1 == iana_entry(46).1);
            15
        },
        47 => {
            assert(timezone_entry(15).1 == iana_entry(47).1);
            15
        },
        48 => {
            assert(timezone_entry(15).1 == iana_entry(48).1);
            15
        },
        49 => {
            assert(timezone_entry(15).1 == iana_entry(49).1);
            15
        },
        50 => {
            assert(timezone_entry(15).1 == iana_entry(50).1);
            15
        },
        51 => {
            assert(timezone_entry(12).1 == iana_entry(51).1);
            12
        },
        52 => {
            assert(timezone_entry(12).1 == iana_entry(52).1);
            12
        },
        53 => {
            assert(timezone_entry(12).1 == iana_entry(53).1);
            12
        },
        54 => {
            assert(timezone_entry(27).1 == iana_entry(54).1);
            27
        },
        55 => {
            assert(timezone_entry(27).1 == iana_entry(55).1);
            27
        },
        56 => {
            assert(timezone_entry(27).1 == iana_entry(56).1);
            27
        },
        57 => {
            assert(timezone_entry(23).1 == iana_entry(57).1);
            23
        },
        58 => {
            assert(timezone_entry(24).1 == iana_entry(58).1);
            24
        },
        59 => {
            assert(timezone_entry(24).1 == iana_entry(59).1);
            24
        },
        60 => {
            assert(timezone_entry(9).1 == iana_entry(60).1);
            9
        },
        61 => {
            assert(timezone_entry(9).1 == iana_entry(61).1);
            9
        },
        62 => {
            assert(timezone_entry(9).1 == iana_entry(62).1);
            9
        },
        63 => {
            assert(timezone_entry(21).1 == iana_entry(63).1);
            21
        },
        64 => {
            assert(timezone_entry(21).1 == iana_entry(64).1);
            21
        },
        65 => {
            assert(timezone_entry(21).1 == iana_entry(65).1);
            21
        },
        66 => {
            assert(timezone_entry(21).1 == iana_entry(66).1);
            21
        },
        67 => {
            assert(timezone_entry(42).1 == iana_entry(67).1);
            42
        },
        68 => {
            assert(timezone_entry(10).1 == iana_entry(68).1);
            10
        },
        69 => {
            assert(timezone_entry(34).1 == iana_entry(69).1);
            34
        },
        70 => {
            assert(timezone_entry(32).1 == iana_entry(70).1);
            32
        },
        71 => {
            assert(timezone_entry(130).1 == iana_entry(71).1);
            130
        },
        72 => {
            assert(timezone_entry(130).1 == iana_entry(72).1);
            130
        },
        73 => {
            assert(timezone_entry(93).1 == iana_entry(73).1);
            93
        },
        74 => {
            assert(timezone_entry(71).1 == iana_entry(74).1);
            71
        },
        75 => {
            assert(timezone_entry(71).1 == iana_entry(75).1);
            71
        },
        76 => {
            assert(timezone_entry(71).1 == iana_entry(76).1);
            71
        },
        77 => {
            assert(timezone_entry(71).1 == iana_entry(77).1);
            71
        },
        78 => {
            assert(timezone_entry(71).1 == iana_entry(78).1);
            71
        },
        79 => {
            assert(timezone_entry(71).1 == iana_entry(79).1);
            71
        },
        80 => {
            assert(timezone_entry(78).1 == iana_entry(80).1);
            78
        },
        81 => {
            assert(timezone_entry(97).1 == iana_entry(81).1);
            97
        },
        82 => {
            assert(timezone_entry(97).1 == iana_entry(82).1);
            97
        },
        83 => {
            assert(timezone_entry(97).1 == iana_entry(83).1);
            97
        },
        84 => {
            assert(timezone_entry(97).1 == iana_entry(84).1);
            97
        },
        85 => {
            assert(timezone_entry(97).1 == iana_entry(85).1);
            97
        },
        86 => {
            assert(timezone_entry(97).1 == iana_entry(86).1);
            97
        },
        87 => {
            assert(timezone_entry(57).1 == iana_entry(87).1);
            57
        },
        88 => {
            assert(timezone_entry(94).1 == iana_entry(88).1);
            94
        },
        89 => {
            assert(timezone_entry(76).1 == iana_entry(89).1);
            76
        },
        90 => {
            assert(timezone_entry(76).1 == iana_entry(90).1);
            76
        },
        91 => {
            assert(timezone_entry(103).1 == iana_entry(91).1);
            103
        },
        92 => {
            assert(timezone_entry(103).1 == iana_entry(92).1);
            103
        },
        93 => {
            assert(timezone_entry(104).1 == iana_entry(93).1);
            104
        },
        94 => {
            assert(timezone_entry(64).1 == iana_entry(94).1);
            64
        },
        95 => {
            assert(timezone_entry(85).1 == iana_entry(95).1);
            85
        },
        96 => {
            assert(timezone_entry(88).1 == iana_entry(96).1);
            88
        },
        97 => {
            assert(timezone_entry(92).1 == iana_entry(97).1);
            92
        },
        98 => {
            assert(timezone_entry(90).1 == iana_entry(98).1);
            90
        },
        99 => {
            assert(timezone_entry(90).1 == iana_entry(99).1);
            90
        },
        100 => {
            assert(timezone_entry(90).1 == iana_entry(100).1);
            90
        },
        101 => {
            assert(timezone_entry(100).1 == iana_entry(101).1);
            100
        },
        102 => {
            assert(timezone_entry(105).1 == iana_entry(102).1);
            105
        },
        103 => {
            assert(timezone_entry(71).1 == iana_entry(103).1);
            71
        },
        104 => {
            assert(timezone_entry(71).1 == iana_entry(104).1);
            71
        },
        105 => {
            assert(timezone_entry(71).1 == iana_entry(105).1);
            71
        },
        106 => {
            assert(timezone_entry(113).1 == iana_entry(106).1);
            113
        },
        107 => {
            assert(timezone_entry(113).1 == iana_entry(107).1);
            113
        },
        108 => {
            assert(timezone_entry(103).1 == iana_entry(108).1);
            103
        },
        109 => {
            assert(timezone_entry(103).1 == iana_entry(109).1);
            103
        },
        110 => {
            assert(timezone_entry(103).1 == iana_entry(110).1);
            103
        },
        111 => {
            assert(timezone_entry(105).1 == iana_entry(111).1);
            105
        },
        112 => {
            assert(timezone_entry(107).1 == iana_entry(112).1);
            107
        },
        113 => {
            assert(timezone_entry(86).1 == iana_entry(113).1);
            86
        },
        114 => {
            assert(timezone_entry(82).1 == iana_entry(114).1);
            82
        },
        115 => {
            assert(timezone_entry(75).1 == iana_entry(115).1);
            75
        },
        116 => {
            assert(timezone_entry(111).1 == iana_entry(116).1);
            111
        },
        117 => {
            assert(timezone_entry(121).1 == iana_entry(117).1);
            121
        },
        118 => {
            assert(timezone_entry(114).1 == iana_entry(118).1);
            114
        },
        119 => {
            assert(timezone_entry(87).1 == iana_entry(119).1);
            87
        },
        120 => {
            assert(timezone_entry(84).1 == iana_entry(120).1);
            84
        },
        121 => {
            assert(timezone_entry(43).1 == iana_entry(121).1);
            43
        },
        122 => {
            assert(timezone_entry(44).1 == iana_entry(122).1);
            44
        },
        123 => {
            assert(timezone_entry(115).1 == iana_entry(123).1);
            115
        },
        124 => {
            assert(timezone_entry(117).1 == iana_entry(124).1);
            117
        },
        125 => {
            assert(timezone_entry(116).1 == iana_entry(125).1);
            116
        },
        126 => {
            assert(timezone_entry(120).1 == iana_entry(126).1);
            120
        },
        127 => {
            assert(timezone_entry(106).1 == iana_entry(127).1);
            106
        },
        128 => {
            assert(timezone_entry(118).1 == iana_entry(128).1);
            118
        },
        129 => {
            assert(timezone_entry(118).1 == iana_entry(129).1);
            118
        },
        130 => {
            assert(timezone_entry(50).1 == iana_entry(130).1);
            50
        },
        131 => {
            assert(timezone_entry(50).1 == iana_entry(131).1);
            50
        },
        132 => {
            assert(timezone_entry(50).1 == iana_entry(132).1);
            50
        },
        133 => {
            assert(timezone_entry(50).1 == iana_entry(133).1);
            50
        },
        134 => {
            assert(timezone_entry(50).1 == iana_entry(134).1);
            50
        },
        135 => {
            assert(timezone_entry(50).1 == iana_entry(135).1);
            50
        },
        136 => {
            assert(timezone_entry(50).1 == iana_entry(136).1);
            50
        },
        137 => {
            assert(timezone_entry(50).1 == iana_entry(137).1);
            50
        },
        138 => {
            assert(timezone_entry(50).1 == iana_entry(138).1);
            50
        },
        139 => {
            assert(timezone_entry(50).1 == iana_entry(139).1);
            50
        },
        140 => {
            assert(timezone_entry(50).1 == iana_entry(140).1);
            50
        },
        141 => {
            assert(timezone_entry(50).1 == iana_entry(141).1);
            50
        },
        142 => {
            assert(timezone_entry(63).1 == iana_entry(142).1);
            63
        },
        143 => {
            assert(timezone_entry(63).1 == iana_entry(143).1);
            63
        },
        144 => {
            assert(timezone_entry(63).1 == iana_entry(144).1);
            63
        },
        145 => {
            assert(timezone_entry(63).1 == iana_entry(145).1);
            63
        },
        146 => {
            assert(timezone_entry(63).1 == iana_entry(146).1);
            63
        },
        147 => {
            assert(timezone_entry(63).1 == iana_entry(147).1);
            63
        },
        148 => {
            assert(timezone_entry(63).1 == iana_entry(148).1);
            63
        },
        149 => {
            assert(timezone_entry(63).1 == iana_entry(149).1);
            63
        },
        150 => {
            assert(timezone_entry(63).1 == iana_entry(150).1);
            63
        },
        151 => {
            assert(timezone_entry(63).1 == iana_entry(151).1);
            63
        },
        152 => {
            assert(timezone_entry(63).1 == iana_entry(152).1);
            63
        },
        153 => {
            assert(timezone_entry(53).1 == iana_entry(153).1);
            53
        },
        154 => {
            assert(timezone_entry(53).1 == iana_entry(154).1);
            53
        },
        155 => {
            assert(timezone_entry(53).1 == iana_entry(155).1);
            53
        },
        156 => {
            assert(timezone_entry(53).1 == iana_entry(156).1);
            53
        },
        157 => {
            assert(timezone_entry(53).1 == iana_entry(157).1);
            53
        },
        158 => {
            assert(timezone_entry(53).1 == iana_entry(158).1);
            53
        },
        159 => {
            assert(timezone_entry(70).1 == iana_entry(159).1);
            70
        },
        160 => {
            assert(timezone_entry(47).1 == iana_entry(160).1);
            47
        },
        161 => {
            assert(timezone_entry(47).1 == iana_entry(161).1);
            47
        },
        162 => {
            assert(timezone_entry(47).1 == iana_entry(162).1);
            47
        },
        163 => {
            assert(timezone_entry(47).1 == iana_entry(163).1);
            47
        },
        164 => {
            assert(timezone_entry(47).1 == iana_entry(164).1);
            47
        },
        165 => {
            assert(timezone_entry(47).1 == iana_entry(165).1);
            47
        },
        166 => {
            assert(timezone_entry(52).1 == iana_entry(166).1);
            52
        },
        167 => {
            assert(timezone_entry(52).1 == iana_entry(167).1);
            52
        },
        168 => {
            assert(timezone_entry(52).1 == iana_entry(168).1);
            52
        },
        169 => {
            assert(timezone_entry(52).1 == iana_entry(169).1);
            52
        },
        170 => {
            assert(timezone_entry(52).1 == iana_entry(170).1);
            52
        },
        171 => {
            assert(timezone_entry(72).1 == iana_entry(171).1);
            72
        },
        172 => {
            assert(timezone_entry(73).1 == iana_entry(172).1);
            73
        },
        173 => {
            assert(timezone_entry(73).1 == iana_entry(173).1);
            73
        },
        174 => {
            assert(timezone_entry(132).1 == iana_entry(174).1);
            132
        },
        175 => {
            assert(timezone_entry(119).1 == iana_entry(175).1);
            119
        },
        176 => {
            assert(timezone_entry(119).1 == iana_entry(176).1);
            119
        },
        177 => {
            assert(timezone_entry(119).1 == iana_entry(177).1);
            119
        },
        178 => {
            assert(timezone_entry(3).1 == iana_entry(178).1);
            3
        },
        179 => {
            assert(timezone_entry(45).1 == iana_entry(179).1);
            45
        },
        180 => {
            assert(timezone_entry(45).1 == iana_entry(180).1);
            45
        },
        181 => {
            assert(timezone_entry(45).1 == iana_entry(181).1);
            45
        },
        182 => {
            assert(timezone_entry(45).1 == iana_entry(182).1);
            45
        },
        _ => {
            assert(false);
            0
        },
    }
}

proof fn lemma_lookup_is_an_entry(t: Seq<(Seq<char>, Seq<char>)>, iana: Seq<char>)
    ensures
        iana_lookup(t, iana) matches Some(id) ==> exists|i: int| 0 <= i < t.len() && (#[trigger] t[i]).1 == id,
    decreases t.len(),
{
    if t.len() > 0 && t[0].0 != iana {
        lemma_lookup_is_an_entry(t.drop_first(), iana);
        if let Some(id) = iana_lookup(t, iana) {
            let i = choose|i: int| 0 <= i < t.drop_first().len() && (#[trigger] t.drop_first()[i]).1 == id;
            assert(t[i + 1] == t.drop_first()[i]);
        }
    }
}

/// Every Microsoft ID that [`from_iana`] gives is an ID of the time-zone
/// catalogue behind [`ids`] and [`labels`], so it always pairs with a label
/// in the picker.
pub proof fn law_iana_ids_are_catalogue_rows(iana: Seq<char>)
    ensures
        iana_lookup(iana_table(), iana) matches Some(id) ==> exists|j: int|
            0 <= j < TIMEZONE_COUNT && (#[trigger] timezone_table()[j]).1 == id,
{
    lemma_lookup_is_an_entry(iana_table(), iana);
    if let Some(id) = iana_lookup(iana_table(), iana) {
        let i = choose|i: int| 0 <= i < iana_table().len() && (#[trigger] iana_table()[i]).1 == id;
        let j = catalogue_row_of(i as usize);
        assert(timezone_table()[j as int].1 == id);
    }
}

/// The host's IANA zone: the trimmed text of `/etc/timezone` when it has
/// any, else what follows `zoneinfo/` in the target of the `/etc/localtime`
/// link, else `UTC`.
pub open spec fn host_iana_spec(timezone_file: Option<Seq<char>>, localtime_link: Option<Seq<char>>) -> Seq<char> {
    let from_file = match timezone_file {
        Some(t) => trim(t),
        None => Seq::empty(),
    };
    if from_file.len() > 0 {
        from_file
    } else {
        match localtime_link {
            Some(l) => match first_occ(l, "zoneinfo/"@, 0) {
                Some(i) => l.subrange(i + 9, l.len() as int),
                None => "UTC"@,
            },
            None => "UTC"@,
        }
    }
}

/// The IANA zone from the contents of `/etc/timezone` and the target of
/// the `/etc/localtime` link (each `None` when unreadable).
pub fn host_iana(timezone_file: Option<&str>, localtime_link: Option<&str>) -> (r: String)
    ensures
        r@ == host_iana_spec(
            match timezone_file {
                Some(t) => Some(t@),
                None => None,
            },
            match localtime_link {
                Some(l) => Some(l@),
                None => None,
            },
        ),
{
    if let Some(t) = timezone_file {
        let line = trim_chars(&chars_of(t));
        if line.len() > 0 {
            return string_from_chars(&line);
        }
    }
    if let Some(l) = localtime_link {
        let v = chars_of(l);
        let marker = chars_of("zoneinfo/");
        proof {
            reveal_strlit("zoneinfo/");
        }
        if let Some(i) = find_from(&v, &marker, 0) {
            proof {
                lemma_first_occ(v@, marker@, 0);
            }
            assert(marker@.len() == 9);
            let n = v.len();
            assert(i + 9 <= n);
            let start = i + 9;
            return string_from_chars(&slice_chars(&v, start, n));
        }
    }
    string_from_chars(&chars_of("UTC"))
}

/// The part of `s` before its first `.`.
pub open spec fn before_dot(s: Seq<char>) -> Seq<char> {
    match first_occ(s, seq!['.'], 0) {
        Some(i) => s.take(i),
        None => s,
    }
}

/// `s` with its first `_` turned into `-`.
pub open spec fn first_underscore_dashed(s: Seq<char>) -> Seq<char> {
    match first_occ(s, seq!['_'], 0) {
        Some(i) => s.update(i, '-'),
        None => s,
    }
}

/// The host's locale as a BCP-47 tag, from the values of `LC_ALL`, `LANG`
/// and `LANGUAGE` in that order: the first whose part before any `.`,
/// trimmed, is neither empty nor `C` nor `POSIX`, with its first `_` made a
/// `-`; `en-US` when there is none.
pub open spec fn host_locale_spec(values: Seq<Option<Seq<char>>>) -> Seq<char>
    decreases values.len(),
{
    if values.len() == 0 {
        "en-US"@
    } else {
        let rest = host_locale_spec(values.drop_first());
        match values[0] {
            Some(raw) => {
                let t = trim(before_dot(raw));
                if t.len() > 0 && t != "C"@ && t != "POSIX"@ {
                    first_underscore_dashed(t)
                } else {
                    rest
                }
            },
            None => rest,
        }
    }
}

/// The characters of optional strings.
pub open spec fn opt_strs(values: Seq<Option<String>>) -> Seq<Option<Seq<char>>> {
    Seq::new(
        values.len(),
        |i: int|
            match values[i] {
                Some(s) => Some(s@),
                None => None,
            },
    )
}

fn before_dot_chars(v: &Vec<char>) -> (r: Vec<char>)
    ensures
        r@ == before_dot(v@),
{
    let dot: Vec<char> = vec!['.'];
    assert(dot@ =~= seq!['.']);
    match find_from(v, &dot, 0) {
        Some(i) => {
            proof {
                lemma_first_occ(v@, seq!['.'], 0);
            }
            slice_chars(v, 0, i)
        },
        None => slice_chars(v, 0, v.len()),
    }
}

/// The host's locale from the values of `LC_ALL`, `LANG` and `LANGUAGE`
/// (`None` for an unset or non-Unicode variable).
pub fn host_locale(values: &[Option<String>]) -> (r: String)
    ensures
        r@ == host_locale_spec(opt_strs(values@)),
{
    let ghost vs = opt_strs(values@);
    let mut k: usize = 0;
    assert(vs.skip(0) =~= vs);
    while k < values.len()
        invariant
            k <= values@.len(),
            vs == opt_strs(values@),
            host_locale_spec(vs) == host_locale_spec(vs.skip(k as int)),
        decreases values@.len() - k,
    {
        assert(vs.skip(k as int)[0] == vs[k as int]);
        assert(vs.skip(k as int).drop_first() =~= vs.skip(k + 1));
        if let Some(raw) = &values[k] {
            let v = chars_of(raw.as_str());
            let t = trim_chars(&before_dot_chars(&v));
            if t.len() > 0 && !chars_eq(&t, &chars_of("C")) && !chars_eq(&t, &chars_of("POSIX")) {
                let mut out = t.clone();
                let under: Vec<char> = vec!['_'];
                assert(under@ =~= seq!['_']);
                match find_from(&t, &under, 0) {
                    Some(i) => {
                        proof {
                            lemma_first_occ(t@, seq!['_'], 0);
                        }
                        out.set(i, '-');
                    },
                    None => {},
                }
                assert(out@ =~= first_underscore_dashed(t@));
                return string_from_chars(&out);
            }
        }
        k += 1;
    }
    assert(vs.skip(k as int) =~= Seq::<Option<Seq<char>>>::empty());
    string_from_chars(&chars_of("en-US"))
}

} // verus!
