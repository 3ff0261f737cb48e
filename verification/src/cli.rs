//! The command line of the GUI entry point: `--iso PATH` and `--device PATH`
//! preload the starting state, `--help` asks for usage. Unknown or
//! incomplete flags are tolerated and reported as warnings, which the caller
//! prints.
use crate::text::{chars_eq, chars_of, string_from_chars};
use vstd::prelude::*;

verus! {

/// Resolved startup arguments handed to the controller once the UI is up.
#[derive(Debug, Clone)]
pub struct StartupArgs {
    /// Image to preload.
    pub iso: Option<String>,
    /// Target device to preselect.
    pub device: Option<String>,
}

impl Default for StartupArgs {
    fn default() -> (r: Self)
        ensures
            r.iso is None,
            r.device is None,
    {
        StartupArgs { iso: None, device: None }
    }
}

/// Result of parsing `argv[1..]`.
#[derive(Debug, Clone)]
pub enum Parsed {
    /// `--help` / `-h` was given; the program prints usage and exits.
    Help,
    /// Anything else (possibly with no flags at all).
    Args(StartupArgs),
}

/// Parse `args` from index `i` on, given the state so far (whether help was
/// asked for, the image and device paths so far, the warnings so far):
/// `-h`/`--help` stops with help; `-i`/`--iso` and `--device` take the next
/// argument as their path (a later flag overrides an earlier one), or warn
/// when there is none; anything else is warned about and skipped.
pub open spec fn parse_from(
    args: Seq<Seq<char>>,
    i: int,
    st: (bool, Option<Seq<char>>, Option<Seq<char>>, Seq<Seq<char>>),
) -> (bool, Option<Seq<char>>, Option<Seq<char>>, Seq<Seq<char>>)
    decreases args.len() - i,
{
    if i < 0 || i >= args.len() {
        st
    } else {
        let a = args[i];
        if a == "-h"@ || a == "--help"@ {
            (true, st.1, st.2, st.3)
        } else if a == "-i"@ || a == "--iso"@ {
            if i + 1 < args.len() {
                parse_from(args, i + 2, (st.0, Some(args[i + 1]), st.2, st.3))
            } else {
                parse_from(args, i + 1, (st.0, st.1, st.2, st.3.push("usbooty: --iso requires a path argument"@)))
            }
        } else if a == "--device"@ {
            if i + 1 < args.len() {
                parse_from(args, i + 2, (st.0, st.1, Some(args[i + 1]), st.3))
            } else {
                parse_from(
                    args,
                    i + 1,
                    (st.0, st.1, st.2, st.3.push("usbooty: --device requires a path argument"@)),
                )
            }
        } else {
            parse_from(args, i + 1, (st.0, st.1, st.2, st.3.push("usbooty: unrecognized argument: "@ + a)))
        }
    }
}

/// The characters of the arguments.
pub open spec fn args_view(args: Seq<String>) -> Seq<Seq<char>> {
    Seq::new(args.len(), |i: int| args[i]@)
}

/// The characters of an optional string.
pub open spec fn opt_view(o: Option<String>) -> Option<Seq<char>> {
    match o {
        Some(s) => Some(s@),
        None => None,
    }
}

/// The outcome of parsing all of `args`.
pub open spec fn parse_spec(args: Seq<String>) -> (bool, Option<Seq<char>>, Option<Seq<char>>, Seq<Seq<char>>) {
    parse_from(args_view(args), 0, (false, None, None, Seq::empty()))
}

fn is_flag(a: &Vec<char>, s: &str) -> (r: bool)
    ensures
        r == (a@ == s@),
{
    let f = chars_of(s);
    chars_eq(a, &f)
}

/// Parse a flat slice of arguments (typically `argv[1..]`). Returns the
/// result and the warnings to print, in order.
pub fn parse(args: &[String]) -> (r: (Parsed, Vec<String>))
    ensures
        ({
            let p = parse_spec(args@);
            &&& r.1@.len() == p.3.len()
            &&& forall|k: int| 0 <= k < r.1@.len() ==> (#[trigger] r.1@[k])@ == p.3[k]
            &&& p.0 ==> r.0 is Help
            &&& !p.0 ==> (r.0 matches Parsed::Args(sa) && opt_view(sa.iso) == p.1 && opt_view(sa.device) == p.2)
        }),
{
    let ghost av = args_view(args@);
    let mut iso: Option<String> = None;
    let mut device: Option<String> = None;
    let mut warnings: Vec<String> = Vec::new();
    let mut i: usize = 0;
    assert(Seq::new(warnings@.len(), |k: int| warnings@[k]@) =~= Seq::<Seq<char>>::empty());
    while i < args.len()
        invariant
            i <= args@.len() + 1,
            av == args_view(args@),
            parse_spec(args@) == parse_from(
                av,
                i as int,
                (false, opt_view(iso), opt_view(device), Seq::new(warnings@.len(), |k: int| warnings@[k]@)),
            ),
        decreases args@.len() + 1 - i,
    {
        let ghost w0 = Seq::new(warnings@.len(), |k: int| warnings@[k]@);
        let a = chars_of(args[i].as_str());
        assert(av[i as int] == a@);
        if is_flag(&a, "-h") || is_flag(&a, "--help") {
            let out = Parsed::Help;
            return (out, warnings);
        }
        if is_flag(&a, "-i") || is_flag(&a, "--iso") {
            if i + 1 < args.len() {
                iso = Some(args[i + 1].clone());
                i = i + 2;
                continue;
            }
            warnings.push(string_from_chars(&chars_of("usbooty: --iso requires a path argument")));
        } else if is_flag(&a, "--device") {
            if i + 1 < args.len() {
                device = Some(args[i + 1].clone());
                i = i + 2;
                continue;
            }
            warnings.push(string_from_chars(&chars_of("usbooty: --device requires a path argument")));
        } else {
            let mut msg = chars_of("usbooty: unrecognized argument: ");
            crate::text::append_chars(&mut msg, &a);
            warnings.push(string_from_chars(&msg));
        }
        assert(Seq::new(warnings@.len(), |k: int| warnings@[k]@) =~= w0.push(warnings@.last()@));
        i += 1;
    }
    (Parsed::Args(StartupArgs { iso, device }), warnings)
}

/// Copies startup arguments.
fn copy_args(a: &StartupArgs) -> (r: StartupArgs)
    ensures
        opt_view(r.iso) == opt_view(a.iso),
        opt_view(r.device) == opt_view(a.device),
{
    let iso = match &a.iso {
        Some(s) => Some(s.clone()),
        None => None,
    };
    let device = match &a.device {
        Some(s) => Some(s.clone()),
        None => None,
    };
    StartupArgs { iso, device }
}

/// The place the parsed arguments wait in until the controller reads them:
/// it is filled once, and the first arguments stored are the ones kept.
pub struct StartupSlot {
    args: Option<StartupArgs>,
}

impl StartupSlot {
    /// The arguments stored, if any.
    pub closed spec fn stored(&self) -> Option<StartupArgs> {
        self.args
    }

    /// An empty slot.
    pub fn new() -> (r: Self)
        ensures
            r.stored() is None,
    {
        StartupSlot { args: None }
    }

    /// Store parsed arguments; a slot that already holds some keeps them.
    pub fn install(&mut self, args: StartupArgs)
        ensures
            old(self).stored() is None ==> final(self).stored() == Some(args),
            old(self).stored() is Some ==> final(self).stored() == old(self).stored(),
    {
        if self.args.is_none() {
            self.args = Some(args);
        }
    }

    /// A copy of the stored arguments, if any.
    pub fn take(&self) -> (r: Option<StartupArgs>)
        ensures
            match self.stored() {
                Some(a) => r matches Some(b) && opt_view(b.iso) == opt_view(a.iso) && opt_view(b.device)
                    == opt_view(a.device),
                None => r is None,
            },
    {
        match &self.args {
            Some(a) => Some(copy_args(a)),
            None => None,
        }
    }
}

} // verus!
