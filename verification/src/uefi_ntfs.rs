//! Structural validation of the UEFI:NTFS bootloader image.
//!
//! The image is a fixed-size 1 MiB FAT boot image fetched at runtime. Its
//! content tracks an upstream branch, so a pinned hash would go stale;
//! callers validate its *structure* instead: the exact size, a sane jump
//! instruction at offset 0, and the boot-sector signature.
use crate::text::{append_chars, append_str, chars_of, decimal, decimal_chars, string_from_chars};
use vstd::prelude::*;

verus! {

/// The exact size of the UEFI:NTFS image, in bytes (a 1 MiB FAT image).
pub const UEFI_NTFS_IMG_SIZE: u64 = 1048576;

/// The lower-case hexadecimal digit for `d` (`d < 16`).
pub open spec fn hex_digit(d: nat) -> char {
    if d < 10 {
        (d + 48) as char
    } else {
        (d + 87) as char
    }
}

/// A byte as `{:#04x}` prints it: `0x` and two lower-case hex digits.
pub open spec fn byte_hex(b: u8) -> Seq<char> {
    seq!['0', 'x', hex_digit((b / 16) as nat), hex_digit((b % 16) as nat)]
}

/// The message for an image of the wrong size.
pub open spec fn wrong_size_message(len: nat) -> Seq<char> {
    "expected a 1048576-byte image, got "@ + decimal(len)
        + " bytes (truncated or corrupt download?)"@
}

/// The message for an image that does not start with a jump.
pub open spec fn bad_jump_message(b: u8) -> Seq<char> {
    "not a FAT boot image: byte 0 is "@ + byte_hex(b) + ", expected a 0xEB/0xE9 jump"@
}

/// The message for an image without the boot-sector signature.
pub open spec fn bad_signature_message(a: u8, b: u8) -> Seq<char> {
    "missing 0x55AA boot-sector signature (found "@ + byte_hex(a) + " "@ + byte_hex(b) + ")"@
}

/// The outcome of validating `bytes`: the message of the first failed check,
/// or `None` when every check passes.
pub open spec fn uefi_ntfs_problem(bytes: Seq<u8>) -> Option<Seq<char>> {
    if bytes.len() != UEFI_NTFS_IMG_SIZE {
        Some(wrong_size_message(bytes.len()))
    } else if bytes[0] != 0xEB && bytes[0] != 0xE9 {
        Some(bad_jump_message(bytes[0]))
    } else if bytes[510] != 0x55 || bytes[511] != 0xAA {
        Some(bad_signature_message(bytes[510], bytes[511]))
    } else {
        None
    }
}

fn hex_digit_char(d: u8) -> (c: char)
    requires
        d < 16,
    ensures
        c == hex_digit(d as nat),
{
    if d < 10 {
        (d + 48) as char
    } else {
        (d + 87) as char
    }
}

fn push_byte_hex(out: &mut Vec<char>, b: u8)
    ensures
        final(out)@ == old(out)@ + byte_hex(b),
{
    out.push('0');
    out.push('x');
    out.push(hex_digit_char(b / 16));
    out.push(hex_digit_char(b % 16));
}

/// Validate that `bytes` is a structurally-sound UEFI:NTFS image.
///
/// On failure, returns a human-readable string describing the first failed
/// check, suitable for showing to the user.
pub fn validate_uefi_ntfs(bytes: &[u8]) -> (r: Result<(), String>)
    ensures
        match uefi_ntfs_problem(bytes@) {
            None => r is Ok,
            Some(msg) => r is Err && r->Err_0@ == msg,
        },
{
    if bytes.len() != 1048576 {
        let mut m = chars_of("expected a 1048576-byte image, got ");
        let n = decimal_chars(bytes.len() as u64);
        append_chars(&mut m, &n);
        append_str(&mut m, " bytes (truncated or corrupt download?)");
        return Err(string_from_chars(&m));
    }
    let b0 = bytes[0];
    if b0 != 0xEB && b0 != 0xE9 {
        let mut m = chars_of("not a FAT boot image: byte 0 is ");
        push_byte_hex(&mut m, b0);
        append_str(&mut m, ", expected a 0xEB/0xE9 jump");
        return Err(string_from_chars(&m));
    }
    if bytes[510] != 0x55 || bytes[511] != 0xAA {
        let mut m = chars_of("missing 0x55AA boot-sector signature (found ");
        push_byte_hex(&mut m, bytes[510]);
        append_str(&mut m, " ");
        push_byte_hex(&mut m, bytes[511]);
        append_str(&mut m, ")");
        return Err(string_from_chars(&m));
    }
    Ok(())
}

} // verus!
