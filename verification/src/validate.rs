//! Validation of parameters with a fixed format, before they reach a
//! command.

use vstd::prelude::*;
use vstd::string::*;
use crate::text::{chars_of, is_blank, blank, same_text, uppercase};

verus! {

pub open spec fn is_ascii_letter(c: char) -> bool {
    ('a' <= c <= 'z') || ('A' <= c <= 'Z')
}

/// The letter of a drive written as one ASCII letter, with or without a
/// colon after it.
pub open spec fn drive_letter_of(s: Seq<char>) -> Option<char> {
    if (s.len() == 1 || (s.len() == 2 && s[1] == ':')) && is_ascii_letter(s[0]) {
        Some(s[0])
    } else {
        None
    }
}

pub fn parse_drive_letter(s: &str) -> (r: Option<char>)
    ensures
        r == drive_letter_of(s@),
{
    let v = chars_of(s);
    if v.len() == 1 || (v.len() == 2 && v[1] == ':') {
        let c = v[0];
        if (c >= 'a' && c <= 'z') || (c >= 'A' && c <= 'Z') {
            return Some(c);
        }
    }
    None
}

/// The letter of a drive written as one ASCII letter and a colon.
pub open spec fn mapped_drive_of(s: Seq<char>) -> Option<char> {
    if s.len() == 2 && s[1] == ':' && is_ascii_letter(s[0]) {
        Some(s[0])
    } else {
        None
    }
}

pub fn parse_mapped_drive(s: &str) -> (r: Option<char>)
    ensures
        r == mapped_drive_of(s@),
{
    let v = chars_of(s);
    if v.len() == 2 && v[1] == ':' {
        let c = v[0];
        if (c >= 'a' && c <= 'z') || (c >= 'A' && c <= 'Z') {
            return Some(c);
        }
    }
    None
}

pub const NTFS: &'static str = "NTFS";

pub const FAT32: &'static str = "FAT32";

pub const EXFAT: &'static str = "EXFAT";

pub const REFS: &'static str = "REFS";

/// Whether a name, written in upper case, is that of a supported file
/// system.
pub open spec fn is_supported_file_system(upper: Seq<char>) -> bool {
    upper == NTFS@ || upper == FAT32@ || upper == EXFAT@ || upper == REFS@
}

pub fn supported_file_system(upper: &str) -> (r: bool)
    ensures
        r == is_supported_file_system(upper@),
{
    same_text(upper, NTFS) || same_text(upper, FAT32) || same_text(upper, EXFAT) || same_text(
        upper,
        REFS,
    )
}

/// The name under which a supported file system is handed to the tool:
/// the upper-case form of what was asked for, where that is one of the
/// four supported names.
pub open spec fn file_system_of(s: Seq<char>) -> Option<Seq<char>> {
    if is_supported_file_system(uppercase(s)) {
        Some(uppercase(s))
    } else {
        None
    }
}

pub fn parse_file_system(s: &str) -> (r: Option<String>)
    ensures
        match r {
            Some(name) => file_system_of(s@) == Some(name@),
            None => file_system_of(s@) is None,
        },
{
    let u = s.to_uppercase();
    if supported_file_system(u.as_str()) {
        Some(u)
    } else {
        None
    }
}

/// The characters that end a quoted argument of the command prompt or
/// make it substitute a variable.
pub open spec fn breaks_quoting(c: char) -> bool {
    c == '"' || c == '%'
}

/// Whether a path names a share on a server and can stand between double
/// quotes on a command line: it starts with two backslashes and holds
/// neither a double quote nor a percent sign.
pub open spec fn is_share_path(s: Seq<char>) -> bool {
    &&& s.len() >= 2
    &&& s[0] == '\\'
    &&& s[1] == '\\'
    &&& forall|i: int| 0 <= i < s.len() ==> !breaks_quoting(#[trigger] s[i])
}

pub fn check_share_path(s: &str) -> (r: bool)
    ensures
        r == is_share_path(s@),
{
    let v = chars_of(s);
    if !(v.len() >= 2 && v[0] == '\\' && v[1] == '\\') {
        return false;
    }
    let mut i: usize = 0;
    while i < v.len()
        invariant
            i <= v.len(),
            v@ == s@,
            forall|k: int| 0 <= k < i ==> !breaks_quoting(#[trigger] v@[k]),
        decreases v.len() - i,
    {
        if v[i] == '"' || v[i] == '%' {
            assert(breaks_quoting(v@[i as int]));
            return false;
        }
        i += 1;
    }
    true
}

/// Whether a text names something: it holds more than white space.
pub fn is_named(s: &str) -> (r: bool)
    ensures
        r == !is_blank(s@),
{
    !blank(&chars_of(s))
}

} // verus!
