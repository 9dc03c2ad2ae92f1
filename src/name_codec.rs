//! Profile directory names: hex-encoded UTF-8, or already plain text.

use vstd::prelude::*;
use vstd::utf8::{decode_utf8, encode_utf8, encode_utf8_decode_utf8, encode_utf8_valid_utf8, valid_utf8};
use crate::text::{chars_of, string_from_utf8};

verus! {

/// A hexadecimal digit, in either case.
pub open spec fn is_hex_digit(c: char) -> bool {
    ('0' <= c && c <= '9') || ('a' <= c && c <= 'f') || ('A' <= c && c <= 'F')
}

/// The value of a hexadecimal digit.
pub open spec fn hex_val(c: char) -> int {
    if '0' <= c && c <= '9' {
        c as int - '0' as int
    } else if 'a' <= c && c <= 'f' {
        c as int - 'a' as int + 10
    } else {
        c as int - 'A' as int + 10
    }
}

/// An even number of characters, all of them hex digits.
pub open spec fn is_hex_text(s: Seq<char>) -> bool {
    s.len() % 2 == 0 && forall|i: int| 0 <= i < s.len() ==> is_hex_digit(#[trigger] s[i])
}

/// The bytes spelled by consecutive pairs of hex digits.
pub open spec fn hex_bytes(s: Seq<char>) -> Seq<u8> {
    Seq::new((s.len() / 2) as nat, |k: int| (hex_val(s[2 * k]) * 16 + hex_val(s[2 * k + 1])) as u8)
}

/// The display name of a directory name: the text that its hex pairs encode
/// as UTF-8 when they do, the name itself otherwise.
pub open spec fn decoded_name(s: Seq<char>) -> Seq<char> {
    if is_hex_text(s) && valid_utf8(hex_bytes(s)) {
        decode_utf8(hex_bytes(s))
    } else {
        s
    }
}

/// The value of `c` as a hex digit, if it is one.
pub fn hex_digit_value(c: char) -> (r: Option<u8>)
    ensures
        r is Some <==> is_hex_digit(c),
        r is Some ==> r->0 as int == hex_val(c) && r->0 < 16,
{
    if '0' <= c && c <= '9' {
        Some((c as u32 - '0' as u32) as u8)
    } else if 'a' <= c && c <= 'f' {
        Some((c as u32 - 'a' as u32 + 10) as u8)
    } else if 'A' <= c && c <= 'F' {
        Some((c as u32 - 'A' as u32 + 10) as u8)
    } else {
        None
    }
}

/// Turns an on-disk profile directory name into its display name; never fails,
/// falling back to the name as given.
pub fn decode_hex_name(os: &str) -> (r: String)
    ensures
        r@ == decoded_name(os@),
{
    let cs = chars_of(os);
    let n = cs.len();
    if n % 2 != 0 {
        return os.to_owned();
    }
    let mut bytes: Vec<u8> = Vec::new();
    let mut i: usize = 0;
    while i < n
        invariant
            n == cs@.len(),
            cs@ == os@,
            n % 2 == 0,
            i % 2 == 0,
            i <= n,
            bytes@.len() == i / 2,
            forall|j: int| 0 <= j < i ==> is_hex_digit(#[trigger] cs@[j]),
            forall|k: int|
                0 <= k < i / 2 ==> #[trigger] bytes@[k] == (hex_val(cs@[2 * k]) * 16 + hex_val(
                    cs@[2 * k + 1],
                )) as u8,
        decreases n - i,
    {
        let hi = hex_digit_value(cs[i]);
        let lo = hex_digit_value(cs[i + 1]);
        match (hi, lo) {
            (Some(h), Some(l)) => {
                bytes.push(h * 16 + l);
            },
            _ => {
                proof {
                    assert(!is_hex_text(os@)) by {
                        if !is_hex_digit(cs@[i as int]) {
                        } else {
                            assert(!is_hex_digit(cs@[i + 1]));
                        }
                    }
                }
                return os.to_owned();
            },
        }
        i += 2;
    }
    proof {
        assert(is_hex_text(os@));
        assert(bytes@ =~= hex_bytes(os@));
    }
    match string_from_utf8(bytes) {
        Some(s) => {
            proof {
                encode_utf8_decode_utf8(s@);
            }
            s
        },
        None => os.to_owned(),
    }
}

/// Decoding a name made of hex pairs that spell the UTF-8 encoding of a text
/// gives back exactly that text.
pub proof fn decode_recovers_text(name: Seq<char>, text: Seq<char>)
    requires
        is_hex_text(name),
        hex_bytes(name) == encode_utf8(text),
    ensures
        decoded_name(name) == text,
{
    encode_utf8_valid_utf8(text);
    encode_utf8_decode_utf8(text);
}

/// A name of odd length, or one holding a character that is not a hex digit,
/// is its own display name.
pub proof fn decode_keeps_plain_name(name: Seq<char>)
    requires
        name.len() % 2 == 1 || exists|i: int| 0 <= i < name.len() && !is_hex_digit(name[i]),
    ensures
        decoded_name(name) == name,
{
}

/// A profile as listed to the caller: display name and directory path.
pub struct ProfileInfo {
    pub name: String,
    pub path: String,
}

/// Describes the profile directory named `dir_name` found at `dir_path`.
pub fn describe_profile(dir_name: &str, dir_path: String) -> (r: ProfileInfo)
    ensures
        r.name@ == decoded_name(dir_name@),
        r.path == dir_path,
{
    ProfileInfo { name: decode_hex_name(dir_name), path: dir_path }
}

} // verus!
