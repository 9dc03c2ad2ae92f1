//! Reading the plain-text save format.
//!
//! The format is line oriented. A line that carries a field reads, after any
//! indentation, `key[<digits>]: value` for the indexed keys and `level: value`
//! for the level. The value is the rest of the line after the colon and the
//! whitespace that follows it, with trailing whitespace (such as a `\r`)
//! dropped. Each field is read on its own, wherever its lines stand: the
//! level from the first `level:` line alone, skill points verbatim, city and
//! trailer ids only where the whole value is an identifier.

use vstd::prelude::*;
use crate::text::{chars_of, contains, occurs_at, occurs_at_exec, string_from_chars};

verus! {

/// The fields that the reader extracts.
#[derive(Clone, Copy, PartialEq, Eq, Structural)]
pub enum SaveField {
    Level,
    SkillPoints,
    CityDiscovered,
    OwnedTrailer,
}

/// The character classes that the save grammar uses.
#[derive(Clone, Copy, PartialEq, Eq, Structural)]
pub enum CharClass {
    Space,
    Digit,
    Ident,
    Line,
}

/// Unicode `White_Space`.
pub open spec fn is_space(c: char) -> bool {
    ||| c == '\t'
    ||| c == '\n'
    ||| c == '\x0B'
    ||| c == '\x0C'
    ||| c == '\r'
    ||| c == ' '
    ||| c == '\u{85}'
    ||| c == '\u{A0}'
    ||| c == '\u{1680}'
    ||| ('\u{2000}' <= c && c <= '\u{200A}')
    ||| c == '\u{2028}'
    ||| c == '\u{2029}'
    ||| c == '\u{202F}'
    ||| c == '\u{205F}'
    ||| c == '\u{3000}'
}

pub open spec fn is_digit(c: char) -> bool {
    '0' <= c && c <= '9'
}

/// The identifier characters: lower-case ASCII letters, digits, `_` and `.`.
pub open spec fn is_ident_char(c: char) -> bool {
    ('a' <= c && c <= 'z') || is_digit(c) || c == '_' || c == '.'
}

pub open spec fn in_class(c: char, k: CharClass) -> bool {
    match k {
        CharClass::Space => is_space(c),
        CharClass::Digit => is_digit(c),
        CharClass::Ident => is_ident_char(c),
        CharClass::Line => c != '\n',
    }
}

/// The end of the longest run of class `k` that starts at `j`.
pub open spec fn run_end(t: Seq<char>, j: int, k: CharClass) -> int
    decreases t.len() - j,
{
    if 0 <= j < t.len() && in_class(t[j], k) {
        run_end(t, j + 1, k)
    } else {
        j
    }
}

pub open spec fn key(f: SaveField) -> Seq<char> {
    match f {
        SaveField::Level => "level"@,
        SaveField::SkillPoints => "skill_points"@,
        SaveField::CityDiscovered => "city_discovered"@,
        SaveField::OwnedTrailer => "owned_trailer"@,
    }
}

pub open spec fn is_indexed(f: SaveField) -> bool {
    !(f is Level)
}

/// Where the colon must stand when the key of `f` starts at `i`: past the key
/// and, for an indexed key, past `[<digits>]`; -1 when the text at `i` does
/// not start that way.
pub open spec fn colon_pos(t: Seq<char>, i: int, f: SaveField) -> int {
    let p = i + key(f).len();
    if !occurs_at(t, key(f), i) {
        -1
    } else if !is_indexed(f) {
        p
    } else if p < t.len() && t[p] == '[' {
        let d = run_end(t, p + 1, CharClass::Digit);
        if d > p + 1 && d < t.len() && t[d] == ']' {
            d + 1
        } else {
            -1
        }
    } else {
        -1
    }
}

/// Where the colon of a line that carries the key of `f` stands, after the
/// line's indentation; -1 when the line carries no such key.
pub open spec fn key_colon(line: Seq<char>, f: SaveField) -> int {
    let q = colon_pos(line, run_end(line, 0, CharClass::Space), f);
    if 0 <= q < line.len() && line[q] == ':' {
        q
    } else {
        -1
    }
}

/// The end of `line[s..e]` once trailing whitespace is dropped.
pub open spec fn trim_end(line: Seq<char>, s: int, e: int) -> int
    decreases e - s,
{
    if s < e && is_space(line[e - 1]) {
        trim_end(line, s, e - 1)
    } else {
        e
    }
}

/// The value of a line whose colon stands at `q`: the rest of the line after
/// the colon and the whitespace that follows it, trailing whitespace dropped.
pub open spec fn line_value(line: Seq<char>, q: int) -> Seq<char> {
    let s = run_end(line, q + 1, CharClass::Space);
    line.subrange(s, trim_end(line, s, line.len() as int))
}

/// A non-empty value made of identifier characters alone.
pub open spec fn is_ident(v: Seq<char>) -> bool {
    v.len() > 0 && forall|k: int| 0 <= k < v.len() ==> is_ident_char(#[trigger] v[k])
}

/// Whether field `f` keeps value `v`: ids only when they are identifiers,
/// the other fields always.
pub open spec fn accepts(v: Seq<char>, f: SaveField) -> bool {
    match f {
        SaveField::CityDiscovered | SaveField::OwnedTrailer => is_ident(v),
        _ => true,
    }
}

/// The value that `line` gives to field `f`, if it carries the key of `f`
/// and the field keeps the value.
pub open spec fn line_field(line: Seq<char>, f: SaveField) -> Option<Seq<char>> {
    let q = key_colon(line, f);
    if q >= 0 && accepts(line_value(line, q), f) {
        Some(line_value(line, q))
    } else {
        None
    }
}

/// The values that field `f` keeps, in line order, from the lines of `t`
/// that start at `i` and after.
pub open spec fn scan(t: Seq<char>, i: int, f: SaveField) -> Seq<Seq<char>>
    decreases t.len() - i,
    via scan_decreases
{
    if 0 <= i <= t.len() {
        let e = run_end(t, i, CharClass::Line);
        let here = match line_field(t.subrange(i, e), f) {
            Some(v) => seq![v],
            None => seq![],
        };
        if e < t.len() {
            here + scan(t, e + 1, f)
        } else {
            here
        }
    } else {
        seq![]
    }
}

#[via_fn]
proof fn scan_decreases(t: Seq<char>, i: int, f: SaveField) {
    if 0 <= i <= t.len() {
        lemma_run_end(t, i, CharClass::Line);
    }
}

pub proof fn lemma_run_end(t: Seq<char>, j: int, k: CharClass)
    requires
        0 <= j <= t.len(),
    ensures
        j <= run_end(t, j, k) <= t.len(),
        forall|m: int| j <= m < run_end(t, j, k) ==> in_class(#[trigger] t[m], k),
        run_end(t, j, k) < t.len() ==> !in_class(t[run_end(t, j, k)], k),
    decreases t.len() - j,
{
    if j < t.len() && in_class(t[j], k) {
        lemma_run_end(t, j + 1, k);
    }
}

/// The value of a run of decimal digits.
pub open spec fn digits_value(s: Seq<char>) -> nat
    decreases s.len(),
{
    if s.len() == 0 {
        0
    } else {
        digits_value(s.drop_last()) * 10 + (s.last() as int - '0' as int) as nat
    }
}

/// A non-empty run of decimal digits.
pub open spec fn is_number(v: Seq<char>) -> bool {
    v.len() > 0 && forall|k: int| 0 <= k < v.len() ==> is_digit(#[trigger] v[k])
}

/// The level: the value of the first `level:` line read as a `u32` of at
/// least 1; 1 when there is no such line or its value is not such a number.
pub open spec fn level_of(t: Seq<char>) -> u32 {
    let vs = scan(t, 0, SaveField::Level);
    if vs.len() > 0 && is_number(vs[0]) && 1 <= digits_value(vs[0]) <= u32::MAX {
        digits_value(vs[0]) as u32
    } else {
        1
    }
}

/// What the reader extracts from a save text, before assembly.
pub struct SaveFields {
    pub level: u32,
    pub skills: Vec<String>,
    pub discovered_cities: Vec<String>,
    pub owned_trailers: Vec<String>,
}

/// `r` holds exactly what the reading rules extract from `t`.
pub open spec fn fields_of(r: SaveFields, t: Seq<char>) -> bool {
    &&& r.level == level_of(t)
    &&& r.skills.deep_view() == scan(t, 0, SaveField::SkillPoints)
    &&& r.discovered_cities.deep_view() == scan(t, 0, SaveField::CityDiscovered)
    &&& r.owned_trailers.deep_view() == scan(t, 0, SaveField::OwnedTrailer)
}

pub fn key_chars(f: SaveField) -> (r: Vec<char>)
    ensures
        r@ == key(f),
{
    match f {
        SaveField::Level => chars_of("level"),
        SaveField::SkillPoints => chars_of("skill_points"),
        SaveField::CityDiscovered => chars_of("city_discovered"),
        SaveField::OwnedTrailer => chars_of("owned_trailer"),
    }
}

pub fn in_class_exec(c: char, k: CharClass) -> (r: bool)
    ensures
        r == in_class(c, k),
{
    match k {
        CharClass::Space => {
            c == '\t' || c == '\n' || c == '\x0B' || c == '\x0C' || c == '\r' || c == ' ' || c
                == '\u{85}' || c == '\u{A0}' || c == '\u{1680}' || ('\u{2000}' <= c && c
                <= '\u{200A}') || c == '\u{2028}' || c == '\u{2029}' || c == '\u{202F}' || c
                == '\u{205F}' || c == '\u{3000}'
        },
        CharClass::Digit => '0' <= c && c <= '9',
        CharClass::Ident => ('a' <= c && c <= 'z') || ('0' <= c && c <= '9') || c == '_' || c
            == '.',
        CharClass::Line => c != '\n',
    }
}

pub fn run_end_exec(t: &Vec<char>, j: usize, k: CharClass) -> (r: usize)
    requires
        j <= t.len(),
    ensures
        r == run_end(t@, j as int, k),
        j <= r <= t.len(),
{
    let mut m = j;
    while m < t.len() && in_class_exec(t[m], k)
        invariant
            j <= m <= t.len(),
            run_end(t@, m as int, k) == run_end(t@, j as int, k),
        decreases t.len() - m,
    {
        m += 1;
    }
    m
}

/// Where the colon must stand when the key of `f` starts at `a`, if the text
/// at `a` starts that way.
pub fn colon_pos_exec(line: &Vec<char>, key: &Vec<char>, a: usize, f: SaveField) -> (r: Option<
    usize,
>)
    requires
        key@ == crate::save_parser::key(f),
        a <= line.len(),
    ensures
        match r {
            Some(q) => colon_pos(line@, a as int, f) == q as int,
            None => colon_pos(line@, a as int, f) == -1,
        },
{
    if !occurs_at_exec(line, key, a) {
        return None;
    }
    let p = a + key.len();
    match f {
        SaveField::Level => Some(p),
        _ => {
            if p < line.len() && line[p] == '[' {
                let d = run_end_exec(line, p + 1, CharClass::Digit);
                if d > p + 1 && d < line.len() && line[d] == ']' {
                    Some(d + 1)
                } else {
                    None
                }
            } else {
                None
            }
        },
    }
}

pub fn trim_end_exec(line: &Vec<char>, s: usize) -> (r: usize)
    requires
        s <= line.len(),
    ensures
        r == trim_end(line@, s as int, line.len() as int),
        s <= r <= line.len(),
{
    let mut e = line.len();
    while e > s && in_class_exec(line[e - 1], CharClass::Space)
        invariant
            s <= e <= line.len(),
            trim_end(line@, s as int, e as int) == trim_end(line@, s as int, line.len() as int),
        decreases e - s,
    {
        e -= 1;
    }
    e
}

/// Whether every character of `v` is of class `k`.
pub fn all_in_class(v: &Vec<char>, k: CharClass) -> (r: bool)
    ensures
        r == forall|j: int| 0 <= j < v@.len() ==> in_class(#[trigger] v@[j], k),
{
    let mut j: usize = 0;
    while j < v.len()
        invariant
            j <= v.len(),
            forall|m: int| 0 <= m < j ==> in_class(#[trigger] v@[m], k),
        decreases v.len() - j,
    {
        if !in_class_exec(v[j], k) {
            return false;
        }
        j += 1;
    }
    true
}

pub fn accepts_exec(v: &Vec<char>, f: SaveField) -> (r: bool)
    ensures
        r == accepts(v@, f),
{
    match f {
        SaveField::CityDiscovered | SaveField::OwnedTrailer => v.len() > 0 && all_in_class(
            v,
            CharClass::Ident,
        ),
        _ => true,
    }
}

/// The value that `line` gives to field `f`, if any.
pub fn line_field_exec(line: &Vec<char>, key: &Vec<char>, f: SaveField) -> (r: Option<Vec<char>>)
    requires
        key@ == crate::save_parser::key(f),
    ensures
        match r {
            Some(v) => line_field(line@, f) == Some(v@),
            None => line_field(line@, f) is None,
        },
{
    let a = run_end_exec(line, 0, CharClass::Space);
    match colon_pos_exec(line, key, a, f) {
        Some(q) => {
            if q < line.len() && line[q] == ':' {
                let s = run_end_exec(line, q + 1, CharClass::Space);
                let e = trim_end_exec(line, s);
                let v = slice_chars(line, s, e);
                if accepts_exec(&v, f) {
                    Some(v)
                } else {
                    None
                }
            } else {
                None
            }
        },
        None => None,
    }
}

/// The characters of `t` from `s` to `e`.
pub fn slice_chars(t: &Vec<char>, s: usize, e: usize) -> (r: Vec<char>)
    requires
        s <= e <= t.len(),
    ensures
        r@ == t@.subrange(s as int, e as int),
{
    let mut out: Vec<char> = Vec::new();
    let mut m = s;
    while m < e
        invariant
            s <= m <= e <= t.len(),
            out@ == t@.subrange(s as int, m as int),
        decreases e - m,
    {
        out.push(t[m]);
        m += 1;
        proof {
            assert(out@ =~= t@.subrange(s as int, m as int));
        }
    }
    out
}

/// The values that field `f` keeps from the lines of `t`, in line order.
pub fn scrape(t: &Vec<char>, f: SaveField) -> (r: Vec<String>)
    ensures
        r.deep_view() == scan(t@, 0, f),
{
    let key = key_chars(f);
    let mut out: Vec<String> = Vec::new();
    let mut i: usize = 0;
    let mut done = false;
    proof {
        assert(out.deep_view() + scan(t@, 0, f) =~= scan(t@, 0, f));
    }
    while !done
        invariant
            i <= t.len(),
            key@ == crate::save_parser::key(f),
            !done ==> out.deep_view() + scan(t@, i as int, f) == scan(t@, 0, f),
            done ==> out.deep_view() == scan(t@, 0, f),
        decreases t.len() - i + (if done { 0int } else { 1int }),
    {
        let e = run_end_exec(t, i, CharClass::Line);
        let line = slice_chars(t, i, e);
        let ghost before = out.deep_view();
        let ghost here = match line_field(t@.subrange(i as int, e as int), f) {
            Some(v) => seq![v],
            None => Seq::<Seq<char>>::empty(),
        };
        match line_field_exec(&line, &key, f) {
            Some(v) => {
                out.push(string_from_chars(v));
            },
            None => {},
        }
        proof {
            assert(out.deep_view() =~= before + here);
        }
        if e < t.len() {
            proof {
                assert(out.deep_view() + scan(t@, e + 1, f) =~= before + scan(t@, i as int, f));
            }
            i = e + 1;
        } else {
            done = true;
        }
    }
    out
}

/// Reads a run of decimal digits as a `u32`; `None` when it does not fit.
pub fn parse_decimal(cs: &Vec<char>) -> (r: Option<u32>)
    requires
        forall|j: int| 0 <= j < cs@.len() ==> is_digit(#[trigger] cs@[j]),
    ensures
        digits_value(cs@) <= u32::MAX ==> r == Some(digits_value(cs@) as u32),
        digits_value(cs@) > u32::MAX ==> r is None,
{
    let mut acc: u32 = 0;
    let mut over = false;
    let mut m: usize = 0;
    while m < cs.len()
        invariant
            m <= cs.len(),
            forall|j: int| 0 <= j < cs@.len() ==> is_digit(#[trigger] cs@[j]),
            !over ==> acc == digits_value(cs@.take(m as int)),
            over ==> digits_value(cs@.take(m as int)) > u32::MAX,
        decreases cs.len() - m,
    {
        let d = cs[m] as u32 - '0' as u32;
        proof {
            assert(cs@.take(m + 1).drop_last() =~= cs@.take(m as int));
            assert(is_digit(cs@[m as int]));
        }
        if !over {
            let v: u64 = acc as u64 * 10 + d as u64;
            if v > u32::MAX as u64 {
                over = true;
            } else {
                acc = v as u32;
            }
        }
        m += 1;
    }
    proof {
        assert(cs@.take(m as int) =~= cs@);
    }
    if over {
        None
    } else {
        Some(acc)
    }
}

/// Extracts the level, skill points, discovered cities and owned trailers
/// from a save text; absent or malformed entries fall back to defaults or
/// are skipped, never an error.
pub fn parse_save(text: &str) -> (r: SaveFields)
    ensures
        fields_of(r, text@),
        r.level >= 1,
{
    let t = chars_of(text);
    let levels = scrape(&t, SaveField::Level);
    let mut level: u32 = 1;
    if levels.len() > 0 {
        let digits = chars_of(levels[0].as_str());
        proof {
            assert(levels.deep_view()[0] == levels@[0]@);
        }
        if digits.len() > 0 && all_in_class(&digits, CharClass::Digit) {
            match parse_decimal(&digits) {
                Some(v) => {
                    if v >= 1 {
                        level = v;
                    }
                },
                None => {},
            }
        }
    }
    SaveFields {
        level,
        skills: scrape(&t, SaveField::SkillPoints),
        discovered_cities: scrape(&t, SaveField::CityDiscovered),
        owned_trailers: scrape(&t, SaveField::OwnedTrailer),
    }
}

/// A text in which `level:` does not occur has level 1.
pub proof fn level_defaults_to_one(t: Seq<char>)
    requires
        !contains(t, "level:"@),
    ensures
        level_of(t) == 1,
{
    lemma_no_level_line(t, 0);
}

proof fn lemma_no_level_line(t: Seq<char>, i: int)
    requires
        0 <= i,
        !contains(t, "level:"@),
    ensures
        scan(t, i, SaveField::Level).len() == 0,
    decreases t.len() - i,
{
    if 0 <= i <= t.len() {
        let e = run_end(t, i, CharClass::Line);
        lemma_run_end(t, i, CharClass::Line);
        let line = t.subrange(i, e);
        if line_field(line, SaveField::Level) is Some {
            reveal_strlit("level");
            reveal_strlit("level:");
            let a = run_end(line, 0, CharClass::Space);
            lemma_run_end(line, 0, CharClass::Space);
            let w = line.subrange(a, a + 5);
            assert(w == "level"@);
            assert(line[a + 5] == ':');
            assert(t.subrange(i + a, i + a + 6) =~= "level:"@) by {
                assert forall|k: int| 0 <= k < 6 implies t[i + a + k] == "level:"@[k] by {
                    if k < 5 {
                        assert(w[k] == line[a + k]);
                    }
                    assert(line[a + k] == t[i + a + k]);
                }
            }
            assert(occurs_at(t, "level:"@, i + a));
        }
        if e < t.len() {
            lemma_no_level_line(t, e + 1);
        }
    }
}

} // verus!
