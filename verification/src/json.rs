//! A small JSON reader, specified character by character.
//!
//! The grammar accepted here is standard JSON with two deliberate
//! relaxations, both stated by the spec functions themselves: unescaped
//! control characters are allowed inside strings, and a number that is merely
//! skipped (not read as a `u64`) is scanned as an unchecked run of
//! number-shaped characters. Escape sequences `\" \\ \/ \b \f \n \r \t` and
//! `\uXXXX` (Unicode scalar values only; surrogates are rejected) are
//! decoded. Every executable function returns exactly what its spec twin
//! denotes.

use vstd::prelude::*;

verus! {

/// JSON insignificant whitespace.
pub open spec fn is_ws(c: char) -> bool {
    c == ' ' || c == '\t' || c == '\n' || c == '\r'
}

/// The first index at or after `i` holding a non-whitespace character (or the
/// end of `s`).
pub open spec fn ws_end(s: Seq<char>, i: int) -> int
    decreases s.len() - i,
{
    if 0 <= i < s.len() && is_ws(s[i]) {
        ws_end(s, i + 1)
    } else {
        i
    }
}

/// The value of a hexadecimal digit character, if `c` is one.
pub open spec fn hex_digit_val(c: char) -> Option<u32> {
    let u = c as u32;
    if 48 <= u <= 57 {
        Some((u - 48) as u32)
    } else if 97 <= u <= 102 {
        Some((u - 87) as u32)
    } else if 65 <= u <= 70 {
        Some((u - 55) as u32)
    } else {
        None
    }
}

/// The character denoted by a single-character escape `\c`, if any.
pub open spec fn simple_escape(c: char) -> Option<char> {
    if c == '"' {
        Some('"')
    } else if c == '\\' {
        Some('\\')
    } else if c == '/' {
        Some('/')
    } else if c == 'b' {
        Some(8u8 as char)
    } else if c == 'f' {
        Some(12u8 as char)
    } else if c == 'n' {
        Some('\n')
    } else if c == 'r' {
        Some('\r')
    } else if c == 't' {
        Some('\t')
    } else {
        None
    }
}

/// Reads the remainder of a string literal. `i` points at the first character
/// after the opening quote. On success, returns the decoded contents and the
/// index just after the closing quote.
pub open spec fn string_rest(s: Seq<char>, i: int) -> Option<(Seq<char>, int)>
    decreases s.len() - i,
{
    if !(0 <= i < s.len()) {
        None
    } else if s[i] == '"' {
        Some((Seq::empty(), i + 1))
    } else if s[i] == '\\' {
        if i + 2 <= s.len() && s[i + 1] == 'u' {
            if i + 6 <= s.len() {
                match (hex_digit_val(s[i + 2]), hex_digit_val(s[i + 3]), hex_digit_val(s[i + 4]),
                hex_digit_val(s[i + 5])) {
                    (Some(a), Some(b), Some(c), Some(d)) => {
                        let cp = (a * 4096 + b * 256 + c * 16 + d) as u32;
                        if vstd::utf8::is_scalar(cp) {
                            match string_rest(s, i + 6) {
                                Some((t, e)) => Some((seq![cp as char] + t, e)),
                                None => None,
                            }
                        } else {
                            None
                        }
                    },
                    _ => None,
                }
            } else {
                None
            }
        } else if i + 2 <= s.len() {
            match simple_escape(s[i + 1]) {
                Some(c) => match string_rest(s, i + 2) {
                    Some((t, e)) => Some((seq![c] + t, e)),
                    None => None,
                },
                None => None,
            }
        } else {
            None
        }
    } else {
        match string_rest(s, i + 1) {
            Some((t, e)) => Some((seq![s[i]] + t, e)),
            None => None,
        }
    }
}

/// The value of a decimal digit character, if `c` is one.
pub open spec fn dec_digit_val(c: char) -> Option<u64> {
    let u = c as u32;
    if 48 <= u <= 57 {
        Some(((u - 48) as u64))
    } else {
        None
    }
}

/// Reads a run of decimal digits into `acc`, failing if the value would
/// exceed `u64::MAX`. Returns the value and the first non-digit index.
pub open spec fn digits_rest(s: Seq<char>, i: int, acc: u64) -> Option<(u64, int)>
    decreases s.len() - i,
{
    if 0 <= i < s.len() && dec_digit_val(s[i]) is Some {
        let d = dec_digit_val(s[i])->0;
        if acc > (u64::MAX - d) / 10 {
            None
        } else {
            digits_rest(s, i + 1, (acc * 10 + d) as u64)
        }
    } else {
        Some((acc, i))
    }
}

/// Reads a JSON number as a `u64`: one or more decimal digits, no sign, no
/// fraction, no exponent. A number too large for `u64` is rejected.
pub open spec fn u64_value(s: Seq<char>, i: int) -> Option<(u64, int)> {
    if 0 <= i < s.len() && dec_digit_val(s[i]) is Some {
        digits_rest(s, i, 0)
    } else {
        None
    }
}

/// A character that may appear in a number being skipped.
pub open spec fn is_num_char(c: char) -> bool {
    dec_digit_val(c) is Some || c == '-' || c == '+' || c == '.' || c == 'e' || c == 'E'
}

/// The first index at or after `i` holding a non-number character.
pub open spec fn num_chars_end(s: Seq<char>, i: int) -> int
    decreases s.len() - i,
{
    if 0 <= i < s.len() && is_num_char(s[i]) {
        num_chars_end(s, i + 1)
    } else {
        i
    }
}

/// Skips one JSON value of any shape starting exactly at `i`, returning the
/// index just after it. The index guards (`j <= s.len()` and strict progress
/// checks) only make termination of this definition evident; they hold of
/// every reachable scan.
pub open spec fn value_end(s: Seq<char>, i: int) -> Option<int>
    decreases s.len() - i, 0int,
{
    if !(0 <= i < s.len()) {
        None
    } else if s[i] == '"' {
        match string_rest(s, i + 1) {
            Some((t, e)) => Some(e),
            None => None,
        }
    } else if s[i] == '{' {
        members_rest(s, i + 1, true)
    } else if s[i] == '[' {
        elements_rest(s, i + 1, true)
    } else if s[i] == 't' {
        if i + 4 <= s.len() && s[i + 1] == 'r' && s[i + 2] == 'u' && s[i + 3] == 'e' {
            Some(i + 4)
        } else {
            None
        }
    } else if s[i] == 'f' {
        if i + 5 <= s.len() && s[i + 1] == 'a' && s[i + 2] == 'l' && s[i + 3] == 's' && s[i + 4]
            == 'e' {
            Some(i + 5)
        } else {
            None
        }
    } else if s[i] == 'n' {
        if i + 4 <= s.len() && s[i + 1] == 'u' && s[i + 2] == 'l' && s[i + 3] == 'l' {
            Some(i + 4)
        } else {
            None
        }
    } else if is_num_char(s[i]) {
        Some(num_chars_end(s, i))
    } else {
        None
    }
}

/// Skips the members of an object. `i` points just after `{` (when `first`)
/// or just after a separating comma. Returns the index just after `}`.
pub open spec fn members_rest(s: Seq<char>, i: int, first: bool) -> Option<int>
    decreases s.len() - i, 1int,
{
    let j = ws_end(s, i);
    if !(i <= j < s.len()) {
        None
    } else if first && s[j] == '}' {
        Some(j + 1)
    } else if s[j] != '"' {
        None
    } else {
        match string_rest(s, j + 1) {
            Some((k, e1)) => {
                let j2 = ws_end(s, e1);
                if j2 < s.len() && s[j2] == ':' {
                    let j3 = ws_end(s, j2 + 1);
                    if i <= j3 <= s.len() {
                        match value_end(s, j3) {
                            Some(e2) => {
                                let j4 = ws_end(s, e2);
                                if j4 < s.len() && s[j4] == ',' {
                                    if i < j4 + 1 {
                                        members_rest(s, j4 + 1, false)
                                    } else {
                                        None
                                    }
                                } else if j4 < s.len() && s[j4] == '}' {
                                    Some(j4 + 1)
                                } else {
                                    None
                                }
                            },
                            None => None,
                        }
                    } else {
                        None
                    }
                } else {
                    None
                }
            },
            None => None,
        }
    }
}

/// Skips the elements of an array. `i` points just after `[` (when `first`)
/// or just after a separating comma. Returns the index just after `]`.
pub open spec fn elements_rest(s: Seq<char>, i: int, first: bool) -> Option<int>
    decreases s.len() - i, 1int,
{
    let j = ws_end(s, i);
    if !(i <= j < s.len()) {
        None
    } else if first && s[j] == ']' {
        Some(j + 1)
    } else {
        match value_end(s, j) {
            Some(e) => {
                let j2 = ws_end(s, e);
                if j2 < s.len() && s[j2] == ',' {
                    if i < j2 + 1 {
                        elements_rest(s, j2 + 1, false)
                    } else {
                        None
                    }
                } else if j2 < s.len() && s[j2] == ']' {
                    Some(j2 + 1)
                } else {
                    None
                }
            },
            None => None,
        }
    }
}

/// Executable twin of [`ws_end`].
pub(crate) fn ws_end_x(s: &str, n: usize, i: usize) -> (r: usize)
    requires
        n == s@.len(),
        i <= n,
    ensures
        r as int == ws_end(s@, i as int),
        i <= r <= n,
    decreases n - i,
{
    if i < n {
        let c = s.get_char(i);
        if c == ' ' || c == '\t' || c == '\n' || c == '\r' {
            return ws_end_x(s, n, i + 1);
        }
    }
    i
}

/// Executable twin of [`hex_digit_val`].
fn hex_digit_val_x(c: char) -> (r: Option<u32>)
    ensures
        r == hex_digit_val(c),
        r matches Some(v) ==> v < 16,
{
    let u = c as u32;
    if 48 <= u && u <= 57 {
        Some(u - 48)
    } else if 97 <= u && u <= 102 {
        Some(u - 87)
    } else if 65 <= u && u <= 70 {
        Some(u - 55)
    } else {
        None
    }
}

/// Executable twin of [`simple_escape`].
fn simple_escape_x(c: char) -> (r: Option<char>)
    ensures
        r == simple_escape(c),
{
    if c == '"' {
        Some('"')
    } else if c == '\\' {
        Some('\\')
    } else if c == '/' {
        Some('/')
    } else if c == 'b' {
        Some(8u8 as char)
    } else if c == 'f' {
        Some(12u8 as char)
    } else if c == 'n' {
        Some('\n')
    } else if c == 'r' {
        Some('\r')
    } else if c == 't' {
        Some('\t')
    } else {
        None
    }
}

/// Executable twin of [`string_rest`].
pub(crate) fn string_rest_x(s: &str, n: usize, i: usize) -> (r: Option<(Vec<char>, usize)>)
    requires
        n == s@.len(),
        i <= n,
    ensures
        (match (r, string_rest(s@, i as int)) {
            (Some((t, e)), Some(p)) => t@ == p.0 && e as int == p.1 && e <= n,
            (None, None) => true,
            _ => false,
        }),
    decreases n - i,
{
    if i >= n {
        return None;
    }
    let c = s.get_char(i);
    if c == '"' {
        let t: Vec<char> = Vec::new();
        proof {
            assert(t@ =~= Seq::<char>::empty());
        }
        Some((t, i + 1))
    } else if c == '\\' {
        if n - i >= 2 && s.get_char(i + 1) == 'u' {
            if n - i >= 6 {
                let h1 = hex_digit_val_x(s.get_char(i + 2));
                let h2 = hex_digit_val_x(s.get_char(i + 3));
                let h3 = hex_digit_val_x(s.get_char(i + 4));
                let h4 = hex_digit_val_x(s.get_char(i + 5));
                match (h1, h2, h3, h4) {
                    (Some(a), Some(b), Some(cc), Some(d)) => {
                        let cp: u32 = a * 4096 + b * 256 + cc * 16 + d;
                        match crate::text::char_from_u32(cp) {
                            Some(ch) => {
                                proof {
                                    vstd::utf8::char_u32_cast(ch, cp);
                                }
                                match string_rest_x(s, n, i + 6) {
                                    Some((mut t, e)) => {
                                        t.insert(0, ch);
                                        proof {
                                            let p = string_rest(s@, (i + 6) as int);
                                            assert(t@ =~= seq![ch] + (p->0).0);
                                        }
                                        Some((t, e))
                                    },
                                    None => None,
                                }
                            },
                            None => None,
                        }
                    },
                    _ => None,
                }
            } else {
                None
            }
        } else if n - i >= 2 {
            match simple_escape_x(s.get_char(i + 1)) {
                Some(ec) => match string_rest_x(s, n, i + 2) {
                    Some((mut t, e)) => {
                        t.insert(0, ec);
                        proof {
                            let p = string_rest(s@, (i + 2) as int);
                            assert(t@ =~= seq![ec] + (p->0).0);
                        }
                        Some((t, e))
                    },
                    None => None,
                },
                None => None,
            }
        } else {
            None
        }
    } else {
        match string_rest_x(s, n, i + 1) {
            Some((mut t, e)) => {
                t.insert(0, c);
                proof {
                    let p = string_rest(s@, (i + 1) as int);
                    assert(t@ =~= seq![c] + (p->0).0);
                }
                Some((t, e))
            },
            None => None,
        }
    }
}

/// Executable twin of [`dec_digit_val`].
fn dec_digit_val_x(c: char) -> (r: Option<u64>)
    ensures
        r == dec_digit_val(c),
        r matches Some(v) ==> v <= 9,
{
    let u = c as u32;
    if 48 <= u && u <= 57 {
        Some((u - 48) as u64)
    } else {
        None
    }
}

/// Executable twin of [`digits_rest`].
fn digits_rest_x(s: &str, n: usize, i: usize, acc: u64) -> (r: Option<(u64, usize)>)
    requires
        n == s@.len(),
        i <= n,
    ensures
        (match (r, digits_rest(s@, i as int, acc)) {
            (Some((x, e)), Some(p)) => x == p.0 && e as int == p.1 && e <= n,
            (None, None) => true,
            _ => false,
        }),
    decreases n - i,
{
    if i < n {
        let c = s.get_char(i);
        match dec_digit_val_x(c) {
            Some(d) => {
                if acc > (u64::MAX - d) / 10 {
                    return None;
                }
                proof {
                    assert(acc * 10 + d <= u64::MAX) by (nonlinear_arith)
                        requires
                            acc <= (u64::MAX - d) / 10,
                            d <= 9,
                    ;
                }
                return digits_rest_x(s, n, i + 1, acc * 10 + d);
            },
            None => {},
        }
    }
    Some((acc, i))
}

/// Executable twin of [`u64_value`].
pub(crate) fn u64_value_x(s: &str, n: usize, i: usize) -> (r: Option<(u64, usize)>)
    requires
        n == s@.len(),
        i <= n,
    ensures
        (match (r, u64_value(s@, i as int)) {
            (Some((x, e)), Some(p)) => x == p.0 && e as int == p.1 && e <= n,
            (None, None) => true,
            _ => false,
        }),
{
    if i < n {
        let c = s.get_char(i);
        if dec_digit_val_x(c).is_some() {
            return digits_rest_x(s, n, i, 0);
        }
    }
    None
}

/// Executable twin of [`num_chars_end`].
fn num_chars_end_x(s: &str, n: usize, i: usize) -> (r: usize)
    requires
        n == s@.len(),
        i <= n,
    ensures
        r as int == num_chars_end(s@, i as int),
        i <= r <= n,
    decreases n - i,
{
    if i < n {
        let c = s.get_char(i);
        if dec_digit_val_x(c).is_some() || c == '-' || c == '+' || c == '.' || c == 'e' || c
            == 'E' {
            return num_chars_end_x(s, n, i + 1);
        }
    }
    i
}

/// Executable twin of [`value_end`].
pub(crate) fn value_end_x(s: &str, n: usize, i: usize) -> (r: Option<usize>)
    requires
        n == s@.len(),
        i <= n,
    ensures
        (match (r, value_end(s@, i as int)) {
            (Some(e), Some(p)) => e as int == p && e <= n,
            (None, None) => true,
            _ => false,
        }),
    decreases n - i, 0int,
{
    if i >= n {
        return None;
    }
    let c = s.get_char(i);
    if c == '"' {
        match string_rest_x(s, n, i + 1) {
            Some((t, e)) => Some(e),
            None => None,
        }
    } else if c == '{' {
        members_rest_x(s, n, i + 1, true)
    } else if c == '[' {
        elements_rest_x(s, n, i + 1, true)
    } else if c == 't' {
        if n - i >= 4 && s.get_char(i + 1) == 'r' && s.get_char(i + 2) == 'u' && s.get_char(i + 3)
            == 'e' {
            Some(i + 4)
        } else {
            None
        }
    } else if c == 'f' {
        if n - i >= 5 && s.get_char(i + 1) == 'a' && s.get_char(i + 2) == 'l' && s.get_char(i + 3)
            == 's' && s.get_char(i + 4) == 'e' {
            Some(i + 5)
        } else {
            None
        }
    } else if c == 'n' {
        if n - i >= 4 && s.get_char(i + 1) == 'u' && s.get_char(i + 2) == 'l' && s.get_char(i + 3)
            == 'l' {
            Some(i + 4)
        } else {
            None
        }
    } else if dec_digit_val_x(c).is_some() || c == '-' || c == '+' || c == '.' || c == 'e' || c
        == 'E' {
        Some(num_chars_end_x(s, n, i))
    } else {
        None
    }
}

/// Executable twin of [`members_rest`].
pub(crate) fn members_rest_x(s: &str, n: usize, i: usize, first: bool) -> (r: Option<usize>)
    requires
        n == s@.len(),
        i <= n,
    ensures
        (match (r, members_rest(s@, i as int, first)) {
            (Some(e), Some(p)) => e as int == p && e <= n,
            (None, None) => true,
            _ => false,
        }),
    decreases n - i, 1int,
{
    let j = ws_end_x(s, n, i);
    if !(j < n) {
        return None;
    }
    let cj = s.get_char(j);
    if first && cj == '}' {
        return Some(j + 1);
    }
    if cj != '"' {
        return None;
    }
    match string_rest_x(s, n, j + 1) {
        Some((k, e1)) => {
            let j2 = ws_end_x(s, n, e1);
            if j2 < n && s.get_char(j2) == ':' {
                let j3 = ws_end_x(s, n, j2 + 1);
                if i <= j3 {
                    match value_end_x(s, n, j3) {
                        Some(e2) => {
                            let j4 = ws_end_x(s, n, e2);
                            if j4 < n && s.get_char(j4) == ',' {
                                if i < j4 + 1 {
                                    members_rest_x(s, n, j4 + 1, false)
                                } else {
                                    None
                                }
                            } else if j4 < n && s.get_char(j4) == '}' {
                                Some(j4 + 1)
                            } else {
                                None
                            }
                        },
                        None => None,
                    }
                } else {
                    None
                }
            } else {
                None
            }
        },
        None => None,
    }
}

/// Executable twin of [`elements_rest`].
pub(crate) fn elements_rest_x(s: &str, n: usize, i: usize, first: bool) -> (r: Option<usize>)
    requires
        n == s@.len(),
        i <= n,
    ensures
        (match (r, elements_rest(s@, i as int, first)) {
            (Some(e), Some(p)) => e as int == p && e <= n,
            (None, None) => true,
            _ => false,
        }),
    decreases n - i, 1int,
{
    let j = ws_end_x(s, n, i);
    if !(j < n) {
        return None;
    }
    let cj = s.get_char(j);
    if first && cj == ']' {
        return Some(j + 1);
    }
    match value_end_x(s, n, j) {
        Some(e) => {
            let j2 = ws_end_x(s, n, e);
            if j2 < n && s.get_char(j2) == ',' {
                if i < j2 + 1 {
                    elements_rest_x(s, n, j2 + 1, false)
                } else {
                    None
                }
            } else if j2 < n && s.get_char(j2) == ']' {
                Some(j2 + 1)
            } else {
                None
            }
        },
        None => None,
    }
}

/// The hexadecimal digit character for `d`, where `0 <= d < 16` (lower
/// case).
pub open spec fn hex_char(d: int) -> char
    recommends
        0 <= d < 16,
{
    if d < 10 {
        ((48 + d) as u8) as char
    } else {
        ((87 + d) as u8) as char
    }
}

/// The JSON escaping of one character: quote and backslash get a two
/// character escape, control characters a `\u00XX` escape, and every other
/// character stands for itself.
pub open spec fn escape_char(c: char) -> Seq<char> {
    if c == '"' {
        seq!['\\', '"']
    } else if c == '\\' {
        seq!['\\', '\\']
    } else if (c as u32) < 32 {
        seq!['\\', 'u', '0', '0', hex_char(c as u32 as int / 16), hex_char(c as u32 as int % 16)]
    } else {
        seq![c]
    }
}

/// The JSON escaping of a whole string body.
pub open spec fn escape_chars(s: Seq<char>) -> Seq<char>
    decreases s.len(),
{
    if s.len() == 0 {
        Seq::empty()
    } else {
        escape_chars(s.drop_last()) + escape_char(s.last())
    }
}

/// Escapes `s` for inclusion in a JSON string literal.
pub fn escape_string(s: &str) -> (r: Vec<char>)
    ensures
        r@ == escape_chars(s@),
{
    let n = s.unicode_len();
    let mut v: Vec<char> = Vec::new();
    let mut i: usize = 0;
    proof {
        assert(s@.subrange(0, 0) =~= Seq::<char>::empty());
    }
    while i < n
        invariant
            i <= n,
            n == s@.len(),
            v@ == escape_chars(s@.subrange(0, i as int)),
        decreases n - i,
    {
        let c = s.get_char(i);
        if c == '"' {
            v.push('\\');
            v.push('"');
        } else if c == '\\' {
            v.push('\\');
            v.push('\\');
        } else if (c as u32) < 32 {
            let u = c as u32;
            let hi = u / 16;
            let lo = u % 16;
            v.push('\\');
            v.push('u');
            v.push('0');
            v.push('0');
            v.push(if hi < 10 { (48 + hi as u8) as char } else { (87 + hi as u8) as char });
            v.push(if lo < 10 { (48 + lo as u8) as char } else { (87 + lo as u8) as char });
        } else {
            v.push(c);
        }
        proof {
            assert(s@.subrange(0, (i + 1) as int).drop_last() =~= s@.subrange(0, i as int));
            assert(s@.subrange(0, (i + 1) as int).last() == s@[i as int]);
            assert(v@ =~= escape_chars(s@.subrange(0, (i + 1) as int)));
        }
        i += 1;
    }
    proof {
        assert(s@.subrange(0, n as int) =~= s@);
    }
    v
}

} // verus!
