//! Decoding the JSON bodies the remote service answers with.
//!
//! Each executable parser mirrors a specification function that defines,
//! character by character, which texts are accepted and what they denote;
//! the `ensures` of every parser states that the two agree exactly.
//! Objects may carry unknown members (they are skipped) and members may
//! repeat (the last occurrence wins); a document with trailing content,
//! a missing member or a member of the wrong shape is rejected, as is a
//! number that does not fit the target width.

use vstd::prelude::*;
use vstd::string::StringExecFns;
use vstd::string::StrSliceExecFns;
use crate::chars::push_char;
use crate::chars::char_from_u32;

verus! {

/// How an executable result with a position stands for a specification
/// result: same verdict, same value (through the view), same position.
pub open spec fn val_rel<T: View>(r: Option<(T, usize)>, sp: Option<(T::V, int)>) -> bool {
    match sp {
        Some((v, j)) => r matches Some((x, k)) && x@ == v && k as int == j,
        None => r is None,
    }
}

/// As `val_rel`, for results that carry a position alone.
pub open spec fn idx_rel(r: Option<usize>, sp: Option<int>) -> bool {
    match sp {
        Some(j) => r matches Some(k) && k as int == j,
        None => r is None,
    }
}

/// As `val_rel`, for whole-document results.
pub open spec fn opt_rel<T: View>(r: Option<T>, sp: Option<T::V>) -> bool {
    match sp {
        Some(v) => r matches Some(x) && x@ == v,
        None => r is None,
    }
}

/// JSON whitespace.
pub open spec fn is_ws(c: char) -> bool {
    c == ' ' || c == '\n' || c == '\r' || c == '\t'
}

/// A decimal digit.
pub open spec fn is_digit(c: char) -> bool {
    48 <= c as u32 && c as u32 <= 57
}

pub open spec fn digit_val(c: char) -> int {
    c as u32 - 48
}

/// The first position at or after `i` that does not hold whitespace.
pub open spec fn spec_skip_ws(s: Seq<char>, i: int) -> int
    decreases s.len() - i,
{
    if 0 <= i && i < s.len() && is_ws(s[i]) {
        spec_skip_ws(s, i + 1)
    } else {
        i
    }
}

pub fn skip_ws(s: &str, i: usize) -> (r: usize)
    requires
        i <= s@.len(),
    ensures
        r as int == spec_skip_ws(s@, i as int),
        i <= r <= s@.len(),
    decreases s@.len() - i,
{
    let n = s.unicode_len();
    if i < n {
        let c = s.get_char(i);
        if c == ' ' || c == '\n' || c == '\r' || c == '\t' {
            skip_ws(s, i + 1)
        } else {
            i
        }
    } else {
        i
    }
}

/// The value of one hexadecimal digit, of either case.
pub open spec fn spec_hex_val(c: char) -> Option<int> {
    let d = c as u32;
    if 48 <= d && d <= 57 {
        Some(d - 48)
    } else if 97 <= d && d <= 102 {
        Some(d - 87)
    } else if 65 <= d && d <= 70 {
        Some(d - 55)
    } else {
        None
    }
}

fn hex_val(c: char) -> (r: Option<u32>)
    ensures
        match spec_hex_val(c) {
            Some(v) => r matches Some(x) && x as int == v && x < 16,
            None => r is None,
        },
{
    let d = c as u32;
    if 48 <= d && d <= 57 {
        Some(d - 48)
    } else if 97 <= d && d <= 102 {
        Some(d - 87)
    } else if 65 <= d && d <= 70 {
        Some(d - 55)
    } else {
        None
    }
}

/// The character a single-letter escape stands for.
pub open spec fn spec_unescape(e: char) -> Option<char> {
    if e == '"' {
        Some('"')
    } else if e == '\\' {
        Some('\\')
    } else if e == '/' {
        Some('/')
    } else if e == 'b' {
        Some('\u{8}')
    } else if e == 'f' {
        Some('\u{c}')
    } else if e == 'n' {
        Some('\n')
    } else if e == 'r' {
        Some('\r')
    } else if e == 't' {
        Some('\t')
    } else {
        None
    }
}

fn unescape_char(e: char) -> (r: Option<char>)
    ensures
        r == spec_unescape(e),
{
    if e == '"' {
        Some('"')
    } else if e == '\\' {
        Some('\\')
    } else if e == '/' {
        Some('/')
    } else if e == 'b' {
        Some('\u{8}')
    } else if e == 'f' {
        Some('\u{c}')
    } else if e == 'n' {
        Some('\n')
    } else if e == 'r' {
        Some('\r')
    } else if e == 't' {
        Some('\t')
    } else {
        None
    }
}

/// The rest of a JSON string literal, entered just after the opening
/// quote: the characters denoted, and the position after the closing
/// quote. Escapes are the named ones and `\u` with four hexadecimal
/// digits naming a Unicode scalar value; raw control characters are
/// rejected.
pub open spec fn spec_parse_string(s: Seq<char>, i: int) -> Option<(Seq<char>, int)>
    decreases s.len() - i,
{
    if !(0 <= i && i < s.len()) {
        None
    } else if s[i] == '"' {
        Some((Seq::empty(), i + 1))
    } else if s[i] == '\\' {
        if i + 2 <= s.len() {
            let e = s[i + 1];
            if e == 'u' {
                if i + 6 <= s.len() {
                    match (spec_hex_val(s[i + 2]), spec_hex_val(s[i + 3]), spec_hex_val(s[i + 4]),
                    spec_hex_val(s[i + 5])) {
                        (Some(h0), Some(h1), Some(h2), Some(h3)) => {
                            let v = h0 * 4096 + h1 * 256 + h2 * 16 + h3;
                            if v < 0xD800 || 0xE000 <= v {
                                match spec_parse_string(s, i + 6) {
                                    Some((t, j)) => Some((seq![(v as u32) as char] + t, j)),
                                    None => None,
                                }
                            } else {
                                None
                            }
                        },
                        _ => None,
                    }
                } else {
                    None
                }
            } else {
                match spec_unescape(e) {
                    Some(c) => match spec_parse_string(s, i + 2) {
                        Some((t, j)) => Some((seq![c] + t, j)),
                        None => None,
                    },
                    None => None,
                }
            }
        } else {
            None
        }
    } else if (s[i] as u32) < 32 {
        None
    } else {
        match spec_parse_string(s, i + 1) {
            Some((t, j)) => Some((seq![s[i]] + t, j)),
            None => None,
        }
    }
}

fn prepend_char(c: char, t: String) -> (r: String)
    ensures
        r@ == seq![c] + t@,
{
    let mut out = String::new();
    push_char(&mut out, c);
    out.append(t.as_str());
    proof {
        assert(Seq::<char>::empty().push(c) + t@ =~= seq![c] + t@);
    }
    out
}

pub fn parse_string_body(s: &str, i: usize) -> (r: Option<(String, usize)>)
    requires
        i <= s@.len(),
    ensures
        val_rel(r, spec_parse_string(s@, i as int)),
        r matches Some(p) ==> i < p.1 <= s@.len(),
    decreases s@.len() - i,
{
    let n = s.unicode_len();
    if i >= n {
        None
    } else {
        let c = s.get_char(i);
        if c == '"' {
            Some((String::new(), i + 1))
        } else if c == '\\' {
            if n - i >= 2 {
                let e = s.get_char(i + 1);
                if e == 'u' {
                    if n - i >= 6 {
                        let h0 = hex_val(s.get_char(i + 2));
                        let h1 = hex_val(s.get_char(i + 3));
                        let h2 = hex_val(s.get_char(i + 4));
                        let h3 = hex_val(s.get_char(i + 5));
                        match (h0, h1, h2, h3) {
                            (Some(a0), Some(a1), Some(a2), Some(a3)) => {
                                let v: u32 = a0 * 4096 + a1 * 256 + a2 * 16 + a3;
                                if v < 0xD800 || 0xE000 <= v {
                                    match char_from_u32(v) {
                                        Some(ch) => {
                                            proof {
                                                vstd::utf8::char_u32_cast(ch, v);
                                            }
                                            match parse_string_body(s, i + 6) {
                                                Some((t, j)) => Some((prepend_char(ch, t), j)),
                                                None => None,
                                            }
                                        },
                                        None => {
                                            proof {
                                                assert(false);
                                            }
                                            None
                                        },
                                    }
                                } else {
                                    None
                                }
                            },
                            _ => None,
                        }
                    } else {
                        None
                    }
                } else {
                    match unescape_char(e) {
                        Some(u) => match parse_string_body(s, i + 2) {
                            Some((t, j)) => Some((prepend_char(u, t), j)),
                            None => None,
                        },
                        None => None,
                    }
                }
            } else {
                None
            }
        } else if (c as u32) < 32 {
            None
        } else {
            match parse_string_body(s, i + 1) {
                Some((t, j)) => Some((prepend_char(c, t), j)),
                None => None,
            }
        }
    }
}

/// The digits of an unsigned integer, folded left onto `acc`; a value
/// that does not fit in sixty-four bits is rejected.
pub open spec fn spec_num_tail(s: Seq<char>, i: int, acc: u64) -> Option<(u64, int)>
    decreases s.len() - i,
{
    if 0 <= i && i < s.len() && is_digit(s[i]) {
        let d = digit_val(s[i]);
        if acc as int <= (u64::MAX - d) / 10 {
            spec_num_tail(s, i + 1, (acc * 10 + d) as u64)
        } else {
            None
        }
    } else {
        Some((acc, i))
    }
}

/// An unsigned integer at `i`: one or more digits.
pub open spec fn spec_parse_number(s: Seq<char>, i: int) -> Option<(u64, int)> {
    if 0 <= i && i < s.len() && is_digit(s[i]) {
        spec_num_tail(s, i, 0)
    } else {
        None
    }
}

fn num_tail(s: &str, i: usize, acc: u64) -> (r: Option<(u64, usize)>)
    requires
        i <= s@.len(),
    ensures
        val_rel(r, spec_num_tail(s@, i as int, acc)),
        r matches Some(p) ==> i <= p.1 <= s@.len(),
    decreases s@.len() - i,
{
    let n = s.unicode_len();
    if i < n {
        let c = s.get_char(i);
        let u = c as u32;
        if 48 <= u && u <= 57 {
            let d = (u - 48) as u64;
            if acc <= (u64::MAX - d) / 10 {
                num_tail(s, i + 1, acc * 10 + d)
            } else {
                None
            }
        } else {
            Some((acc, i))
        }
    } else {
        Some((acc, i))
    }
}

pub fn parse_number(s: &str, i: usize) -> (r: Option<(u64, usize)>)
    requires
        i <= s@.len(),
    ensures
        val_rel(r, spec_parse_number(s@, i as int)),
        r matches Some(p) ==> i < p.1 <= s@.len(),
{
    let n = s.unicode_len();
    if i < n {
        let c = s.get_char(i);
        let u = c as u32;
        if 48 <= u && u <= 57 {
            let d = (u - 48) as u64;
            num_tail(s, i + 1, d)
        } else {
            None
        }
    } else {
        None
    }
}

/// `true` or `false` at `i`.
pub open spec fn spec_parse_bool(s: Seq<char>, i: int) -> Option<(bool, int)> {
    if 0 <= i && i + 4 <= s.len() && s[i] == 't' && s[i + 1] == 'r' && s[i + 2] == 'u' && s[i + 3]
        == 'e' {
        Some((true, i + 4))
    } else if 0 <= i && i + 5 <= s.len() && s[i] == 'f' && s[i + 1] == 'a' && s[i + 2] == 'l' && s[i
        + 3] == 's' && s[i + 4] == 'e' {
        Some((false, i + 5))
    } else {
        None
    }
}

pub fn parse_bool(s: &str, i: usize) -> (r: Option<(bool, usize)>)
    requires
        i <= s@.len(),
    ensures
        val_rel(r, spec_parse_bool(s@, i as int)),
        r matches Some(p) ==> i < p.1 <= s@.len(),
{
    let n = s.unicode_len();
    if n - i >= 4 && s.get_char(i) == 't' && s.get_char(i + 1) == 'r' && s.get_char(i + 2) == 'u'
        && s.get_char(i + 3) == 'e' {
        Some((true, i + 4))
    } else if n - i >= 5 && s.get_char(i) == 'f' && s.get_char(i + 1) == 'a' && s.get_char(i + 2)
        == 'l' && s.get_char(i + 3) == 's' && s.get_char(i + 4) == 'e' {
        Some((false, i + 5))
    } else {
        None
    }
}

/// A JSON string value at `i`: a quote, then the literal's body.
pub open spec fn spec_parse_strval(s: Seq<char>, i: int) -> Option<(Seq<char>, int)> {
    if 0 <= i && i < s.len() && s[i] == '"' {
        spec_parse_string(s, i + 1)
    } else {
        None
    }
}

pub fn parse_strval(s: &str, i: usize) -> (r: Option<(String, usize)>)
    requires
        i <= s@.len(),
    ensures
        val_rel(r, spec_parse_strval(s@, i as int)),
        r matches Some(p) ==> i < p.1 <= s@.len(),
{
    let n = s.unicode_len();
    if i < n && s.get_char(i) == '"' {
        parse_string_body(s, i + 1)
    } else {
        None
    }
}

/// A number at `i` that fits in thirty-two bits.
pub open spec fn spec_parse_u32(s: Seq<char>, i: int) -> Option<(u32, int)> {
    match spec_parse_number(s, i) {
        Some((v, j)) => if v <= u32::MAX as u64 {
            Some((v as u32, j))
        } else {
            None
        },
        None => None,
    }
}

pub fn parse_u32val(s: &str, i: usize) -> (r: Option<(u32, usize)>)
    requires
        i <= s@.len(),
    ensures
        val_rel(r, spec_parse_u32(s@, i as int)),
        r matches Some(p) ==> i < p.1 <= s@.len(),
{
    match parse_number(s, i) {
        Some((v, j)) => if v <= u32::MAX as u64 {
            Some((v as u32, j))
        } else {
            None
        },
        None => None,
    }
}

/// Any JSON value at `i` (no leading whitespace), skipped without being
/// kept: the position after it.
pub open spec fn spec_skip_value(s: Seq<char>, i: int) -> Option<int>
    decreases s.len() - i, 0int,
{
    if !(0 <= i && i < s.len()) {
        None
    } else {
        let c = s[i];
        if c == '"' {
            match spec_parse_string(s, i + 1) {
                Some((x, j)) => Some(j),
                None => None,
            }
        } else if is_digit(c) {
            match spec_parse_number(s, i) {
                Some((x, j)) => Some(j),
                None => None,
            }
        } else if c == 't' || c == 'f' {
            match spec_parse_bool(s, i) {
                Some((x, j)) => Some(j),
                None => None,
            }
        } else if c == 'n' {
            if i + 4 <= s.len() && s[i + 1] == 'u' && s[i + 2] == 'l' && s[i + 3] == 'l' {
                Some(i + 4)
            } else {
                None
            }
        } else if c == '{' {
            spec_skip_object_rest(s, i + 1)
        } else if c == '[' {
            spec_skip_array_rest(s, i + 1)
        } else {
            None
        }
    }
}

/// The rest of an object being skipped, entered just after `{` or `,`.
pub open spec fn spec_skip_object_rest(s: Seq<char>, i: int) -> Option<int>
    decreases s.len() - i, 1int,
{
    let j = spec_skip_ws(s, i);
    if !(i <= j && j < s.len()) {
        None
    } else if s[j] == '}' {
        Some(j + 1)
    } else if s[j] == '"' {
        match spec_parse_string(s, j + 1) {
            Some((key, k)) => if !(j + 1 < k && k <= s.len()) {
                None
            } else {
                let k2 = spec_skip_ws(s, k);
                if !(k <= k2 && k2 < s.len() && s[k2] == ':') {
                    None
                } else {
                    let w = spec_skip_ws(s, k2 + 1);
                    if !(k2 + 1 <= w && w <= s.len()) {
                        None
                    } else {
                        match spec_skip_value(s, w) {
                            Some(v) => if !(w < v && v <= s.len()) {
                                None
                            } else {
                                let t = spec_skip_ws(s, v);
                                if !(v <= t && t < s.len()) {
                                    None
                                } else if s[t] == ',' {
                                    spec_skip_object_rest(s, t + 1)
                                } else if s[t] == '}' {
                                    Some(t + 1)
                                } else {
                                    None
                                }
                            },
                            None => None,
                        }
                    }
                }
            },
            None => None,
        }
    } else {
        None
    }
}

/// The rest of an array being skipped, entered just after `[` or `,`.
pub open spec fn spec_skip_array_rest(s: Seq<char>, i: int) -> Option<int>
    decreases s.len() - i, 1int,
{
    let j = spec_skip_ws(s, i);
    if !(i <= j && j < s.len()) {
        None
    } else if s[j] == ']' {
        Some(j + 1)
    } else {
        match spec_skip_value(s, j) {
            Some(v) => if !(j < v && v <= s.len()) {
                None
            } else {
                let t = spec_skip_ws(s, v);
                if !(v <= t && t < s.len()) {
                    None
                } else if s[t] == ',' {
                    spec_skip_array_rest(s, t + 1)
                } else if s[t] == ']' {
                    Some(t + 1)
                } else {
                    None
                }
            },
            None => None,
        }
    }
}

pub fn skip_value(s: &str, i: usize) -> (r: Option<usize>)
    requires
        i <= s@.len(),
    ensures
        idx_rel(r, spec_skip_value(s@, i as int)),
        r matches Some(v) ==> i < v <= s@.len(),
    decreases s@.len() - i, 0int,
{
    let n = s.unicode_len();
    if i >= n {
        None
    } else {
        let c = s.get_char(i);
        if c == '"' {
            match parse_string_body(s, i + 1) {
                Some((x, j)) => Some(j),
                None => None,
            }
        } else if 48 <= c as u32 && c as u32 <= 57 {
            match parse_number(s, i) {
                Some((x, j)) => Some(j),
                None => None,
            }
        } else if c == 't' || c == 'f' {
            match parse_bool(s, i) {
                Some((x, j)) => Some(j),
                None => None,
            }
        } else if c == 'n' {
            if n - i >= 4 && s.get_char(i + 1) == 'u' && s.get_char(i + 2) == 'l' && s.get_char(
                i + 3,
            ) == 'l' {
                Some(i + 4)
            } else {
                None
            }
        } else if c == '{' {
            skip_object_rest(s, i + 1)
        } else if c == '[' {
            skip_array_rest(s, i + 1)
        } else {
            None
        }
    }
}

pub fn skip_object_rest(s: &str, i: usize) -> (r: Option<usize>)
    requires
        i <= s@.len(),
    ensures
        idx_rel(r, spec_skip_object_rest(s@, i as int)),
        r matches Some(v) ==> i < v <= s@.len(),
    decreases s@.len() - i, 1int,
{
    let n = s.unicode_len();
    let j = skip_ws(s, i);
    if j >= n {
        None
    } else {
        let cj = s.get_char(j);
        if cj == '}' {
            Some(j + 1)
        } else if cj == '"' {
            match parse_string_body(s, j + 1) {
                Some((key, k)) => {
                    let k2 = skip_ws(s, k);
                    if k2 >= n || s.get_char(k2) != ':' {
                        None
                    } else {
                        let w = skip_ws(s, k2 + 1);
                        match skip_value(s, w) {
                            Some(v) => {
                                let t = skip_ws(s, v);
                                if t >= n {
                                    None
                                } else if s.get_char(t) == ',' {
                                    skip_object_rest(s, t + 1)
                                } else if s.get_char(t) == '}' {
                                    Some(t + 1)
                                } else {
                                    None
                                }
                            },
                            None => None,
                        }
                    }
                },
                None => None,
            }
        } else {
            None
        }
    }
}

pub fn skip_array_rest(s: &str, i: usize) -> (r: Option<usize>)
    requires
        i <= s@.len(),
    ensures
        idx_rel(r, spec_skip_array_rest(s@, i as int)),
        r matches Some(v) ==> i < v <= s@.len(),
    decreases s@.len() - i, 1int,
{
    let n = s.unicode_len();
    let j = skip_ws(s, i);
    if j >= n {
        None
    } else if s.get_char(j) == ']' {
        Some(j + 1)
    } else {
        match skip_value(s, j) {
            Some(v) => {
                let t = skip_ws(s, v);
                if t >= n {
                    None
                } else if s.get_char(t) == ',' {
                    skip_array_rest(s, t + 1)
                } else if s.get_char(t) == ']' {
                    Some(t + 1)
                } else {
                    None
                }
            },
            None => None,
        }
    }
}

} // verus!
