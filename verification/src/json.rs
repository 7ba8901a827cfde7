//! The claims document grammar: a JSON object, read for a fixed set of
//! fields with every unknown field skipped.
//!
//! Positions are indices into the character sequence. Every specification
//! function is total; malformed input maps to `None`. The executable parser
//! mirrors the specification one function to one.

use vstd::prelude::*;

verus! {

pub open spec fn is_json_ws(c: char) -> bool {
    c == ' ' || c == '\t' || c == '\n' || c == '\r'
}

pub open spec fn is_digit(c: char) -> bool {
    '0' <= c && c <= '9'
}

pub open spec fn digit_val(c: char) -> int {
    c as u32 - '0' as u32
}

/// First index at or after `i` holding no whitespace.
pub open spec fn spec_skip_ws(s: Seq<char>, i: int) -> int
    decreases s.len() - i,
{
    if 0 <= i && i < s.len() && is_json_ws(s[i]) {
        spec_skip_ws(s, i + 1)
    } else {
        i
    }
}

pub proof fn lemma_skip_ws_bounds(s: Seq<char>, i: int)
    requires
        0 <= i <= s.len(),
    ensures
        i <= spec_skip_ws(s, i) <= s.len(),
    decreases s.len() - i,
{
    if i < s.len() && is_json_ws(s[i]) {
        lemma_skip_ws_bounds(s, i + 1);
    }
}

fn skip_ws(v: &Vec<char>, i: usize) -> (r: usize)
    requires
        i <= v@.len(),
    ensures
        r == spec_skip_ws(v@, i as int),
        i <= r <= v@.len(),
    decreases v@.len() - i,
{
    if i < v.len() {
        let c = v[i];
        if c == ' ' || c == '\t' || c == '\n' || c == '\r' {
            return skip_ws(v, i + 1);
        }
    }
    i
}

/// The value of four hex digits starting at `i`, `None` when any character is
/// no hex digit or the input is too short.
pub open spec fn spec_hex4(s: Seq<char>, i: int) -> Option<u32> {
    if 0 <= i && i + 4 <= s.len() {
        match (hex_val(s[i]), hex_val(s[i + 1]), hex_val(s[i + 2]), hex_val(s[i + 3])) {
            (Some(a), Some(b), Some(c), Some(d)) => Some(
                (((a as u32) << 12) | ((b as u32) << 8) | ((c as u32) << 4) | (d as u32)) as u32,
            ),
            _ => None,
        }
    } else {
        None
    }
}

pub open spec fn hex_val(c: char) -> Option<u8> {
    let u = c as u32;
    if '0' <= c && c <= '9' {
        Some((u - 48) as u8)
    } else if 'a' <= c && c <= 'f' {
        Some((u - 97 + 10) as u8)
    } else if 'A' <= c && c <= 'F' {
        Some((u - 65 + 10) as u8)
    } else {
        None
    }
}

pub fn hex_char_val(c: char) -> (r: Option<u8>)
    ensures
        r == hex_val(c),
        r matches Some(h) ==> h < 16,
{
    let u = c as u32;
    if '0' <= c && c <= '9' {
        Some((u - 48) as u8)
    } else if 'a' <= c && c <= 'f' {
        Some((u - 97 + 10) as u8)
    } else if 'A' <= c && c <= 'F' {
        Some((u - 65 + 10) as u8)
    } else {
        None
    }
}

fn hex4(v: &Vec<char>, i: usize) -> (r: Option<u32>)
    requires
        i <= v@.len(),
    ensures
        r == spec_hex4(v@, i as int),
        r matches Some(h) ==> h < 0x10000,
{
    if v.len() - i < 4 {
        return None;
    }
    match (hex_char_val(v[i]), hex_char_val(v[i + 1]), hex_char_val(v[i + 2]), hex_char_val(
        v[i + 3],
    )) {
        (Some(a), Some(b), Some(c), Some(d)) => {
            proof {
                assert((((a as u32) << 12) | ((b as u32) << 8) | ((c as u32) << 4) | (d as u32))
                    < 0x10000) by (bit_vector)
                    requires
                        a < 16,
                        b < 16,
                        c < 16,
                        d < 16,
                ;
            }
            Some(((a as u32) << 12) | ((b as u32) << 8) | ((c as u32) << 4) | (d as u32))
        },
        _ => None,
    }
}

/// The replacement character for a single-character escape, `None` for an
/// unknown escape (`\u` is handled separately).
pub open spec fn simple_escape(c: char) -> Option<char> {
    if c == '"' {
        Some('"')
    } else if c == '\\' {
        Some('\\')
    } else if c == '/' {
        Some('/')
    } else if c == 'b' {
        Some('\u{8}')
    } else if c == 'f' {
        Some('\u{c}')
    } else if c == 'n' {
        Some('\n')
    } else if c == 'r' {
        Some('\r')
    } else if c == 't' {
        Some('\t')
    } else {
        None
    }
}

/// Decodes a string body beginning just inside the opening quote: the decoded
/// characters and the position after the closing quote. Escapes are the eight
/// single-character ones and `\u` with four hex digits, surrogate pairs
/// combined and lone surrogates rejected; unescaped control characters are
/// rejected.
pub open spec fn spec_string_body(s: Seq<char>, i: int) -> Option<(Seq<char>, int)>
    decreases s.len() - i,
{
    if !(0 <= i && i < s.len()) {
        None
    } else {
        let c = s[i];
        if c == '"' {
            Some((Seq::empty(), i + 1))
        } else if c == '\\' {
            if i + 1 >= s.len() {
                None
            } else {
                let e = s[i + 1];
                if e == 'u' {
                    match spec_hex4(s, i + 2) {
                        Some(h) => if 0xD800 <= h && h < 0xDC00 {
                            if i + 8 <= s.len() && s[i + 6] == '\\' && s[i + 7] == 'u' {
                                match spec_hex4(s, i + 8) {
                                    Some(l) => if 0xDC00 <= l && l < 0xE000 {
                                        let code = (0x10000 + (h - 0xD800) * 0x400 + (l
                                            - 0xDC00)) as u32;
                                        match spec_string_body(s, i + 12) {
                                            Some((rest, end)) => Some(
                                                (seq![code as char] + rest, end),
                                            ),
                                            None => None,
                                        }
                                    } else {
                                        None
                                    },
                                    None => None,
                                }
                            } else {
                                None
                            }
                        } else if 0xDC00 <= h && h < 0xE000 {
                            None
                        } else {
                            match spec_string_body(s, i + 6) {
                                Some((rest, end)) => Some((seq![h as char] + rest, end)),
                                None => None,
                            }
                        },
                        None => None,
                    }
                } else {
                    match simple_escape(e) {
                        Some(m) => match spec_string_body(s, i + 2) {
                            Some((rest, end)) => Some((seq![m] + rest, end)),
                            None => None,
                        },
                        None => None,
                    }
                }
            }
        } else if (c as u32) < 0x20 {
            None
        } else {
            match spec_string_body(s, i + 1) {
                Some((rest, end)) => Some((seq![c] + rest, end)),
                None => None,
            }
        }
    }
}

/// A quoted string at `i`: the decoded characters and the position after the
/// closing quote.
pub open spec fn spec_parse_string(s: Seq<char>, i: int) -> Option<(Seq<char>, int)> {
    if 0 <= i && i < s.len() && s[i] == '"' {
        spec_string_body(s, i + 1)
    } else {
        None
    }
}

pub proof fn lemma_string_body_bounds(s: Seq<char>, i: int)
    requires
        0 <= i <= s.len(),
    ensures
        spec_string_body(s, i) matches Some(p) ==> i < p.1 <= s.len(),
    decreases s.len() - i,
{
    if i < s.len() {
        let c = s[i];
        if c == '\\' && i + 1 < s.len() {
            let e = s[i + 1];
            if e == 'u' {
                match spec_hex4(s, i + 2) {
                    Some(h) => {
                        if 0xD800 <= h && h < 0xDC00 {
                            if i + 12 <= s.len() {
                                lemma_string_body_bounds(s, i + 12);
                            }
                        } else if !(0xDC00 <= h && h < 0xE000) {
                            lemma_string_body_bounds(s, i + 6);
                        }
                    },
                    None => {},
                }
            } else {
                lemma_string_body_bounds(s, i + 2);
            }
        } else if c != '"' {
            lemma_string_body_bounds(s, i + 1);
        }
    }
}

fn string_body_into(v: &Vec<char>, i: usize, out: &mut Vec<char>) -> (r: Option<usize>)
    requires
        i <= v@.len(),
    ensures
        match spec_string_body(v@, i as int) {
            Some(p) => r matches Some(end) && end == p.1 && final(out)@ == old(out)@ + p.0,
            None => r is None,
        },
        r matches Some(end) ==> i < end <= v@.len(),
    decreases v@.len() - i,
{
    proof {
        lemma_string_body_bounds(v@, i as int);
    }
    if i >= v.len() {
        return None;
    }
    let c = v[i];
    if c == '"' {
        proof {
            assert(final(out)@ =~= out@ + Seq::<char>::empty());
        }
        Some(i + 1)
    } else if c == '\\' {
        if v.len() - i < 2 {
            return None;
        }
        let e = v[i + 1];
        if e == 'u' {
            match hex4(v, i + 2) {
                Some(h) => {
                    if 0xD800 <= h && h < 0xDC00 {
                        if v.len() - i >= 8 && v[i + 6] == '\\' && v[i + 7] == 'u' {
                            match hex4(v, i + 8) {
                                Some(l) => {
                                    if 0xDC00 <= l && l < 0xE000 {
                                        let code: u32 = 0x10000 + (h - 0xD800) * 0x400 + (l
                                            - 0xDC00);
                                        let c2 = match crate::strutil::char_from_u32(code) {
                                            Some(c2) => c2,
                                            None => {
                                                proof {
                                                    assert(false);
                                                }
                                                return None;
                                            },
                                        };
                                        proof {
                                            vstd::utf8::char_u32_cast(c2, code);
                                        }
                                        let ghost pre = out@;
                                        out.push(c2);
                                        let rr = string_body_into(v, i + 12, out);
                                        proof {
                                            match spec_string_body(v@, i + 12) {
                                                Some(p) => {
                                                    assert(out@ =~= pre + (seq![code as char]
                                                        + p.0));
                                                },
                                                None => {},
                                            }
                                        }
                                        rr
                                    } else {
                                        None
                                    }
                                },
                                None => None,
                            }
                        } else {
                            None
                        }
                    } else if 0xDC00 <= h && h < 0xE000 {
                        None
                    } else {
                        let c2 = match crate::strutil::char_from_u32(h) {
                            Some(c2) => c2,
                            None => {
                                proof {
                                    assert(false);
                                }
                                return None;
                            },
                        };
                        proof {
                            vstd::utf8::char_u32_cast(c2, h);
                        }
                        let ghost pre = out@;
                        out.push(c2);
                        let rr = string_body_into(v, i + 6, out);
                        proof {
                            match spec_string_body(v@, i + 6) {
                                Some(p) => {
                                    assert(out@ =~= pre + (seq![h as char] + p.0));
                                },
                                None => {},
                            }
                        }
                        rr
                    }
                },
                None => None,
            }
        } else {
            let m = if e == '"' {
                '"'
            } else if e == '\\' {
                '\\'
            } else if e == '/' {
                '/'
            } else if e == 'b' {
                '\u{8}'
            } else if e == 'f' {
                '\u{c}'
            } else if e == 'n' {
                '\n'
            } else if e == 'r' {
                '\r'
            } else if e == 't' {
                '\t'
            } else {
                return None;
            };
            let ghost pre = out@;
            out.push(m);
            let rr = string_body_into(v, i + 2, out);
            proof {
                match spec_string_body(v@, i + 2) {
                    Some(p) => {
                        assert(out@ =~= pre + (seq![m] + p.0));
                    },
                    None => {},
                }
            }
            rr
        }
    } else if (c as u32) < 0x20 {
        None
    } else {
        let ghost pre = out@;
        out.push(c);
        let rr = string_body_into(v, i + 1, out);
        proof {
            match spec_string_body(v@, i + 1) {
                Some(p) => {
                    assert(out@ =~= pre + (seq![c] + p.0));
                },
                None => {},
            }
        }
        rr
    }
}

/// A quoted string at `i`: the decoded characters and the position after the
/// closing quote.
pub fn parse_string(v: &Vec<char>, i: usize) -> (r: Option<(Vec<char>, usize)>)
    requires
        i <= v@.len(),
    ensures
        match spec_parse_string(v@, i as int) {
            Some(p) => r matches Some(q) && q.0@ == p.0 && q.1 == p.1,
            None => r is None,
        },
        r matches Some(q) ==> i < q.1 <= v@.len(),
{
    if i < v.len() && v[i] == '"' {
        let mut out: Vec<char> = Vec::new();
        match string_body_into(v, i + 1, &mut out) {
            Some(end) => Some((out, end)),
            None => None,
        }
    } else {
        None
    }
}

/// Folds decimal digits from `i` into `acc`, returning the value and the
/// first non-digit position.
pub open spec fn spec_digits(s: Seq<char>, i: int, acc: int) -> (int, int)
    decreases s.len() - i,
{
    if 0 <= i && i < s.len() && is_digit(s[i]) {
        spec_digits(s, i + 1, acc * 10 + digit_val(s[i]))
    } else {
        (acc, i)
    }
}

pub proof fn lemma_digits_bounds(s: Seq<char>, i: int, acc: int)
    requires
        0 <= i <= s.len(),
    ensures
        i <= spec_digits(s, i, acc).1 <= s.len(),
        acc >= 0 ==> spec_digits(s, i, acc).0 >= acc,
    decreases s.len() - i,
{
    if i < s.len() && is_digit(s[i]) {
        lemma_digits_bounds(s, i + 1, acc * 10 + digit_val(s[i]));
    }
}

/// An integer lexeme at `i`: optional minus sign, then either a single `0` or
/// a nonzero digit followed by digits. The mathematical value and the end
/// position. A fraction or exponent following the lexeme is the caller's to
/// reject.
pub open spec fn spec_parse_int(s: Seq<char>, i: int) -> Option<(int, int)> {
    if !(0 <= i && i < s.len()) {
        None
    } else {
        let (neg, d0) = if s[i] == '-' {
            (true, i + 1)
        } else {
            (false, i)
        };
        if d0 < s.len() && is_digit(s[d0]) {
            let (mag, end) = if s[d0] == '0' {
                (0, d0 + 1)
            } else {
                spec_digits(s, d0, 0)
            };
            Some(((if neg { -mag } else { mag }), end))
        } else {
            None
        }
    }
}

/// The integer lexeme at `i` as an `i64`: `None` when there is no integer
/// lexeme or its value does not fit.
pub open spec fn spec_parse_i64(s: Seq<char>, i: int) -> Option<(i64, int)> {
    match spec_parse_int(s, i) {
        Some((val, end)) => if i64::MIN <= val <= i64::MAX {
            Some((val as i64, end))
        } else {
            None
        },
        None => None,
    }
}

pub proof fn lemma_digits_end_ignores_acc(s: Seq<char>, i: int, a: int, b: int)
    ensures
        spec_digits(s, i, a).1 == spec_digits(s, i, b).1,
    decreases s.len() - i,
{
    if 0 <= i && i < s.len() && is_digit(s[i]) {
        lemma_digits_end_ignores_acc(s, i + 1, a * 10 + digit_val(s[i]), b * 10 + digit_val(s[i]));
    }
}

fn skip_digits_rec(v: &Vec<char>, j: usize) -> (r: usize)
    requires
        j <= v@.len(),
    ensures
        r == spec_digits(v@, j as int, 0).1,
        j <= r <= v@.len(),
    decreases v@.len() - j,
{
    if j < v.len() {
        let c = v[j];
        if '0' <= c && c <= '9' {
            proof {
                lemma_digits_end_ignores_acc(v@, j + 1, digit_val(c), 0);
            }
            return skip_digits_rec(v, j + 1);
        }
    }
    j
}

fn digits_rec(v: &Vec<char>, j: usize, acc: u64) -> (r: (Option<u64>, usize))
    requires
        j <= v@.len(),
    ensures
        r.1 == spec_digits(v@, j as int, acc as int).1,
        j <= r.1 <= v@.len(),
        r.0 matches Some(m) ==> m == spec_digits(v@, j as int, acc as int).0,
        r.0 is None ==> spec_digits(v@, j as int, acc as int).0 > u64::MAX,
    decreases v@.len() - j,
{
    if j < v.len() {
        let c = v[j];
        if '0' <= c && c <= '9' {
            let d = (c as u32 - 48) as u64;
            let next = match acc.checked_mul(10) {
                Some(t) => t.checked_add(d),
                None => None,
            };
            match next {
                Some(t) => {
                    return digits_rec(v, j + 1, t);
                },
                None => {
                    proof {
                        lemma_digits_bounds(v@, j + 1, acc as int * 10 + digit_val(c));
                        lemma_digits_end_ignores_acc(v@, j + 1, acc as int * 10 + digit_val(c), 0);
                    }
                    return (None, skip_digits_rec(v, j + 1));
                },
            }
        }
    }
    (Some(acc), j)
}

fn digits_u64(v: &Vec<char>, i: usize) -> (r: (Option<u64>, usize))
    requires
        i <= v@.len(),
    ensures
        r.1 == spec_digits(v@, i as int, 0).1,
        i <= r.1 <= v@.len(),
        r.0 matches Some(m) ==> m == spec_digits(v@, i as int, 0).0,
        r.0 is None ==> spec_digits(v@, i as int, 0).0 > u64::MAX,
{
    digits_rec(v, i, 0)
}

/// The integer lexeme at `i` as an `i64`, `None` when absent or out of range.
pub fn parse_i64(v: &Vec<char>, i: usize) -> (r: Option<(i64, usize)>)
    requires
        i <= v@.len(),
    ensures
        match spec_parse_i64(v@, i as int) {
            Some(p) => r matches Some(q) && q.0 == p.0 && q.1 == p.1,
            None => r is None,
        },
        r matches Some(p) ==> i < p.1 <= v@.len(),
{
    if i >= v.len() {
        return None;
    }
    let (neg, d0) = if v[i] == '-' {
        (true, i + 1)
    } else {
        (false, i)
    };
    if d0 >= v.len() {
        return None;
    }
    let c0 = v[d0];
    if !('0' <= c0 && c0 <= '9') {
        return None;
    }
    let (mag, end): (Option<u64>, usize) = if c0 == '0' {
        (Some(0), d0 + 1)
    } else {
        digits_u64(v, d0)
    };
    proof {
        lemma_digits_bounds(v@, d0 as int, 0);
        lemma_digits_bounds(v@, d0 as int + 1, digit_val(v@[d0 as int]));
    }
    match mag {
        Some(m) => {
            if neg {
                if m > 0x8000_0000_0000_0000u64 {
                    None
                } else if m == 0x8000_0000_0000_0000u64 {
                    Some((i64::MIN, end))
                } else {
                    Some((-(m as i64), end))
                }
            } else {
                if m > 0x7fff_ffff_ffff_ffffu64 {
                    None
                } else {
                    Some((m as i64, end))
                }
            }
        },
        None => None,
    }
}

/// Skips a number lexeme (integer, optional fraction, optional exponent),
/// returning the end position.
pub open spec fn spec_skip_number(s: Seq<char>, i: int) -> Option<int> {
    match spec_parse_int(s, i) {
        Some((_val, e1)) => {
            let e2 = if e1 + 1 < s.len() && s[e1] == '.' && is_digit(s[e1 + 1]) {
                spec_digits(s, e1 + 1, 0).1
            } else {
                e1
            };
            let e3 = if e2 < s.len() && (s[e2] == 'e' || s[e2] == 'E') {
                let d = if e2 + 1 < s.len() && (s[e2 + 1] == '+' || s[e2 + 1] == '-') {
                    e2 + 2
                } else {
                    e2 + 1
                };
                if d < s.len() && is_digit(s[d]) {
                    spec_digits(s, d, 0).1
                } else {
                    e2
                }
            } else {
                e2
            };
            Some(e3)
        },
        None => None,
    }
}

fn digit_at(v: &Vec<char>, j: usize) -> (r: bool)
    requires
        j < v@.len(),
    ensures
        r == is_digit(v@[j as int]),
{
    let c = v[j];
    '0' <= c && c <= '9'
}

fn skip_number(v: &Vec<char>, i: usize) -> (r: Option<usize>)
    requires
        i <= v@.len(),
    ensures
        match spec_skip_number(v@, i as int) {
            Some(e) => r matches Some(re) && re == e,
            None => r is None,
        },
        r matches Some(re) ==> i < re <= v@.len(),
{
    if i >= v.len() {
        return None;
    }
    let (neg, d0) = if v[i] == '-' {
        (true, i + 1)
    } else {
        (false, i)
    };
    if d0 >= v.len() {
        return None;
    }
    let c0 = v[d0];
    if !('0' <= c0 && c0 <= '9') {
        return None;
    }
    let e1: usize = if c0 == '0' {
        d0 + 1
    } else {
        skip_digits_rec(v, d0)
    };
    proof {
        lemma_digits_bounds(v@, d0 as int, 0);
        lemma_digits_bounds(v@, d0 as int + 1, digit_val(v@[d0 as int]));
    }
    let e2: usize = if v.len() - e1 > 1 && v[e1] == '.' && digit_at(v, e1 + 1) {
        skip_digits_rec(v, e1 + 1)
    } else {
        e1
    };
    let e3: usize = if e2 < v.len() && (v[e2] == 'e' || v[e2] == 'E') {
        let d = if v.len() - e2 > 1 && (v[e2 + 1] == '+' || v[e2 + 1] == '-') {
            e2 + 2
        } else {
            e2 + 1
        };
        if d < v.len() && digit_at(v, d) {
            skip_digits_rec(v, d)
        } else {
            e2
        }
    } else {
        e2
    };
    Some(e3)
}

/// Position after the literal `lit` at `i`, `None` when the input differs.
pub open spec fn spec_skip_lit(s: Seq<char>, i: int, lit: Seq<char>) -> Option<int> {
    if 0 <= i && i + lit.len() <= s.len() && s.subrange(i, i + lit.len()) == lit {
        Some(i + lit.len())
    } else {
        None
    }
}

/// Position after the JSON value at `i`: a string, number, literal, object or
/// array, with arbitrary nesting.
pub open spec fn spec_skip_value(s: Seq<char>, i: int) -> Option<int>
    decreases s.len() - i, 0int,
{
    if !(0 <= i && i < s.len()) {
        None
    } else {
        let c = s[i];
        if c == '"' {
            match spec_parse_string(s, i) {
                Some(p) => Some(p.1),
                None => None,
            }
        } else if c == '-' || is_digit(c) {
            spec_skip_number(s, i)
        } else if c == 't' {
            spec_skip_lit(s, i, "true"@)
        } else if c == 'f' {
            spec_skip_lit(s, i, "false"@)
        } else if c == 'n' {
            spec_skip_lit(s, i, "null"@)
        } else if c == '{' {
            let j = spec_skip_ws(s, i + 1);
            if i < j && j <= s.len() {
                spec_skip_object_body(s, j)
            } else {
                None
            }
        } else if c == '[' {
            let j = spec_skip_ws(s, i + 1);
            if i < j && j <= s.len() {
                spec_skip_array_body(s, j)
            } else {
                None
            }
        } else {
            None
        }
    }
}

/// Position after the remainder of an object whose `{` is already consumed,
/// `i` standing at a key or the closing brace.
pub open spec fn spec_skip_object_body(s: Seq<char>, i: int) -> Option<int>
    decreases s.len() - i, 1int,
{
    if !(0 <= i && i < s.len()) {
        None
    } else if s[i] == '}' {
        Some(i + 1)
    } else {
        match spec_parse_string(s, i) {
            Some((_k, j)) => {
                let j2 = spec_skip_ws(s, j);
                if j2 < s.len() && s[j2] == ':' {
                    let jv = spec_skip_ws(s, j2 + 1);
                    if i < jv && jv <= s.len() {
                        match spec_skip_value(s, jv) {
                            Some(jn) => {
                                let j3 = spec_skip_ws(s, jn);
                                if j3 < s.len() && s[j3] == ',' {
                                    let jm = spec_skip_ws(s, j3 + 1);
                                    if i < jm && jm < s.len() && s[jm] != '}' {
                                        spec_skip_object_body(s, jm)
                                    } else {
                                        None
                                    }
                                } else if j3 < s.len() && s[j3] == '}' {
                                    Some(j3 + 1)
                                } else {
                                    None
                                }
                            },
                            None => None,
                        }
                    } else {
                        None
                    }
                } else {
                    None
                }
            },
            None => None,
        }
    }
}

/// Position after the remainder of an array whose `[` is already consumed,
/// `i` standing at an element or the closing bracket.
pub open spec fn spec_skip_array_body(s: Seq<char>, i: int) -> Option<int>
    decreases s.len() - i, 1int,
{
    if !(0 <= i && i < s.len()) {
        None
    } else if s[i] == ']' {
        Some(i + 1)
    } else {
        match spec_skip_value(s, i) {
            Some(jn) => {
                let j3 = spec_skip_ws(s, jn);
                if j3 < s.len() && s[j3] == ',' {
                    let jm = spec_skip_ws(s, j3 + 1);
                    if i < jm && jm < s.len() && s[jm] != ']' {
                        spec_skip_array_body(s, jm)
                    } else {
                        None
                    }
                } else if j3 < s.len() && s[j3] == ']' {
                    Some(j3 + 1)
                } else {
                    None
                }
            },
            None => None,
        }
    }
}

fn skip_lit4(v: &Vec<char>, i: usize, c1: char, c2: char, c3: char, lit: Ghost<Seq<char>>) -> (r:
    Option<usize>)
    requires
        i < v@.len(),
        lit@.len() == 4,
        lit@[0] == v@[i as int],
        lit@[1] == c1,
        lit@[2] == c2,
        lit@[3] == c3,
    ensures
        match spec_skip_lit(v@, i as int, lit@) {
            Some(e) => r matches Some(re) && re == e,
            None => r is None,
        },
        r matches Some(e) ==> i < e <= v@.len(),
{
    if v.len() - i >= 4 && v[i + 1] == c1 && v[i + 2] == c2 && v[i + 3] == c3 {
        proof {
            assert(v@.subrange(i as int, i + 4) =~= lit@);
        }
        Some(i + 4)
    } else {
        proof {
            if i + 4 <= v@.len() {
                assert(v@.subrange(i as int, i + 4)[1] == v@[i + 1]);
                assert(v@.subrange(i as int, i + 4)[2] == v@[i + 2]);
                assert(v@.subrange(i as int, i + 4)[3] == v@[i + 3]);
            }
        }
        None
    }
}

fn skip_lit5(v: &Vec<char>, i: usize, c1: char, c2: char, c3: char, c4: char, lit: Ghost<
    Seq<char>,
>) -> (r: Option<usize>)
    requires
        i < v@.len(),
        lit@.len() == 5,
        lit@[0] == v@[i as int],
        lit@[1] == c1,
        lit@[2] == c2,
        lit@[3] == c3,
        lit@[4] == c4,
    ensures
        match spec_skip_lit(v@, i as int, lit@) {
            Some(e) => r matches Some(re) && re == e,
            None => r is None,
        },
        r matches Some(e) ==> i < e <= v@.len(),
{
    if v.len() - i >= 5 && v[i + 1] == c1 && v[i + 2] == c2 && v[i + 3] == c3 && v[i + 4] == c4 {
        proof {
            assert(v@.subrange(i as int, i + 5) =~= lit@);
        }
        Some(i + 5)
    } else {
        proof {
            if i + 5 <= v@.len() {
                assert(v@.subrange(i as int, i + 5)[1] == v@[i + 1]);
                assert(v@.subrange(i as int, i + 5)[2] == v@[i + 2]);
                assert(v@.subrange(i as int, i + 5)[3] == v@[i + 3]);
                assert(v@.subrange(i as int, i + 5)[4] == v@[i + 4]);
            }
        }
        None
    }
}

/// Position after the JSON value at `i`.
pub fn skip_value(v: &Vec<char>, i: usize) -> (r: Option<usize>)
    requires
        i <= v@.len(),
    ensures
        match spec_skip_value(v@, i as int) {
            Some(e) => r matches Some(re) && re == e,
            None => r is None,
        },
        r matches Some(re) ==> i < re <= v@.len(),
    decreases v@.len() - i, 0int,
{
    if i >= v.len() {
        return None;
    }
    let c = v[i];
    if c == '"' {
        match parse_string(v, i) {
            Some((_, e)) => Some(e),
            None => None,
        }
    } else if c == '-' || ('0' <= c && c <= '9') {
        skip_number(v, i)
    } else if c == 't' {
        proof {
            reveal_strlit("true");
        }
        skip_lit4(v, i, 'r', 'u', 'e', Ghost("true"@))
    } else if c == 'f' {
        proof {
            reveal_strlit("false");
        }
        skip_lit5(v, i, 'a', 'l', 's', 'e', Ghost("false"@))
    } else if c == 'n' {
        proof {
            reveal_strlit("null");
        }
        skip_lit4(v, i, 'u', 'l', 'l', Ghost("null"@))
    } else if c == '{' {
        let j = skip_ws(v, i + 1);
        skip_object_body(v, j)
    } else if c == '[' {
        let j = skip_ws(v, i + 1);
        skip_array_body(v, j)
    } else {
        None
    }
}

fn skip_object_body(v: &Vec<char>, i: usize) -> (r: Option<usize>)
    requires
        i <= v@.len(),
    ensures
        match spec_skip_object_body(v@, i as int) {
            Some(e) => r matches Some(re) && re == e,
            None => r is None,
        },
        r matches Some(re) ==> i <= re <= v@.len(),
    decreases v@.len() - i, 1int,
{
    if i >= v.len() {
        return None;
    }
    if v[i] == '}' {
        return Some(i + 1);
    }
    match parse_string(v, i) {
        Some((_k, j)) => {
            let j2 = skip_ws(v, j);
            if j2 < v.len() && v[j2] == ':' {
                let jv = skip_ws(v, j2 + 1);
                match skip_value(v, jv) {
                    Some(jn) => {
                        let j3 = skip_ws(v, jn);
                        if j3 < v.len() && v[j3] == ',' {
                            let jm = skip_ws(v, j3 + 1);
                            if jm < v.len() && v[jm] != '}' {
                                skip_object_body(v, jm)
                            } else {
                                None
                            }
                        } else if j3 < v.len() && v[j3] == '}' {
                            Some(j3 + 1)
                        } else {
                            None
                        }
                    },
                    None => None,
                }
            } else {
                None
            }
        },
        None => None,
    }
}

fn skip_array_body(v: &Vec<char>, i: usize) -> (r: Option<usize>)
    requires
        i <= v@.len(),
    ensures
        match spec_skip_array_body(v@, i as int) {
            Some(e) => r matches Some(re) && re == e,
            None => r is None,
        },
        r matches Some(re) ==> i <= re <= v@.len(),
    decreases v@.len() - i, 1int,
{
    if i >= v.len() {
        return None;
    }
    if v[i] == ']' {
        return Some(i + 1);
    }
    match skip_value(v, i) {
        Some(jn) => {
            let j3 = skip_ws(v, jn);
            if j3 < v.len() && v[j3] == ',' {
                let jm = skip_ws(v, j3 + 1);
                if jm < v.len() && v[jm] != ']' {
                    skip_array_body(v, jm)
                } else {
                    None
                }
            } else if j3 < v.len() && v[j3] == ']' {
                Some(j3 + 1)
            } else {
                None
            }
        },
        None => None,
    }
}


/// A user identity claim: the issuing service writes either a JSON integer
/// or a JSON string.
pub enum RawUid {
    Num(i64),
    Text(Vec<char>),
}

/// Mathematical form of [`RawUid`].
pub enum SpecUid {
    Num(int),
    Text(Seq<char>),
}

impl View for RawUid {
    type V = SpecUid;

    open spec fn view(&self) -> SpecUid {
        match self {
            RawUid::Num(n) => SpecUid::Num(*n as int),
            RawUid::Text(t) => SpecUid::Text(t@),
        }
    }
}

/// The claims read out of the claims document: the identity, the expiry and
/// issue instants (epoch seconds), and the optional email address.
pub struct RawClaims {
    pub uid: RawUid,
    pub exp: i64,
    pub iat: i64,
    pub email: Option<Vec<char>>,
}

/// Mathematical form of [`RawClaims`].
pub struct SpecClaims {
    pub uid: SpecUid,
    pub exp: int,
    pub iat: int,
    pub email: Option<Seq<char>>,
}

impl View for RawClaims {
    type V = SpecClaims;

    open spec fn view(&self) -> SpecClaims {
        SpecClaims {
            uid: self.uid@,
            exp: self.exp as int,
            iat: self.iat as int,
            email: match self.email {
                Some(ref e) => Some(e@),
                None => None,
            },
        }
    }
}

/// Accumulator for the recognized fields while walking the object.
pub struct Acc {
    pub uid: Option<RawUid>,
    pub exp: Option<i64>,
    pub iat: Option<i64>,
    pub email: Option<Option<Vec<char>>>,
}

/// Mathematical form of [`Acc`].
pub struct SpecAcc {
    pub uid: Option<SpecUid>,
    pub exp: Option<int>,
    pub iat: Option<int>,
    pub email: Option<Option<Seq<char>>>,
}

impl View for Acc {
    type V = SpecAcc;

    open spec fn view(&self) -> SpecAcc {
        SpecAcc {
            uid: match self.uid {
                Some(ref u) => Some(u@),
                None => None,
            },
            exp: match self.exp {
                Some(e) => Some(e as int),
                None => None,
            },
            iat: match self.iat {
                Some(e) => Some(e as int),
                None => None,
            },
            email: match self.email {
                Some(Some(ref e)) => Some(Some(e@)),
                Some(None) => Some(None),
                None => None,
            },
        }
    }
}

/// Walks the members of the claims object from `i` (a key or the closing
/// brace), folding recognized fields into the accumulator and skipping
/// unknown ones. A recognized field seen twice is an error.
pub open spec fn spec_members(s: Seq<char>, i: int, acc: SpecAcc) -> Option<(SpecAcc, int)>
    decreases s.len() - i,
{
    if !(0 <= i && i < s.len()) {
        None
    } else if s[i] == '}' {
        Some((acc, i + 1))
    } else {
        match spec_parse_string(s, i) {
            Some((k, j)) => {
                let j2 = spec_skip_ws(s, j);
                if !(j2 < s.len() && s[j2] == ':') {
                    None
                } else {
                    let jv = spec_skip_ws(s, j2 + 1);
                    if !(i < jv && jv <= s.len()) {
                        None
                    } else {
                        match spec_member_value(s, jv, acc, k) {
                            Some((acc2, jn)) => {
                                let j3 = spec_skip_ws(s, jn);
                                if j3 < s.len() && s[j3] == ',' {
                                    let jm = spec_skip_ws(s, j3 + 1);
                                    if i < jm && jm < s.len() && s[jm] != '}' {
                                        spec_members(s, jm, acc2)
                                    } else {
                                        None
                                    }
                                } else if j3 < s.len() && s[j3] == '}' {
                                    Some((acc2, j3 + 1))
                                } else {
                                    None
                                }
                            },
                            None => None,
                        }
                    }
                }
            },
            None => None,
        }
    }
}

/// One member's value at `jv` under key `k`: the updated accumulator and the
/// position after the value.
pub open spec fn spec_member_value(s: Seq<char>, jv: int, acc: SpecAcc, k: Seq<char>) -> Option<
    (SpecAcc, int),
> {
    if k == "uid"@ {
        if acc.uid is Some {
            None
        } else if 0 <= jv && jv < s.len() && s[jv] == '"' {
            match spec_parse_string(s, jv) {
                Some((txt, e)) => Some((SpecAcc { uid: Some(SpecUid::Text(txt)), ..acc }, e)),
                None => None,
            }
        } else {
            match spec_parse_i64(s, jv) {
                Some((n, e)) => Some((SpecAcc { uid: Some(SpecUid::Num(n as int)), ..acc }, e)),
                None => None,
            }
        }
    } else if k == "exp"@ {
        if acc.exp is Some {
            None
        } else {
            match spec_parse_i64(s, jv) {
                Some((n, e)) => Some((SpecAcc { exp: Some(n as int), ..acc }, e)),
                None => None,
            }
        }
    } else if k == "iat"@ {
        if acc.iat is Some {
            None
        } else {
            match spec_parse_i64(s, jv) {
                Some((n, e)) => Some((SpecAcc { iat: Some(n as int), ..acc }, e)),
                None => None,
            }
        }
    } else if k == "email"@ {
        if acc.email is Some {
            None
        } else if 0 <= jv && jv < s.len() && s[jv] == '"' {
            match spec_parse_string(s, jv) {
                Some((txt, e)) => Some((SpecAcc { email: Some(Some(txt)), ..acc }, e)),
                None => None,
            }
        } else {
            match spec_skip_lit(s, jv, "null"@) {
                Some(e) => Some((SpecAcc { email: Some(None), ..acc }, e)),
                None => None,
            }
        }
    } else {
        match spec_skip_value(s, jv) {
            Some(e) => Some((acc, e)),
            None => None,
        }
    }
}

/// The whole claims document: optional whitespace, one object, optional
/// whitespace, end of input. `uid` and `exp` are required, `iat` defaults to
/// 0, a missing or null `email` is absent.
pub open spec fn spec_parse_claims(s: Seq<char>) -> Option<SpecClaims> {
    let j = spec_skip_ws(s, 0);
    if !(j < s.len() && s[j] == '{') {
        None
    } else {
        let jm = spec_skip_ws(s, j + 1);
        if !(j < jm && jm <= s.len()) {
            None
        } else {
            match spec_members(
                s,
                jm,
                SpecAcc { uid: None, exp: None, iat: None, email: None },
            ) {
                Some((acc, end)) => {
                    let t = spec_skip_ws(s, end);
                    if t != s.len() {
                        None
                    } else {
                        match (acc.uid, acc.exp) {
                            (Some(uid), Some(exp)) => Some(
                                SpecClaims {
                                    uid,
                                    exp,
                                    iat: match acc.iat {
                                        Some(x) => x,
                                        None => 0,
                                    },
                                    email: match acc.email {
                                        Some(e) => e,
                                        None => None,
                                    },
                                },
                            ),
                            _ => None,
                        }
                    }
                },
                None => None,
            }
        }
    }
}

fn member_value(v: &Vec<char>, jv: usize, acc: Acc, k: &Vec<char>) -> (r: Option<(Acc, usize)>)
    requires
        jv <= v@.len(),
    ensures
        match spec_member_value(v@, jv as int, acc@, k@) {
            Some(p) => r matches Some(q) && q.0@ == p.0 && q.1 == p.1,
            None => r is None,
        },
        r matches Some(q) ==> jv < q.1 <= v@.len(),
{
    if crate::strutil::chars_eq_str(k, "uid") {
        if acc.uid.is_some() {
            None
        } else if jv < v.len() && v[jv] == '"' {
            match parse_string(v, jv) {
                Some((txt, e)) => Some((Acc { uid: Some(RawUid::Text(txt)), ..acc }, e)),
                None => None,
            }
        } else {
            match parse_i64(v, jv) {
                Some((n, e)) => Some((Acc { uid: Some(RawUid::Num(n)), ..acc }, e)),
                None => None,
            }
        }
    } else if crate::strutil::chars_eq_str(k, "exp") {
        if acc.exp.is_some() {
            None
        } else {
            match parse_i64(v, jv) {
                Some((n, e)) => Some((Acc { exp: Some(n), ..acc }, e)),
                None => None,
            }
        }
    } else if crate::strutil::chars_eq_str(k, "iat") {
        if acc.iat.is_some() {
            None
        } else {
            match parse_i64(v, jv) {
                Some((n, e)) => Some((Acc { iat: Some(n), ..acc }, e)),
                None => None,
            }
        }
    } else if crate::strutil::chars_eq_str(k, "email") {
        if acc.email.is_some() {
            None
        } else if jv < v.len() && v[jv] == '"' {
            match parse_string(v, jv) {
                Some((txt, e)) => Some((Acc { email: Some(Some(txt)), ..acc }, e)),
                None => None,
            }
        } else if jv < v.len() && v[jv] == 'n' {
            proof {
                reveal_strlit("null");
            }
            match skip_lit4(v, jv, 'u', 'l', 'l', Ghost("null"@)) {
                Some(e) => Some((Acc { email: Some(None), ..acc }, e)),
                None => None,
            }
        } else {
            proof {
                reveal_strlit("null");
                if 0 <= jv as int && jv as int + 4 <= v@.len() {
                    assert(v@.subrange(jv as int, jv as int + 4)[0] == v@[jv as int]);
                }
            }
            None
        }
    } else {
        match skip_value(v, jv) {
            Some(e) => Some((acc, e)),
            None => None,
        }
    }
}

fn members(v: &Vec<char>, i: usize, acc: Acc) -> (r: Option<(Acc, usize)>)
    requires
        i <= v@.len(),
    ensures
        match spec_members(v@, i as int, acc@) {
            Some(p) => r matches Some(q) && q.0@ == p.0 && q.1 == p.1,
            None => r is None,
        },
        r matches Some(q) ==> i < q.1 <= v@.len(),
    decreases v@.len() - i,
{
    if i >= v.len() {
        return None;
    }
    if v[i] == '}' {
        return Some((acc, i + 1));
    }
    match parse_string(v, i) {
        Some((k, j)) => {
            let j2 = skip_ws(v, j);
            if !(j2 < v.len() && v[j2] == ':') {
                return None;
            }
            let jv = skip_ws(v, j2 + 1);
            match member_value(v, jv, acc, &k) {
                Some((acc2, jn)) => {
                    let j3 = skip_ws(v, jn);
                    if j3 < v.len() && v[j3] == ',' {
                        let jm = skip_ws(v, j3 + 1);
                        if jm < v.len() && v[jm] != '}' {
                            members(v, jm, acc2)
                        } else {
                            None
                        }
                    } else if j3 < v.len() && v[j3] == '}' {
                        Some((acc2, j3 + 1))
                    } else {
                        None
                    }
                },
                None => None,
            }
        },
        None => None,
    }
}

/// Parses the whole claims document, `None` on any deviation from the
/// grammar, a missing required field, a repeated recognized field, or
/// trailing content.
pub fn parse_claims(v: &Vec<char>) -> (r: Option<RawClaims>)
    ensures
        match spec_parse_claims(v@) {
            Some(sc) => r matches Some(rc) && rc@ == sc,
            None => r is None,
        },
{
    let j = skip_ws(v, 0);
    if !(j < v.len() && v[j] == '{') {
        return None;
    }
    let jm = skip_ws(v, j + 1);
    match members(v, jm, Acc { uid: None, exp: None, iat: None, email: None }) {
        Some((acc, end)) => {
            let t = skip_ws(v, end);
            if t != v.len() {
                return None;
            }
            match (acc.uid, acc.exp) {
                (Some(uid), Some(exp)) => Some(
                    RawClaims {
                        uid,
                        exp,
                        iat: match acc.iat {
                            Some(x) => x,
                            None => 0,
                        },
                        email: match acc.email {
                            Some(e) => e,
                            None => None,
                        },
                    },
                ),
                _ => None,
            }
        },
        None => None,
    }
}


/// An optional string-or-null value, as a mathematical value.
pub open spec fn opt2_view(o: Option<Option<Vec<char>>>) -> Option<Option<Seq<char>>> {
    match o {
        Some(Some(v)) => Some(Some(v@)),
        Some(None) => Some(None),
        None => None,
    }
}

/// Walks the members of an object from `i`, looking for `key`: a string
/// value yields it, a JSON null yields an explicit absence, any other value
/// under `key` or a repeated `key` is an error; unknown members are skipped.
pub open spec fn spec_field_members(
    s: Seq<char>,
    i: int,
    key: Seq<char>,
    acc: Option<Option<Seq<char>>>,
) -> Option<(Option<Option<Seq<char>>>, int)>
    decreases s.len() - i,
{
    if !(0 <= i && i < s.len()) {
        None
    } else if s[i] == '}' {
        Some((acc, i + 1))
    } else {
        match spec_parse_string(s, i) {
            Some((k, j)) => {
                let j2 = spec_skip_ws(s, j);
                if !(j2 < s.len() && s[j2] == ':') {
                    None
                } else {
                    let jv = spec_skip_ws(s, j2 + 1);
                    if !(i < jv && jv <= s.len()) {
                        None
                    } else {
                        let step: Option<(Option<Option<Seq<char>>>, int)> = if k == key {
                            if acc is Some {
                                None
                            } else if jv < s.len() && s[jv] == '"' {
                                match spec_parse_string(s, jv) {
                                    Some((txt, e)) => Some((Some(Some(txt)), e)),
                                    None => None,
                                }
                            } else {
                                match spec_skip_lit(s, jv, "null"@) {
                                    Some(e) => Some((Some(None), e)),
                                    None => None,
                                }
                            }
                        } else {
                            match spec_skip_value(s, jv) {
                                Some(e) => Some((acc, e)),
                                None => None,
                            }
                        };
                        match step {
                            Some((acc2, jn)) => {
                                let j3 = spec_skip_ws(s, jn);
                                if j3 < s.len() && s[j3] == ',' {
                                    let jm = spec_skip_ws(s, j3 + 1);
                                    if i < jm && jm < s.len() && s[jm] != '}' {
                                        spec_field_members(s, jm, key, acc2)
                                    } else {
                                        None
                                    }
                                } else if j3 < s.len() && s[j3] == '}' {
                                    Some((acc2, j3 + 1))
                                } else {
                                    None
                                }
                            },
                            None => None,
                        }
                    }
                }
            },
            None => None,
        }
    }
}

/// Reads one named field out of a whole JSON object document: `None` when
/// the document is malformed or the field's value is neither a string nor
/// null; otherwise whether the field was present and its value.
pub open spec fn spec_string_field(s: Seq<char>, key: Seq<char>) -> Option<
    Option<Option<Seq<char>>>,
> {
    let j = spec_skip_ws(s, 0);
    if !(j < s.len() && s[j] == '{') {
        None
    } else {
        let jm = spec_skip_ws(s, j + 1);
        if !(j < jm && jm <= s.len()) {
            None
        } else {
            match spec_field_members(s, jm, key, None) {
                Some((acc, end)) => {
                    let t = spec_skip_ws(s, end);
                    if t != s.len() {
                        None
                    } else {
                        Some(acc)
                    }
                },
                None => None,
            }
        }
    }
}

fn field_members(v: &Vec<char>, i: usize, key: &str, acc: Option<Option<Vec<char>>>) -> (r:
    Option<(Option<Option<Vec<char>>>, usize)>)
    requires
        i <= v@.len(),
    ensures
        match spec_field_members(v@, i as int, key@, opt2_view(acc)) {
            Some(p) => r matches Some(q) && opt2_view(q.0) == p.0 && q.1 == p.1,
            None => r is None,
        },
        r matches Some(q) ==> i < q.1 <= v@.len(),
    decreases v@.len() - i,
{
    if i >= v.len() {
        return None;
    }
    if v[i] == '}' {
        return Some((acc, i + 1));
    }
    match parse_string(v, i) {
        Some((k, j)) => {
            let j2 = skip_ws(v, j);
            if !(j2 < v.len() && v[j2] == ':') {
                return None;
            }
            let jv = skip_ws(v, j2 + 1);
            let step: Option<(Option<Option<Vec<char>>>, usize)> = if crate::strutil::chars_eq_str(
                &k,
                key,
            ) {
                if acc.is_some() {
                    None
                } else if jv < v.len() && v[jv] == '"' {
                    match parse_string(v, jv) {
                        Some((txt, e)) => Some((Some(Some(txt)), e)),
                        None => None,
                    }
                } else if jv < v.len() && v[jv] == 'n' {
                    proof {
                        reveal_strlit("null");
                    }
                    match skip_lit4(v, jv, 'u', 'l', 'l', Ghost("null"@)) {
                        Some(e) => Some((Some(None), e)),
                        None => None,
                    }
                } else {
                    proof {
                        reveal_strlit("null");
                        if 0 <= jv as int && jv as int + 4 <= v@.len() {
                            assert(v@.subrange(jv as int, jv as int + 4)[0] == v@[jv as int]);
                        }
                    }
                    None
                }
            } else {
                match skip_value(v, jv) {
                    Some(e) => Some((acc, e)),
                    None => None,
                }
            };
            match step {
                Some((acc2, jn)) => {
                    let j3 = skip_ws(v, jn);
                    if j3 < v.len() && v[j3] == ',' {
                        let jm = skip_ws(v, j3 + 1);
                        if jm < v.len() && v[jm] != '}' {
                            field_members(v, jm, key, acc2)
                        } else {
                            None
                        }
                    } else if j3 < v.len() && v[j3] == '}' {
                        Some((acc2, j3 + 1))
                    } else {
                        None
                    }
                },
                None => None,
            }
        },
        None => None,
    }
}

/// Reads one named string-or-null field out of a JSON object document.
pub fn string_field(v: &Vec<char>, key: &str) -> (r: Option<Option<Option<String>>>)
    ensures
        match spec_string_field(v@, key@) {
            Some(acc) => r matches Some(q) && (match (q, acc) {
                (Some(Some(a)), Some(Some(b))) => a@ == b,
                (Some(None), Some(None)) => true,
                (None, None) => true,
                _ => false,
            }),
            None => r is None,
        },
{
    let j = skip_ws(v, 0);
    if !(j < v.len() && v[j] == '{') {
        return None;
    }
    let jm = skip_ws(v, j + 1);
    match field_members(v, jm, key, None) {
        Some((acc, end)) => {
            let t = skip_ws(v, end);
            if t != v.len() {
                return None;
            }
            match acc {
                Some(Some(txt)) => Some(Some(Some(crate::strutil::chars_to_string(&txt)))),
                Some(None) => Some(Some(None)),
                None => Some(None),
            }
        },
        None => None,
    }
}

} // verus!




