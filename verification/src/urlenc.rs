//! Percent encoding and decoding as the login handshake uses them.
//!
//! Encoding keeps unreserved characters (letters, digits, `-`, `.`, `_`,
//! `~`) and writes every other character's UTF-8 bytes as `%XX` with
//! uppercase hex. Decoding is lenient: a `%` not followed by two hex digits
//! stays literal; the unescaped bytes must form valid UTF-8 or the decode
//! fails.

use crate::json::hex_val;
use vstd::prelude::*;
use vstd::utf8::{decode_utf8, encode_scalar, is_scalar, valid_utf8};

verus! {

/// Characters that percent encoding leaves as they are.
pub open spec fn is_unreserved(c: char) -> bool {
    ('A' <= c && c <= 'Z') || ('a' <= c && c <= 'z') || ('0' <= c && c <= '9') || c == '-' || c
        == '.' || c == '_' || c == '~'
}

/// The uppercase hex digit for `d`.
pub open spec fn spec_hex_digit(d: int) -> char {
    if d == 0 {
        '0'
    } else if d == 1 {
        '1'
    } else if d == 2 {
        '2'
    } else if d == 3 {
        '3'
    } else if d == 4 {
        '4'
    } else if d == 5 {
        '5'
    } else if d == 6 {
        '6'
    } else if d == 7 {
        '7'
    } else if d == 8 {
        '8'
    } else if d == 9 {
        '9'
    } else if d == 10 {
        'A'
    } else if d == 11 {
        'B'
    } else if d == 12 {
        'C'
    } else if d == 13 {
        'D'
    } else if d == 14 {
        'E'
    } else {
        'F'
    }
}

/// `%XX` escapes for each byte.
pub open spec fn spec_pct_bytes(bs: Seq<u8>) -> Seq<char>
    decreases bs.len(),
{
    if bs.len() == 0 {
        Seq::empty()
    } else {
        seq!['%', spec_hex_digit(bs[0] as int / 16), spec_hex_digit(bs[0] as int % 16)]
            + spec_pct_bytes(bs.skip(1))
    }
}

/// The percent encoding of `s`.
pub open spec fn spec_pct_encode(s: Seq<char>) -> Seq<char>
    decreases s.len(),
{
    if s.len() == 0 {
        Seq::empty()
    } else {
        let head = if is_unreserved(s[0]) {
            seq![s[0]]
        } else {
            spec_pct_bytes(encode_scalar(s[0] as u32))
        };
        head + spec_pct_encode(s.skip(1))
    }
}

/// The bytes that lenient unescaping yields: `%` with two hex digits becomes
/// one byte, everything else contributes its UTF-8 bytes.
pub open spec fn spec_pct_unescape(s: Seq<char>, i: int) -> Seq<u8>
    decreases s.len() - i,
{
    if !(0 <= i && i < s.len()) {
        Seq::empty()
    } else if s[i] == '%' && i + 2 < s.len() && hex_val(s[i + 1]) is Some && hex_val(s[i + 2])
        is Some {
        seq![
            (hex_val(s[i + 1]).unwrap() * 16 + hex_val(s[i + 2]).unwrap()) as u8,
        ] + spec_pct_unescape(s, i + 3)
    } else {
        encode_scalar(s[i] as u32) + spec_pct_unescape(s, i + 1)
    }
}

/// The decoded characters, `None` when the unescaped bytes are not UTF-8.
pub open spec fn spec_pct_decode(s: Seq<char>) -> Option<Seq<char>> {
    let bytes = spec_pct_unescape(s, 0);
    if valid_utf8(bytes) {
        Some(decode_utf8(bytes))
    } else {
        None
    }
}

fn hex_digit_char(d: u8) -> (r: char)
    requires
        d < 16,
    ensures
        r == spec_hex_digit(d as int),
{
    match d {
        0 => '0',
        1 => '1',
        2 => '2',
        3 => '3',
        4 => '4',
        5 => '5',
        6 => '6',
        7 => '7',
        8 => '8',
        9 => '9',
        10 => 'A',
        11 => 'B',
        12 => 'C',
        13 => 'D',
        14 => 'E',
        _ => 'F',
    }
}

/// Appends the UTF-8 encoding of `c` to `out`.
pub fn push_utf8(out: &mut Vec<u8>, c: char)
    ensures
        final(out)@ == old(out)@ + encode_scalar(c as u32),
{
    let u = c as u32;
    proof {
        vstd::utf8::char_is_scalar(c);
        assert(is_scalar(u));
    }
    let ghost pre = out@;
    if u <= 0x7F {
        out.push((u & 0x7F) as u8);
    } else if u <= 0x7FF {
        out.push(0xC0u8 | ((u >> 6) & 0x1F) as u8);
        out.push(0x80u8 | (u & 0x3F) as u8);
    } else if u <= 0xFFFF {
        out.push(0xE0u8 | ((u >> 12) & 0x0F) as u8);
        out.push(0x80u8 | ((u >> 6) & 0x3F) as u8);
        out.push(0x80u8 | (u & 0x3F) as u8);
    } else {
        out.push(0xF0u8 | ((u >> 18) & 0x7) as u8);
        out.push(0x80u8 | ((u >> 12) & 0x3F) as u8);
        out.push(0x80u8 | ((u >> 6) & 0x3F) as u8);
        out.push(0x80u8 | (u & 0x3F) as u8);
    }
    proof {
        assert(out@ =~= pre + encode_scalar(u));
    }
}

fn push_pct_byte(out: &mut Vec<char>, b: u8)
    ensures
        final(out)@ == old(out)@ + seq![
            '%',
            spec_hex_digit(b as int / 16),
            spec_hex_digit(b as int % 16),
        ],
{
    let ghost pre = out@;
    out.push('%');
    out.push(hex_digit_char(b / 16));
    out.push(hex_digit_char(b % 16));
    proof {
        assert(out@ =~= pre + seq![
            '%',
            spec_hex_digit(b as int / 16),
            spec_hex_digit(b as int % 16),
        ]);
    }
}

fn pct_encode_from(v: &Vec<char>, i: usize, out: &mut Vec<char>)
    requires
        i <= v@.len(),
    ensures
        final(out)@ == old(out)@ + spec_pct_encode(v@.skip(i as int)),
    decreases v@.len() - i,
{
    if i >= v.len() {
        proof {
            assert(final(out)@ =~= out@ + spec_pct_encode(v@.skip(i as int)));
        }
        return ;
    }
    let c = v[i];
    proof {
        assert(v@.skip(i as int)[0] == c);
        assert(v@.skip(i as int).skip(1) =~= v@.skip(i + 1));
    }
    let ghost pre = out@;
    if ('A' <= c && c <= 'Z') || ('a' <= c && c <= 'z') || ('0' <= c && c <= '9') || c == '-' || c
        == '.' || c == '_' || c == '~' {
        out.push(c);
    } else {
        let mut bytes: Vec<u8> = Vec::new();
        push_utf8(&mut bytes, c);
        let mut j: usize = 0;
        while j < bytes.len()
            invariant
                j <= bytes@.len(),
                bytes@ == encode_scalar(c as u32),
                out@ == pre + spec_pct_bytes(bytes@.take(j as int)),
            decreases bytes@.len() - j,
        {
            let ghost before = out@;
            push_pct_byte(out, bytes[j]);
            proof {
                lemma_pct_bytes_take(bytes@, j as int);
            }
            j = j + 1;
        }
        proof {
            assert(bytes@.take(bytes@.len() as int) =~= bytes@);
        }
    }
    let ghost mid = out@;
    pct_encode_from(v, i + 1, out);
    proof {
        assert(out@ =~= pre + spec_pct_encode(v@.skip(i as int)));
    }
}

proof fn lemma_pct_bytes_take(bs: Seq<u8>, j: int)
    requires
        0 <= j < bs.len(),
    ensures
        spec_pct_bytes(bs.take(j + 1)) == spec_pct_bytes(bs.take(j)) + seq![
            '%',
            spec_hex_digit(bs[j] as int / 16),
            spec_hex_digit(bs[j] as int % 16),
        ],
    decreases j,
{
    if j == 0 {
        let t = bs.take(1);
        assert(t.len() == 1);
        assert(t[0] == bs[0]);
        assert(t.skip(1) =~= Seq::<u8>::empty());
        assert(spec_pct_bytes(t) == seq![
            '%',
            spec_hex_digit(t[0] as int / 16),
            spec_hex_digit(t[0] as int % 16),
        ] + spec_pct_bytes(t.skip(1)));
        assert(spec_pct_bytes(Seq::<u8>::empty()) == Seq::<char>::empty());
        assert(spec_pct_bytes(t) =~= seq![
            '%',
            spec_hex_digit(bs[0] as int / 16),
            spec_hex_digit(bs[0] as int % 16),
        ]);
        assert(bs.take(0).len() == 0);
        assert(spec_pct_bytes(bs.take(0)) =~= Seq::<char>::empty());
    } else {
        lemma_pct_bytes_take(bs.skip(1), j - 1);
        assert(bs.take(j + 1).skip(1) =~= bs.skip(1).take(j));
        assert(bs.take(j).skip(1) =~= bs.skip(1).take(j - 1));
        assert(bs.take(j + 1)[0] == bs[0]);
        assert(bs.take(j)[0] == bs[0]);
        assert(bs.skip(1)[j - 1] == bs[j]);
    }
}

/// The percent encoding of `s`.
pub fn pct_encode(s: &str) -> (r: String)
    ensures
        r@ == spec_pct_encode(s@),
{
    let v = crate::strutil::str_to_chars(s);
    let mut out: Vec<char> = Vec::new();
    proof {
        assert(v@.skip(0) =~= v@);
    }
    pct_encode_from(&v, 0, &mut out);
    crate::strutil::chars_to_string(&out)
}

fn pct_unescape_from(v: &Vec<char>, i: usize, out: &mut Vec<u8>)
    requires
        i <= v@.len(),
    ensures
        final(out)@ == old(out)@ + spec_pct_unescape(v@, i as int),
    decreases v@.len() - i,
{
    if i >= v.len() {
        proof {
            assert(final(out)@ =~= out@ + spec_pct_unescape(v@, i as int));
        }
        return ;
    }
    let c = v[i];
    let ghost pre = out@;
    if c == '%' && v.len() - i > 2 {
        let h1 = crate::json::hex_char_val(v[i + 1]);
        let h2 = crate::json::hex_char_val(v[i + 2]);
        match (h1, h2) {
            (Some(a), Some(b)) => {
                out.push(a * 16 + b);
                pct_unescape_from(v, i + 3, out);
                proof {
                    assert(out@ =~= pre + spec_pct_unescape(v@, i as int));
                }
                return ;
            },
            _ => (),
        }
    }
    push_utf8(out, c);
    pct_unescape_from(v, i + 1, out);
    proof {
        assert(out@ =~= pre + spec_pct_unescape(v@, i as int));
    }
}

/// Lenient percent decoding: `None` exactly when the unescaped bytes are
/// not valid UTF-8.
pub fn pct_decode(v: &Vec<char>) -> (r: Option<String>)
    ensures
        match spec_pct_decode(v@) {
            Some(cs) => r matches Some(s) && s@ == cs,
            None => r is None,
        },
{
    let mut bytes: Vec<u8> = Vec::new();
    pct_unescape_from(v, 0, &mut bytes);
    crate::strutil::from_utf8_string(bytes)
}

} // verus!
