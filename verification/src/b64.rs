//! Base64 decoding for the standard alphabet without padding, as bearer
//! tokens carry their claims segment: `A`-`Z`, `a`-`z`, `0`-`9`, `+`, `/`,
//! no `=`, and the unused bits of a trailing partial group must be zero.

use vstd::prelude::*;

verus! {

/// The 6-bit value of a standard-alphabet symbol, `None` for any other
/// character (including `=`).
pub open spec fn b64_val(c: char) -> Option<u8> {
    let u = c as u32;
    if 'A' <= c && c <= 'Z' {
        Some((u - 65) as u8)
    } else if 'a' <= c && c <= 'z' {
        Some((u - 97 + 26) as u8)
    } else if '0' <= c && c <= '9' {
        Some((u - 48 + 52) as u8)
    } else if c == '+' {
        Some(62u8)
    } else if c == '/' {
        Some(63u8)
    } else {
        None
    }
}

pub open spec fn b64_byte0(v0: u8, v1: u8) -> u8 {
    ((v0 & 0x3f) << 2) | (v1 >> 4)
}

pub open spec fn b64_byte1(v1: u8, v2: u8) -> u8 {
    ((v1 & 0xf) << 4) | (v2 >> 2)
}

pub open spec fn b64_byte2(v2: u8, v3: u8) -> u8 {
    ((v2 & 0x3) << 6) | (v3 & 0x3f)
}

/// The bytes encoded by `s`, or `None` when `s` is not a well-formed
/// unpadded encoding: a length of 1 mod 4, a character outside the alphabet,
/// or nonzero unused bits in a trailing partial group.
pub open spec fn spec_b64_decode(s: Seq<char>) -> Option<Seq<u8>>
    decreases s.len(),
{
    if s.len() == 0 {
        Some(Seq::empty())
    } else if s.len() == 1 {
        None
    } else if s.len() == 2 {
        match (b64_val(s[0]), b64_val(s[1])) {
            (Some(v0), Some(v1)) => if v1 & 0xf == 0 {
                Some(seq![b64_byte0(v0, v1)])
            } else {
                None
            },
            _ => None,
        }
    } else if s.len() == 3 {
        match (b64_val(s[0]), b64_val(s[1]), b64_val(s[2])) {
            (Some(v0), Some(v1), Some(v2)) => if v2 & 0x3 == 0 {
                Some(seq![b64_byte0(v0, v1), b64_byte1(v1, v2)])
            } else {
                None
            },
            _ => None,
        }
    } else {
        match (b64_val(s[0]), b64_val(s[1]), b64_val(s[2]), b64_val(s[3])) {
            (Some(v0), Some(v1), Some(v2), Some(v3)) => match spec_b64_decode(s.skip(4)) {
                Some(rest) => Some(
                    seq![b64_byte0(v0, v1), b64_byte1(v1, v2), b64_byte2(v2, v3)] + rest,
                ),
                None => None,
            },
            _ => None,
        }
    }
}

fn b64_char_val(c: char) -> (r: Option<u8>)
    ensures
        r == b64_val(c),
        r matches Some(v) ==> v < 64,
{
    let u = c as u32;
    if 'A' <= c && c <= 'Z' {
        Some((u - 65) as u8)
    } else if 'a' <= c && c <= 'z' {
        Some((u - 97 + 26) as u8)
    } else if '0' <= c && c <= '9' {
        Some((u - 48 + 52) as u8)
    } else if c == '+' {
        Some(62u8)
    } else if c == '/' {
        Some(63u8)
    } else {
        None
    }
}

fn decode_group_into(v: &Vec<char>, i: usize, out: &mut Vec<u8>) -> (ok: bool)
    requires
        i <= v@.len(),
    ensures
        match spec_b64_decode(v@.skip(i as int)) {
            Some(bs) => ok && final(out)@ == old(out)@ + bs,
            None => !ok,
        },
    decreases v@.len() - i,
{
    let n = v.len() - i;
    if n == 0 {
        proof {
            assert(final(out)@ =~= out@ + Seq::<u8>::empty());
        }
        true
    } else if n == 1 {
        false
    } else if n == 2 {
        let (c0, c1) = (v[i], v[i + 1]);
        proof {
            assert(v@.skip(i as int)[0] == c0);
            assert(v@.skip(i as int)[1] == c1);
        }
        match (b64_char_val(c0), b64_char_val(c1)) {
            (Some(v0), Some(v1)) => {
                if v1 & 0xf == 0 {
                    let ghost pre = out@;
                    out.push(((v0 & 0x3f) << 2) | (v1 >> 4));
                    proof {
                        assert(out@ =~= pre + seq![b64_byte0(v0, v1)]);
                    }
                    true
                } else {
                    false
                }
            },
            _ => false,
        }
    } else if n == 3 {
        let (c0, c1, c2) = (v[i], v[i + 1], v[i + 2]);
        proof {
            assert(v@.skip(i as int)[0] == c0);
            assert(v@.skip(i as int)[1] == c1);
            assert(v@.skip(i as int)[2] == c2);
        }
        match (b64_char_val(c0), b64_char_val(c1), b64_char_val(c2)) {
            (Some(v0), Some(v1), Some(v2)) => {
                if v2 & 0x3 == 0 {
                    let ghost pre = out@;
                    out.push(((v0 & 0x3f) << 2) | (v1 >> 4));
                    out.push(((v1 & 0xf) << 4) | (v2 >> 2));
                    proof {
                        assert(out@ =~= pre + seq![b64_byte0(v0, v1), b64_byte1(v1, v2)]);
                    }
                    true
                } else {
                    false
                }
            },
            _ => false,
        }
    } else {
        let (c0, c1, c2, c3) = (v[i], v[i + 1], v[i + 2], v[i + 3]);
        proof {
            assert(v@.skip(i as int)[0] == c0);
            assert(v@.skip(i as int)[1] == c1);
            assert(v@.skip(i as int)[2] == c2);
            assert(v@.skip(i as int)[3] == c3);
        }
        match (b64_char_val(c0), b64_char_val(c1), b64_char_val(c2), b64_char_val(c3)) {
            (Some(v0), Some(v1), Some(v2), Some(v3)) => {
                let ghost pre = out@;
                out.push(((v0 & 0x3f) << 2) | (v1 >> 4));
                out.push(((v1 & 0xf) << 4) | (v2 >> 2));
                out.push(((v2 & 0x3) << 6) | (v3 & 0x3f));
                proof {
                    assert(out@ =~= pre + seq![
                        b64_byte0(v0, v1),
                        b64_byte1(v1, v2),
                        b64_byte2(v2, v3),
                    ]);
                    assert(v@.skip(i as int).skip(4) =~= v@.skip(i + 4));
                }
                let ghost mid = out@;
                let ok = decode_group_into(v, i + 4, out);
                proof {
                    match spec_b64_decode(v@.skip(i + 4)) {
                        Some(rest) => {
                            assert(out@ =~= pre + (seq![
                                b64_byte0(v0, v1),
                                b64_byte1(v1, v2),
                                b64_byte2(v2, v3),
                            ] + rest));
                        },
                        None => {
                        },
                    }
                }
                ok
            },
            _ => false,
        }
    }
}

/// Decodes an unpadded standard-alphabet encoding, or returns `None` when the
/// characters are not one.
pub fn b64_decode(v: &Vec<char>) -> (r: Option<Vec<u8>>)
    ensures
        match spec_b64_decode(v@) {
            Some(bs) => r matches Some(out) && out@ == bs,
            None => r is None,
        },
{
    let mut out: Vec<u8> = Vec::new();
    proof {
        assert(v@.skip(0) =~= v@);
    }
    if decode_group_into(v, 0, &mut out) {
        Some(out)
    } else {
        None
    }
}

} // verus!
