//! Lossy UTF-16 decoding of the buffer filled by the companion module.
//!
//! The companion module reports the Java home directory as a zero-terminated
//! UTF-16 string. The launcher strips the terminating zero code unit and
//! decodes the rest, replacing any code unit sequence that is not valid
//! UTF-16 (an unpaired surrogate) with the Unicode replacement character.

use vstd::prelude::*;

verus! {

/// The character substituted for an unpaired surrogate code unit.
pub const REPLACEMENT_CHARACTER: char = '\u{FFFD}';

/// A leading (high) surrogate code unit.
pub open spec fn is_high_surrogate(u: u16) -> bool {
    0xD800 <= u && u <= 0xDBFF
}

/// A trailing (low) surrogate code unit.
pub open spec fn is_low_surrogate(u: u16) -> bool {
    0xDC00 <= u && u <= 0xDFFF
}

/// The Unicode scalar value encoded by a surrogate pair.
pub open spec fn combined_scalar(hi: u16, lo: u16) -> int {
    0x10000 + (hi - 0xD800) * 0x400 + (lo - 0xDC00)
}

/// Lossy UTF-16 decoding: surrogate pairs become one character, unpaired
/// surrogates become the replacement character, and every other code unit is
/// its own character.
pub open spec fn decode_utf16(s: Seq<u16>) -> Seq<char>
    decreases s.len(),
{
    if s.len() == 0 {
        Seq::empty()
    } else if is_high_surrogate(s[0]) && s.len() >= 2 && is_low_surrogate(s[1]) {
        seq![combined_scalar(s[0], s[1]) as char] + decode_utf16(s.skip(2))
    } else if is_high_surrogate(s[0]) || is_low_surrogate(s[0]) {
        seq![REPLACEMENT_CHARACTER] + decode_utf16(s.skip(1))
    } else {
        seq![s[0] as char] + decode_utf16(s.skip(1))
    }
}

/// The reported buffer without its trailing zero code unit.
pub open spec fn strip_terminator(s: Seq<u16>) -> Seq<u16> {
    if s.len() > 0 {
        s.take(s.len() - 1)
    } else {
        s
    }
}

/// Relies on char::from_u32: a code point that is neither a surrogate nor
/// beyond U+10FFFF converts to the character of that value; anything else
/// yields `None`.
pub assume_specification[ char::from_u32 ](i: u32) -> (r: Option<char>)
    ensures
        (i < 0xD800 || (0xE000 <= i && i <= 0x10FFFF)) ==> r == Some(i as char),
        !(i < 0xD800 || (0xE000 <= i && i <= 0x10FFFF)) ==> r is None,
;

/// Relies on String::push: appends one character to the string.
pub assume_specification[ String::push ](s: &mut String, ch: char)
    ensures
        final(s)@ == old(s)@.push(ch),
;

/// Decodes a UTF-16 code unit sequence, replacing unpaired surrogates.
pub fn decode_utf16_lossy(units: &[u16]) -> (r: String)
    ensures
        r@ == decode_utf16(units@),
{
    let mut out = String::new();
    let mut i: usize = 0;
    proof {
        assert(units@.skip(0) =~= units@);
        assert(out@ + decode_utf16(units@) =~= decode_utf16(units@));
    }
    while i < units.len()
        invariant
            i <= units@.len(),
            decode_utf16(units@) == out@ + decode_utf16(units@.skip(i as int)),
        decreases units@.len() - i,
    {
        let u = units[i];
        proof {
            assert(units@.skip(i as int)[0] == units@[i as int]);
        }
        if 0xD800 <= u && u <= 0xDBFF {
            if i + 1 < units.len() && 0xDC00 <= units[i + 1] && units[i + 1] <= 0xDFFF {
                let lo = units[i + 1];
                let cp: u32 = 0x10000u32 + (u as u32 - 0xD800u32) * 0x400u32 + (lo as u32
                    - 0xDC00u32);
                let c = match char::from_u32(cp) {
                    Some(c) => c,
                    None => REPLACEMENT_CHARACTER,
                };
                proof {
                    assert(units@.skip(i as int)[1] == units@[i as int + 1]);
                    assert(units@.skip(i as int).skip(2) =~= units@.skip(i as int + 2));
                    assert(out@.push(c) + decode_utf16(units@.skip(i as int + 2)) == out@ + (seq![c]
                        + decode_utf16(units@.skip(i as int + 2))));
                }
                out.push(c);
                i = i + 2;
            } else {
                proof {
                    assert(units@.skip(i as int).skip(1) =~= units@.skip(i as int + 1));
                    assert(out@.push(REPLACEMENT_CHARACTER) + decode_utf16(
                        units@.skip(i as int + 1),
                    ) == out@ + (seq![REPLACEMENT_CHARACTER] + decode_utf16(
                        units@.skip(i as int + 1),
                    )));
                }
                out.push(REPLACEMENT_CHARACTER);
                i = i + 1;
            }
        } else if 0xDC00 <= u && u <= 0xDFFF {
            proof {
                assert(units@.skip(i as int).skip(1) =~= units@.skip(i as int + 1));
                assert(out@.push(REPLACEMENT_CHARACTER) + decode_utf16(units@.skip(i as int + 1))
                    == out@ + (seq![REPLACEMENT_CHARACTER] + decode_utf16(
                    units@.skip(i as int + 1),
                )));
            }
            out.push(REPLACEMENT_CHARACTER);
            i = i + 1;
        } else {
            let c = match char::from_u32(u as u32) {
                Some(c) => c,
                None => REPLACEMENT_CHARACTER,
            };
            proof {
                assert(units@.skip(i as int).skip(1) =~= units@.skip(i as int + 1));
                assert(out@.push(c) + decode_utf16(units@.skip(i as int + 1)) == out@ + (seq![c]
                    + decode_utf16(units@.skip(i as int + 1))));
            }
            out.push(c);
            i = i + 1;
        }
    }
    proof {
        assert(units@.skip(i as int) =~= Seq::<u16>::empty());
    }
    out
}

/// Decodes the companion module's zero-terminated buffer: the trailing zero
/// code unit is stripped and the rest is decoded lossily.
pub fn decode_home_buffer(units: &Vec<u16>) -> (r: String)
    ensures
        r@ == decode_utf16(strip_terminator(units@)),
{
    if units.len() > 0 {
        let prefix = vstd::slice::slice_subrange(units.as_slice(), 0, units.len() - 1);
        proof {
            assert(prefix@ =~= strip_terminator(units@));
        }
        decode_utf16_lossy(prefix)
    } else {
        String::new()
    }
}

} // verus!
