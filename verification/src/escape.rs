//! Percent-decoding of the components of a request path.

use vstd::prelude::*;
use vstd::string::StringSliceAdditionalSpecFns;
use vstd::utf8::{decode_utf8, valid_utf8};
use crate::wif_error::{bad_request, WifError};

verus! {

/// The message for a component that cannot be decoded.
pub const ESCAPE_REFUSED: &'static str = "Request path cannot be decoded";

/// Whether `b` is a hexadecimal digit in ASCII.
pub open spec fn is_hex(b: u8) -> bool {
    (0x30 <= b && b <= 0x39) || (0x41 <= b && b <= 0x46) || (0x61 <= b && b <= 0x66)
}

/// The number that the hexadecimal digit `b` stands for.
pub open spec fn hex_value(b: u8) -> int {
    if b <= 0x39 {
        b - 0x30
    } else if b <= 0x46 {
        b - 0x41 + 10
    } else {
        b - 0x61 + 10
    }
}

/// The bytes that `b` stands for: `%` and two hexadecimal digits stand for
/// one byte, every other byte for itself. None where a `%` is not followed
/// by two hexadecimal digits.
pub open spec fn unescaped(b: Seq<u8>) -> Option<Seq<u8>>
    decreases b.len(),
{
    if b.len() == 0 {
        Some(Seq::<u8>::empty())
    } else if b[0] == 0x25 {
        if b.len() >= 3 && is_hex(b[1]) && is_hex(b[2]) {
            match unescaped(b.skip(3)) {
                Some(rest) => Some(seq![(hex_value(b[1]) * 16 + hex_value(b[2])) as u8] + rest),
                None => None,
            }
        } else {
            None
        }
    } else {
        match unescaped(b.skip(1)) {
            Some(rest) => Some(seq![b[0]] + rest),
            None => None,
        }
    }
}

/// The text that a component of a request path stands for: its escapes are
/// resolved and the bytes are read as UTF-8. None where an escape is
/// incomplete or the bytes are no UTF-8.
pub open spec fn decoded_component(s: Seq<u8>) -> Option<Seq<char>> {
    match unescaped(s) {
        Some(bytes) => if valid_utf8(bytes) {
            Some(decode_utf8(bytes))
        } else {
            None
        },
        None => None,
    }
}

/// The number of a hexadecimal digit, if `b` is one.
pub fn hex_digit(b: u8) -> (r: Option<u8>)
    ensures
        match r {
            Some(v) => is_hex(b) && v == hex_value(b),
            None => !is_hex(b),
        },
{
    if b >= 0x30 && b <= 0x39 {
        Some(b - 0x30)
    } else if b >= 0x41 && b <= 0x46 {
        Some(b - 0x41 + 10)
    } else if b >= 0x61 && b <= 0x66 {
        Some(b - 0x61 + 10)
    } else {
        None
    }
}

/// Resolves the escapes of `b`.
pub fn unescape(b: &[u8]) -> (r: Option<Vec<u8>>)
    ensures
        match r {
            Some(v) => unescaped(b@) == Some(v@),
            None => unescaped(b@) is None,
        },
{
    let mut out: Vec<u8> = Vec::new();
    let mut i: usize = 0;
    proof {
        assert(b@.skip(0) =~= b@);
        assert(Seq::<u8>::empty() + unescaped(b@)->0 =~= unescaped(b@)->0);
    }
    while i < b.len()
        invariant
            i <= b.len(),
            unescaped(b@) == (match unescaped(b@.skip(i as int)) {
                Some(rest) => Some(out@ + rest),
                None => None,
            }),
        decreases b.len() - i,
    {
        let ghost tail = b@.skip(i as int);
        proof {
            assert(tail[0] == b@[i as int]);
        }
        if b[i] == 0x25 {
            if b.len() - i < 3 {
                return None;
            }
            proof {
                assert(tail[1] == b@[i + 1]);
                assert(tail[2] == b@[i + 2]);
                assert(tail.skip(3) =~= b@.skip(i + 3));
            }
            let high = match hex_digit(b[i + 1]) {
                Some(v) => v,
                None => {
                    return None;
                },
            };
            let low = match hex_digit(b[i + 2]) {
                Some(v) => v,
                None => {
                    return None;
                },
            };
            let byte: u8 = high * 16 + low;
            proof {
                let rest = unescaped(b@.skip(i + 3));
                if rest is Some {
                    assert(out@.push(byte) + rest->0 =~= out@ + (seq![byte] + rest->0));
                }
            }
            out.push(byte);
            i += 3;
        } else {
            proof {
                assert(tail.skip(1) =~= b@.skip(i + 1));
                let rest = unescaped(b@.skip(i + 1));
                if rest is Some {
                    assert(out@.push(b@[i as int]) + rest->0 =~= out@ + (seq![b@[i as int]]
                        + rest->0));
                }
            }
            out.push(b[i]);
            i += 1;
        }
    }
    proof {
        assert(b@.skip(b.len() as int) =~= Seq::<u8>::empty());
        assert(out@ + Seq::<u8>::empty() =~= out@);
    }
    Some(out)
}

/// Reads bytes as UTF-8. Trusted: std's `String::from_utf8`, which gives the
/// text of the bytes where they are UTF-8 and fails where they are not.
#[verifier::external_body]
pub(crate) fn utf8_text(bytes: Vec<u8>) -> (r: Option<String>)
    ensures
        match r {
            Some(s) => valid_utf8(bytes@) && s@ == decode_utf8(bytes@),
            None => !valid_utf8(bytes@),
        },
{
    String::from_utf8(bytes).ok()
}

/// Decodes a component of a request path; a component that cannot be
/// decoded is a bad request.
pub fn percent_decode(component: &str) -> (r: Result<String, WifError>)
    ensures
        match decoded_component(component.spec_bytes()) {
            Some(text) => r is Ok && r->Ok_0@ == text,
            None => r is Err && r->Err_0@ == bad_request(ESCAPE_REFUSED@),
        },
{
    let bytes = match unescape(component.as_bytes()) {
        Some(b) => b,
        None => {
            return Err(WifError::bad_request(ESCAPE_REFUSED.to_owned()));
        },
    };
    match utf8_text(bytes) {
        Some(text) => Ok(text),
        None => Err(WifError::bad_request(ESCAPE_REFUSED.to_owned())),
    }
}

} // verus!
