//! Basic authentication: the raw credential is base64-encoded once at build
//! time, and every request carries `Basic <base64(key)>` as its
//! authorization header value.

use base64::Engine;
use vstd::prelude::*;
use vstd::string::StrSliceExecFns;

verus! {

/// The base64 rendering (standard alphabet, padded) of a byte sequence, as
/// computed by the base64 crate's standard engine.
pub uninterp spec fn base64_of(bytes: Seq<u8>) -> Seq<char>;

/// Relies on base64's `Engine::encode` with the standard padded engine: the
/// result is a function of the input bytes alone.
#[verifier::external_body]
pub(crate) fn encode_base64(data: &[u8]) -> (r: String)
    ensures
        r@ == base64_of(data@),
{
    base64::engine::general_purpose::STANDARD.encode(data)
}

/// Relies on base64's `Engine::decode` with the standard padded engine: it
/// inverts `Engine::encode`, so a string that is exactly the encoding of some
/// bytes decodes to those bytes.
#[verifier::external_body]
pub(crate) fn decode_base64(s: &str) -> (r: Option<Vec<u8>>)
    ensures
        forall|b: Seq<u8>| s@ == base64_of(b) ==> r is Some && r->0@ == b,
{
    base64::engine::general_purpose::STANDARD.decode(s).ok()
}

/// The authorization header value derived from the raw key bytes.
pub open spec fn basic_auth_header(key_bytes: Seq<u8>) -> Seq<char> {
    "Basic "@ + base64_of(key_bytes)
}

/// Recovers the raw API key bytes from an authorization header value: strips
/// the `Basic ` prefix and decodes the base64 remainder. Inverts the header
/// construction: a header built from key bytes `k` yields exactly `k`.
pub fn recover_api_key(header: &str) -> (r: Option<Vec<u8>>)
    ensures
        forall|k: Seq<u8>| #![trigger base64_of(k)]
            header@ == basic_auth_header(k) ==> r is Some && r->0@ == k,
{
    proof {
        reveal_strlit("Basic ");
    }
    let n = header.unicode_len();
    if n >= 6 && header.get_char(0) == 'B' && header.get_char(1) == 'a' && header.get_char(2)
        == 's' && header.get_char(3) == 'i' && header.get_char(4) == 'c' && header.get_char(5)
        == ' ' {
        let rest = header.substring_char(6, n);
        let d = decode_base64(rest);
        proof {
            assert forall|k: Seq<u8>| header@ == basic_auth_header(k) implies d is Some && d->0@
                == k by {
                assert(rest@ =~= base64_of(k));
            }
        }
        d
    } else {
        proof {
            assert forall|k: Seq<u8>| header@ != basic_auth_header(k) by {
                if header@ == basic_auth_header(k) {
                    assert(header@.len() == 6 + base64_of(k).len());
                    assert(header@[0] == 'B' && header@[1] == 'a' && header@[2] == 's' && header@[3]
                        == 'i' && header@[4] == 'c' && header@[5] == ' ');
                }
            }
        }
        None
    }
}

} // verus!
