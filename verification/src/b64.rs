use vstd::prelude::*;

use base64::Engine;

verus! {

/// The classic Base64 rendering of a byte sequence: RFC 4648 standard
/// alphabet (`+`, `/`) with `=` padding, as base64's `STANDARD` engine
/// produces it.
pub uninterp spec fn b64_classic(b: Seq<u8>) -> Seq<char>;

/// The URL-safe Base64 rendering of a byte sequence: RFC 4648 URL-safe
/// alphabet (`-`, `_`) with `=` padding, as base64's `URL_SAFE` engine
/// produces it.
pub uninterp spec fn b64_urlsafe(b: Seq<u8>) -> Seq<char>;

/// Relies on base64's `Engine::encode` with the `STANDARD` engine: the
/// classic-alphabet padded rendering of the input bytes, four output
/// characters for every started group of three input bytes.
#[verifier::external_body]
fn encode_classic(bytes: &[u8]) -> (r: String)
    ensures
        r@ == b64_classic(bytes@),
        r@.len() == 4 * ((bytes@.len() + 2) / 3),
{
    base64::engine::general_purpose::STANDARD.encode(bytes)
}

/// Relies on base64's `Engine::encode` with the `URL_SAFE` engine: the
/// URL-safe padded rendering of the input bytes, four output characters for
/// every started group of three input bytes.
#[verifier::external_body]
fn encode_urlsafe(bytes: &[u8]) -> (r: String)
    ensures
        r@ == b64_urlsafe(bytes@),
        r@.len() == 4 * ((bytes@.len() + 2) / 3),
{
    base64::engine::general_purpose::URL_SAFE.encode(bytes)
}

/// Relies on base64's `Engine::decode` with the `STANDARD` engine, whose
/// configuration demands canonical padding and zero trailing bits: it
/// succeeds exactly on the classic rendering of some byte sequence, and
/// returns that sequence. When the input is the URL-safe rendering of some
/// bytes and this engine still succeeds, the input held none of the four
/// characters on which the two alphabets differ, the renderings coincide,
/// and the result is again those bytes. A failure is reported as the decode
/// error's message text.
#[verifier::external_body]
fn decode_classic(s: &str) -> (r: Result<Vec<u8>, String>)
    ensures
        r is Ok ==> s@ == b64_classic(r->Ok_0@),
        forall|b: Seq<u8>| s@ == b64_classic(b) ==> r is Ok && r->Ok_0@ == b,
        forall|b: Seq<u8>| s@ == b64_urlsafe(b) && r is Ok ==> r->Ok_0@ == b,
{
    match base64::engine::general_purpose::STANDARD.decode(s) {
        Ok(v) => Ok(v),
        Err(e) => Err(format!("{e}")),
    }
}

/// Relies on base64's `Engine::decode` with the `URL_SAFE` engine, whose
/// configuration demands canonical padding and zero trailing bits: it
/// succeeds exactly on the URL-safe rendering of some byte sequence, and
/// returns that sequence. A failure is reported as the decode error's
/// message text.
#[verifier::external_body]
fn decode_urlsafe(s: &str) -> (r: Result<Vec<u8>, String>)
    ensures
        r is Ok ==> s@ == b64_urlsafe(r->Ok_0@),
        forall|b: Seq<u8>| s@ == b64_urlsafe(b) ==> r is Ok && r->Ok_0@ == b,
{
    match base64::engine::general_purpose::URL_SAFE.decode(s) {
        Ok(v) => Ok(v),
        Err(e) => Err(format!("{e}")),
    }
}

/// Render bytes as Base64 text: classic when the URL-safe flag is false,
/// URL-safe when it is true, padded either way.
pub fn encode_b64(bytes: &[u8], urlsafe: bool) -> (r: String)
    ensures
        r@ == if urlsafe {
            b64_urlsafe(bytes@)
        } else {
            b64_classic(bytes@)
        },
        r@.len() == 4 * ((bytes@.len() + 2) / 3),
{
    if urlsafe {
        encode_urlsafe(bytes)
    } else {
        encode_classic(bytes)
    }
}

/// Decode Base64 text: first as classic Base64, and on failure as URL-safe
/// Base64. Success is owed exactly when the input is the classic or the
/// URL-safe rendering of some byte sequence, and either rendering of any
/// bytes decodes back to those bytes. On a double failure the error is the
/// URL-safe attempt's message; the classic attempt's is discarded.
pub fn decode_b64_any(input: &str) -> (r: Result<Vec<u8>, String>)
    ensures
        r is Ok <==> ((exists|b: Seq<u8>| input@ == b64_classic(b)) || (exists|b: Seq<u8>|
            input@ == b64_urlsafe(b))),
        forall|b: Seq<u8>| input@ == b64_classic(b) ==> r is Ok && r->Ok_0@ == b,
        forall|b: Seq<u8>| input@ == b64_urlsafe(b) ==> r is Ok && r->Ok_0@ == b,
{
    match decode_classic(input) {
        Ok(v) => {
            proof {
                assert(input@ == b64_classic(v@));
            }
            Ok(v)
        },
        Err(_) => match decode_urlsafe(input) {
            Ok(v) => {
                proof {
                    assert(input@ == b64_urlsafe(v@));
                }
                Ok(v)
            },
            Err(e) => Err(e),
        },
    }
}

} // verus!
