use vstd::prelude::*;

use crate::b64::{b64_classic, b64_urlsafe, decode_b64_any, encode_b64};
use crate::hex::{
    all_hex_digits, bytes_to_hex, hex_bytes_of, hex_error_spec, hex_norm, hex_of_bytes, parse_hex,
    HexCase,
};
use crate::text::{normalize_input, strip_ws};
use vstd::string::StringExecFns;

verus! {

/// The conversion direction, chosen once per run from the name the program
/// was invoked under and immutable thereafter.
#[derive(Clone, Copy, Debug, PartialEq, Eq, Structural)]
pub enum Mode {
    B64ToHex,
    HexToB64,
}

/// A string result with both sides abstracted to their character sequences.
pub open spec fn res_view(r: Result<String, String>) -> Result<Seq<char>, Seq<char>> {
    match r {
        Ok(s) => Ok(s@),
        Err(e) => Err(e@),
    }
}

/// The prefix of the diagnostic for text that neither Base64 variant accepts.
pub open spec fn b64_error_prefix() -> Seq<char> {
    "Failed to decode as classic or URL-safe base64: "@
}

/// Text that some Base64 decode attempt of the fallback chain accepts: the
/// classic or the URL-safe rendering of some byte sequence.
pub open spec fn b64_decodable(s: Seq<char>) -> bool {
    (exists|b: Seq<u8>| s == b64_classic(b)) || (exists|b: Seq<u8>| s == b64_urlsafe(b))
}

/// What converting Base64 text to hex returns: the hex rendering, in the
/// chosen letter case, of the bytes whose Base64 rendering (classic or
/// URL-safe) the input is; an error, carrying the URL-safe attempt's
/// message behind a fixed prefix, exactly when it is neither.
pub open spec fn b64_to_hex_spec(s: Seq<char>, upper: bool, r: Result<Seq<char>, Seq<char>>) -> bool {
    &&& (r is Ok <==> b64_decodable(s))
    &&& (forall|b: Seq<u8>| s == b64_classic(b) ==> r is Ok && r->Ok_0 == hex_of_bytes(b, upper))
    &&& (forall|b: Seq<u8>| s == b64_urlsafe(b) ==> r is Ok && r->Ok_0 == hex_of_bytes(b, upper))
    &&& (r is Err ==> b64_error_prefix().is_prefix_of(r->Err_0))
}

/// What converting hex text to Base64 returns: the Base64 rendering, in the
/// chosen variant, of the bytes the normalized input's pairs stand for; or
/// `parse_hex`'s error for an input that is empty once normalized, of odd
/// length, or holding a pair that is no two hex digits.
pub open spec fn hex_to_b64_spec(s: Seq<char>, urlsafe: bool, r: Result<Seq<char>, Seq<char>>) -> bool {
    let v = hex_norm(s);
    &&& (r is Ok <==> v.len() > 0 && v.len() % 2 == 0 && all_hex_digits(v))
    &&& (r is Ok ==> r->Ok_0 == if urlsafe {
        b64_urlsafe(hex_bytes_of(v))
    } else {
        b64_classic(hex_bytes_of(v))
    })
    &&& (r is Err ==> hex_error_spec(v, r->Err_0))
}

/// What a conversion returns in each mode.
pub open spec fn conversion_spec(
    mode: Mode,
    upper: bool,
    urlsafe: bool,
    s: Seq<char>,
    r: Result<Seq<char>, Seq<char>>,
) -> bool {
    match mode {
        Mode::B64ToHex => b64_to_hex_spec(s, upper, r),
        Mode::HexToB64 => hex_to_b64_spec(s, urlsafe, r),
    }
}

/// Round trip: on the classic — or the URL-safe — Base64 rendering of any
/// byte sequence, the conversion that `b64_to_hex_spec` describes succeeds
/// and returns exactly that sequence's hex rendering: the
/// classic-then-URL-safe fallback decoder yields the encoded bytes back.
pub proof fn lemma_b64_round_trip(b: Seq<u8>, upper: bool, r: Result<Seq<char>, Seq<char>>)
    requires
        b64_to_hex_spec(b64_classic(b), upper, r) || b64_to_hex_spec(b64_urlsafe(b), upper, r),
    ensures
        r == Result::<Seq<char>, Seq<char>>::Ok(hex_of_bytes(b, upper)),
{
}

/// Convert Base64 text, classic or URL-safe, to hex text in the chosen
/// letter case, as `b64_to_hex_spec` describes it.
pub fn b64_to_hex(input: &str, hex_case: HexCase) -> (r: Result<String, String>)
    ensures
        b64_to_hex_spec(input@, hex_case is Upper, res_view(r)),
{
    match decode_b64_any(input) {
        Ok(bytes) => Ok(bytes_to_hex(bytes.as_slice(), hex_case)),
        Err(e) => {
            let mut m = String::from_str("Failed to decode as classic or URL-safe base64: ");
            m.append(e.as_str());
            proof {
                assert(b64_error_prefix().is_prefix_of(m@));
            }
            Err(m)
        },
    }
}

/// Convert hex text, with an optional `0x`/`0X` prefix and whitespace
/// tolerated, to Base64 text, classic or URL-safe, as `hex_to_b64_spec`
/// describes it.
pub fn hex_to_b64(input: &str, urlsafe: bool) -> (r: Result<String, String>)
    ensures
        hex_to_b64_spec(input@, urlsafe, res_view(r)),
{
    match parse_hex(input) {
        Ok(bytes) => Ok(encode_b64(bytes.as_slice(), urlsafe)),
        Err(e) => Err(e),
    }
}

/// Dispatch one conversion to the codec the mode selects.
pub fn convert(mode: Mode, hex_case: HexCase, urlsafe: bool, input: &str) -> (r: Result<
    String,
    String,
>)
    ensures
        conversion_spec(mode, hex_case is Upper, urlsafe, input@, res_view(r)),
{
    match mode {
        Mode::B64ToHex => b64_to_hex(input, hex_case),
        Mode::HexToB64 => hex_to_b64(input, urlsafe),
    }
}

/// Why a run produced no output: the input was empty once its whitespace
/// was removed, or the selected codec rejected it with the given message.
#[derive(Debug, PartialEq, Eq)]
pub enum RunError {
    NoInput,
    Conv(String),
}

/// A run's outcome with its strings abstracted to character sequences; an
/// empty-input failure is abstracted to an empty error, since the caller
/// reports it with its own text.
pub open spec fn run_res_view(r: Result<String, RunError>) -> Result<Seq<char>, Seq<char>> {
    match r {
        Ok(s) => Ok(s@),
        Err(RunError::Conv(m)) => Err(m@),
        Err(RunError::NoInput) => Err(Seq::empty()),
    }
}

/// One full conversion as the program performs it: remove all whitespace
/// from the raw input, reject an empty remainder, and hand the normalized
/// input to the codec the mode selects.
pub fn run(mode: Mode, hex_case: HexCase, urlsafe: bool, raw: &str) -> (r: Result<String, RunError>)
    ensures
        ((r matches Err(e) && e is NoInput) <==> strip_ws(raw@).len() == 0),
        strip_ws(raw@).len() > 0 ==> conversion_spec(
            mode,
            hex_case is Upper,
            urlsafe,
            strip_ws(raw@),
            run_res_view(r),
        ),
{
    let norm = normalize_input(raw);
    if norm.as_str().is_empty() {
        return Err(RunError::NoInput);
    }
    match convert(mode, hex_case, urlsafe, norm.as_str()) {
        Ok(s) => Ok(s),
        Err(e) => Err(RunError::Conv(e)),
    }
}

} // verus!
