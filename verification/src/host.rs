//! The calls that the library makes into `near_sdk`, `serde_json` and `std`.
//!
//! Nothing in this file is proved: each function states what the library
//! relies on, and the rest of the library is verified against these
//! statements.

use vstd::prelude::*;

verus! {

/// Whether `b` is one of `-`, `_` and `.`.
pub open spec fn is_separator(b: u8) -> bool {
    b == 0x2d || b == 0x5f || b == 0x2e
}

/// Whether `b` is a lower-case ASCII letter or an ASCII digit.
pub open spec fn is_lower_alphanumeric(b: u8) -> bool {
    (0x61 <= b <= 0x7a) || (0x30 <= b <= 0x39)
}

/// The account identifiers that NEAR accepts: 2 to 64 bytes, each a
/// lower-case letter, a digit or a separator, where no separator stands
/// first, last or next to another one.
pub open spec fn well_formed_account_id(bytes: Seq<u8>) -> bool {
    &&& 2 <= bytes.len() <= 64
    &&& forall|i: int|
        0 <= i < bytes.len() ==> is_lower_alphanumeric(#[trigger] bytes[i]) || is_separator(
            bytes[i],
        )
    &&& !is_separator(bytes[0])
    &&& !is_separator(bytes[bytes.len() - 1])
    &&& forall|i: int|
        0 < i < bytes.len() ==> !(is_separator(bytes[i - 1]) && is_separator(#[trigger] bytes[i]))
}

/// Calls `near_sdk::env::is_valid_account_id`, which checks the length and
/// then walks the bytes once, refusing a byte outside the alphabet and a
/// separator that follows a separator or the start, and at the end a
/// trailing separator. The contract states that outcome as
/// [`well_formed_account_id`].
#[verifier::external_body]
pub(crate) fn is_valid_account_id(bytes: &[u8]) -> (valid: bool)
    ensures
        valid == well_formed_account_id(bytes@),
{
    near_sdk::env::is_valid_account_id(bytes)
}

/// The number of yoctoNEAR in one milliNEAR.
pub const YOCTO_PER_MILLINEAR: u128 = 1_000_000_000_000_000_000_000;

/// Calls `near_sdk::NearToken::from_millinear`, which multiplies by
/// ten to the twenty-first power, and reads the product back with
/// `as_yoctonear`. The product must fit in 128 bits.
#[verifier::external_body]
pub(crate) fn millinear_as_yocto(millinear: u128) -> (yocto: u128)
    requires
        millinear * YOCTO_PER_MILLINEAR <= u128::MAX,
    ensures
        yocto == millinear * YOCTO_PER_MILLINEAR,
{
    near_sdk::NearToken::from_millinear(millinear).as_yoctonear()
}

/// What `serde_json` makes of `bytes` as one JSON document: `None` where it
/// refuses them, `Some(true)` where the document is `null`, `Some(false)`
/// where it is any other value.
pub uninterp spec fn json_null_reading(bytes: Seq<u8>) -> Option<bool>;

/// Calls `serde_json::from_slice` for a `serde_json::Value` and tells the
/// three outcomes apart: an error, the value `Null`, any other value. The
/// parser reads nothing but the bytes, so the outcome has a name,
/// [`json_null_reading`].
#[verifier::external_body]
pub(crate) fn read_json_null(bytes: &[u8]) -> (reading: Option<bool>)
    ensures
        reading == json_null_reading(bytes@),
{
    match serde_json::from_slice::<serde_json::Value>(bytes) {
        Ok(serde_json::Value::Null) => Some(true),
        Ok(_) => Some(false),
        Err(_) => None,
    }
}

/// The text that `String::from_utf8_lossy` makes of `bytes`: their decoding
/// as UTF-8, with U+FFFD in place of what does not decode.
pub uninterp spec fn utf8_lossy(bytes: Seq<u8>) -> Seq<char>;

/// Calls `String::from_utf8_lossy` and takes the result as an owned string.
/// The text depends on the bytes alone, so it has a name, [`utf8_lossy`];
/// bytes that are valid UTF-8 come back as the text they encode.
#[verifier::external_body]
pub(crate) fn string_from_utf8_lossy(bytes: &[u8]) -> (text: String)
    ensures
        text@ == utf8_lossy(bytes@),
        vstd::utf8::valid_utf8(bytes@) ==> text@ == vstd::utf8::decode_utf8(bytes@),
{
    String::from_utf8_lossy(bytes).into_owned()
}

} // verus!
