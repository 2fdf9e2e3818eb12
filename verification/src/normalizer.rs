//! The normalizer: rewrites a UTF-16 text value into Unicode Normalization
//! Form KC. Ill-formed code unit sequences (such as unpaired surrogates) are
//! replaced during decoding rather than reported; the result may hold fewer,
//! as many, or more code units than the input.

use unicode_normalization::UnicodeNormalization;
use vstd::prelude::*;

verus! {

/// The scalar sequence a UTF-16 code unit sequence decodes to under the lossy
/// policy: ill-formed subsequences are replaced by U+FFFD.
pub uninterp spec fn utf16_lossy_of(units: Seq<u16>) -> Seq<char>;

/// The Unicode Normalization Form KC of a scalar sequence.
pub uninterp spec fn nfkc_of(s: Seq<char>) -> Seq<char>;

/// The UTF-16 encoding of a scalar sequence.
pub uninterp spec fn utf16_of(s: Seq<char>) -> Seq<u16>;

/// What one full normalization pass makes of a UTF-16 code unit sequence:
/// decode with replacement, rewrite into Normalization Form KC, re-encode.
pub open spec fn normalized_units(units: Seq<u16>) -> Seq<u16> {
    utf16_of(nfkc_of(utf16_lossy_of(units)))
}

/// Relies on widestring's `U16Str::to_string_lossy`, which decodes UTF-16
/// with ill-formed sequences replaced by U+FFFD; the result depends on the
/// code units alone.
#[verifier::external_body]
fn decode_utf16_lossy(units: &Vec<u16>) -> (r: String)
    ensures
        r@ == utf16_lossy_of(units@),
{
    widestring::U16Str::from_slice(units.as_slice()).to_string_lossy()
}

/// Relies on unicode_normalization's `nfkc`, which rewrites the characters
/// into Unicode Normalization Form KC as described in UAX #15; the result
/// depends on the characters alone, and normalization is idempotent, so the
/// result is its own normal form.
#[verifier::external_body]
fn to_nfkc(s: &str) -> (r: String)
    ensures
        r@ == nfkc_of(s@),
        nfkc_of(r@) == r@,
{
    s.nfkc().collect()
}

/// Relies on widestring's `U16String::from_str`, which encodes a string into
/// UTF-16; the encoding depends on the characters alone, and decoding the
/// well-formed encoding of a string restores that string exactly.
#[verifier::external_body]
fn encode_utf16(s: &str) -> (r: Vec<u16>)
    ensures
        r@ == utf16_of(s@),
        utf16_lossy_of(r@) == s@,
{
    widestring::U16String::from_str(s).into_vec()
}

/// Rewrites a UTF-16 code unit sequence into Unicode Normalization Form KC.
/// The result is already in normal form, so normalizing it again returns it
/// unchanged.
pub fn normalize_utf16(units: &Vec<u16>) -> (r: Vec<u16>)
    ensures
        r@ == normalized_units(units@),
        normalized_units(r@) == r@,
{
    let decoded = decode_utf16_lossy(units);
    let normalized = to_nfkc(decoded.as_str());
    encode_utf16(normalized.as_str())
}

} // verus!
