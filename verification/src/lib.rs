//! A text-interception component for a host text-extraction engine: it reads
//! the host's per-sentence property list, classifies where the text came from,
//! and rewrites eligible text into Unicode Normalization Form KC, reconciling
//! the host-owned buffer when the rewritten text is longer or shorter.

use vstd::prelude::*;

pub mod boundary;
pub mod normalizer;
pub mod textractor;

use crate::normalizer::{normalize_utf16, normalized_units};
use crate::textractor::{
    find_value, spec_classify_text_number, PropertyEntry, PropertyName, SentenceInfo, TextNumber,
};

verus! {

/// The classification of a sentence's "text number" property. The host
/// documents that property as always present; this reads the list as the
/// property store resolves it.
pub open spec fn spec_text_number(entries: Seq<PropertyEntry>) -> TextNumber {
    spec_classify_text_number(find_value(entries, PropertyName::TextNumber.spec_str()).unwrap())
}

/// Rewrites one intercepted sentence in place. Console text is not eligible
/// for the rewrite: it is left unchanged and the call reports that nothing
/// was done. Any other text is replaced by its Unicode Normalization Form KC,
/// which is its own normal form, so a second pass would leave it unchanged.
#[allow(non_snake_case)]
pub fn ProcessSentence(sentence: &mut Vec<u16>, sentence_info: &SentenceInfo) -> (processed: bool)
    requires
        find_value(sentence_info@, PropertyName::TextNumber.spec_str()) is Some,
    ensures
        processed == (spec_text_number(sentence_info@) != TextNumber::Console),
        !processed ==> final(sentence)@ == old(sentence)@,
        processed ==> final(sentence)@ == normalized_units(old(sentence)@),
        processed ==> normalized_units(final(sentence)@) == final(sentence)@,
{
    let text_number = sentence_info.get_text_number();
    if text_number == TextNumber::Console {
        return false;
    }

    let normalized = normalize_utf16(sentence);
    *sentence = normalized;

    true
}

} // verus!
