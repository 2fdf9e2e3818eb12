//! The buffer-reconciliation protocol around a normalization pass: decide
//! whether the host-owned buffer must grow to hold the rewritten text, and
//! resolve what to write back once the host's allocator has answered a grow
//! request. Growth is fail-soft: a refused resize leaves the original buffer
//! untouched rather than aborting the call.

use vstd::prelude::*;

use crate::normalizer::normalized_units;
use crate::textractor::{find_value, PropertyName, SentenceInfo, TextNumber};
use crate::{spec_text_number, ProcessSentence};

verus! {

/// What a normalization pass asks of the host-owned buffer: leave it alone
/// (console text is not processed), overwrite it in place (the rewritten text
/// fits), or grow it first (the rewritten text is longer).
pub enum RewritePlan {
    Keep,
    WriteInPlace { content: Vec<u16> },
    Grow { content: Vec<u16> },
}

/// How the call ends once the plan and, for a growth plan, the allocator's
/// answer are known: either the original buffer is returned untouched, or
/// `content` followed by a terminator is written — into the resized block
/// when `into_grown_block` holds, over the original block otherwise.
pub enum RewriteOutcome {
    Untouched,
    Written { content: Vec<u16>, into_grown_block: bool },
}

/// Copies a code unit sequence into a fresh, call-local working buffer.
fn clone_units(units: &Vec<u16>) -> (r: Vec<u16>)
    ensures
        r@ == units@,
{
    let mut r: Vec<u16> = Vec::new();
    let mut i: usize = 0;
    while i < units.len()
        invariant
            i <= units.len(),
            r@ == units@.subrange(0, i as int),
        decreases units.len() - i,
    {
        r.push(units[i]);
        i += 1;
    }
    proof {
        assert(r@ =~= units@);
    }
    r
}

/// Decides what the host-owned buffer needs for one intercepted sentence:
/// console text is kept untouched; any other text is normalized, and the
/// rewritten content is written in place when it fits in the original code
/// unit count, or demands a grown buffer when it is longer.
pub fn plan_rewrite(original: &Vec<u16>, sentence_info: &SentenceInfo) -> (p: RewritePlan)
    requires
        find_value(sentence_info@, PropertyName::TextNumber.spec_str()) is Some,
    ensures
        spec_text_number(sentence_info@) == TextNumber::Console ==> p is Keep,
        spec_text_number(sentence_info@) != TextNumber::Console ==> (if normalized_units(
            original@,
        ).len() > original@.len() {
            p matches RewritePlan::Grow { content } && content@ == normalized_units(original@)
        } else {
            p matches RewritePlan::WriteInPlace { content } && content@ == normalized_units(
                original@,
            )
        }),
{
    let mut sentence_copy = clone_units(original);
    let old_len = original.len();
    if ProcessSentence(&mut sentence_copy, sentence_info) {
        if sentence_copy.len() > old_len {
            RewritePlan::Grow { content: sentence_copy }
        } else {
            RewritePlan::WriteInPlace { content: sentence_copy }
        }
    } else {
        RewritePlan::Keep
    }
}

/// Resolves the end of the call from the plan and the allocator's answer to
/// a grow request. A kept buffer stays untouched; in-place content is written
/// over the original block; grown content is written into the resized block
/// when the resize was granted, and — fail-soft — the original buffer is
/// returned untouched when the allocator refused it.
pub fn finish_rewrite(plan: RewritePlan, resize_granted: bool) -> (r: RewriteOutcome)
    ensures
        plan is Keep ==> r is Untouched,
        plan matches RewritePlan::WriteInPlace { content } ==> (r matches RewriteOutcome::Written {
            content: written,
            into_grown_block,
        } && written == content && !into_grown_block),
        plan matches RewritePlan::Grow { content } ==> (if resize_granted {
            r matches RewriteOutcome::Written { content: written, into_grown_block } && written
                == content && into_grown_block
        } else {
            r is Untouched
        }),
{
    match plan {
        RewritePlan::Keep => RewriteOutcome::Untouched,
        RewritePlan::WriteInPlace { content } => RewriteOutcome::Written {
            content,
            into_grown_block: false,
        },
        RewritePlan::Grow { content } => {
            if resize_granted {
                RewriteOutcome::Written { content, into_grown_block: true }
            } else {
                RewriteOutcome::Untouched
            }
        },
    }
}

} // verus!
