use textractor_nfkc::boundary::{finish_rewrite, plan_rewrite, RewriteOutcome, RewritePlan};
use textractor_nfkc::normalizer::normalize_utf16;
use textractor_nfkc::textractor::{
    classify_current_select, classify_text_number, CurrentSelect, PropertyEntry, PropertyName,
    SentenceInfo, TextNumber,
};
use textractor_nfkc::ProcessSentence;

fn info_with(entries: Vec<(&str, i64)>) -> SentenceInfo {
    let entries = entries
        .into_iter()
        .map(|(name, value)| PropertyEntry { name: name.to_string(), value })
        .collect();
    SentenceInfo::new(entries)
}

fn text_number_info(value: i64) -> SentenceInfo {
    info_with(vec![("current select", 0), ("text number", value)])
}

#[test]
fn property_names() {
    assert_eq!(PropertyName::CurrentSelect.as_str(), "current select");
    assert_eq!(PropertyName::TextNumber.as_str(), "text number");
}

#[test]
fn empty_list_every_lookup_absent() {
    let info = SentenceInfo::new(Vec::new());
    assert!(info.get_property_value(PropertyName::CurrentSelect).is_none());
    assert!(info.get_property_value(PropertyName::TextNumber).is_none());
}

#[test]
fn lookup_finds_first_match() {
    let info = info_with(vec![("text number", 4), ("text number", 9)]);
    assert_eq!(info.get_property_value(PropertyName::TextNumber), Some(4));
    assert_eq!(info.get_property_value(PropertyName::CurrentSelect), None);
}

#[test]
fn text_number_zero_is_console() {
    let info = text_number_info(0);
    assert!(info.get_text_number() == TextNumber::Console);
}

#[test]
fn text_number_one_is_clipboard() {
    let info = text_number_info(1);
    assert!(info.get_text_number() == TextNumber::Clipboard);
}

#[test]
fn text_number_seven_is_text_thread() {
    let info = text_number_info(7);
    assert!(info.get_text_number() == TextNumber::TextThread(7));
}

#[test]
fn classify_text_number_mapping() {
    assert!(classify_text_number(0) == TextNumber::Console);
    assert!(classify_text_number(1) == TextNumber::Clipboard);
    assert!(classify_text_number(-3) == TextNumber::TextThread(-3));
}

#[test]
fn classify_current_select_mapping() {
    assert!(classify_current_select(0) == CurrentSelect::NotUserSelectedTextThread);
    assert!(classify_current_select(5) == CurrentSelect::UserSelectedTextThread(5));
}

#[test]
fn current_select_from_list() {
    let selected = info_with(vec![("current select", 3), ("text number", 2)]);
    assert!(selected.get_current_select() == CurrentSelect::UserSelectedTextThread(3));
    let unselected = text_number_info(2);
    assert!(unselected.get_current_select() == CurrentSelect::NotUserSelectedTextThread);
}

#[test]
fn console_text_is_left_unchanged() {
    // "ﬁ" would normalize to "fi", but console text is not processed.
    let mut sentence: Vec<u16> = vec![0xFB01];
    let processed = ProcessSentence(&mut sentence, &text_number_info(0));
    assert!(!processed);
    assert_eq!(sentence, vec![0xFB01]);
}

#[test]
fn non_console_text_is_normalized() {
    let mut sentence: Vec<u16> = vec![0xFB01];
    let processed = ProcessSentence(&mut sentence, &text_number_info(2));
    assert!(processed);
    assert_eq!(sentence, vec![0x0066, 0x0069]);
}

#[test]
fn normalization_is_idempotent() {
    // Ligature, combining sequence, and an unpaired surrogate in one input.
    let input: Vec<u16> = vec![0xFB01, 0x0065, 0x0301, 0xD800, 0x0041];
    let once = normalize_utf16(&input);
    let twice = normalize_utf16(&once);
    assert_eq!(once, twice);
}

#[test]
fn unpaired_surrogate_is_replaced() {
    let input: Vec<u16> = vec![0xD800];
    assert_eq!(normalize_utf16(&input), vec![0xFFFD]);
}

#[test]
fn ligature_growth_needs_resized_buffer() {
    // "ﬁ" (one code unit) normalizes to "fi" (two code units).
    let original: Vec<u16> = vec![0xFB01];
    let plan = plan_rewrite(&original, &text_number_info(2));
    match &plan {
        RewritePlan::Grow { content } => assert_eq!(content, &vec![0x0066, 0x0069]),
        _ => panic!("a longer rewrite must ask for a grown buffer"),
    }
    match finish_rewrite(plan, true) {
        RewriteOutcome::Written { content, into_grown_block } => {
            assert_eq!(content, vec![0x0066, 0x0069]);
            assert!(into_grown_block);
        }
        RewriteOutcome::Untouched => panic!("a granted resize must be written"),
    }
}

#[test]
fn combining_sequence_shrinks_in_place() {
    // "e" + combining acute (two code units) normalizes to "é" (one code unit).
    let original: Vec<u16> = vec![0x0065, 0x0301];
    let plan = plan_rewrite(&original, &text_number_info(2));
    match &plan {
        RewritePlan::WriteInPlace { content } => assert_eq!(content, &vec![0x00E9]),
        _ => panic!("a rewrite that fits must reuse the original buffer"),
    }
    match finish_rewrite(plan, false) {
        RewriteOutcome::Written { content, into_grown_block } => {
            assert_eq!(content, vec![0x00E9]);
            assert!(!into_grown_block);
        }
        RewriteOutcome::Untouched => panic!("an in-place rewrite must be written"),
    }
}

#[test]
fn refused_resize_keeps_original_untouched() {
    let original: Vec<u16> = vec![0xFB01];
    let plan = plan_rewrite(&original, &text_number_info(2));
    assert!(matches!(plan, RewritePlan::Grow { .. }));
    match finish_rewrite(plan, false) {
        RewriteOutcome::Untouched => {}
        RewriteOutcome::Written { .. } => panic!("a refused resize must leave the buffer alone"),
    }
    assert_eq!(original, vec![0xFB01]);
}

#[test]
fn console_plan_keeps_buffer() {
    let original: Vec<u16> = vec![0xFB01];
    let plan = plan_rewrite(&original, &text_number_info(0));
    assert!(matches!(plan, RewritePlan::Keep));
    match finish_rewrite(plan, false) {
        RewriteOutcome::Untouched => {}
        RewriteOutcome::Written { .. } => panic!("console text must not be written"),
    }
}

#[test]
fn empty_text_stays_empty_in_place() {
    let original: Vec<u16> = Vec::new();
    assert_eq!(normalize_utf16(&original), Vec::<u16>::new());
    let plan = plan_rewrite(&original, &text_number_info(2));
    match plan {
        RewritePlan::WriteInPlace { content } => assert!(content.is_empty()),
        _ => panic!("empty text must reuse the original buffer"),
    }
}

#[test]
fn equal_length_rewrite_stays_in_place() {
    // Already-normalized ASCII keeps its length and reuses the buffer.
    let original: Vec<u16> = vec![0x0061, 0x0062];
    let plan = plan_rewrite(&original, &text_number_info(3));
    match plan {
        RewritePlan::WriteInPlace { content } => assert_eq!(content, vec![0x0061, 0x0062]),
        _ => panic!("an equal-length rewrite must reuse the original buffer"),
    }
}
