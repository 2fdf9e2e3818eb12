//! The property store and classifier: reads the host's per-sentence property
//! list (an ordered sequence of name/value pairs) and derives from it where
//! the text came from and whether its thread is the user-selected one.

use vstd::prelude::*;

verus! {

/// The two property names this component consumes from the host's list.
pub enum PropertyName {
    CurrentSelect,
    TextNumber,
}

impl PropertyName {
    /// The exact property name as it appears in the host's list.
    pub open spec fn spec_str(&self) -> Seq<char> {
        match self {
            PropertyName::CurrentSelect => "current select"@,
            PropertyName::TextNumber => "text number"@,
        }
    }

    /// The exact property name as it appears in the host's list.
    pub fn as_str(&self) -> (r: &'static str)
        ensures
            r@ == self.spec_str(),
    {
        match self {
            PropertyName::CurrentSelect => "current select",
            PropertyName::TextNumber => "text number",
        }
    }
}

/// Whether the sentence's text thread is the one the user selected, derived
/// from the "current select" property: 0 means not selected, any other value
/// is the identifier of the selected thread.
#[derive(PartialEq, Eq, Structural)]
pub enum CurrentSelect {
    NotUserSelectedTextThread,
    UserSelectedTextThread(i64),
}

/// Where a piece of intercepted text came from, derived from the "text
/// number" property: 0 is the console, 1 the clipboard, and any other value
/// the identifier of a text thread.
#[derive(PartialEq, Eq, Structural)]
pub enum TextNumber {
    Console,
    Clipboard,
    TextThread(i64),
}

/// The classification of the "text number" property value.
pub open spec fn spec_classify_text_number(value: i64) -> TextNumber {
    if value == 0 {
        TextNumber::Console
    } else if value == 1 {
        TextNumber::Clipboard
    } else {
        TextNumber::TextThread(value)
    }
}

/// Classifies a raw "text number" property value.
pub fn classify_text_number(value: i64) -> (t: TextNumber)
    ensures
        t == spec_classify_text_number(value),
{
    if value == 0 {
        TextNumber::Console
    } else if value == 1 {
        TextNumber::Clipboard
    } else {
        TextNumber::TextThread(value)
    }
}

/// The classification of the "current select" property value.
pub open spec fn spec_classify_current_select(value: i64) -> CurrentSelect {
    if value == 0 {
        CurrentSelect::NotUserSelectedTextThread
    } else {
        CurrentSelect::UserSelectedTextThread(value)
    }
}

/// Classifies a raw "current select" property value.
pub fn classify_current_select(value: i64) -> (c: CurrentSelect)
    ensures
        c == spec_classify_current_select(value),
{
    if value == 0 {
        CurrentSelect::NotUserSelectedTextThread
    } else {
        CurrentSelect::UserSelectedTextThread(value)
    }
}

/// One entry of the host's property list: a property name and its 64-bit
/// signed value. The host terminates the list with a null name pointer; only
/// the entries before that sentinel are represented here.
pub struct PropertyEntry {
    pub name: String,
    pub value: i64,
}

/// The value of the first entry whose name equals `name`, or `None` when no
/// entry before the sentinel matches.
pub open spec fn find_value(entries: Seq<PropertyEntry>, name: Seq<char>) -> Option<i64>
    decreases entries.len(),
{
    if entries.len() == 0 {
        None
    } else if entries[0].name@ == name {
        Some(entries[0].value)
    } else {
        find_value(entries.drop_first(), name)
    }
}

/// In an empty property list every lookup is absent.
pub proof fn lemma_find_value_empty(name: Seq<char>)
    ensures
        find_value(Seq::<PropertyEntry>::empty(), name) is None,
{
}

/// A lookup resolves to the first matching entry: if no entry before `i`
/// matches `name` and entry `i` does, the lookup yields entry `i`'s value.
pub proof fn lemma_find_value_first_match(entries: Seq<PropertyEntry>, name: Seq<char>, i: int)
    requires
        0 <= i < entries.len(),
        forall|k: int| 0 <= k < i ==> entries[k].name@ != name,
        entries[i].name@ == name,
    ensures
        find_value(entries, name) == Some(entries[i].value),
    decreases i,
{
    if i > 0 {
        lemma_find_value_first_match(entries.drop_first(), name, i - 1);
    }
}

/// A lookup that matches no entry at all is absent.
pub proof fn lemma_find_value_no_match(entries: Seq<PropertyEntry>, name: Seq<char>)
    requires
        forall|k: int| 0 <= k < entries.len() ==> entries[k].name@ != name,
    ensures
        find_value(entries, name) is None,
    decreases entries.len(),
{
    if entries.len() > 0 {
        lemma_find_value_no_match(entries.drop_first(), name);
    }
}

/// The per-sentence metadata the host hands over with each intercepted text:
/// the property list, read up to the sentinel and held as owned values.
pub struct SentenceInfo {
    info_array: Vec<PropertyEntry>,
}

impl View for SentenceInfo {
    type V = Seq<PropertyEntry>;

    closed spec fn view(&self) -> Seq<PropertyEntry> {
        self.info_array@
    }
}

impl SentenceInfo {
    /// Wraps the property entries read from the host's list.
    pub fn new(info_array: Vec<PropertyEntry>) -> (s: Self)
        ensures
            s@ == info_array@,
    {
        Self { info_array }
    }

    /// Resolves a property by name: the value of the first entry whose name
    /// matches, or `None` when the list holds no such property.
    pub fn get_property_value(&self, property_name: PropertyName) -> (r: Option<i64>)
        ensures
            r == find_value(self@, property_name.spec_str()),
    {
        let query: String = property_name.as_str().to_owned();
        let mut i: usize = 0;
        while i < self.info_array.len()
            invariant
                i <= self.info_array.len(),
                query@ == property_name.spec_str(),
                forall|k: int| 0 <= k < i ==> self.info_array@[k].name@ != query@,
            decreases self.info_array.len() - i,
        {
            if self.info_array[i].name == query {
                proof {
                    lemma_find_value_first_match(self@, property_name.spec_str(), i as int);
                }
                return Some(self.info_array[i].value);
            }
            i += 1;
        }
        proof {
            lemma_find_value_no_match(self@, property_name.spec_str());
        }
        None
    }

    /// The selection state of the sentence's text thread. The host documents
    /// the "current select" property as always present; a list without it is
    /// a host-contract breach and is excluded by the precondition.
    pub fn get_current_select(&self) -> (c: CurrentSelect)
        requires
            find_value(self@, PropertyName::CurrentSelect.spec_str()) is Some,
        ensures
            c == spec_classify_current_select(
                find_value(self@, PropertyName::CurrentSelect.spec_str()).unwrap(),
            ),
    {
        let value = self.get_property_value(PropertyName::CurrentSelect).unwrap();
        classify_current_select(value)
    }

    /// Where the sentence's text came from. The host documents the "text
    /// number" property as always present; a list without it is a
    /// host-contract breach and is excluded by the precondition.
    pub fn get_text_number(&self) -> (t: TextNumber)
        requires
            find_value(self@, PropertyName::TextNumber.spec_str()) is Some,
        ensures
            t == spec_classify_text_number(
                find_value(self@, PropertyName::TextNumber.spec_str()).unwrap(),
            ),
    {
        let value = self.get_property_value(PropertyName::TextNumber).unwrap();
        classify_text_number(value)
    }
}

} // verus!
