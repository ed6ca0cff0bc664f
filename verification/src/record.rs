//! The kinds of record that the updater maintains, and the target of one worker.

use vstd::prelude::*;
use crate::data::{Entry, EntryView};

verus! {

/// The two kinds of address record: `A` holds an IPv4 address, `AAAA` an IPv6 address.
#[derive(Clone, Copy, Debug, PartialEq, Eq, Structural)]
pub enum RecordKind {
    A,
    Aaaa,
}

/// Whether `text` and `literal` hold the same characters.
pub(crate) fn text_is(text: &String, literal: &str) -> (same: bool)
    ensures
        same == (text@ == literal@),
{
    let owned = literal.to_owned();
    *text == owned
}

impl RecordKind {
    /// The kind that a record type names: `"A"` and `"AAAA"` name one, every other text none.
    pub open spec fn spec_parse(text: Seq<char>) -> Option<RecordKind> {
        if text == "A"@ {
            Some(RecordKind::A)
        } else if text == "AAAA"@ {
            Some(RecordKind::Aaaa)
        } else {
            None
        }
    }

    /// The record type under which the provider knows this kind.
    pub open spec fn spec_text(self) -> Seq<char> {
        match self {
            RecordKind::A => "A"@,
            RecordKind::Aaaa => "AAAA"@,
        }
    }

    /// Reads a record type. The match is exact: case and surrounding space count.
    pub fn parse(text: &String) -> (kind: Option<RecordKind>)
        ensures
            kind == Self::spec_parse(text@),
    {
        if text_is(text, "A") {
            Some(RecordKind::A)
        } else if text_is(text, "AAAA") {
            Some(RecordKind::Aaaa)
        } else {
            None
        }
    }

    /// The record type under which the provider knows this kind.
    pub fn as_str(self) -> (text: &'static str)
        ensures
            text@ == self.spec_text(),
    {
        match self {
            RecordKind::A => "A",
            RecordKind::Aaaa => "AAAA",
        }
    }

    /// Reading the text of a kind gives the kind back.
    pub proof fn law_parse_text(kind: RecordKind)
        ensures
            Self::spec_parse(kind.spec_text()) == Some(kind),
    {
        reveal_strlit("A");
        reveal_strlit("AAAA");
        assert("A"@.len() != "AAAA"@.len());
    }
}

/// What one worker keeps current: a record of a zone, the credential to write
/// it with, and the shape in which it is written.
pub struct RecordTarget {
    pub zone_id: String,
    pub record_id: String,
    pub api_key: String,
    pub entry: Entry,
}

/// What a `RecordTarget` holds, as mathematical values.
pub ghost struct RecordTargetView {
    pub zone_id: Seq<char>,
    pub record_id: Seq<char>,
    pub api_key: Seq<char>,
    pub entry: EntryView,
}

impl View for RecordTarget {
    type V = RecordTargetView;

    open spec fn view(&self) -> RecordTargetView {
        RecordTargetView {
            zone_id: self.zone_id@,
            record_id: self.record_id@,
            api_key: self.api_key@,
            entry: self.entry@,
        }
    }
}

impl DeepView for RecordTarget {
    type V = RecordTargetView;

    open spec fn deep_view(&self) -> RecordTargetView {
        self@
    }
}

impl RecordTargetView {
    /// The kind of the record, where its record type names one.
    pub open spec fn kind(self) -> Option<RecordKind> {
        RecordKind::spec_parse(self.entry.record_type)
    }
}

impl RecordTarget {
    /// The kind of the record, where its record type names one.
    pub fn kind(&self) -> (kind: Option<RecordKind>)
        ensures
            kind == self@.kind(),
    {
        RecordKind::parse(&self.entry.record_type)
    }
}

impl Clone for RecordTarget {
    fn clone(&self) -> (copy: Self)
        ensures
            copy@ == self@,
    {
        RecordTarget {
            zone_id: self.zone_id.clone(),
            record_id: self.record_id.clone(),
            api_key: self.api_key.clone(),
            entry: self.entry.clone(),
        }
    }
}

} // verus!
