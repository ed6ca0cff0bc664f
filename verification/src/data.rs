//! Configuration and wire data, each with its mathematical view.

use vstd::prelude::*;
use crate::error::{CloudFlareError, CloudFlareErrorView};

verus! {

/// The whole configuration: the global settings and the zones to keep current.
pub struct Config {
    pub settings: Settings,
    pub domains: Vec<DomainInfo>,
}

/// The settings that hold for every zone.
#[derive(Clone, Copy, PartialEq, Eq, PartialOrd, Ord, Structural)]
pub struct Settings {
    /// The interval of rechecking the public ip address in milliseconds
    pub ip_poll: u64,
    pub update_upon_start: bool,
}

/// One zone of the provider: its identifier, its credential and the records to keep current.
pub struct DomainInfo {
    pub zone_id: String,
    pub api_key: String,
    pub entries: Vec<Entry>,
}

/// One configured record, in the shape the provider takes it.
pub struct Entry {
    pub name: String,
    pub ttl: usize,
    pub proxied: Option<bool>,
    pub record_type: String,
    pub tags: Option<Vec<String>>,
    pub comment: Option<String>,
    /// The provider's identifier of the record, where the configuration supplies it.
    pub record_id: Option<String>,
}

/// The body of an update: the record's shape and the address it shall hold.
pub struct DnsUpdate {
    pub entry: Entry,
    pub content: String,
}

/// The envelope of every provider answer.
#[derive(Debug)]
pub struct Response {
    pub success: bool,
    pub errors: Vec<CloudFlareError>,
}

/// A provider answer that carries a result beside the envelope.
#[derive(Debug)]
pub struct ExtendedResponse<T> {
    pub response: Response,
    pub result: T,
}

/// One record as the provider lists it.
#[derive(Debug)]
pub struct DnsRecord {
    pub content: String,
    pub id: String,
    pub name: String,
    pub record_type: String,
}

/// What a `Config` holds, as mathematical values.
pub ghost struct ConfigView {
    pub settings: Settings,
    pub domains: Seq<DomainInfoView>,
}

/// What a `DomainInfo` holds, as mathematical values.
pub ghost struct DomainInfoView {
    pub zone_id: Seq<char>,
    pub api_key: Seq<char>,
    pub entries: Seq<EntryView>,
}

/// What an `Entry` holds, as mathematical values.
pub ghost struct EntryView {
    pub name: Seq<char>,
    pub ttl: usize,
    pub proxied: Option<bool>,
    pub record_type: Seq<char>,
    pub tags: Option<Seq<Seq<char>>>,
    pub comment: Option<Seq<char>>,
    pub record_id: Option<Seq<char>>,
}

/// What a `DnsUpdate` holds, as mathematical values.
pub ghost struct DnsUpdateView {
    pub entry: EntryView,
    pub content: Seq<char>,
}

/// What a `Response` holds, as mathematical values.
pub ghost struct ResponseView {
    pub success: bool,
    pub errors: Seq<CloudFlareErrorView>,
}

/// What a `DnsRecord` holds, as mathematical values.
pub ghost struct DnsRecordView {
    pub content: Seq<char>,
    pub id: Seq<char>,
    pub name: Seq<char>,
    pub record_type: Seq<char>,
}

impl View for Config {
    type V = ConfigView;

    open spec fn view(&self) -> ConfigView {
        ConfigView { settings: self.settings, domains: self.domains.deep_view() }
    }
}

impl View for DomainInfo {
    type V = DomainInfoView;

    open spec fn view(&self) -> DomainInfoView {
        DomainInfoView {
            zone_id: self.zone_id@,
            api_key: self.api_key@,
            entries: self.entries.deep_view(),
        }
    }
}

impl DeepView for DomainInfo {
    type V = DomainInfoView;

    open spec fn deep_view(&self) -> DomainInfoView {
        self@
    }
}

impl View for Entry {
    type V = EntryView;

    open spec fn view(&self) -> EntryView {
        EntryView {
            name: self.name@,
            ttl: self.ttl,
            proxied: self.proxied,
            record_type: self.record_type@,
            tags: self.tags.deep_view(),
            comment: self.comment.deep_view(),
            record_id: self.record_id.deep_view(),
        }
    }
}

impl DeepView for Entry {
    type V = EntryView;

    open spec fn deep_view(&self) -> EntryView {
        self@
    }
}

impl View for DnsUpdate {
    type V = DnsUpdateView;

    open spec fn view(&self) -> DnsUpdateView {
        DnsUpdateView { entry: self.entry@, content: self.content@ }
    }
}

impl View for Response {
    type V = ResponseView;

    open spec fn view(&self) -> ResponseView {
        ResponseView { success: self.success, errors: self.errors.deep_view() }
    }
}

impl View for DnsRecord {
    type V = DnsRecordView;

    open spec fn view(&self) -> DnsRecordView {
        DnsRecordView {
            content: self.content@,
            id: self.id@,
            name: self.name@,
            record_type: self.record_type@,
        }
    }
}

impl DeepView for DnsRecord {
    type V = DnsRecordView;

    open spec fn deep_view(&self) -> DnsRecordView {
        self@
    }
}

/// The record type of an entry that names none.
pub fn default_type() -> (kind: String)
    ensures
        kind@ == "A"@,
{
    "A".to_owned()
}

/// The time to live of an entry that names none: 1, which the provider reads as automatic.
pub fn default_ttl() -> (ttl: usize)
    ensures
        ttl == 1,
{
    1
}

/// The tags of an entry that names none.
pub fn default_tags() -> (tags: Vec<String>)
    ensures
        tags@ == Seq::<String>::empty(),
{
    Vec::new()
}

/// A copy of an optional text.
fn copy_text(text: &Option<String>) -> (copy: Option<String>)
    ensures
        copy.deep_view() == text.deep_view(),
{
    match text {
        Some(s) => Some(s.clone()),
        None => None,
    }
}

/// A copy of a list of texts.
fn copy_texts(texts: &Vec<String>) -> (copy: Vec<String>)
    ensures
        copy.deep_view() == texts.deep_view(),
{
    let mut copy: Vec<String> = Vec::new();
    let mut i: usize = 0;
    while i < texts.len()
        invariant
            i <= texts.len(),
            copy@ == texts@.subrange(0, i as int),
        decreases texts.len() - i,
    {
        copy.push(texts[i].clone());
        i += 1;
    }
    copy
}

impl Clone for Entry {
    fn clone(&self) -> (copy: Self)
        ensures
            copy@ == self@,
    {
        let tags = match &self.tags {
            Some(t) => Some(copy_texts(t)),
            None => None,
        };
        Entry {
            name: self.name.clone(),
            ttl: self.ttl,
            proxied: self.proxied,
            record_type: self.record_type.clone(),
            tags,
            comment: copy_text(&self.comment),
            record_id: copy_text(&self.record_id),
        }
    }
}

impl Clone for DomainInfo {
    fn clone(&self) -> (copy: Self)
        ensures
            copy@ == self@,
    {
        let mut entries: Vec<Entry> = Vec::new();
        let mut i: usize = 0;
        while i < self.entries.len()
            invariant
                i <= self.entries.len(),
                entries.len() == i,
                forall|j: int| 0 <= j < i ==> entries@[j]@ == self.entries@[j]@,
            decreases self.entries.len() - i,
        {
            entries.push(self.entries[i].clone());
            i += 1;
        }
        assert(entries.deep_view() =~= self.entries.deep_view());
        DomainInfo { zone_id: self.zone_id.clone(), api_key: self.api_key.clone(), entries }
    }
}

impl Clone for DnsUpdate {
    fn clone(&self) -> (copy: Self)
        ensures
            copy@ == self@,
    {
        DnsUpdate { entry: self.entry.clone(), content: self.content.clone() }
    }
}

impl Clone for Response {
    fn clone(&self) -> (copy: Self)
        ensures
            copy@ == self@,
    {
        let mut errors: Vec<CloudFlareError> = Vec::new();
        let mut i: usize = 0;
        while i < self.errors.len()
            invariant
                i <= self.errors.len(),
                errors.len() == i,
                forall|j: int| 0 <= j < i ==> errors@[j]@ == self.errors@[j]@,
            decreases self.errors.len() - i,
        {
            errors.push(self.errors[i].clone());
            i += 1;
        }
        assert(errors.deep_view() =~= self.errors.deep_view());
        Response { success: self.success, errors }
    }
}

impl<T: Clone> Clone for ExtendedResponse<T> {
    fn clone(&self) -> (copy: Self)
        ensures
            copy.response@ == self.response@,
            cloned(self.result, copy.result),
    {
        ExtendedResponse { response: self.response.clone(), result: self.result.clone() }
    }
}

impl Clone for DnsRecord {
    fn clone(&self) -> (copy: Self)
        ensures
            copy@ == self@,
    {
        DnsRecord {
            content: self.content.clone(),
            id: self.id.clone(),
            name: self.name.clone(),
            record_type: self.record_type.clone(),
        }
    }
}

} // verus!
