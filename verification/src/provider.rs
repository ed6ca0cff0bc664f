//! The two calls that the updater makes to the provider, as values.
//!
//! Nothing here touches the network. A `ProviderRequest` says what has to be
//! sent; `LookupOutcome` and `UpdateOutcome` say what came back.

use vstd::prelude::*;
use vstd::string::*;
use crate::data::{DnsRecord, DnsUpdate, DnsUpdateView, ExtendedResponse, Response};

verus! {

/// The address under which every call of the provider lies.
pub const ROOT: &'static str = "https://api.cloudflare.com/client/v4";

/// The address that lists the records of a zone.
pub open spec fn spec_records_url(zone_id: Seq<char>) -> Seq<char> {
    ROOT@ + "/zones/"@ + zone_id + "/dns_records"@
}

/// The address of one record of a zone.
pub open spec fn spec_record_url(zone_id: Seq<char>, record_id: Seq<char>) -> Seq<char> {
    spec_records_url(zone_id) + "/"@ + record_id
}

/// The value of the authorization header that carries a credential.
pub open spec fn spec_bearer(credential: Seq<char>) -> Seq<char> {
    "Bearer "@ + credential
}

/// The request line's verb.
#[derive(Clone, Copy, Debug, PartialEq, Eq, Structural)]
pub enum HttpMethod {
    Get,
    Put,
}

/// One call of the provider: verb, address, authorization header and, for an update, its body.
pub struct ProviderRequest {
    pub method: HttpMethod,
    pub url: String,
    pub authorization: String,
    pub body: Option<DnsUpdate>,
}

/// What a `ProviderRequest` holds, as mathematical values.
pub ghost struct ProviderRequestView {
    pub method: HttpMethod,
    pub url: Seq<char>,
    pub authorization: Seq<char>,
    pub body: Option<DnsUpdateView>,
}

impl View for ProviderRequest {
    type V = ProviderRequestView;

    open spec fn view(&self) -> ProviderRequestView {
        ProviderRequestView {
            method: self.method,
            url: self.url@,
            authorization: self.authorization@,
            body: match self.body {
                Some(update) => Some(update@),
                None => None,
            },
        }
    }
}

/// What a listing of a zone's records came to.
pub enum LookupOutcome {
    /// The provider could not be reached.
    TransportFailure,
    /// The provider answered; the envelope says whether it accepted the call.
    Answered(ExtendedResponse<Vec<DnsRecord>>),
}

/// What one attempt to update a record came to.
pub enum UpdateOutcome {
    /// The provider could not be reached.
    TransportFailure,
    /// The provider answered; the envelope says whether it accepted the update.
    Answered(Response),
}

/// The address that lists the records of `zone_id`.
pub fn records_url(zone_id: &str) -> (url: String)
    ensures
        url@ == spec_records_url(zone_id@),
{
    let mut url = String::from_str(ROOT);
    url.append("/zones/");
    url.append(zone_id);
    url.append("/dns_records");
    url
}

/// The address of the record `record_id` of `zone_id`.
pub fn record_url(zone_id: &str, record_id: &str) -> (url: String)
    ensures
        url@ == spec_record_url(zone_id@, record_id@),
{
    let mut url = records_url(zone_id);
    url.append("/");
    url.append(record_id);
    url
}

/// The authorization header for the credential `auth`.
pub fn bearer(auth: &str) -> (header: String)
    ensures
        header@ == spec_bearer(auth@),
{
    let mut header = String::from_str("Bearer ");
    header.append(auth);
    header
}

/// The call that lists the records of a zone.
pub fn records_request(zone_id: &str, auth: &str) -> (request: ProviderRequest)
    ensures
        request@ == (ProviderRequestView {
            method: HttpMethod::Get,
            url: spec_records_url(zone_id@),
            authorization: spec_bearer(auth@),
            body: None,
        }),
{
    ProviderRequest {
        method: HttpMethod::Get,
        url: records_url(zone_id),
        authorization: bearer(auth),
        body: None,
    }
}

/// The call that writes `update` to the record `id` of a zone.
pub fn update_request(zone_id: &str, id: &str, auth: &str, update: DnsUpdate) -> (request:
    ProviderRequest)
    ensures
        request@ == (ProviderRequestView {
            method: HttpMethod::Put,
            url: spec_record_url(zone_id@, id@),
            authorization: spec_bearer(auth@),
            body: Some(update@),
        }),
{
    ProviderRequest {
        method: HttpMethod::Put,
        url: record_url(zone_id, id),
        authorization: bearer(auth),
        body: Some(update),
    }
}

} // verus!
