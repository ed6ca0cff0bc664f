use cloudflareddns::data::{DnsRecord, DomainInfo, Entry, ExtendedResponse, Response};
use cloudflareddns::error::CloudFlareError;
use cloudflareddns::provider::LookupOutcome;
use cloudflareddns::record::RecordKind;
use cloudflareddns::resolve::{lookup_record_id, plan_zone, resolve_record_id, ZonePlan};
use cloudflareddns::worker::RecordWorker;

fn listed(name: &str, id: &str, kind: &str) -> DnsRecord {
    DnsRecord {
        content: "192.0.2.1".to_string(),
        id: id.to_string(),
        name: name.to_string(),
        record_type: kind.to_string(),
    }
}

fn configured(name: &str, kind: &str) -> Entry {
    Entry {
        name: name.to_string(),
        ttl: 1,
        proxied: None,
        record_type: kind.to_string(),
        tags: None,
        comment: None,
        record_id: None,
    }
}

fn answered(success: bool, records: Vec<DnsRecord>) -> LookupOutcome {
    let errors = if success {
        vec![]
    } else {
        vec![CloudFlareError { code: 7003, message: "Could not route".to_string() }]
    };
    LookupOutcome::Answered(ExtendedResponse {
        response: Response { success, errors },
        result: records,
    })
}

fn zone(entries: Vec<Entry>) -> DomainInfo {
    DomainInfo { zone_id: "zone-1".to_string(), api_key: "key-1".to_string(), entries }
}

#[test]
fn record_kind_reads_a_and_aaaa_only() {
    assert_eq!(RecordKind::parse(&"A".to_string()), Some(RecordKind::A));
    assert_eq!(RecordKind::parse(&"AAAA".to_string()), Some(RecordKind::Aaaa));
    assert_eq!(RecordKind::parse(&"a".to_string()), None);
    assert_eq!(RecordKind::parse(&"AA".to_string()), None);
    assert_eq!(RecordKind::parse(&"AAAAA".to_string()), None);
    assert_eq!(RecordKind::parse(&" A".to_string()), None);
    assert_eq!(RecordKind::parse(&"CNAME".to_string()), None);
    assert_eq!(RecordKind::parse(&"".to_string()), None);
}

#[test]
fn record_kind_text_reads_back() {
    assert_eq!(RecordKind::A.as_str(), "A");
    assert_eq!(RecordKind::Aaaa.as_str(), "AAAA");
    assert_eq!(RecordKind::parse(&RecordKind::A.as_str().to_string()), Some(RecordKind::A));
    assert_eq!(
        RecordKind::parse(&RecordKind::Aaaa.as_str().to_string()),
        Some(RecordKind::Aaaa)
    );
}

#[test]
fn lookup_finds_record_by_exact_name() {
    let records = vec![listed("a.example.com", "1", "A"), listed("b.example.com", "2", "AAAA")];
    assert_eq!(lookup_record_id(&records, &"a.example.com".to_string()), Some("1".to_string()));
    assert_eq!(lookup_record_id(&records, &"b.example.com".to_string()), Some("2".to_string()));
    assert_eq!(lookup_record_id(&records, &"c.example.com".to_string()), None);
    assert_eq!(lookup_record_id(&records, &"A.example.com".to_string()), None);
    assert_eq!(lookup_record_id(&records, &"a.example.com.".to_string()), None);
}

#[test]
fn lookup_in_empty_listing_finds_nothing() {
    assert_eq!(lookup_record_id(&vec![], &"a.example.com".to_string()), None);
}

#[test]
fn lookup_takes_the_last_of_duplicate_names() {
    let records = vec![
        listed("a.example.com", "first", "A"),
        listed("b.example.com", "other", "A"),
        listed("a.example.com", "last", "AAAA"),
    ];
    assert_eq!(
        lookup_record_id(&records, &"a.example.com".to_string()),
        Some("last".to_string())
    );
}

#[test]
fn lookup_passes_over_records_that_hold_no_address() {
    let records = vec![
        listed("a.example.com", "address", "A"),
        listed("a.example.com", "text", "TXT"),
        listed("a.example.com", "alias", "CNAME"),
    ];
    assert_eq!(
        lookup_record_id(&records, &"a.example.com".to_string()),
        Some("address".to_string())
    );
    let only_text = vec![listed("a.example.com", "text", "TXT")];
    assert_eq!(lookup_record_id(&only_text, &"a.example.com".to_string()), None);
}

#[test]
fn configured_identifier_passes_through() {
    let mut entry = configured("a.example.com", "A");
    entry.record_id = Some("given".to_string());
    let records = vec![listed("a.example.com", "listed", "A")];
    assert_eq!(resolve_record_id(&entry, &records), Some("given".to_string()));
    assert_eq!(resolve_record_id(&entry, &vec![]), Some("given".to_string()));
}

#[test]
fn entry_without_identifier_is_looked_up() {
    let entry = configured("a.example.com", "A");
    let records = vec![listed("a.example.com", "listed", "A")];
    assert_eq!(resolve_record_id(&entry, &records), Some("listed".to_string()));
    assert_eq!(resolve_record_id(&entry, &vec![]), None);
}

#[test]
fn resolution_spawns_one_worker_and_skips_unknown_name() {
    let domain =
        zone(vec![configured("a.example.com", "A"), configured("c.example.com", "A")]);
    let outcome = answered(
        true,
        vec![listed("a.example.com", "1", "A"), listed("b.example.com", "2", "AAAA")],
    );
    let places = match plan_zone(&domain, &outcome) {
        ZonePlan::Resolved(places) => places,
        _ => panic!("a successful listing resolves the zone"),
    };
    assert_eq!(places.len(), 2);
    assert!(places[1].is_none());
    let target = places[0].as_ref().expect("a.example.com is listed");
    assert_eq!(target.entry.name, "a.example.com");
    assert_eq!(target.record_id, "1");
    assert_eq!(target.zone_id, "zone-1");
    assert_eq!(target.api_key, "key-1");

    let mut workers = Vec::new();
    for place in places {
        if let Some(target) = place {
            if let Some(worker) = RecordWorker::start(target) {
                workers.push(worker);
            }
        }
    }
    assert_eq!(workers.len(), 1);
    assert_eq!(workers[0].target().entry.name, "a.example.com");
    assert_eq!(workers[0].target().record_id, "1");
}

#[test]
fn plan_keeps_the_order_of_the_configuration() {
    let domain = zone(vec![
        configured("b.example.com", "AAAA"),
        configured("missing.example.com", "A"),
        configured("a.example.com", "A"),
    ]);
    let outcome = answered(
        true,
        vec![listed("a.example.com", "1", "A"), listed("b.example.com", "2", "AAAA")],
    );
    let places = match plan_zone(&domain, &outcome) {
        ZonePlan::Resolved(places) => places,
        _ => panic!("a successful listing resolves the zone"),
    };
    assert_eq!(places.len(), 3);
    assert_eq!(places[0].as_ref().map(|t| t.record_id.as_str()), Some("2"));
    assert_eq!(places[0].as_ref().map(|t| t.entry.name.as_str()), Some("b.example.com"));
    assert!(places[1].is_none());
    assert_eq!(places[2].as_ref().map(|t| t.record_id.as_str()), Some("1"));
    assert_eq!(places[2].as_ref().map(|t| t.entry.name.as_str()), Some("a.example.com"));
}

#[test]
fn plan_of_a_zone_without_entries_is_empty() {
    let outcome = answered(true, vec![listed("a.example.com", "1", "A")]);
    match plan_zone(&zone(vec![]), &outcome) {
        ZonePlan::Resolved(places) => assert!(places.is_empty()),
        _ => panic!("a successful listing resolves the zone"),
    }
}

#[test]
fn unreachable_provider_gives_the_zone_up() {
    let domain = zone(vec![configured("a.example.com", "A")]);
    assert!(matches!(
        plan_zone(&domain, &LookupOutcome::TransportFailure),
        ZonePlan::Unreachable
    ));
}

#[test]
fn refused_listing_gives_the_zone_up() {
    let domain = zone(vec![configured("a.example.com", "A")]);
    let outcome = answered(false, vec![listed("a.example.com", "1", "A")]);
    assert!(matches!(plan_zone(&domain, &outcome), ZonePlan::Refused));
}

#[test]
fn resolved_entry_with_other_record_type_gets_no_worker() {
    let mut entry = configured("mail.example.com", "MX");
    entry.record_id = Some("9".to_string());
    let domain = zone(vec![entry]);
    let places = match plan_zone(&domain, &answered(true, vec![])) {
        ZonePlan::Resolved(places) => places,
        _ => panic!("a successful listing resolves the zone"),
    };
    assert_eq!(places.len(), 1);
    let target = places.into_iter().next().unwrap().expect("the identifier is configured");
    assert_eq!(target.kind(), None);
    assert!(RecordWorker::start(target).is_none());
}
