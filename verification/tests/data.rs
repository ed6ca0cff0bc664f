use cloudflareddns::data::{
    default_tags, default_ttl, default_type, DnsRecord, DnsUpdate, DomainInfo, Entry,
    ExtendedResponse, Response, Settings,
};
use cloudflareddns::error::CloudFlareError;

fn sample_entry() -> Entry {
    Entry {
        name: "home.example.com".to_string(),
        ttl: 300,
        proxied: Some(true),
        record_type: "AAAA".to_string(),
        tags: Some(vec!["owner:ops".to_string(), "site:home".to_string()]),
        comment: Some("kept current by the updater".to_string()),
        record_id: Some("f00d".to_string()),
    }
}

#[test]
fn default_type_is_a() {
    assert_eq!(default_type(), "A");
}

#[test]
fn default_ttl_is_one() {
    assert_eq!(default_ttl(), 1);
}

#[test]
fn default_tags_are_empty() {
    assert!(default_tags().is_empty());
}

#[test]
fn entry_clone_keeps_every_field() {
    let entry = sample_entry();
    let copy = entry.clone();
    assert_eq!(copy.name, "home.example.com");
    assert_eq!(copy.ttl, 300);
    assert_eq!(copy.proxied, Some(true));
    assert_eq!(copy.record_type, "AAAA");
    assert_eq!(
        copy.tags,
        Some(vec!["owner:ops".to_string(), "site:home".to_string()])
    );
    assert_eq!(copy.comment, Some("kept current by the updater".to_string()));
    assert_eq!(copy.record_id, Some("f00d".to_string()));
}

#[test]
fn entry_clone_keeps_absent_fields_absent() {
    let entry = Entry {
        name: "a.example.com".to_string(),
        ttl: default_ttl(),
        proxied: None,
        record_type: default_type(),
        tags: None,
        comment: None,
        record_id: None,
    };
    let copy = entry.clone();
    assert_eq!(copy.name, "a.example.com");
    assert_eq!(copy.ttl, 1);
    assert_eq!(copy.proxied, None);
    assert_eq!(copy.record_type, "A");
    assert_eq!(copy.tags, None);
    assert_eq!(copy.comment, None);
    assert_eq!(copy.record_id, None);
}

#[test]
fn domain_clone_keeps_entries_in_order() {
    let mut second = sample_entry();
    second.name = "office.example.com".to_string();
    let domain = DomainInfo {
        zone_id: "zone-1".to_string(),
        api_key: "key-1".to_string(),
        entries: vec![sample_entry(), second],
    };
    let copy = domain.clone();
    assert_eq!(copy.zone_id, "zone-1");
    assert_eq!(copy.api_key, "key-1");
    assert_eq!(copy.entries.len(), 2);
    assert_eq!(copy.entries[0].name, "home.example.com");
    assert_eq!(copy.entries[1].name, "office.example.com");
}

#[test]
fn update_clone_keeps_entry_and_content() {
    let update = DnsUpdate { entry: sample_entry(), content: "2001:db8::1".to_string() };
    let copy = update.clone();
    assert_eq!(copy.content, "2001:db8::1");
    assert_eq!(copy.entry.name, "home.example.com");
    assert_eq!(copy.entry.record_type, "AAAA");
}

#[test]
fn response_clone_keeps_errors_in_order() {
    let response = Response {
        success: false,
        errors: vec![
            CloudFlareError { code: 1004, message: "DNS Validation Error".to_string() },
            CloudFlareError { code: 9109, message: "Invalid access token".to_string() },
        ],
    };
    let copy = response.clone();
    assert!(!copy.success);
    assert_eq!(copy.errors.len(), 2);
    assert_eq!(copy.errors[0].code, 1004);
    assert_eq!(copy.errors[0].message, "DNS Validation Error");
    assert_eq!(copy.errors[1].code, 9109);
    assert_eq!(copy.errors[1].message, "Invalid access token");
}

#[test]
fn extended_response_clone_keeps_result() {
    let answer = ExtendedResponse {
        response: Response { success: true, errors: vec![] },
        result: vec![DnsRecord {
            content: "198.51.100.4".to_string(),
            id: "1".to_string(),
            name: "a.example.com".to_string(),
            record_type: "A".to_string(),
        }],
    };
    let copy = answer.clone();
    assert!(copy.response.success);
    assert!(copy.response.errors.is_empty());
    assert_eq!(copy.result.len(), 1);
    assert_eq!(copy.result[0].content, "198.51.100.4");
    assert_eq!(copy.result[0].id, "1");
    assert_eq!(copy.result[0].name, "a.example.com");
    assert_eq!(copy.result[0].record_type, "A");
}

#[test]
fn settings_compare_by_interval_then_flag() {
    let slow = Settings { ip_poll: 60_000, update_upon_start: false };
    let fast = Settings { ip_poll: 1_000, update_upon_start: true };
    let copy = slow;
    assert!(copy == slow);
    assert!(fast != slow);
    assert!(fast < slow);
    assert!(
        Settings { ip_poll: 5, update_upon_start: false }
            < Settings { ip_poll: 5, update_upon_start: true }
    );
}
