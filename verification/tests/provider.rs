use cloudflareddns::data::{DnsUpdate, Entry};
use cloudflareddns::provider::{
    bearer, record_url, records_request, records_url, update_request, HttpMethod, ROOT,
};

#[test]
fn root_is_the_v4_client_api() {
    assert_eq!(ROOT, "https://api.cloudflare.com/client/v4");
}

#[test]
fn records_url_names_the_zone() {
    assert_eq!(
        records_url("023e105f4ecef8ad9ca31a8372d0c353"),
        "https://api.cloudflare.com/client/v4/zones/023e105f4ecef8ad9ca31a8372d0c353/dns_records"
    );
}

#[test]
fn records_url_of_an_empty_zone_keeps_both_slashes() {
    assert_eq!(records_url(""), "https://api.cloudflare.com/client/v4/zones//dns_records");
}

#[test]
fn record_url_names_zone_and_record() {
    assert_eq!(
        record_url("z1", "372e67954025e0ba6aaa6d586b9e0b59"),
        "https://api.cloudflare.com/client/v4/zones/z1/dns_records/372e67954025e0ba6aaa6d586b9e0b59"
    );
}

#[test]
fn bearer_prefixes_the_credential() {
    assert_eq!(bearer("s3cr3t"), "Bearer s3cr3t");
    assert_eq!(bearer(""), "Bearer ");
}

#[test]
fn records_request_is_a_get_without_body() {
    let request = records_request("z1", "k1");
    assert_eq!(request.method, HttpMethod::Get);
    assert_eq!(request.url, "https://api.cloudflare.com/client/v4/zones/z1/dns_records");
    assert_eq!(request.authorization, "Bearer k1");
    assert!(request.body.is_none());
}

#[test]
fn update_request_is_a_put_with_the_update() {
    let update = DnsUpdate {
        entry: Entry {
            name: "home.example.com".to_string(),
            ttl: 1,
            proxied: Some(false),
            record_type: "A".to_string(),
            tags: None,
            comment: None,
            record_id: None,
        },
        content: "203.0.113.9".to_string(),
    };
    let request = update_request("z1", "r1", "k1", update);
    assert_eq!(request.method, HttpMethod::Put);
    assert_eq!(request.url, "https://api.cloudflare.com/client/v4/zones/z1/dns_records/r1");
    assert_eq!(request.authorization, "Bearer k1");
    let body = request.body.expect("an update carries a body");
    assert_eq!(body.content, "203.0.113.9");
    assert_eq!(body.entry.name, "home.example.com");
    assert_eq!(body.entry.ttl, 1);
    assert_eq!(body.entry.proxied, Some(false));
    assert_eq!(body.entry.record_type, "A");
}
