use check_updates::parse_package_id;
use check_updates::updates::{build_update_records, classify_security, DetailNote};

#[test]
fn identifier_without_version_gets_unknown() {
    let u = parse_package_id("c", false).unwrap();
    assert_eq!(u.name, "c");
    assert_eq!(u.version, "unknown");
    assert_eq!(u.package_id, "c");
    assert!(!u.is_security);
}

#[test]
fn identifier_fields_split_on_semicolons() {
    let u = parse_package_id("bash;5.1-2;x86_64;updates", true).unwrap();
    assert_eq!(u.package_id, "bash;5.1-2;x86_64;updates");
    assert_eq!(u.name, "bash");
    assert_eq!(u.version, "5.1-2");
    assert!(u.is_security);
}

#[test]
fn trailing_semicolon_gives_empty_version() {
    let u = parse_package_id("a;", false).unwrap();
    assert_eq!(u.name, "a");
    assert_eq!(u.version, "");
}

#[test]
fn empty_identifier_still_parses() {
    let u = parse_package_id("", false).unwrap();
    assert_eq!(u.name, "");
    assert_eq!(u.version, "unknown");
}

#[test]
fn classification_from_cve_list_text_and_changelog() {
    let no_urls: Vec<String> = Vec::new();
    let one_url = vec!["https://cve.example/CVE-2024-0001".to_string()];
    assert!(classify_security(&one_url, "", ""));
    assert!(classify_security(&no_urls, "fixes CVE-2024-0001", ""));
    assert!(classify_security(&no_urls, "", "see CVE-2023-4567"));
    assert!(!classify_security(&no_urls, "routine rebuild", "cleanup"));
    // The marker must appear verbatim.
    assert!(!classify_security(&no_urls, "cve-2024-0001", ""));
}

#[test]
fn aggregator_preserves_order_and_classifies() {
    let ids = vec!["a;1.0".to_string(), "b;2.0".to_string()];
    let details = vec![DetailNote { package_id: "b;2.0".to_string(), is_security: true }];
    let records = build_update_records(&ids, &details);
    assert_eq!(records.len(), 2);
    assert_eq!(records[0].name, "a");
    assert_eq!(records[0].version, "1.0");
    assert!(!records[0].is_security);
    assert_eq!(records[1].name, "b");
    assert_eq!(records[1].version, "2.0");
    assert!(records[1].is_security);
}

#[test]
fn aggregator_defaults_missing_details_and_keeps_duplicates() {
    let ids = vec!["x;1".to_string(), "x;1".to_string(), "y".to_string()];
    let details: Vec<DetailNote> = Vec::new();
    let records = build_update_records(&ids, &details);
    assert_eq!(records.len(), 3);
    assert!(records.iter().all(|r| !r.is_security));
    assert_eq!(records[0].package_id, "x;1");
    assert_eq!(records[1].package_id, "x;1");
    assert_eq!(records[2].name, "y");
}

#[test]
fn last_detail_notification_wins() {
    let ids = vec!["p;3".to_string()];
    let details = vec![
        DetailNote { package_id: "p;3".to_string(), is_security: true },
        DetailNote { package_id: "p;3".to_string(), is_security: false },
    ];
    let records = build_update_records(&ids, &details);
    assert!(!records[0].is_security);
}
