use puffy_blowhog_dns::config::{export_config, ZoneData};
use puffy_blowhog_dns::error::Error;
use puffy_blowhog_dns::name::{is_valid_raw_name, normalize_name_str};
use puffy_blowhog_dns::record::{same_attrs, same_identity, Common, Record};

fn txt(name: &str, content: &str, ttl: u32, comment: Option<&str>) -> Record {
    Record::Txt {
        common: Common {
            name: name.to_string(),
            ttl,
            comment: comment.map(|c| c.to_string()),
            tags: Vec::new(),
        },
        content: content.to_string(),
    }
}

fn a_record(name: &str, content: &str, ttl: u32, proxied: bool) -> Record {
    Record::A {
        common: Common { name: name.to_string(), ttl, comment: None, tags: Vec::new() },
        content: content.to_string(),
        proxied,
    }
}

fn name_of(r: &Record) -> &str {
    r.common_fields().name.as_str()
}

#[test]
fn normalize_apex_marker() {
    let r = txt("@", "v=spf1 -all", 1, None).normalize_name("example.com").unwrap();
    assert_eq!(name_of(&r), "example.com");
}

#[test]
fn normalize_relative_name() {
    let r = txt("sub", "x", 1, None).normalize_name("example.com").unwrap();
    assert_eq!(name_of(&r), "sub.example.com");
}

#[test]
fn normalize_wildcard_name() {
    let r = txt("*.sub", "x", 1, None).normalize_name("example.com").unwrap();
    assert_eq!(name_of(&r), "*.sub.example.com");
}

#[test]
fn normalize_keeps_qualified_name() {
    let r = txt("sub.example.com", "x", 1, None).normalize_name("example.com").unwrap();
    assert_eq!(name_of(&r), "sub.example.com");
}

#[test]
fn normalize_resolves_qualified_apex_marker() {
    let r = txt("@.example.com", "x", 1, None).normalize_name("example.com").unwrap();
    assert_eq!(name_of(&r), "example.com");
    let other = txt("@.other.org", "x", 1, None).normalize_name("example.com").unwrap();
    assert_eq!(name_of(&other), "@.other.org.example.com");
}

#[test]
fn normalize_rejects_stray_apex_marker() {
    assert!(txt("@x", "x", 1, None).normalize_name("example.com").is_err());
    assert!(txt("@.", "x", 1, None).normalize_name("example.com").is_err());
}

#[test]
fn normalize_keeps_apex_itself() {
    let r = txt("example.com", "x", 1, None).normalize_name("example.com").unwrap();
    assert_eq!(name_of(&r), "example.com");
}

#[test]
fn normalize_is_idempotent() {
    for raw in ["@", "sub", "*.sub", "sub.example.com", "example.com", "a-b_c"] {
        let once = txt(raw, "x", 1, None).normalize_name("example.com").unwrap();
        let twice = once.duplicate().normalize_name("example.com").unwrap();
        assert_eq!(name_of(&once), name_of(&twice));
    }
}

#[test]
fn normalize_rejects_empty_name() {
    let e = txt("", "x", 1, None).normalize_name("example.com").unwrap_err();
    match e {
        Error::InvalidName { name } => assert_eq!(name, ""),
        _ => panic!("expected an invalid-name error"),
    }
}

#[test]
fn normalize_rejects_bad_characters() {
    let e = txt("bad name", "x", 1, None).normalize_name("example.com").unwrap_err();
    match e {
        Error::InvalidName { name } => assert_eq!(name, "bad name"),
        _ => panic!("expected an invalid-name error"),
    }
    assert!(txt("a@b", "x", 1, None).normalize_name("example.com").is_err());
}

#[test]
fn restrictive_records_are_stable() {
    for (a, b) in [
        (Record::restrictive_spf(), Record::restrictive_spf()),
        (Record::restrictive_dkim(), Record::restrictive_dkim()),
        (Record::restrictive_dmarc(), Record::restrictive_dmarc()),
    ] {
        assert!(same_identity(&a, &b));
        assert!(same_attrs(&a, &b));
        assert_eq!(a.common_fields().name, b.common_fields().name);
        assert_eq!(a.common_fields().comment, b.common_fields().comment);
    }
}

#[test]
fn restrictive_records_expected_values() {
    let spf = Record::restrictive_spf();
    match &spf {
        Record::Txt { common, content } => {
            assert_eq!(common.name, "@");
            assert_eq!(common.ttl, 1);
            assert_eq!(content, "v=spf1 -all");
        },
        _ => panic!("the SPF policy record must be a TXT record"),
    }
    let dkim = Record::restrictive_dkim();
    match &dkim {
        Record::Txt { common, content } => {
            assert_eq!(common.name, "*._domainkey");
            assert_eq!(content, "v=DKIM1; p=");
        },
        _ => panic!("the DKIM policy record must be a TXT record"),
    }
    let dmarc = Record::restrictive_dmarc();
    match &dmarc {
        Record::Txt { common, content } => {
            assert_eq!(common.name, "_dmarc");
            assert_eq!(content, "v=DMARC1; p=reject; sp=reject; adkim=s; aspf=s;");
        },
        _ => panic!("the DMARC policy record must be a TXT record"),
    }
}

#[test]
fn identity_ignores_mutable_attributes() {
    let a = txt("@", "v=spf1 -all", 1, None);
    let b = txt("@", "v=spf1 -all", 300, Some("hand-authored"));
    assert!(same_identity(&a, &b));
    assert!(!same_attrs(&a, &b));
}

#[test]
fn identity_separates_kinds_and_payloads() {
    let t = txt("@", "10.0.0.1", 1, None);
    let a = a_record("@", "10.0.0.1", 1, false);
    assert!(!same_identity(&t, &a));
    let t2 = txt("@", "other", 1, None);
    assert!(!same_identity(&t, &t2));
    let t3 = txt("www", "10.0.0.1", 1, None);
    assert!(!same_identity(&t, &t3));
}

#[test]
fn proxy_flag_is_a_mutable_attribute() {
    let a = a_record("www", "10.0.0.1", 1, false);
    let b = a_record("www", "10.0.0.1", 1, true);
    assert!(same_identity(&a, &b));
    assert!(!same_attrs(&a, &b));
}

#[test]
fn raw_name_validation() {
    assert!(is_valid_raw_name("@"));
    assert!(is_valid_raw_name("sub"));
    assert!(is_valid_raw_name("*.sub"));
    assert!(is_valid_raw_name("@.example.com"));
    assert!(is_valid_raw_name("a-b_c.d"));
    assert!(!is_valid_raw_name(""));
    assert!(!is_valid_raw_name("bad name"));
    assert!(!is_valid_raw_name("a@b"));
    assert!(!is_valid_raw_name("@x"));
    assert!(!is_valid_raw_name("@."));
}

#[test]
fn normalize_name_str_expected_values() {
    assert_eq!(normalize_name_str("@", "example.com").unwrap(), "example.com");
    assert_eq!(normalize_name_str("www", "example.com").unwrap(), "www.example.com");
    assert_eq!(
        normalize_name_str("www.example.com", "example.com").unwrap(),
        "www.example.com"
    );
    assert_eq!(normalize_name_str("@.example.com", "example.com").unwrap(), "example.com");
    assert!(normalize_name_str("", "example.com").is_err());
}

#[test]
fn export_config_reflects_remote_state() {
    let records = vec![txt("www.example.com", "hello", 1, None)];
    let cfg = export_config(
        ZoneData { name: "example.com".to_string() },
        "zone-1".to_string(),
        records,
    );
    assert_eq!(cfg.zone.name, "example.com");
    assert_eq!(cfg.zone.id, "zone-1");
    assert!(!cfg.zone.restrictive_email);
    assert_eq!(cfg.records.len(), 1);
    assert_eq!(cfg.records[0].common_fields().name, "www.example.com");
}

#[test]
fn duplicate_preserves_everything() {
    let r = txt("www", "payload", 7, Some("note"));
    let c = r.duplicate();
    assert!(same_identity(&r, &c));
    assert!(same_attrs(&r, &c));
}
