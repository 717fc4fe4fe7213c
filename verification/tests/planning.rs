use puffy_blowhog_dns::builder::{add_restrictive_email, build_desired, has_identity};
use puffy_blowhog_dns::config::{Config, ZoneConfig};
use puffy_blowhog_dns::error::Error;
use puffy_blowhog_dns::reconcile::{plan, Operation, RemoteRecord};
use puffy_blowhog_dns::record::{same_attrs, same_identity, Common, Record};
use puffy_blowhog_dns::report::{Outcome, Report};

fn txt(name: &str, content: &str, ttl: u32, comment: Option<&str>) -> Record {
    Record::Txt {
        common: Common {
            name: name.to_string(),
            ttl,
            comment: comment.map(|c| c.to_string()),
            tags: Vec::new(),
        },
        content: content.to_string(),
    }
}

fn remote(id: &str, record: Record) -> RemoteRecord {
    RemoteRecord { id: id.to_string(), record }
}

fn config(restrictive_email: bool, records: Vec<Record>) -> Config {
    Config {
        zone: ZoneConfig {
            name: "example.com".to_string(),
            id: "zone-1".to_string(),
            restrictive_email,
        },
        records,
    }
}

#[test]
fn plan_creates_missing_record() {
    let desired = vec![txt("@", "v=spf1 -all", 1, None)];
    let remote_records: Vec<RemoteRecord> = Vec::new();
    let ops = plan(&desired, &remote_records, "example.com").unwrap();
    assert_eq!(ops.len(), 1);
    match &ops[0] {
        Operation::Create(r) => {
            assert_eq!(r.common_fields().name, "example.com");
            match r {
                Record::Txt { content, .. } => assert_eq!(content, "v=spf1 -all"),
                _ => panic!("expected a TXT create"),
            }
        },
        _ => panic!("expected a create operation"),
    }
}

#[test]
fn plan_updates_changed_attributes() {
    let desired = vec![txt("@", "v=spf1 -all", 1, Some("x"))];
    let remote_records = vec![remote("abc", txt("@.example.com", "v=spf1 -all", 300, None))];
    let ops = plan(&desired, &remote_records, "example.com").unwrap();
    assert_eq!(ops.len(), 1);
    match &ops[0] {
        Operation::Update { id, record } => {
            assert_eq!(id, "abc");
            let c = record.common_fields();
            assert_eq!(c.ttl, 1);
            assert_eq!(c.comment.as_deref(), Some("x"));
        },
        _ => panic!("expected an update operation"),
    }
}

#[test]
fn plan_is_empty_when_remote_matches() {
    let desired = vec![
        txt("@", "v=spf1 -all", 1, None),
        txt("www", "hello", 300, Some("kept")),
    ];
    let remote_records = vec![
        remote("r1", txt("example.com", "v=spf1 -all", 1, None)),
        remote("r2", txt("www.example.com", "hello", 300, Some("kept"))),
    ];
    let ops = plan(&desired, &remote_records, "example.com").unwrap();
    assert!(ops.is_empty());
}

#[test]
fn plan_leaves_unmatched_remote_records_alone() {
    let desired = vec![txt("www", "hello", 1, None)];
    let remote_records = vec![
        remote("r1", txt("www.example.com", "hello", 1, None)),
        remote("r2", txt("old.example.com", "stale", 1, None)),
    ];
    let ops = plan(&desired, &remote_records, "example.com").unwrap();
    assert!(ops.is_empty());
}

#[test]
fn plan_is_deterministic() {
    let desired = vec![
        txt("@", "v=spf1 -all", 1, None),
        txt("www", "hello", 300, None),
    ];
    let remote_records = vec![remote("r1", txt("www.example.com", "hello", 1, None))];
    let first = plan(&desired, &remote_records, "example.com").unwrap();
    let second = plan(&desired, &remote_records, "example.com").unwrap();
    assert_eq!(first.len(), second.len());
    for (x, y) in first.iter().zip(second.iter()) {
        match (x, y) {
            (Operation::Create(a), Operation::Create(b)) => assert!(same_identity(a, b)),
            (Operation::Update { id: i, record: a }, Operation::Update { id: j, record: b }) => {
                assert_eq!(i, j);
                assert!(same_identity(a, b));
                assert!(same_attrs(a, b));
            },
            _ => panic!("the two plans disagree"),
        }
    }
}

#[test]
fn plan_matches_last_remote_duplicate() {
    let desired = vec![txt("www", "hello", 5, None)];
    let remote_records = vec![
        remote("older", txt("www.example.com", "hello", 1, None)),
        remote("newer", txt("www.example.com", "hello", 9, None)),
    ];
    let ops = plan(&desired, &remote_records, "example.com").unwrap();
    assert_eq!(ops.len(), 1);
    match &ops[0] {
        Operation::Update { id, .. } => assert_eq!(id, "newer"),
        _ => panic!("expected an update operation"),
    }
}

#[test]
fn plan_rejects_duplicate_desired_identity() {
    let desired = vec![
        txt("@", "v=spf1 -all", 1, None),
        txt("@.example.com", "v=spf1 -all", 300, None),
    ];
    let remote_records: Vec<RemoteRecord> = Vec::new();
    let e = plan(&desired, &remote_records, "example.com").unwrap_err();
    match e {
        Error::DuplicateIdentity { name, first, second } => {
            assert_eq!(name, "example.com");
            assert_eq!(first, 0);
            assert_eq!(second, 1);
        },
        _ => panic!("expected a duplicate-identity error"),
    }
}

#[test]
fn plan_rejects_invalid_desired_name() {
    let desired = vec![txt("bad name", "x", 1, None)];
    let remote_records: Vec<RemoteRecord> = Vec::new();
    let e = plan(&desired, &remote_records, "example.com").unwrap_err();
    match e {
        Error::InvalidName { name } => assert_eq!(name, "bad name"),
        _ => panic!("expected an invalid-name error"),
    }
}

#[test]
fn plan_rejects_invalid_remote_name() {
    let desired = vec![txt("www", "hello", 1, None)];
    let remote_records = vec![remote("r1", txt("bad name", "x", 1, None))];
    let e = plan(&desired, &remote_records, "example.com").unwrap_err();
    match e {
        Error::InvalidName { name } => assert_eq!(name, "bad name"),
        _ => panic!("expected an invalid-name error"),
    }
}

#[test]
fn builder_injects_policy_bundle() {
    let cfg = config(true, vec![txt("www", "hello", 1, None)]);
    let desired = build_desired(&cfg).unwrap();
    assert_eq!(desired.len(), 4);
    assert_eq!(desired[0].common_fields().name, "www.example.com");
    assert_eq!(desired[1].common_fields().name, "example.com");
    assert_eq!(desired[2].common_fields().name, "*._domainkey.example.com");
    assert_eq!(desired[3].common_fields().name, "_dmarc.example.com");
}

#[test]
fn builder_without_toggle_only_normalizes() {
    let cfg = config(false, vec![txt("www", "hello", 1, None)]);
    let desired = build_desired(&cfg).unwrap();
    assert_eq!(desired.len(), 1);
    assert_eq!(desired[0].common_fields().name, "www.example.com");
}

#[test]
fn builder_skips_user_authored_policy_record() {
    let user_dkim = txt("*._domainkey", "v=DKIM1; p=", 600, Some("mine"));
    let cfg = config(true, vec![user_dkim]);
    let desired = build_desired(&cfg).unwrap();
    assert_eq!(desired.len(), 3);
    let probe = Record::restrictive_dkim().normalize_name("example.com").unwrap();
    let matching = desired.iter().filter(|r| same_identity(r, &probe)).count();
    assert_eq!(matching, 1);
    assert_eq!(desired[0].common_fields().ttl, 600);
}

#[test]
fn builder_is_idempotent() {
    let cfg = config(true, vec![txt("www", "hello", 1, None)]);
    let once = build_desired(&cfg).unwrap();
    let again = build_desired(&config(true, once.iter().map(|r| r.duplicate()).collect())).unwrap();
    assert_eq!(once.len(), again.len());
    for (a, b) in once.iter().zip(again.iter()) {
        assert!(same_identity(a, b));
        assert!(same_attrs(a, b));
    }
}

#[test]
fn add_restrictive_email_twice_adds_nothing() {
    let mut records = vec![txt("www.example.com", "hello", 1, None)];
    add_restrictive_email(&mut records, "example.com");
    assert_eq!(records.len(), 4);
    add_restrictive_email(&mut records, "example.com");
    assert_eq!(records.len(), 4);
}

#[test]
fn has_identity_finds_matches() {
    let records = vec![txt("a.example.com", "x", 1, None)];
    assert!(has_identity(&records, &txt("a.example.com", "x", 99, Some("other"))));
    assert!(!has_identity(&records, &txt("b.example.com", "x", 1, None)));
}

#[test]
fn builder_then_plan_converges() {
    let cfg = config(true, vec![txt("www", "hello", 1, None)]);
    let desired = build_desired(&cfg).unwrap();
    let remote_records: Vec<RemoteRecord> = desired
        .iter()
        .enumerate()
        .map(|(i, r)| remote(&format!("id-{i}"), r.duplicate()))
        .collect();
    let ops = plan(&desired, &remote_records, "example.com").unwrap();
    assert!(ops.is_empty());
}

#[test]
fn report_aggregates_outcomes() {
    let mut report = Report::new();
    assert!(report.is_success());
    assert_eq!(report.failure_count(), 0);
    report.push(Outcome::Success);
    assert!(report.is_success());
    report.push(Outcome::Failure { message: "connection reset".to_string() });
    report.push(Outcome::Success);
    assert!(!report.is_success());
    assert_eq!(report.failure_count(), 1);
    assert_eq!(report.outcomes.len(), 3);
}
