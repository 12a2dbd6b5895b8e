use kv_from_rust::kv::{KeyValue, MetaData};
use kv_from_rust::store::{expiration_of, kv_path, plan_store, plan_store_checked};

fn record(key: u32, value: &str, expiration: Option<&str>) -> KeyValue {
    KeyValue {
        key,
        value: value.to_string(),
        metadata: expiration.map(|e| MetaData {
            format: "JSON".to_string(),
            tags: "a,b".to_string(),
            expiration: e.to_string(),
            created: "20220805.191107".to_string(),
        }),
    }
}

#[test]
fn paths_of_records() {
    assert_eq!(kv_path(0), "/kv/0");
    assert_eq!(kv_path(42), "/kv/42");
    assert_eq!(kv_path(u32::MAX), "/kv/4294967295");
}

#[test]
fn expiration_defaults_to_one_day() {
    assert_eq!(expiration_of(&record(1, "x", None)), Ok(86400));
}

#[test]
fn expiration_from_metadata() {
    assert_eq!(expiration_of(&record(1, "x", Some("1h"))), Ok(3600));
    assert_eq!(expiration_of(&record(1, "x", Some("1month"))), Ok(30 * 86400));
    assert_eq!(expiration_of(&record(1, "x", Some("-s"))), Ok(u64::MAX));
    assert_eq!(expiration_of(&record(1, "x", Some("-1s"))), Ok(u64::MAX - 10));
    assert_eq!(
        expiration_of(&record(1, "x", Some("xx"))),
        Err("invalid expiration: Invalid duration spec:xx".to_string())
    );
}

#[test]
fn planning_a_store() {
    let p = plan_store(&record(7, "a\"b", Some("2d"))).ok().unwrap();
    assert_eq!(p.key, "/kv/7");
    assert_eq!(p.value, "\"a\\\"b\"");
    assert_eq!(p.expiration_ttl, 2 * 86400);
    let p = plan_store(&record(8, "{\"id\":4}", None)).ok().unwrap();
    assert_eq!(p.key, "/kv/8");
    assert_eq!(p.value, "\"{\\\"id\\\":4}\"");
    assert_eq!(p.expiration_ttl, 86400);
}

#[test]
fn planning_refuses_bad_expirations() {
    match plan_store(&record(1, "x", Some("1q"))) {
        Err(m) => assert_eq!(m, "invalid expiration: Invalid duration spec:1q"),
        Ok(_) => panic!("expected an error"),
    }
}

#[test]
fn checked_planning() {
    assert!(plan_store_checked(&record(1, "x", Some("106751991168d"))).is_none());
    match plan_store_checked(&record(3, "v", Some("1w"))) {
        Some(Ok(p)) => {
            assert_eq!(p.key, "/kv/3");
            assert_eq!(p.expiration_ttl, 604800);
        }
        _ => panic!("expected a plan"),
    }
}

#[test]
fn stored_text_reads_back() {
    let value = "a\u{1}\"\\\n\u{8}\u{c}\r\t\u{1f}/\u{e9}";
    let p = plan_store(&record(9, value, None)).ok().unwrap();
    assert_eq!(p.value, "\"a\\u0001\\\"\\\\\\n\\b\\f\\r\\t\\u001f/\u{e9}\"");
    let back: String = serde_json::from_str(&p.value).unwrap();
    assert_eq!(back, value);
}
