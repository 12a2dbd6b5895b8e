use kv_from_rust::handler::{action_for, decide, get_reply, Action, Reply};

#[test]
fn json_get_is_answered_at_once() {
    match decide("GET", "Application/JSON", "/foo", None) {
        Action::Respond(r) => {
            assert_eq!(r.status, 200);
            assert!(r.body.is_none());
        }
        _ => panic!("expected an immediate answer"),
    }
}

#[test]
fn text_get_fetches_the_path() {
    match decide("GET", "text/plain", "/foo", None) {
        Action::Fetch(k) => assert_eq!(k, "/foo"),
        _ => panic!("expected a fetch"),
    }
}

#[test]
fn text_put_stores_the_value_for_ten_minutes() {
    for method in ["PUT", "POST"] {
        match decide(method, "", "/foo", Some("bar".to_string())) {
            Action::Store(p) => {
                assert_eq!(p.key, "/foo");
                assert_eq!(p.value, "bar");
                assert_eq!(p.expiration_ttl, 600);
            }
            _ => panic!("expected a store"),
        }
    }
    match decide("PUT", "", "/foo", None) {
        Action::Store(p) => assert_eq!(p.value, ""),
        _ => panic!("expected a store"),
    }
}

#[test]
fn json_put_reads_the_body() {
    assert!(matches!(decide("POST", "application/json", "/kv", None), Action::StoreJson));
    assert!(matches!(action_for("PUT", true, "/kv", None), Action::StoreJson));
}

#[test]
fn other_methods_are_bad_requests() {
    match decide("DELETE", "", "/foo", None) {
        Action::Respond(r) => {
            assert_eq!(r.status, 400);
            assert!(r.body.is_none());
        }
        _ => panic!("expected a 400"),
    }
    assert!(matches!(decide("get", "", "/foo", None), Action::Respond(_)));
}

#[test]
fn reads_are_answered_in_quotes() {
    let r = get_reply(Some("bar".to_string()));
    assert_eq!(r.status, 200);
    assert_eq!(r.body.as_deref(), Some("\"bar\"\n"));
    let r = get_reply(None);
    assert_eq!(r.body.as_deref(), Some("\"\"\n"));
}

#[test]
fn read_after_write_scenario() {
    // curl -X PUT 'localhost:8787/foo?value=bar' then curl 'localhost:8787/foo'
    let stored = match decide("PUT", "", "/foo", Some("bar".to_string())) {
        Action::Store(p) => p,
        _ => panic!("expected a store"),
    };
    let key = match decide("GET", "", "/foo", None) {
        Action::Fetch(k) => k,
        _ => panic!("expected a fetch"),
    };
    assert_eq!(stored.key, key);
    let r = get_reply(Some(stored.value));
    assert_eq!(r.body.as_deref(), Some("\"bar\"\n"));
}

#[test]
fn reply_constructors() {
    let r = Reply::ok(Some("x".to_string()));
    assert_eq!(r.status, 200);
    assert_eq!(r.body.as_deref(), Some("x"));
    let r = Reply::with_status(400, "bad".to_string());
    assert_eq!(r.status, 400);
    assert_eq!(r.body.as_deref(), Some("bad"));
}
