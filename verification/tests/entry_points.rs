use embedded_ffi::cbor::err_bytes;
use embedded_ffi::entry::{
    bind_query_vars, check_query_text, enabled_backends, query_take_reply, se_open_mem,
    se_open_surrealkv, se_query, se_query_take, se_version, QueryOutcome, QueryStep,
};

fn reply(step: QueryStep) -> Vec<u8> {
    match step {
        QueryStep::Respond(b) => b,
        QueryStep::Run(r) => panic!("expected a reply, got a request {:?}", r),
    }
}

#[test]
fn open_mem_accepts_names() {
    let t = se_open_mem(Some(b"ns"), Some(b"db")).expect("opens");
    assert_eq!(t.path, None);
    assert_eq!(t.ns, "ns");
    assert_eq!(t.db, "db");
}

#[test]
fn open_mem_rejects_null_or_invalid() {
    assert!(se_open_mem(None, Some(b"db")).is_none());
    assert!(se_open_mem(Some(b"ns"), None).is_none());
    assert!(se_open_mem(Some(&[0xff]), Some(b"db")).is_none());
}

#[test]
fn open_surrealkv_accepts_arguments() {
    let t = se_open_surrealkv(Some(b"/tmp/data.db"), Some(b"ns"), Some(b"db")).expect("opens");
    assert_eq!(t.path.as_deref(), Some("/tmp/data.db"));
    assert_eq!(t.ns, "ns");
    assert_eq!(t.db, "db");
}

#[test]
fn open_surrealkv_rejects_bad_arguments() {
    assert!(se_open_surrealkv(None, Some(b"ns"), Some(b"db")).is_none());
    assert!(se_open_surrealkv(Some(b"p"), Some(&[0xc0, 0x80]), Some(b"db")).is_none());
    assert!(se_open_surrealkv(Some(b"p"), Some(b"ns"), None).is_none());
}

#[test]
fn query_null_handle_comes_first() {
    assert_eq!(reply(se_query(true, None, Some(&[0xff]))), err_bytes("null handle"));
    assert_eq!(reply(se_query_take(true, Some(b"INFO FOR DB"), None, 2)), err_bytes("null handle"));
}

#[test]
fn query_null_surql() {
    assert_eq!(reply(se_query(false, None, None)), err_bytes("null string"));
}

#[test]
fn query_invalid_surql() {
    assert_eq!(
        reply(se_query(false, Some(&[0xff]), None)),
        err_bytes("utf8 error: invalid utf-8 sequence of 1 bytes from index 0")
    );
}

#[test]
fn query_surql_checked_before_vars() {
    assert_eq!(reply(se_query_take(false, None, Some(&[0xff]), 1)), err_bytes("null string"));
}

#[test]
fn query_invalid_vars() {
    let bytes = [0xffu8];
    let text = serde_cbor::from_slice::<serde_json::Value>(&bytes).unwrap_err().to_string();
    assert_eq!(
        reply(se_query(false, Some(b"SELECT * FROM person"), Some(&bytes))),
        err_bytes(&format!("vars CBOR decode error: {}", text))
    );
}

#[test]
fn query_runs_at_index_zero() {
    match se_query(false, Some(b"SELECT * FROM person"), None) {
        QueryStep::Run(r) => {
            assert_eq!(r.surql, "SELECT * FROM person");
            assert!(r.vars.is_none());
            assert_eq!(r.index, 0);
        }
        QueryStep::Respond(b) => panic!("unexpected reply {:?}", b),
    }
}

#[test]
fn query_take_runs_at_requested_index() {
    let mut obj = serde_json::Map::new();
    obj.insert("x".to_string(), serde_json::Value::from(1));
    let expected = serde_json::Value::Object(obj);
    let vars = serde_cbor::to_vec(&expected).unwrap();
    match se_query_take(false, Some(b"LET $a = 1; RETURN $x"), Some(&vars), 1) {
        QueryStep::Run(r) => {
            assert_eq!(r.surql, "LET $a = 1; RETURN $x");
            assert_eq!(r.vars, Some(expected));
            assert_eq!(r.index, 1);
        }
        QueryStep::Respond(b) => panic!("unexpected reply {:?}", b),
    }
}

#[test]
fn query_is_query_take_at_zero() {
    let cases: Vec<(bool, Option<&[u8]>, Option<&[u8]>)> = vec![
        (true, None, None),
        (false, None, None),
        (false, Some(b"RETURN 1"), None),
        (false, Some(b"RETURN 1"), Some(&[0xff])),
        (false, Some(&[0xfe]), Some(&[])),
    ];
    for (null, q, v) in cases {
        let a = format!("{:?}", se_query(null, q, v));
        let b = format!("{:?}", se_query_take(null, q, v, 0));
        assert_eq!(a, b);
    }
}

#[test]
fn reply_lock_poisoned() {
    assert_eq!(query_take_reply(0, QueryOutcome::LockPoisoned), err_bytes("mutex poisoned"));
}

#[test]
fn reply_query_failed() {
    assert_eq!(
        query_take_reply(0, QueryOutcome::QueryFailed("Parse error".to_string())),
        err_bytes("Parse error")
    );
}

#[test]
fn reply_take_failed_names_index() {
    assert_eq!(
        query_take_reply(12, QueryOutcome::TakeFailed("no such statement".to_string())),
        err_bytes("resp.take(12) error: no such statement")
    );
}

#[test]
fn reply_taken_value() {
    assert_eq!(query_take_reply(3, QueryOutcome::Taken(Ok(vec![0xf6]))), vec![0xf6]);
    assert_eq!(
        query_take_reply(3, QueryOutcome::Taken(Err("bad".to_string()))),
        err_bytes("CBOR encode error: bad")
    );
}

#[test]
fn version_report() {
    let info = se_version("3.3.5", "x86_64-unknown-linux-gnu");
    assert_eq!(info.surrealdb_version, "3.3.5");
    assert_eq!(info.build_target, "x86_64-unknown-linux-gnu");
    assert_eq!(info.enabled_backends, vec!["mem".to_string(), "surrealkv".to_string()]);
    assert_eq!(enabled_backends(), vec!["mem".to_string(), "surrealkv".to_string()]);
}

#[test]
fn check_query_text_stages() {
    assert_eq!(check_query_text(true, Some(b"RETURN 1")), Err(err_bytes("null handle")));
    assert_eq!(check_query_text(false, None), Err(err_bytes("null string")));
    assert_eq!(check_query_text(false, Some(b"RETURN 1")), Ok("RETURN 1".to_string()));
}

#[test]
fn bind_query_vars_binds_decoded_value() {
    let bytes = [0xa1u8, 0x61, b'x', 0x01];
    let mut obj = serde_json::Map::new();
    obj.insert("x".to_string(), serde_json::Value::from(1));
    match bind_query_vars("RETURN $x".to_string(), Some(&bytes), 4) {
        QueryStep::Run(r) => {
            assert_eq!(r.surql, "RETURN $x");
            assert_eq!(r.vars, Some(serde_json::Value::Object(obj)));
            assert_eq!(r.index, 4);
        }
        QueryStep::Respond(b) => panic!("unexpected reply {:?}", b),
    }
    match bind_query_vars("RETURN 1".to_string(), None, 0) {
        QueryStep::Run(r) => assert!(r.vars.is_none()),
        QueryStep::Respond(b) => panic!("unexpected reply {:?}", b),
    }
}

#[test]
fn bind_query_vars_rejects_bad_vars() {
    let bytes = [0x01u8, 0x02];
    let text = serde_cbor::from_slice::<serde_json::Value>(&bytes).unwrap_err().to_string();
    assert_eq!(
        reply(bind_query_vars("RETURN 1".to_string(), Some(&bytes), 0)),
        err_bytes(&format!("vars CBOR decode error: {}", text))
    );
}
