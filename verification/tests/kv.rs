use demo_plugins::kv::{
    get_html, get_json, post_json, put_json, KVReadOp, KVWriteOp, KvStore,
};
use demo_plugins::render::{render_bytes, u64_dec};

#[test]
fn put_then_post_round_trips() {
    let mut store = KvStore::new();
    let ack = put_json(
        &mut store,
        KVWriteOp {
            bucket: "b".to_owned(),
            key: "k".to_owned(),
            value: "v".to_owned(),
        },
    );
    assert_eq!(ack.status, "ok");
    let out = post_json(
        &store,
        KVReadOp {
            bucket: "b".to_owned(),
            key: "k".to_owned(),
        },
    );
    assert_eq!(out, b"v".to_vec());
}

#[test]
fn put_overwrites_prior_value() {
    let mut store = KvStore::new();
    put_json(
        &mut store,
        KVWriteOp {
            bucket: "b".to_owned(),
            key: "k".to_owned(),
            value: "first".to_owned(),
        },
    );
    put_json(
        &mut store,
        KVWriteOp {
            bucket: "b".to_owned(),
            key: "k".to_owned(),
            value: "second".to_owned(),
        },
    );
    let out = post_json(
        &store,
        KVReadOp {
            bucket: "b".to_owned(),
            key: "k".to_owned(),
        },
    );
    assert_eq!(out, b"second".to_vec());
}

#[test]
fn post_of_never_written_pair_is_empty() {
    let store = KvStore::new();
    let out = post_json(
        &store,
        KVReadOp {
            bucket: "b".to_owned(),
            key: "missing".to_owned(),
        },
    );
    assert_eq!(out, Vec::<u8>::new());
}

#[test]
fn keys_are_scoped_by_bucket() {
    let mut store = KvStore::new();
    put_json(
        &mut store,
        KVWriteOp {
            bucket: "b1".to_owned(),
            key: "k".to_owned(),
            value: "v".to_owned(),
        },
    );
    let out = post_json(
        &store,
        KVReadOp {
            bucket: "b2".to_owned(),
            key: "k".to_owned(),
        },
    );
    assert_eq!(out, Vec::<u8>::new());
}

#[test]
fn demo_extends_value_by_one_byte_each_run() {
    let mut store = KvStore::new();
    let first = get_html(&mut store);
    assert_eq!(first, "value for key = [1]");
    let second = get_html(&mut store);
    assert_eq!(second, "value for key = [1, 1]");
    let stored = post_json(
        &store,
        KVReadOp {
            bucket: "".to_owned(),
            key: "a".to_owned(),
        },
    );
    assert_eq!(stored, vec![1u8, 1u8]);
}

#[test]
fn get_json_renders_stored_bytes() {
    let mut store = KvStore::new();
    put_json(
        &mut store,
        KVWriteOp {
            bucket: "b".to_owned(),
            key: "k".to_owned(),
            value: "v".to_owned(),
        },
    );
    let out = get_json(&store, Some("b".to_owned()), Some("k".to_owned()));
    assert_eq!(out, "{ \"value\": [118] }");
}

#[test]
fn get_json_defaults_bucket_to_empty() {
    let mut store = KvStore::new();
    get_html(&mut store);
    let out = get_json(&store, None, Some("a".to_owned()));
    assert_eq!(out, "{ \"value\": [1] }");
}

#[test]
fn get_json_of_missing_value_is_empty_list() {
    let store = KvStore::new();
    let out = get_json(&store, Some("b".to_owned()), Some("k".to_owned()));
    assert_eq!(out, "{ \"value\": [] }");
}

#[test]
fn u64_dec_renders_decimal() {
    assert_eq!(u64_dec(0), "0");
    assert_eq!(u64_dec(7), "7");
    assert_eq!(u64_dec(10), "10");
    assert_eq!(u64_dec(255), "255");
    assert_eq!(u64_dec(u64::MAX), "18446744073709551615");
}

#[test]
fn render_bytes_matches_debug_list_form() {
    assert_eq!(render_bytes(&Vec::new()), "[]");
    assert_eq!(render_bytes(&vec![5]), "[5]");
    assert_eq!(render_bytes(&vec![1, 2, 3]), "[1, 2, 3]");
    assert_eq!(render_bytes(&vec![0, 255]), "[0, 255]");
    assert_eq!(format!("{:?}", vec![0u8, 255u8]), render_bytes(&vec![0, 255]));
}
