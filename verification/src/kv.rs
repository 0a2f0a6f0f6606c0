//! The key/value core: a bucket-and-key byte store with four operations — a
//! read-append-write-read demonstration, a write acknowledged with a fixed
//! status, a raw read, and a configuration-driven read rendered as JSON.
//!
//! The store a deployment talks to is a host capability (`read(bucket, key)`
//! and `write(bucket, key, bytes)`); here it is modelled in memory so that
//! each operation's effect on the store state is stated and proved. An
//! embedding substitutes the host's calls for the model's and reuses the
//! verified append and rendering steps.

use crate::render::{byte_list, render_bytes};
use vstd::prelude::*;
use vstd::utf8::encode_utf8;

verus! {

/// A write request: the value to store under a bucket and key.
pub struct KVWriteOp {
    pub bucket: String,
    pub key: String,
    pub value: String,
}

/// A read request for one bucket and key.
pub struct KVReadOp {
    pub bucket: String,
    pub key: String,
}

/// The fixed acknowledgement a write returns.
pub struct KVStatus {
    pub status: String,
}

/// The abstract state of the store: bytes keyed by bucket and key.
pub type StoreState = Map<(Seq<char>, Seq<char>), Seq<u8>>;

/// The store state described by a sequence of recorded writes, later writes
/// shadowing earlier ones.
pub open spec fn writes_to_state(s: Seq<(String, String, Vec<u8>)>) -> StoreState
    decreases s.len(),
{
    if s.len() == 0 {
        Map::empty()
    } else {
        writes_to_state(s.drop_last()).insert((s.last().0@, s.last().1@), s.last().2@)
    }
}

/// What a read of `bucket`/`key` observes in store state `m`: the stored
/// bytes, or the empty sequence when nothing was ever written there.
pub open spec fn read_of(m: StoreState, bucket: Seq<char>, key: Seq<char>) -> Seq<u8> {
    if m.contains_key((bucket, key)) {
        m[(bucket, key)]
    } else {
        Seq::empty()
    }
}

/// An in-memory store with the same two-call surface as the host capability:
/// it records writes and answers reads from the latest matching write.
pub struct KvStore {
    writes: Vec<(String, String, Vec<u8>)>,
}

impl View for KvStore {
    type V = StoreState;

    closed spec fn view(&self) -> StoreState {
        writes_to_state(self.writes@)
    }
}

impl KvStore {
    /// An empty store: every read observes the empty sequence.
    pub fn new() -> (r: Self)
        ensures
            r@ == Map::<(Seq<char>, Seq<char>), Seq<u8>>::empty(),
    {
        KvStore { writes: Vec::new() }
    }

    /// The capability `read(bucket, key) -> bytes`, on the model.
    pub fn read(&self, bucket: &String, key: &String) -> (r: Vec<u8>)
        ensures
            r@ == read_of(self@, bucket@, key@),
    {
        let mut i: usize = self.writes.len();
        proof {
            assert(self.writes@.take(i as int) =~= self.writes@);
        }
        while i > 0
            invariant
                i <= self.writes.len(),
                read_of(writes_to_state(self.writes@.take(i as int)), bucket@, key@) == read_of(
                    self@,
                    bucket@,
                    key@,
                ),
            decreases i,
        {
            i = i - 1;
            proof {
                let t = self.writes@.take(i as int + 1);
                assert(t.drop_last() =~= self.writes@.take(i as int));
                assert(t.last() == self.writes@[i as int]);
            }
            let e = &self.writes[i];
            if e.0 == *bucket && e.1 == *key {
                return vstd::slice::slice_to_vec(e.2.as_slice());
            }
        }
        proof {
            assert(self.writes@.take(0) =~= Seq::<(String, String, Vec<u8>)>::empty());
        }
        Vec::new()
    }

    /// The capability `write(bucket, key, value)`, on the model.
    pub fn write(&mut self, bucket: String, key: String, value: Vec<u8>)
        ensures
            final(self)@ == old(self)@.insert((bucket@, key@), value@),
    {
        let ghost before = self.writes@;
        self.writes.push((bucket, key, value));
        proof {
            assert(self.writes@.drop_last() =~= before);
        }
    }
}

/// Appends the demonstration's fixed marker byte to a read value.
pub fn append_one(data: &mut Vec<u8>)
    ensures
        final(data)@ == old(data)@.push(1u8),
{
    data.push(1);
}

/// The display line for a value read back from the store.
pub open spec fn value_text(s: Seq<u8>) -> Seq<char> {
    "value for key = "@ + byte_list(s)
}

/// Renders a read value for display.
pub fn render_value(v: &Vec<u8>) -> (r: String)
    ensures
        r@ == value_text(v@),
{
    let mut s = "value for key = ".to_owned();
    let b = render_bytes(v);
    s.append(b.as_str());
    proof {
        assert(s@ =~= value_text(v@));
    }
    s
}

/// The hand-built JSON line embedding a read value as a decimal byte list.
pub open spec fn json_value_text(s: Seq<u8>) -> Seq<char> {
    "{ \"value\": "@ + byte_list(s) + " }"@
}

/// Renders a read value as the hand-built JSON line.
pub fn render_json_value(v: &Vec<u8>) -> (r: String)
    ensures
        r@ == json_value_text(v@),
{
    let mut s = "{ \"value\": ".to_owned();
    let b = render_bytes(v);
    s.append(b.as_str());
    s.append(" }");
    proof {
        assert(s@ =~= json_value_text(v@));
    }
    s
}

/// What one run of the read-append-write-read demonstration does to the
/// store state: the value under the fixed bucket/key grows by the marker
/// byte.
pub open spec fn demo_step(m: StoreState) -> StoreState {
    m.insert((""@, "a"@), read_of(m, ""@, "a"@).push(1u8))
}

/// The read-append-write-read demonstration on the fixed bucket/key: reads
/// the value, appends the marker byte, writes it back, reads it again and
/// renders what came back.
pub fn get_html(store: &mut KvStore) -> (r: String)
    ensures
        final(store)@ == demo_step(old(store)@),
        r@ == value_text(read_of(demo_step(old(store)@), ""@, "a"@)),
{
    let bucket = "".to_owned();
    let key = "a".to_owned();
    let mut data = store.read(&bucket, &key);
    append_one(&mut data);
    store.write(bucket.clone(), key.clone(), data);
    let out = store.read(&bucket, &key);
    render_value(&out)
}

/// Stores the requested value and acknowledges with status `"ok"`,
/// regardless of prior state.
pub fn put_json(store: &mut KvStore, input: KVWriteOp) -> (r: KVStatus)
    ensures
        final(store)@ == old(store)@.insert(
            (input.bucket@, input.key@),
            encode_utf8(input.value@),
        ),
        r.status@ == "ok"@,
{
    let bytes = input.value.as_str().as_bytes_vec();
    store.write(input.bucket, input.key, bytes);
    KVStatus { status: "ok".to_owned() }
}

/// Returns the raw bytes stored under the requested bucket/key, with no
/// presence check: a never-written pair reads as the empty sequence.
pub fn post_json(store: &KvStore, input: KVReadOp) -> (r: Vec<u8>)
    ensures
        r@ == read_of(store@, input.bucket@, input.key@),
{
    store.read(&input.bucket, &input.key)
}

/// The bucket a configuration-driven read uses: the configured one, or the
/// empty bucket when none is configured.
pub open spec fn bucket_or_default(c: Option<String>) -> Seq<char> {
    match c {
        Some(s) => s@,
        None => Seq::empty(),
    }
}

/// The configuration-driven read: looks up the configured bucket (defaulting
/// to the empty bucket) and key, and renders the value as the hand-built
/// JSON line. An absent `key` is an unrecoverable configuration error and is
/// excluded up front: the embedding aborts such a call instead of
/// defaulting.
pub fn get_json(store: &KvStore, bucket: Option<String>, key: Option<String>) -> (r: String)
    requires
        key is Some,
    ensures
        r@ == json_value_text(read_of(store@, bucket_or_default(bucket), key.unwrap()@)),
{
    let b = match bucket {
        Some(s) => s,
        None => String::new(),
    };
    let k = key.unwrap();
    let value = store.read(&b, &k);
    render_json_value(&value)
}

/// A value written under a bucket/key pair is exactly what a subsequent read
/// of that pair observes, when no other write intervenes.
pub proof fn lemma_write_then_read(
    m: StoreState,
    bucket: Seq<char>,
    key: Seq<char>,
    value: Seq<u8>,
)
    ensures
        read_of(m.insert((bucket, key), value), bucket, key) == value,
{
}

/// Each uninterleaved run of the read-append-write-read demonstration grows
/// the stored sequence by exactly one byte of fixed value; two runs in a row
/// grow it by two.
pub proof fn lemma_demo_appends_one_byte(m: StoreState)
    ensures
        read_of(demo_step(m), ""@, "a"@) == read_of(m, ""@, "a"@).push(1u8),
        read_of(demo_step(demo_step(m)), ""@, "a"@) == read_of(m, ""@, "a"@).push(1u8).push(1u8),
{
}

} // verus!
