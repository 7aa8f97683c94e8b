use vstd::prelude::*;
use vstd::utf8::*;

use crate::error::StoreError;
use crate::kvmap::{lookup, text_of, KvMap};

verus! {

/// The kind of Kubernetes object that holds the entries.
#[derive(Clone, Copy, PartialEq, Eq, Debug, Structural)]
pub enum KubernetesResource {
    /// Values are stored as plain strings.
    ConfigMap,
    /// Values are stored base64-encoded.
    Secret,
}

/// The identity under which the store's patches are applied.
pub const FIELD_MANAGER: &'static str = "simple-kv-store";

/// The digit of value `n` (below 64) in the standard base64 alphabet.
pub open spec fn base64_digit(n: int) -> char {
    "ABCDEFGHIJKLMNOPQRSTUVWXYZabcdefghijklmnopqrstuvwxyz0123456789+/"@[n]
}

/// The standard base64 encoding, with padding, of a byte string: each group
/// of three bytes becomes four digits of six bits each; a last group of one or
/// two bytes becomes two or three digits followed by `=` up to four.
pub open spec fn base64_of(b: Seq<u8>) -> Seq<char>
    decreases b.len(),
{
    if b.len() == 0 {
        Seq::empty()
    } else if b.len() == 1 {
        seq![
            base64_digit(b[0] as int / 4),
            base64_digit((b[0] as int % 4) * 16),
            '=',
            '=',
        ]
    } else if b.len() == 2 {
        seq![
            base64_digit(b[0] as int / 4),
            base64_digit((b[0] as int % 4) * 16 + b[1] as int / 16),
            base64_digit((b[1] as int % 16) * 4),
            '=',
        ]
    } else {
        seq![
            base64_digit(b[0] as int / 4),
            base64_digit((b[0] as int % 4) * 16 + b[1] as int / 16),
            base64_digit((b[1] as int % 16) * 4 + b[2] as int / 64),
            base64_digit(b[2] as int % 64),
        ] + base64_of(b.subrange(3, b.len() as int))
    }
}

/// A value whose UTF-8 form fits in memory, so that its base64 encoding does
/// too. Every string that exists meets it; a caller shows it by testing
/// `value.as_bytes().len() <= usize::MAX / 2`.
pub open spec fn storable(v: Seq<char>) -> bool {
    encode_utf8(v).len() <= usize::MAX / 2
}

/// How a value is written into the object's `data` field.
pub open spec fn wire_value(kind: KubernetesResource, v: Seq<char>) -> Seq<char> {
    match kind {
        KubernetesResource::ConfigMap => v,
        KubernetesResource::Secret => base64_of(encode_utf8(v)),
    }
}

/// The cache built from a ConfigMap's data: each entry verbatim.
pub open spec fn loaded_text(d: Seq<(String, String)>) -> Map<Seq<char>, Seq<char>>
    decreases d.len(),
{
    if d.len() == 0 {
        Map::empty()
    } else {
        loaded_text(d.drop_last()).insert(d.last().0@, d.last().1@)
    }
}

/// The cache built from a Secret's data: each value decoded as UTF-8 text,
/// and entries whose bytes are not valid UTF-8 left out.
pub open spec fn loaded_bytes(d: Seq<(String, Vec<u8>)>) -> Map<Seq<char>, Seq<char>>
    decreases d.len(),
{
    if d.len() == 0 {
        Map::empty()
    } else {
        let m = loaded_bytes(d.drop_last());
        if valid_utf8(d.last().1@) {
            m.insert(d.last().0@, decode_utf8(d.last().1@))
        } else {
            m
        }
    }
}

/// Relies on base64's `Engine::encode` with the `BASE64_STANDARD` engine; it
/// panics only when the encoded length overflows `usize`.
#[verifier::external_body]
fn encode_base64(s: &str) -> (r: String)
    requires
        encode_utf8(s@).len() <= usize::MAX / 2,
    ensures
        r@ == base64_of(encode_utf8(s@)),
{
    base64::Engine::encode(&base64::prelude::BASE64_STANDARD, s)
}

/// Relies on `String::from_utf8`: succeeds exactly on valid UTF-8 and keeps
/// the bytes as they are.
#[verifier::external_body]
fn decode_utf8_bytes(b: &Vec<u8>) -> (r: Option<String>)
    ensures
        r is Some <==> valid_utf8(b@),
        r is Some ==> r->Some_0@ == decode_utf8(b@) && encode_utf8(r->Some_0@) == b@,
{
    String::from_utf8(b.clone()).ok()
}

/// What a Kubernetes object's `data` field held when it was fetched.
pub enum FetchedData {
    /// A ConfigMap's data: text values.
    Text(Vec<(String, String)>),
    /// A Secret's data: byte values, already taken out of base64.
    Bytes(Vec<(String, Vec<u8>)>),
}

/// The entries as loaded from fetched data.
pub open spec fn loaded(d: FetchedData) -> Map<Seq<char>, Seq<char>> {
    match d {
        FetchedData::Text(t) => loaded_text(t@),
        FetchedData::Bytes(b) => loaded_bytes(b@),
    }
}

/// Every value of fetched data is small enough to be held in memory.
pub open spec fn fetched_storable(d: FetchedData) -> bool {
    match d {
        FetchedData::Text(t) => forall|i: int| 0 <= i < t@.len() ==> storable((#[trigger] t@[i]).1@),
        FetchedData::Bytes(b) => forall|i: int|
            0 <= i < b@.len() ==> (#[trigger] b@[i]).1@.len() <= usize::MAX / 2,
    }
}

/// Where setting up the store stands: which request to make next, or how
/// setup ended.
#[derive(Clone, Copy, PartialEq, Eq, Debug, Structural)]
pub enum SetupStep {
    /// Read the object, to learn whether it exists.
    FetchExisting,
    /// Create the object with empty data.
    CreateEmpty,
    /// Read the object's data, to load the cache.
    FetchData,
    /// The data was read: the store can be built from it.
    Ready,
    /// A request that setup cannot do without failed.
    Failed,
}

/// The step after `step`, given whether its request succeeded. An object that
/// cannot be read is taken to be missing and is created empty; a failed
/// create, or a failed read of the data, ends setup in failure.
pub fn next_setup_step(step: SetupStep, succeeded: bool) -> (r: SetupStep)
    ensures
        step == SetupStep::FetchExisting ==> r == (if succeeded {
            SetupStep::FetchData
        } else {
            SetupStep::CreateEmpty
        }),
        step == SetupStep::CreateEmpty ==> r == (if succeeded {
            SetupStep::FetchData
        } else {
            SetupStep::Failed
        }),
        step == SetupStep::FetchData ==> r == (if succeeded {
            SetupStep::Ready
        } else {
            SetupStep::Failed
        }),
        step == SetupStep::Ready || step == SetupStep::Failed ==> r == step,
{
    match step {
        SetupStep::FetchExisting => if succeeded {
            SetupStep::FetchData
        } else {
            SetupStep::CreateEmpty
        },
        SetupStep::CreateEmpty => if succeeded {
            SetupStep::FetchData
        } else {
            SetupStep::Failed
        },
        SetupStep::FetchData => if succeeded {
            SetupStep::Ready
        } else {
            SetupStep::Failed
        },
        SetupStep::Ready => SetupStep::Ready,
        SetupStep::Failed => SetupStep::Failed,
    }
}

/// The `data` part of a merge patch of the object: the entries to write, and
/// a key to remove, which the patch names with `null`.
pub struct DataPatch {
    pub written: KvMap,
    pub removed: Option<String>,
}

/// A store whose entries live in the `data` field of a Kubernetes ConfigMap or
/// Secret. Reads are served from a local cache; writes are planned here as
/// merge patches, which the caller applies to the object before it records
/// the outcome.
///
/// The cache equals the object's data after loading and after each write made
/// through this store. Changes that others make to the object are not seen.
pub struct KubernetesStore {
    namespace: String,
    name: String,
    resource_type: KubernetesResource,
    cache: KvMap,
}

impl View for KubernetesStore {
    type V = Map<Seq<char>, Seq<char>>;

    closed spec fn view(&self) -> Map<Seq<char>, Seq<char>> {
        self.cache@
    }
}

impl KubernetesStore {
    pub closed spec fn wf(&self) -> bool {
        &&& self.cache.wf()
        &&& forall|k: Seq<char>| #[trigger] self.cache@.contains_key(k) ==> storable(self.cache@[k])
    }

    pub closed spec fn kind(&self) -> KubernetesResource {
        self.resource_type
    }

    pub closed spec fn namespace_view(&self) -> Seq<char> {
        self.namespace@
    }

    pub closed spec fn name_view(&self) -> Seq<char> {
        self.name@
    }

    /// A store over the object `name` in `namespace`, its cache loaded from
    /// the data that was fetched from that object.
    pub fn new(namespace: &str, name: &str, resource_type: KubernetesResource, data: FetchedData) -> (r:
        KubernetesStore)
        requires
            fetched_storable(data),
        ensures
            r.wf(),
            r@ == loaded(data),
            r.kind() == resource_type,
            r.namespace_view() == namespace@,
            r.name_view() == name@,
    {
        let mut cache = KvMap::new();
        match data {
            FetchedData::Text(t) => {
                let mut i: usize = 0;
                while i < t.len()
                    invariant
                        i <= t@.len(),
                        cache.wf(),
                        cache@ == loaded_text(t@.subrange(0, i as int)),
                        forall|j: int| 0 <= j < t@.len() ==> storable((#[trigger] t@[j]).1@),
                        forall|k: Seq<char>| #[trigger] cache@.contains_key(k) ==> storable(cache@[k]),
                    decreases t@.len() - i,
                {
                    cache.insert(t[i].0.as_str(), t[i].1.as_str());
                    assert(t@.subrange(0, i + 1).drop_last() =~= t@.subrange(0, i as int));
                    i = i + 1;
                }
                assert(t@.subrange(0, t@.len() as int) =~= t@);
            },
            FetchedData::Bytes(b) => {
                let mut i: usize = 0;
                while i < b.len()
                    invariant
                        i <= b@.len(),
                        cache.wf(),
                        cache@ == loaded_bytes(b@.subrange(0, i as int)),
                        forall|j: int| 0 <= j < b@.len() ==> (#[trigger] b@[j]).1@.len() <= usize::MAX / 2,
                        forall|k: Seq<char>| #[trigger] cache@.contains_key(k) ==> storable(cache@[k]),
                    decreases b@.len() - i,
                {
                    match decode_utf8_bytes(&b[i].1) {
                        Some(text) => {
                            cache.insert(b[i].0.as_str(), text.as_str());
                        },
                        None => {},
                    }
                    assert(b@.subrange(0, i + 1).drop_last() =~= b@.subrange(0, i as int));
                    i = i + 1;
                }
                assert(b@.subrange(0, b@.len() as int) =~= b@);
            },
        }
        KubernetesStore {
            namespace: String::from_str(namespace),
            name: String::from_str(name),
            resource_type,
            cache,
        }
    }

    /// The namespace of the object.
    pub fn namespace(&self) -> (r: &str)
        ensures
            r@ == self.namespace_view(),
    {
        self.namespace.as_str()
    }

    /// The name of the object.
    pub fn name(&self) -> (r: &str)
        ensures
            r@ == self.name_view(),
    {
        self.name.as_str()
    }

    /// The kind of the object.
    pub fn resource_type(&self) -> (r: KubernetesResource)
        ensures
            r == self.kind(),
    {
        self.resource_type
    }

    /// The cached value under `key`; no request is made.
    pub fn get(&self, key: &str) -> (r: Option<String>)
        requires
            self.wf(),
        ensures
            text_of(r) == lookup(self@, key@),
    {
        self.cache.get(key)
    }

    /// A value as it is written into the object's data.
    fn wire(&self, value: &str) -> (r: String)
        requires
            storable(value@),
        ensures
            r@ == wire_value(self.kind(), value@),
    {
        match self.resource_type {
            KubernetesResource::ConfigMap => String::from_str(value),
            KubernetesResource::Secret => encode_base64(value),
        }
    }

    /// The `data` of the merge patch that writes one entry: `key` with
    /// `value`, base64-encoded for a Secret. The cache is not touched.
    pub fn set_patch(&self, key: &str, value: &str) -> (r: DataPatch)
        requires
            self.wf(),
            storable(value@),
        ensures
            r.written.wf(),
            r.written@ == Map::<Seq<char>, Seq<char>>::empty().insert(
                key@,
                wire_value(self.kind(), value@),
            ),
            r.removed is None,
    {
        let w = self.wire(value);
        let mut written = KvMap::new();
        written.insert(key, w.as_str());
        DataPatch { written, removed: None }
    }

    /// Records the outcome of applying `set_patch(key, value)` to the object:
    /// on success the cache takes `value` under `key`, on failure it is left
    /// as it was. The outcome is handed back.
    pub fn set(&mut self, key: &str, value: &str, patched: Result<(), StoreError>) -> (r: Result<
        (),
        StoreError,
    >)
        requires
            old(self).wf(),
            storable(value@),
        ensures
            final(self).wf(),
            r == patched,
            final(self).kind() == old(self).kind(),
            final(self).namespace_view() == old(self).namespace_view(),
            final(self).name_view() == old(self).name_view(),
            patched is Ok ==> final(self)@ == old(self)@.insert(key@, value@),
            patched is Err ==> final(self)@ == old(self)@,
    {
        if patched.is_ok() {
            self.cache.insert(key, value);
        }
        patched
    }

    /// Removes `key` from the cache. When it was there, returns the `data` of
    /// the merge patch that writes the object's whole data as the cache now
    /// holds it (values base64-encoded for a Secret) and removes `key`; when
    /// it was not, returns `None` and no request is owed.
    pub fn delete(&mut self, key: &str) -> (r: Option<DataPatch>)
        requires
            old(self).wf(),
        ensures
            final(self).wf(),
            final(self)@ == old(self)@.remove(key@),
            final(self).kind() == old(self).kind(),
            final(self).namespace_view() == old(self).namespace_view(),
            final(self).name_view() == old(self).name_view(),
            r is Some <==> old(self)@.contains_key(key@),
            r is Some ==> r->Some_0.written.wf() && r->Some_0.written@ == final(self)@.map_values(
                |v: Seq<char>| wire_value(final(self).kind(), v),
            ),
            r is Some ==> text_of(r->Some_0.removed) == Some(key@),
    {
        if !self.cache.remove(key) {
            return None;
        }
        let es = self.cache.entries();
        let mut patch = KvMap::new();
        let mut i: usize = 0;
        while i < es.len()
            invariant
                self.wf(),
                i <= es@.len(),
                crate::kvmap::lists(es@, self.cache@),
                patch.wf(),
                forall|j: int|
                    0 <= j < i ==> patch@.contains_key((#[trigger] es@[j]).0@) && patch@[es@[j].0@]
                        == wire_value(self.kind(), es@[j].1@),
                forall|k: Seq<char>| #[trigger]
                    patch@.contains_key(k) ==> exists|j: int| 0 <= j < i && es@[j].0@ == k,
            decreases es@.len() - i,
        {
            let w = self.wire(es[i].1.as_str());
            let ghost before = patch@;
            patch.insert(es[i].0.as_str(), w.as_str());
            proof {
                assert forall|k: Seq<char>| #[trigger] patch@.contains_key(k) implies exists|j: int|
                    0 <= j < i + 1 && es@[j].0@ == k by {
                    if k != es@[i as int].0@ {
                        assert(before.contains_key(k));
                    } else {
                        assert(es@[i as int].0@ == k);
                    }
                }
            }
            i = i + 1;
        }
        proof {
            let target = self.cache@.map_values(|v: Seq<char>| wire_value(self.kind(), v));
            assert forall|k: Seq<char>| patch@.contains_key(k) <==> target.contains_key(k) by {
                if patch@.contains_key(k) {
                    let j = choose|j: int| 0 <= j < i && es@[j].0@ == k;
                    assert(self.cache@.contains_key(es@[j].0@));
                }
                if target.contains_key(k) {
                    let j = choose|j: int| 0 <= j < es@.len() && es@[j].0@ == k;
                    assert(patch@.contains_key(es@[j].0@));
                }
            }
            assert(patch@ =~= target);
        }
        Some(DataPatch { written: patch, removed: Some(String::from_str(key)) })
    }
}

} // verus!
