//! The cache of compiled WebAssembly modules, keyed by their wire bytes,
//! with its hit, miss and store counts, and the decisions of the WebAssembly
//! host API.  `C` is the host's handle for a compiled module.
use vstd::prelude::*;
use crate::text::{append_decimal, append_str, decimal};

verus! {

/// Whether two byte strings are equal.
pub fn bytes_eq(a: &Vec<u8>, b: &Vec<u8>) -> (r: bool)
    ensures
        r == (a@ == b@),
{
    if a.len() != b.len() {
        return false;
    }
    for i in 0..a.len()
        invariant
            a@.len() == b@.len(),
            forall|j: int| 0 <= j < i ==> a@[j] == b@[j],
    {
        if a[i] != b[i] {
            return false;
        }
    }
    assert(a@ =~= b@);
    true
}

/// Copies a byte string.
fn copy_bytes(a: &Vec<u8>) -> (r: Vec<u8>)
    ensures
        r@ == a@,
{
    let mut out: Vec<u8> = Vec::new();
    for i in 0..a.len()
        invariant
            out@ == a@.take(i as int),
    {
        out.push(a[i]);
        assert(a@.take(i + 1) =~= a@.take(i as int).push(a@[i as int]));
    }
    assert(a@.take(a@.len() as int) =~= a@);
    out
}

/// The compiled modules by wire bytes, with how often a lookup found a
/// module (hits), did not (misses), and how often a module was stored.
pub struct WasmModuleCache<C> {
    entries: Vec<(Vec<u8>, C)>,
    hits: u64,
    misses: u64,
    stores: u64,
}

/// The keys of a list of entries.
pub open spec fn entry_keys<C>(entries: Seq<(Vec<u8>, C)>) -> Seq<Seq<u8>> {
    entries.map_values(|e: (Vec<u8>, C)| e.0@)
}

/// Whether a key is held by one of the entries.
pub open spec fn has_key<C>(entries: Seq<(Vec<u8>, C)>, key: Seq<u8>) -> bool {
    exists|i: int| 0 <= i < entries.len() && #[trigger] entries[i].0@ == key
}

/// The entries as a map from wire bytes to module.
pub open spec fn entries_map<C>(entries: Seq<(Vec<u8>, C)>) -> Map<Seq<u8>, C> {
    Map::new(
        |k: Seq<u8>| has_key(entries, k),
        |k: Seq<u8>| entries[choose|i: int| 0 <= i < entries.len() && #[trigger] entries[i].0@ == k].1,
    )
}

/// No two entries share a key.
pub open spec fn keys_distinct<C>(entries: Seq<(Vec<u8>, C)>) -> bool {
    forall|i: int, j: int|
        0 <= i < j < entries.len() ==> #[trigger] entries[i].0@ != #[trigger] entries[j].0@
}

/// With distinct keys, the map holds each entry's module under its key.
proof fn lemma_entry_in_map<C>(entries: Seq<(Vec<u8>, C)>, i: int)
    requires
        keys_distinct(entries),
        0 <= i < entries.len(),
    ensures
        entries_map(entries).contains_key(entries[i].0@),
        entries_map(entries)[entries[i].0@] == entries[i].1,
{
    let k = entries[i].0@;
    assert(has_key(entries, k));
    let j = choose|j: int| 0 <= j < entries.len() && #[trigger] entries[j].0@ == k;
    if j != i {
        if j < i {
            assert(entries[j].0@ != entries[i].0@);
        } else {
            assert(entries[i].0@ != entries[j].0@);
        }
    }
}

/// Replacing the entry at `i` by one with the same key sets the key's
/// module.
proof fn lemma_map_update<C>(entries: Seq<(Vec<u8>, C)>, i: int, e: (Vec<u8>, C))
    requires
        keys_distinct(entries),
        0 <= i < entries.len(),
        e.0@ == entries[i].0@,
    ensures
        keys_distinct(entries.update(i, e)),
        entries_map(entries.update(i, e)) == entries_map(entries).insert(e.0@, e.1),
{
    let n = entries.update(i, e);
    assert forall|a: int, b: int| 0 <= a < b < n.len() implies #[trigger] n[a].0@ != #[trigger] n[b].0@ by {
        assert(entries[a].0@ != entries[b].0@);
    }
    assert forall|k: Seq<u8>| has_key(n, k) == (has_key(entries, k) || k == e.0@) by {
        if has_key(entries, k) {
            let j = choose|j: int| 0 <= j < entries.len() && #[trigger] entries[j].0@ == k;
            assert(n[j].0@ == k);
        }
        if has_key(n, k) {
            let j = choose|j: int| 0 <= j < n.len() && #[trigger] n[j].0@ == k;
            if j != i {
                assert(entries[j].0@ == k);
            }
        }
        if k == e.0@ {
            assert(n[i].0@ == k);
        }
    }
    assert forall|k: Seq<u8>| #[trigger] entries_map(n).contains_key(k) implies entries_map(n)[k]
        == entries_map(entries).insert(e.0@, e.1)[k] by {
        let j = choose|j: int| 0 <= j < n.len() && #[trigger] n[j].0@ == k;
        lemma_entry_in_map(n, j);
        if j != i {
            lemma_entry_in_map(entries, j);
        }
    }
    assert(entries_map(n) =~= entries_map(entries).insert(e.0@, e.1));
}

/// Adding an entry with a new key adds the key's module.
proof fn lemma_map_push<C>(entries: Seq<(Vec<u8>, C)>, e: (Vec<u8>, C))
    requires
        keys_distinct(entries),
        !has_key(entries, e.0@),
    ensures
        keys_distinct(entries.push(e)),
        entries_map(entries.push(e)) == entries_map(entries).insert(e.0@, e.1),
{
    let n = entries.push(e);
    let last = entries.len() as int;
    assert forall|a: int, b: int| 0 <= a < b < n.len() implies #[trigger] n[a].0@ != #[trigger] n[b].0@ by {
        if b == last {
            assert(n[a] == entries[a]);
        } else {
            assert(entries[a].0@ != entries[b].0@);
        }
    }
    assert forall|k: Seq<u8>| has_key(n, k) == (has_key(entries, k) || k == e.0@) by {
        if has_key(entries, k) {
            let j = choose|j: int| 0 <= j < entries.len() && #[trigger] entries[j].0@ == k;
            assert(n[j].0@ == k);
        }
        if has_key(n, k) {
            let j = choose|j: int| 0 <= j < n.len() && #[trigger] n[j].0@ == k;
            if j != last {
                assert(entries[j].0@ == k);
            }
        }
        if k == e.0@ {
            assert(n[last].0@ == k);
        }
    }
    assert forall|k: Seq<u8>| #[trigger] entries_map(n).contains_key(k) implies entries_map(n)[k]
        == entries_map(entries).insert(e.0@, e.1)[k] by {
        let j = choose|j: int| 0 <= j < n.len() && #[trigger] n[j].0@ == k;
        lemma_entry_in_map(n, j);
        if j != last {
            lemma_entry_in_map(entries, j);
        }
    }
    assert(entries_map(n) =~= entries_map(entries).insert(e.0@, e.1));
}

/// The counts of the text shown for a cache.
pub open spec fn cache_text(size: nat, hits: nat, misses: nat, stores: nat) -> Seq<char> {
    "v8.WasmModuleCache(size="@ + decimal(size) + ", hits="@ + decimal(hits) + ", misses="@
        + decimal(misses) + ", stores="@ + decimal(stores) + ")"@
}

impl<C> WasmModuleCache<C> {
    /// The cached modules by wire bytes.
    pub closed spec fn modules(&self) -> Map<Seq<u8>, C> {
        entries_map(self.entries@)
    }

    /// The number of lookups that found a module.
    pub closed spec fn hit_count(&self) -> u64 {
        self.hits
    }

    /// The number of lookups that found none.
    pub closed spec fn miss_count(&self) -> u64 {
        self.misses
    }

    /// The number of modules stored.
    pub closed spec fn store_count(&self) -> u64 {
        self.stores
    }

    /// The cache's invariant: one entry per key.
    pub closed spec fn wf(&self) -> bool {
        keys_distinct(self.entries@)
    }

    /// An empty cache with all counts at zero.
    pub fn new() -> (r: Self)
        ensures
            r.wf(),
            r.modules() == Map::<Seq<u8>, C>::empty(),
            r.hit_count() == 0 && r.miss_count() == 0 && r.store_count() == 0,
    {
        let r = WasmModuleCache { entries: Vec::new(), hits: 0, misses: 0, stores: 0 };
        assert(r.modules() =~= Map::<Seq<u8>, C>::empty());
        r
    }

    /// The index of the entry for some wire bytes.
    fn find(&self, wire_bytes: &Vec<u8>) -> (r: Option<usize>)
        requires
            self.wf(),
        ensures
            match r {
                Some(i) => i < self.entries@.len() && self.entries@[i as int].0@ == wire_bytes@,
                None => !has_key(self.entries@, wire_bytes@),
            },
    {
        for i in 0..self.entries.len()
            invariant
                forall|j: int| 0 <= j < i ==> self.entries@[j].0@ != wire_bytes@,
        {
            if bytes_eq(&self.entries[i].0, wire_bytes) {
                return Some(i);
            }
        }
        None
    }

    /// The module cached for some wire bytes.
    pub fn get(&self, wire_bytes: &Vec<u8>) -> (r: Option<&C>)
        requires
            self.wf(),
        ensures
            match r {
                Some(c) => self.modules().contains_key(wire_bytes@) && *c == self.modules()[wire_bytes@],
                None => !self.modules().contains_key(wire_bytes@),
            },
    {
        match self.find(wire_bytes) {
            Some(i) => {
                proof {
                    lemma_entry_in_map(self.entries@, i as int);
                }
                Some(&self.entries[i].1)
            },
            None => None,
        }
    }

    /// Whether a module is cached for some wire bytes.
    pub fn contains(&self, wire_bytes: &Vec<u8>) -> (r: bool)
        requires
            self.wf(),
        ensures
            r == self.modules().contains_key(wire_bytes@),
    {
        self.get(wire_bytes).is_some()
    }

    /// Counts a lookup that found a module that could be used.
    pub fn record_hit(&mut self)
        requires
            old(self).hit_count() < u64::MAX,
        ensures
            final(self).hit_count() == old(self).hit_count() + 1,
            final(self).miss_count() == old(self).miss_count(),
            final(self).store_count() == old(self).store_count(),
            final(self).modules() == old(self).modules(),
            final(self).wf() == old(self).wf(),
    {
        self.hits = self.hits + 1;
    }

    /// Counts a lookup that found no module that could be used.
    pub fn record_miss(&mut self)
        requires
            old(self).miss_count() < u64::MAX,
        ensures
            final(self).miss_count() == old(self).miss_count() + 1,
            final(self).hit_count() == old(self).hit_count(),
            final(self).store_count() == old(self).store_count(),
            final(self).modules() == old(self).modules(),
            final(self).wf() == old(self).wf(),
    {
        self.misses = self.misses + 1;
    }

    /// Stores a compiled module under its wire bytes, replacing any module
    /// stored under them, and counts the store.
    pub fn insert(&mut self, wire_bytes: &Vec<u8>, module: C)
        requires
            old(self).wf(),
            old(self).store_count() < u64::MAX,
        ensures
            final(self).wf(),
            final(self).modules() == old(self).modules().insert(wire_bytes@, module),
            final(self).store_count() == old(self).store_count() + 1,
            final(self).hit_count() == old(self).hit_count(),
            final(self).miss_count() == old(self).miss_count(),
    {
        let key = copy_bytes(wire_bytes);
        match self.find(wire_bytes) {
            Some(i) => {
                proof {
                    lemma_map_update(self.entries@, i as int, (key, module));
                }
                self.entries.set(i, (key, module));
            },
            None => {
                proof {
                    lemma_map_push(self.entries@, (key, module));
                }
                self.entries.push((key, module));
            },
        }
        self.stores = self.stores + 1;
    }

    /// Drops every cached module; the counts stay.
    pub fn clear(&mut self)
        ensures
            final(self).wf(),
            final(self).modules() == Map::<Seq<u8>, C>::empty(),
            final(self).hit_count() == old(self).hit_count(),
            final(self).miss_count() == old(self).miss_count(),
            final(self).store_count() == old(self).store_count(),
    {
        self.entries.clear();
        assert(self.modules() =~= Map::<Seq<u8>, C>::empty());
    }

    /// The number of cached modules.
    pub fn len(&self) -> (r: usize)
        requires
            self.wf(),
        ensures
            r == self.modules().len(),
    {
        proof {
            self.lemma_len();
        }
        self.entries.len()
    }

    /// With distinct keys, the map has one key per entry.
    proof fn lemma_len(&self)
        requires
            self.wf(),
        ensures
            self.modules().len() == self.entries@.len(),
            self.modules().dom().finite(),
    {
        let keys = entry_keys(self.entries@);
        assert(self.modules().dom() =~= keys.to_set()) by {
            assert forall|k: Seq<u8>| #[trigger] self.modules().dom().contains(k) implies keys.to_set().contains(k) by {
                let j = choose|j: int| 0 <= j < self.entries@.len() && #[trigger] self.entries@[j].0@ == k;
                assert(keys[j] == k);
            }
            assert forall|k: Seq<u8>| #[trigger] keys.to_set().contains(k) implies self.modules().dom().contains(k) by {
                let j = choose|j: int| 0 <= j < keys.len() && keys[j] == k;
                assert(self.entries@[j].0@ == k);
            }
        }
        assert(keys.no_duplicates()) by {
            assert forall|a: int, b: int| 0 <= a < keys.len() && 0 <= b < keys.len() && a != b implies keys[a] != keys[b] by {
                if a < b {
                    assert(self.entries@[a].0@ != self.entries@[b].0@);
                } else {
                    assert(self.entries@[b].0@ != self.entries@[a].0@);
                }
            }
        }
        keys.unique_seq_to_set();
    }

    /// Whether no module is cached.
    pub fn is_empty(&self) -> (r: bool)
        requires
            self.wf(),
        ensures
            r == (self.modules().len() == 0),
    {
        self.len() == 0
    }

    /// The number of lookups that found a module.
    pub fn hits(&self) -> (r: u64)
        ensures
            r == self.hit_count(),
    {
        self.hits
    }

    /// The number of lookups that found none.
    pub fn misses(&self) -> (r: u64)
        ensures
            r == self.miss_count(),
    {
        self.misses
    }

    /// The number of modules stored.
    pub fn stores(&self) -> (r: u64)
        ensures
            r == self.store_count(),
    {
        self.stores
    }

    /// A representation with the size and the counts.
    pub fn __repr__(&self) -> (r: String)
        requires
            self.wf(),
        ensures
            r@ == cache_text(self.modules().len(), self.hit_count() as nat, self.miss_count() as nat, self.store_count() as nat),
    {
        let mut r = String::from_str("v8.WasmModuleCache(size=");
        append_decimal(&mut r, self.len() as u64);
        append_str(&mut r, ", hits=");
        append_decimal(&mut r, self.hits);
        append_str(&mut r, ", misses=");
        append_decimal(&mut r, self.misses);
        append_str(&mut r, ", stores=");
        append_decimal(&mut r, self.stores);
        append_str(&mut r, ")");
        r
    }
}

/// How a WebAssembly module is compiled.
#[derive(Clone, Copy, Debug, PartialEq, Eq, Structural)]
pub enum CompileRoute {
    /// Code generation is switched off.
    Disallowed,
    /// Through the cache.
    Cached,
    /// Directly.
    Direct,
}

/// How the WebAssembly host API compiles a module: not at all when code
/// generation is off, else through the cache when one was configured.
pub fn compile_route(allow_code_generation: bool, has_cache: bool) -> (r: CompileRoute)
    ensures
        r == (if !allow_code_generation {
            CompileRoute::Disallowed
        } else if has_cache {
            CompileRoute::Cached
        } else {
            CompileRoute::Direct
        }),
{
    if !allow_code_generation {
        CompileRoute::Disallowed
    } else if has_cache {
        CompileRoute::Cached
    } else {
        CompileRoute::Direct
    }
}

/// What a streaming source is, as the engine answers.
#[derive(Clone, Copy, Debug, PartialEq, Eq, Structural)]
pub enum StreamingSourceKind {
    /// An ArrayBuffer view: its bytes are used.
    View,
    /// An ArrayBuffer: its bytes are used.
    Buffer,
    /// A key for the loader.
    LoaderKey,
    /// Nothing usable.
    Invalid,
}

/// How a streaming source is read: views and buffers give their bytes;
/// strings, and other values whose text is not empty, are keys for the
/// loader; anything else is refused.
pub fn streaming_source_kind(is_view: bool, is_buffer: bool, is_string: bool, text_non_empty: bool) -> (r: StreamingSourceKind)
    ensures
        r == (if is_view {
            StreamingSourceKind::View
        } else if is_buffer {
            StreamingSourceKind::Buffer
        } else if is_string || text_non_empty {
            StreamingSourceKind::LoaderKey
        } else {
            StreamingSourceKind::Invalid
        }),
{
    if is_view {
        StreamingSourceKind::View
    } else if is_buffer {
        StreamingSourceKind::Buffer
    } else if is_string || text_non_empty {
        StreamingSourceKind::LoaderKey
    } else {
        StreamingSourceKind::Invalid
    }
}

/// The message for a loader that gave nothing for a key.
pub open spec fn no_bytes_text(source_name: Seq<char>) -> Seq<char> {
    "WebAssembly loader did not return bytes for '"@ + source_name + "'."@
}

/// The message for a loader that gave nothing for a key.
pub fn no_bytes_message(source_name: &str) -> (r: String)
    ensures
        r@ == no_bytes_text(source_name@),
{
    let mut r = String::from_str("WebAssembly loader did not return bytes for '");
    append_str(&mut r, source_name);
    append_str(&mut r, "'.");
    r
}

/// The bytes a view copied, cut to what was copied; copying more than
/// asked for is an error.
pub fn copied_bytes(mut bytes: Vec<u8>, copied: usize) -> (r: Option<Vec<u8>>)
    ensures
        copied > bytes@.len() ==> r is None,
        copied <= bytes@.len() ==> (r matches Some(b) && b@ == bytes@.take(copied as int)),
{
    if copied > bytes.len() {
        return None;
    }
    bytes.truncate(copied);
    Some(bytes)
}

} // verus!
