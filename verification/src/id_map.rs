//! Stable universal ids for Codex native thread, turn and item ids.
use vstd::prelude::*;
use crate::model::{SessionId, TurnId, ItemId};
use crate::outside::{uuid_v5, uuid_text, new_v5, uuid_to_text};
use crate::text::{str_eq, concat3};

verus! {

/// The RFC 4122 URL namespace UUID (`6ba7b811-9dad-11d1-80b4-00c04fd430c8`).
pub const NAMESPACE_URL: u128 = 0x6ba7b8119dad11d180b400c04fd430c8u128;

/// `"{native_thread_id}:{native_id}"`.
pub open spec fn scoped_key_spec(thread: Seq<char>, id: Seq<char>) -> Seq<char> {
    thread + ":"@ + id
}

/// The id of `kind` (`turn` or `item`) for a scoped key in a namespace.
pub open spec fn stable_uuid_spec(namespace: u128, kind: Seq<char>, key: Seq<char>) -> u128 {
    uuid_v5(namespace, "codex:"@ + kind + ":"@ + key)
}

/// The namespace of a session's Codex ids.
pub open spec fn session_namespace(session: u128) -> u128 {
    uuid_v5(NAMESPACE_URL, "agenter:codex:session:"@ + uuid_text(session))
}

/// The universal turn id of a native turn of a native thread.
pub open spec fn codex_turn_uuid(namespace: u128, thread: Seq<char>, turn: Seq<char>) -> u128 {
    stable_uuid_spec(namespace, "turn"@, scoped_key_spec(thread, turn))
}

/// The universal item id of a native item of a native thread.
pub open spec fn codex_item_uuid(namespace: u128, thread: Seq<char>, item: Seq<char>) -> u128 {
    stable_uuid_spec(namespace, "item"@, scoped_key_spec(thread, item))
}

pub fn scoped_key(native_thread_id: &str, native_id: &str) -> (r: String)
    ensures
        r@ == scoped_key_spec(native_thread_id@, native_id@),
{
    concat3(native_thread_id, ":", native_id)
}

fn stable_uuid(namespace: u128, kind: &str, key: &str) -> (r: u128)
    ensures
        r == stable_uuid_spec(namespace, kind@, key@),
{
    let name = concat3("codex:", kind, ":");
    let mut name = name;
    name.append(key);
    new_v5(namespace, name.as_str())
}

pub open spec fn cache_view(ps: Seq<(String, u128)>) -> Map<Seq<char>, u128> {
    Map::new(
        |k: Seq<char>| exists|i: int| 0 <= i < ps.len() && ps[i].0@ == k,
        |k: Seq<char>| ps[choose|i: int| 0 <= i < ps.len() && ps[i].0@ == k].1,
    )
}

/// Every cached key holds the id it derives to, and keys are distinct.
pub open spec fn cache_wf(ps: Seq<(String, u128)>, namespace: u128, kind: Seq<char>) -> bool {
    &&& forall|i: int, j: int| 0 <= i < ps.len() && 0 <= j < ps.len() && i != j ==> ps[i].0@ != ps[j].0@
    &&& forall|i: int| 0 <= i < ps.len() ==> #[trigger] ps[i].1 == stable_uuid_spec(namespace, kind, ps[i].0@)
}

proof fn lemma_cache_lookup(ps: Seq<(String, u128)>, namespace: u128, kind: Seq<char>, i: int)
    requires
        cache_wf(ps, namespace, kind),
        0 <= i < ps.len(),
    ensures
        cache_view(ps).contains_key(ps[i].0@),
        cache_view(ps)[ps[i].0@] == ps[i].1,
{
    let k = ps[i].0@;
    assert(exists|j: int| 0 <= j < ps.len() && ps[j].0@ == k);
    let c = choose|j: int| 0 <= j < ps.len() && ps[j].0@ == k;
    assert(c == i);
}

proof fn lemma_cache_push(ps: Seq<(String, u128)>, namespace: u128, kind: Seq<char>, x: (String, u128))
    requires
        cache_wf(ps, namespace, kind),
        !cache_view(ps).contains_key(x.0@),
        x.1 == stable_uuid_spec(namespace, kind, x.0@),
    ensures
        cache_wf(ps.push(x), namespace, kind),
        cache_view(ps.push(x)) =~= cache_view(ps).insert(x.0@, x.1),
{
    let qs = ps.push(x);
    assert forall|i: int, j: int| 0 <= i < qs.len() && 0 <= j < qs.len() && i != j implies qs[i].0@ != qs[j].0@ by {
        if i < ps.len() && j < ps.len() {
        } else if i < ps.len() {
            assert(ps[i].0@ == qs[i].0@);
        } else {
            assert(ps[j].0@ == qs[j].0@);
        }
    }
    assert forall|i: int| 0 <= i < qs.len() implies #[trigger] qs[i].1 == stable_uuid_spec(namespace, kind, qs[i].0@) by {
        if i < ps.len() {
            assert(qs[i] == ps[i]);
        }
    }
    assert forall|k: Seq<char>| #[trigger] cache_view(qs).contains_key(k) == cache_view(ps).insert(x.0@, x.1).contains_key(k) by {
        if cache_view(ps).contains_key(k) {
            let i = choose|i: int| 0 <= i < ps.len() && ps[i].0@ == k;
            assert(qs[i] == ps[i]);
        }
        if cache_view(qs).contains_key(k) {
            let i = choose|i: int| 0 <= i < qs.len() && qs[i].0@ == k;
            if i < ps.len() {
                assert(qs[i] == ps[i]);
            }
        }
        if k == x.0@ {
            assert(qs[ps.len() as int] == x);
        }
    }
    assert forall|k: Seq<char>| #[trigger] cache_view(qs).contains_key(k) implies cache_view(qs)[k] == cache_view(ps).insert(x.0@, x.1)[k] by {
        let i = choose|i: int| 0 <= i < qs.len() && qs[i].0@ == k;
        lemma_cache_lookup(qs, namespace, kind, i);
        if i < ps.len() {
            assert(qs[i] == ps[i]);
            lemma_cache_lookup(ps, namespace, kind, i);
        }
    }
}

/// Looks `key` up in a cache, deriving and remembering its id when absent.
fn cached_id(cache: &mut Vec<(String, u128)>, namespace: u128, kind: &str, key: String) -> (r: u128)
    requires
        cache_wf(old(cache)@, namespace, kind@),
    ensures
        cache_wf(final(cache)@, namespace, kind@),
        r == stable_uuid_spec(namespace, kind@, key@),
        cache_view(final(cache)@) == cache_view(old(cache)@).insert(key@, r),
{
    let ghost ps = cache@;
    let mut i: usize = 0;
    while i < cache.len()
        invariant
            cache@ == ps,
            cache_wf(ps, namespace, kind@),
            i <= cache@.len(),
            forall|j: int| 0 <= j < i ==> ps[j].0@ != key@,
        decreases cache.len() - i,
    {
        if str_eq(cache[i].0.as_str(), key.as_str()) {
            let r = cache[i].1;
            proof {
                lemma_cache_lookup(ps, namespace, kind@, i as int);
                assert(cache_view(ps).insert(key@, r) =~= cache_view(ps));
            }
            return r;
        }
        i = i + 1;
    }
    let id = stable_uuid(namespace, kind, key.as_str());
    let ghost kv = key@;
    proof {
        lemma_cache_push(ps, namespace, kind@, (key, id));
    }
    cache.push((key, id));
    id
}

/// Maps Codex native ids of one session to stable universal ids.
#[derive(Debug)]
pub struct CodexIdMap {
    namespace: u128,
    turn_ids: Vec<(String, u128)>,
    item_ids: Vec<(String, u128)>,
}

pub struct IdMapView {
    pub namespace: u128,
    pub turns: Map<Seq<char>, u128>,
    pub items: Map<Seq<char>, u128>,
}

impl View for CodexIdMap {
    type V = IdMapView;

    closed spec fn view(&self) -> IdMapView {
        IdMapView {
            namespace: self.namespace,
            turns: cache_view(self.turn_ids@),
            items: cache_view(self.item_ids@),
        }
    }
}

impl CodexIdMap {
    pub closed spec fn wf(&self) -> bool {
        &&& cache_wf(self.turn_ids@, self.namespace, "turn"@)
        &&& cache_wf(self.item_ids@, self.namespace, "item"@)
    }

    /// The id map of a session: its namespace derives from the session id.
    pub fn for_session(session_id: SessionId) -> (r: Self)
        ensures
            r.wf(),
            r@.namespace == session_namespace(session_id.0),
            r@.turns == Map::<Seq<char>, u128>::empty(),
            r@.items == Map::<Seq<char>, u128>::empty(),
    {
        let text = uuid_to_text(session_id.0);
        let mut name = crate::text::owned("agenter:codex:session:");
        name.append(text.as_str());
        let namespace = new_v5(NAMESPACE_URL, name.as_str());
        Self::with_namespace(namespace)
    }

    pub fn with_namespace(namespace: u128) -> (r: Self)
        ensures
            r.wf(),
            r@.namespace == namespace,
            r@.turns == Map::<Seq<char>, u128>::empty(),
            r@.items == Map::<Seq<char>, u128>::empty(),
    {
        let r = CodexIdMap { namespace, turn_ids: Vec::new(), item_ids: Vec::new() };
        proof {
            assert(cache_view(r.turn_ids@) =~= Map::<Seq<char>, u128>::empty());
            assert(cache_view(r.item_ids@) =~= Map::<Seq<char>, u128>::empty());
        }
        r
    }

    /// The universal id of a native turn: derived from the namespace, thread and turn
    /// alone, and remembered.
    pub fn turn_id(&mut self, native_thread_id: &str, native_turn_id: &str) -> (r: TurnId)
        requires
            old(self).wf(),
        ensures
            final(self).wf(),
            r.0 == codex_turn_uuid(old(self)@.namespace, native_thread_id@, native_turn_id@),
            final(self)@.namespace == old(self)@.namespace,
            final(self)@.turns == old(self)@.turns.insert(
                scoped_key_spec(native_thread_id@, native_turn_id@),
                r.0,
            ),
            final(self)@.items == old(self)@.items,
    {
        let key = scoped_key(native_thread_id, native_turn_id);
        let id = cached_id(&mut self.turn_ids, self.namespace, "turn", key);
        TurnId(id)
    }

    /// The universal id of a native item: derived from the namespace, thread and item
    /// alone, and remembered.
    pub fn item_id(&mut self, native_thread_id: &str, native_item_id: &str) -> (r: ItemId)
        requires
            old(self).wf(),
        ensures
            final(self).wf(),
            r.0 == codex_item_uuid(old(self)@.namespace, native_thread_id@, native_item_id@),
            final(self)@.namespace == old(self)@.namespace,
            final(self)@.items == old(self)@.items.insert(
                scoped_key_spec(native_thread_id@, native_item_id@),
                r.0,
            ),
            final(self)@.turns == old(self)@.turns,
    {
        let key = scoped_key(native_thread_id, native_item_id);
        let id = cached_id(&mut self.item_ids, self.namespace, "item", key);
        ItemId(id)
    }
}

/// Ids are stable: whatever a map has remembered is exactly the id its namespace derives
/// for the key, so asking again, or asking another map of the same session, gives the
/// same id.
pub proof fn law_remembered_ids_are_derived(m: CodexIdMap, key: Seq<char>)
    requires
        m.wf(),
    ensures
        m@.turns.contains_key(key) ==> m@.turns[key] == stable_uuid_spec(m@.namespace, "turn"@, key),
        m@.items.contains_key(key) ==> m@.items[key] == stable_uuid_spec(m@.namespace, "item"@, key),
{
    if m@.turns.contains_key(key) {
        let i = choose|i: int| 0 <= i < m.turn_ids@.len() && m.turn_ids@[i].0@ == key;
        lemma_cache_lookup(m.turn_ids@, m.namespace, "turn"@, i);
    }
    if m@.items.contains_key(key) {
        let i = choose|i: int| 0 <= i < m.item_ids@.len() && m.item_ids@[i].0@ == key;
        lemma_cache_lookup(m.item_ids@, m.namespace, "item"@, i);
    }
}

} // verus!
