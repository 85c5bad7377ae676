//! The document store: a concurrency-safe map from a document identity
//! (URI) to the document's full current text, backed by a sharded
//! concurrent hash map. An identity that was never opened reads as the
//! empty text rather than as an error.

use vstd::prelude::*;

verus! {

#[verifier::external_type_specification]
#[verifier::external_body]
#[verifier::reject_recursive_types(K)]
#[verifier::reject_recursive_types(V)]
#[verifier::reject_recursive_types(S)]
pub struct ExDashMap<K, V, S>(dashmap::DashMap<K, V, S>);

/// The concrete concurrent map type the store is backed by.
pub type DocMap = dashmap::DashMap<String, String>;

/// What the underlying concurrent map holds, as a mathematical map
/// from key characters to value characters.
pub uninterp spec fn store_contents(m: DocMap) -> Map<Seq<char>, Seq<char>>;

/// Relies on dashmap::DashMap::new: creates an empty map.
#[verifier::external_body]
fn map_new() -> (m: DocMap)
    ensures
        store_contents(m) =~= Map::empty(),
{
    dashmap::DashMap::new()
}

/// Relies on dashmap::DashMap::insert: maps the given key to the given
/// value, leaving every other key as it was.
#[verifier::external_body]
fn map_insert(m: &mut DocMap, key: String, value: String)
    ensures
        store_contents(*final(m)) == store_contents(*old(m)).insert(key@, value@),
{
    m.insert(key, value);
}

/// Relies on dashmap::DashMap::get: returns a copy of the value stored
/// under the key, or nothing when the key is absent.
#[verifier::external_body]
fn map_get(m: &DocMap, key: &String) -> (r: Option<String>)
    ensures
        match r {
            Some(v) => store_contents(*m).contains_key(key@) && v@ == store_contents(*m)[key@],
            None => !store_contents(*m).contains_key(key@),
        },
{
    match m.get(key) {
        Some(entry) => Some(entry.value().clone()),
        None => None,
    }
}

/// The text a document map associates with an identity: the stored
/// text, or the empty text when the identity was never opened.
pub open spec fn text_of(docs: Map<Seq<char>, Seq<char>>, uri: Seq<char>) -> Seq<char> {
    if docs.contains_key(uri) {
        docs[uri]
    } else {
        Seq::empty()
    }
}

/// What a full-document change notification leaves in the map: only
/// the last of the supplied full-text updates is written; an empty
/// update sequence leaves the map unchanged.
pub open spec fn apply_change_spec(
    docs: Map<Seq<char>, Seq<char>>,
    uri: Seq<char>,
    updates: Seq<Seq<char>>,
) -> Map<Seq<char>, Seq<char>> {
    if updates.len() == 0 {
        docs
    } else {
        docs.insert(uri, updates.last())
    }
}

/// The document store. Its view is the mathematical map from document
/// identity to current text.
pub struct DocumentStore {
    map: DocMap,
}

impl View for DocumentStore {
    type V = Map<Seq<char>, Seq<char>>;

    closed spec fn view(&self) -> Map<Seq<char>, Seq<char>> {
        store_contents(self.map)
    }
}

impl DocumentStore {
    /// Creates an empty store: no document was opened yet.
    pub fn new() -> (s: Self)
        ensures
            s@ == Map::<Seq<char>, Seq<char>>::empty(),
    {
        DocumentStore { map: map_new() }
    }

    /// Inserts or overwrites the entry for `uri` with `text`.
    /// Always succeeds.
    pub fn open(&mut self, uri: String, text: String)
        ensures
            final(self)@ == old(self)@.insert(uri@, text@),
    {
        map_insert(&mut self.map, uri, text);
    }

    /// Applies a change notification carrying full-text replacements:
    /// last-applied-wins, so only the final update is stored; an empty
    /// update sequence leaves the store unchanged.
    pub fn apply_change(&mut self, uri: String, updates: Vec<String>)
        ensures
            final(self)@ == apply_change_spec(old(self)@, uri@, updates.deep_view()),
    {
        let n = updates.len();
        if n > 0 {
            let last = updates[n - 1].clone();
            proof {
                assert(last@ == updates.deep_view().last());
            }
            map_insert(&mut self.map, uri, last);
        }
    }

    /// Returns the current text for `uri`, or the empty string when
    /// `uri` was never opened.
    pub fn get(&self, uri: &String) -> (r: String)
        ensures
            r@ == text_of(self@, uri@),
    {
        match map_get(&self.map, uri) {
            Some(text) => text,
            None => String::new(),
        }
    }
}

/// After opening identity `uri` with text `text`, a lookup of `uri`
/// yields exactly `text`.
pub proof fn lemma_open_then_get(docs: Map<Seq<char>, Seq<char>>, uri: Seq<char>, text: Seq<char>)
    ensures
        text_of(docs.insert(uri, text), uri) == text,
{
}

/// After a change notification whose updates end in text `last`, a
/// lookup of `uri` yields exactly `last`, whatever the earlier updates
/// in the same notification were.
pub proof fn lemma_change_then_get(
    docs: Map<Seq<char>, Seq<char>>,
    uri: Seq<char>,
    updates: Seq<Seq<char>>,
)
    requires
        updates.len() > 0,
    ensures
        text_of(apply_change_spec(docs, uri, updates), uri) == updates.last(),
{
}

/// An identity that was never opened reads as the empty text.
pub proof fn lemma_get_unopened(docs: Map<Seq<char>, Seq<char>>, uri: Seq<char>)
    requires
        !docs.contains_key(uri),
    ensures
        text_of(docs, uri) == Seq::<char>::empty(),
{
}

} // verus!
