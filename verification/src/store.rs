//! The key-value store contract: SET overwrites unconditionally (last
//! write wins) and GET distinguishes a missing key from a backend
//! failure. `KvStore` is an in-process store with exactly this contract;
//! the classification functions translate the raw outcome of one
//! round-trip against the external store into the same error model.
use vstd::prelude::*;
use vstd::string::StrSliceExecFns;

verus! {

/// Failure of a store operation, in the caller's error model.
#[derive(Debug)]
pub enum StoreError {
    /// The distinguished outcome for a key that holds no value.
    NotFound,
    /// A connection, write or read failure, with its diagnostic text.
    Backend(String),
}

/// The contents described by a sequence of writes, as a map from key to
/// content: a later write to the same key supersedes an earlier one.
pub open spec fn map_of(entries: Seq<(String, String)>) -> Map<Seq<char>, Seq<char>>
    decreases entries.len(),
{
    if entries.len() == 0 {
        Map::empty()
    } else {
        map_of(entries.drop_last()).insert(entries.last().0@, entries.last().1@)
    }
}

/// In-process key-value store with the external store's contract.
pub struct KvStore {
    entries: Vec<(String, String)>,
}

impl View for KvStore {
    type V = Map<Seq<char>, Seq<char>>;

    closed spec fn view(&self) -> Map<Seq<char>, Seq<char>> {
        map_of(self.entries@)
    }
}

impl KvStore {
    /// A store holding nothing.
    pub fn new() -> (r: KvStore)
        ensures
            r@ == Map::<Seq<char>, Seq<char>>::empty(),
    {
        KvStore { entries: Vec::new() }
    }

    /// SET: stores the content under the key, overwriting any previous
    /// content for that key unconditionally (last write wins). The
    /// in-process store cannot fail; the result is the operation's
    /// contract shared with the external store.
    pub fn put(&mut self, key: &str, value: String) -> (r: Result<(), StoreError>)
        ensures
            final(self)@ == old(self)@.insert(key@, value@),
            r is Ok,
    {
        let owned_key = key.to_owned();
        self.entries.push((owned_key, value));
        proof {
            assert(self.entries@.drop_last() =~= old(self).entries@);
        }
        Ok(())
    }

    /// GET: fetches the content most recently stored under the key. A key
    /// that holds no value yields the distinguished not-found outcome,
    /// never a backend failure.
    pub fn get(&self, key: &str) -> (r: Result<String, StoreError>)
        ensures
            self@.contains_key(key@) ==> (r matches Ok(v) && v@ == self@[key@]),
            !self@.contains_key(key@) ==> (r matches Err(e) && e is NotFound),
    {
        let ghost all = self.entries@;
        let mut i: usize = self.entries.len();
        proof {
            assert(all.take(all.len() as int) =~= all);
        }
        while i > 0
            invariant
                i <= all.len(),
                all == self.entries@,
                self@.contains_key(key@) == map_of(all.take(i as int)).contains_key(key@),
                self@.contains_key(key@) ==> self@[key@] == map_of(all.take(i as int))[key@],
            decreases i,
        {
            i = i - 1;
            let hit = str_eq(self.entries[i].0.as_str(), key);
            proof {
                assert(all.take(i + 1).drop_last() =~= all.take(i as int));
                assert(all.take(i + 1).last() == all[i as int]);
            }
            if hit {
                return Ok(self.entries[i].1.clone());
            }
        }
        proof {
            assert(all.take(0) =~= Seq::<(String, String)>::empty());
        }
        Err(StoreError::NotFound)
    }
}

/// Round trip: storing content under a key and then fetching that key
/// yields exactly that content, byte for byte. `put` updates the store's
/// view by insertion and `get` answers from the view, so the law is
/// stated over one insertion.
pub proof fn lemma_round_trip(
    contents: Map<Seq<char>, Seq<char>>,
    key: Seq<char>,
    content: Seq<char>,
)
    ensures
        contents.insert(key, content).contains_key(key),
        contents.insert(key, content)[key] == content,
{
}

/// Overwrite: storing twice under the same key leaves the content stored
/// later — the last write wins.
pub proof fn lemma_overwrite(
    contents: Map<Seq<char>, Seq<char>>,
    key: Seq<char>,
    first: Seq<char>,
    second: Seq<char>,
)
    ensures
        contents.insert(key, first).insert(key, second).contains_key(key),
        contents.insert(key, first).insert(key, second)[key] == second,
{
}

/// A key never stored stays absent: the fresh store holds no key, and a
/// write under a different key does not create this one. `get` on an
/// absent key answers with the distinguished not-found outcome, never
/// with a backend failure.
pub proof fn lemma_never_stored(
    contents: Map<Seq<char>, Seq<char>>,
    key: Seq<char>,
    other_key: Seq<char>,
    content: Seq<char>,
)
    requires
        !contents.contains_key(key),
        other_key != key,
    ensures
        !Map::<Seq<char>, Seq<char>>::empty().contains_key(key),
        !contents.insert(other_key, content).contains_key(key),
{
}

/// Whether two pieces of text hold the same characters.
pub fn str_eq(a: &str, b: &str) -> (r: bool)
    ensures
        r == (a@ == b@),
{
    let a_len = a.unicode_len();
    let b_len = b.unicode_len();
    if a_len != b_len {
        return false;
    }
    let mut i: usize = 0;
    while i < a_len
        invariant
            i <= a_len,
            a_len == a@.len(),
            a@.len() == b@.len(),
            forall|j: int| 0 <= j < i ==> a@[j] == b@[j],
        decreases a_len - i,
    {
        if a.get_char(i) != b.get_char(i) {
            return false;
        }
        i += 1;
    }
    proof {
        assert(a@ =~= b@);
    }
    true
}

/// Translates the raw outcome of one GET round-trip against the external
/// store into the caller's error model: a present value passes through,
/// an absent key becomes the distinguished not-found outcome, and a
/// connection or protocol failure becomes a backend error carrying its
/// diagnostic text.
pub fn classify_fetch(outcome: Result<Option<String>, String>) -> (r: Result<String, StoreError>)
    ensures
        outcome matches Ok(Some(v)) ==> (r matches Ok(rv) && rv == v),
        outcome matches Ok(None) ==> (r matches Err(e) && e is NotFound),
        outcome matches Err(m) ==> (r matches Err(e) && e matches StoreError::Backend(t) && t
            == m),
{
    match outcome {
        Ok(Some(v)) => Ok(v),
        Ok(None) => Err(StoreError::NotFound),
        Err(m) => Err(StoreError::Backend(m)),
    }
}

/// Translates the raw outcome of one SET round-trip against the external
/// store into the caller's error model: any failure is a backend error
/// carrying its diagnostic text.
pub fn classify_store(outcome: Result<(), String>) -> (r: Result<(), StoreError>)
    ensures
        outcome is Ok ==> r is Ok,
        outcome matches Err(m) ==> (r matches Err(e) && e matches StoreError::Backend(t) && t
            == m),
{
    match outcome {
        Ok(()) => Ok(()),
        Err(m) => Err(StoreError::Backend(m)),
    }
}

} // verus!
