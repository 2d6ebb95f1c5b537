//! Storage backends: a keyed mapping from conversation identifier to the
//! serialized current state.
//!
//! The capability interface leaves the backing medium open; the reference
//! implementation is an in-process map. A backend may report the medium
//! unreachable at any call, but when it does it must leave its contents
//! untouched: a failed operation never half-applies.
use std::collections::HashMap;

use vstd::prelude::*;

use crate::errors::DialogueError;

verus! {

broadcast use vstd::std_specs::hash::group_hash_axioms;

/// Addresses at most one active dialogue at a time.
pub type ConversationId = i64;

/// The entry stored for a conversation, if any.
pub open spec fn spec_get(m: Map<ConversationId, Seq<u8>>, id: ConversationId) -> Option<Seq<u8>> {
    if m.contains_key(id) {
        Some(m[id])
    } else {
        None
    }
}

/// A durable (or in-memory) mapping from conversation identifier to the
/// serialized current state.
///
/// Storage never fails logically on valid operations: the only error is
/// [`DialogueError::StorageUnavailable`], the backing medium being
/// unreachable, and an unavailable operation leaves the contents unchanged.
pub trait Storage: Sized {
    /// The entries this backend currently holds.
    spec fn contents(&self) -> Map<ConversationId, Seq<u8>>;

    /// Whether the backing medium is reachable. While it is, no operation
    /// reports [`DialogueError::StorageUnavailable`]; an in-process backend
    /// is reachable forever.
    spec fn reliable(&self) -> bool;

    /// Returns the entry stored for the conversation, or `None` when there
    /// is none.
    fn get_state(&self, id: ConversationId) -> (r: Result<Option<Vec<u8>>, DialogueError>)
        ensures
            r matches Ok(o) ==> match o {
                Some(b) => self.contents().contains_key(id) && b@ == self.contents()[id],
                None => !self.contents().contains_key(id),
            },
            r is Err ==> r == Err::<Option<Vec<u8>>, DialogueError>(
                DialogueError::StorageUnavailable,
            ),
            self.reliable() ==> r is Ok,
    ;

    /// Upserts the entry for the conversation, overwriting any existing
    /// value.
    fn update_state(&mut self, id: ConversationId, bytes: Vec<u8>) -> (r: Result<
        (),
        DialogueError,
    >)
        ensures
            r matches Ok(_) ==> final(self).contents() == old(self).contents().insert(id, bytes@),
            r is Err ==> final(self).contents() == old(self).contents() && r == Err::<
                (),
                DialogueError,
            >(DialogueError::StorageUnavailable),
            old(self).reliable() ==> r is Ok,
            final(self).reliable() == old(self).reliable(),
    ;

    /// Deletes the entry for the conversation; removing an absent entry is a
    /// no-op, not an error.
    fn remove_state(&mut self, id: ConversationId) -> (r: Result<(), DialogueError>)
        ensures
            r matches Ok(_) ==> final(self).contents() == old(self).contents().remove(id),
            r is Err ==> final(self).contents() == old(self).contents() && r == Err::<
                (),
                DialogueError,
            >(DialogueError::StorageUnavailable),
            old(self).reliable() ==> r is Ok,
            final(self).reliable() == old(self).reliable(),
    ;
}

/// The view of an exec byte map, entry by entry.
pub open spec fn bytes_view_map(m: Map<ConversationId, Vec<u8>>) -> Map<ConversationId, Seq<u8>> {
    Map::new(|k: ConversationId| m.contains_key(k), |k: ConversationId| m[k]@)
}

proof fn lemma_bytes_view_insert(m: Map<ConversationId, Vec<u8>>, k: ConversationId, v: Vec<u8>)
    ensures
        bytes_view_map(m.insert(k, v)) == bytes_view_map(m).insert(k, v@),
{
    assert(bytes_view_map(m.insert(k, v)) =~= bytes_view_map(m).insert(k, v@));
}

proof fn lemma_bytes_view_remove(m: Map<ConversationId, Vec<u8>>, k: ConversationId)
    ensures
        bytes_view_map(m.remove(k)) == bytes_view_map(m).remove(k),
{
    assert(bytes_view_map(m.remove(k)) =~= bytes_view_map(m).remove(k));
}

fn clone_bytes(v: &Vec<u8>) -> (r: Vec<u8>)
    ensures
        r@ == v@,
{
    let mut r: Vec<u8> = Vec::new();
    let mut i: usize = 0;
    while i < v.len()
        invariant
            i <= v.len(),
            r@ == v@.subrange(0, i as int),
        decreases v.len() - i,
    {
        r.push(v[i]);
        proof {
            assert(v@.subrange(0, i as int).push(v@[i as int]) =~= v@.subrange(0, i as int + 1));
        }
        i = i + 1;
    }
    proof {
        assert(v@.subrange(0, v@.len() as int) =~= v@);
    }
    r
}

/// The reference storage backend: an in-process map. It is always reachable,
/// so none of its operations ever fails.
pub struct InMemStorage {
    map: HashMap<ConversationId, Vec<u8>>,
}

impl InMemStorage {
    /// Returns an empty backend: no conversation has an entry.
    pub fn new() -> (r: Self)
        ensures
            r.contents() == Map::<ConversationId, Seq<u8>>::empty(),
    {
        let r = InMemStorage { map: HashMap::new() };
        proof {
            assert(r.contents() =~= Map::<ConversationId, Seq<u8>>::empty());
        }
        r
    }
}

impl Storage for InMemStorage {
    closed spec fn contents(&self) -> Map<ConversationId, Seq<u8>> {
        bytes_view_map(self.map@)
    }

    open spec fn reliable(&self) -> bool {
        true
    }

    fn get_state(&self, id: ConversationId) -> (r: Result<Option<Vec<u8>>, DialogueError>) {
        match self.map.get(&id) {
            Some(v) => Ok(Some(clone_bytes(v))),
            None => Ok(None),
        }
    }

    fn update_state(&mut self, id: ConversationId, bytes: Vec<u8>) -> (r: Result<
        (),
        DialogueError,
    >) {
        let ghost old_map = self.map@;
        let ghost stored = bytes;
        self.map.insert(id, bytes);
        proof {
            lemma_bytes_view_insert(old_map, id, stored);
        }
        Ok(())
    }

    fn remove_state(&mut self, id: ConversationId) -> (r: Result<(), DialogueError>) {
        let ghost old_map = self.map@;
        self.map.remove(&id);
        proof {
            lemma_bytes_view_remove(old_map, id);
        }
        Ok(())
    }
}

} // verus!
