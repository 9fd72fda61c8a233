//! Identifiers for game objects, players and cards.

use vstd::prelude::*;

verus! {

/// Identifier of a game object (a card or token in some zone).
#[derive(Debug, Clone, Copy, PartialEq, Eq, Hash, Structural)]
pub struct ObjectId(pub u64);

/// Identifier of a player, by seat index.
#[derive(Debug, Clone, Copy, PartialEq, Eq, Hash, Structural)]
pub struct PlayerId(pub u32);

/// Identifier of a card in the card registry.
#[derive(Debug, Clone, Copy, PartialEq, Eq, Hash, Structural)]
pub struct CardId(pub u32);

impl ObjectId {
    /// Builds an object id from its raw number.
    pub fn from_raw(raw: u64) -> (id: ObjectId)
        ensures
            id.0 == raw,
    {
        ObjectId(raw)
    }
}

impl PlayerId {
    /// Builds the id of the player in the given seat.
    pub fn from_index(index: u32) -> (id: PlayerId)
        ensures
            id.0 == index,
    {
        PlayerId(index)
    }

    /// The seat index of this player.
    pub fn index(&self) -> (i: u32)
        ensures
            i == self.0,
    {
        self.0
    }
}

impl CardId {
    /// Builds a card id from its raw number.
    pub fn from_raw(raw: u32) -> (id: CardId)
        ensures
            id.0 == raw,
    {
        CardId(raw)
    }
}

/// Whether `id` occurs in `ids`.
pub fn contains_object(ids: &Vec<ObjectId>, id: ObjectId) -> (found: bool)
    ensures
        found == ids@.contains(id),
{
    let mut i: usize = 0;
    while i < ids.len()
        invariant
            i <= ids.len(),
            forall|j: int| 0 <= j < i ==> ids@[j] != id,
        decreases ids.len() - i,
    {
        if ids[i] == id {
            return true;
        }
        i = i + 1;
    }
    false
}

/// Whether `id` occurs in `ids`.
pub fn contains_player(ids: &Vec<PlayerId>, id: PlayerId) -> (found: bool)
    ensures
        found == ids@.contains(id),
{
    let mut i: usize = 0;
    while i < ids.len()
        invariant
            i <= ids.len(),
            forall|j: int| 0 <= j < i ==> ids@[j] != id,
        decreases ids.len() - i,
    {
        if ids[i] == id {
            return true;
        }
        i = i + 1;
    }
    false
}

/// A fresh vector with the same ids in the same order.
pub fn copy_objects(ids: &Vec<ObjectId>) -> (out: Vec<ObjectId>)
    ensures
        out@ == ids@,
{
    let mut out: Vec<ObjectId> = Vec::new();
    let mut i: usize = 0;
    while i < ids.len()
        invariant
            i <= ids.len(),
            out@ == ids@.subrange(0, i as int),
        decreases ids.len() - i,
    {
        out.push(ids[i]);
        i = i + 1;
    }
    assert(ids@.subrange(0, ids@.len() as int) == ids@);
    out
}

} // verus!
