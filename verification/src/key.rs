//! Keys: the (feed, group, symbol) triple naming one instrument.
//!
//! On the wire a key is one fixed-size binary record: a two-byte feed
//! identifier, a two-byte group ("country") identifier, and a
//! fixed-length symbol.

use vstd::prelude::*;

use crate::error::Error;
use crate::feed::Id as FeedId;
use crate::group::{Group, Id as GroupId};

verus! {

/// The number of bytes of the symbol part of a key.
pub const SYMBOL_SIZE: u32 = 32;

/// The number of bytes a key occupies on the wire.
pub const KEY_SIZE: u32 = 36;

/// Symbol data: the fixed-length, NUL-padded symbol part of a key.
#[derive(Clone, Copy, Debug)]
pub struct Symbol {
    /// The symbol bytes.
    pub bytes: [u8; 32],
}

/// A wrapper for a native key.
#[derive(Clone, Copy, Debug)]
pub struct Key {
    /// The feed ("exchange") identifier.
    pub feed: FeedId,
    /// The group ("country") identifier.
    pub group: GroupId,
    /// The symbol.
    pub symbol: Symbol,
}

impl Key {
    /// Decode a key from its wire record.
    pub fn new(b: &Vec<u8>) -> (r: Key)
        requires
            b@.len() == KEY_SIZE,
        ensures
            r.feed.bytes@ == seq![b@[0], b@[1]],
            r.group.bytes@ == seq![b@[2], b@[3]],
            forall|i: int| 0 <= i < 32 ==> r.symbol.bytes@[i] == b@[4 + i],
    {
        let mut symbol: [u8; 32] = [0u8; 32];
        let mut i: usize = 0;
        while i < 32
            invariant
                i <= 32,
                b@.len() == KEY_SIZE,
                forall|j: int| 0 <= j < i ==> symbol@[j] == b@[4 + j],
            decreases 32 - i,
        {
            symbol[i] = b[4 + i];
            i += 1;
        }
        let feed = FeedId { bytes: [b[0], b[1]] };
        let group = GroupId { bytes: [b[2], b[3]] };
        assert(feed.bytes@ =~= seq![b@[0], b@[1]]);
        assert(group.bytes@ =~= seq![b@[2], b@[3]]);
        Key { feed, group, symbol: Symbol { bytes: symbol } }
    }

    /// Retrieve a reference to the feed ("exchange") identifier in this
    /// key.
    pub fn feed_id(&self) -> (r: &FeedId)
        ensures
            *r == self.feed,
    {
        &self.feed
    }

    /// Retrieve a reference to the group ("country") identifier in this
    /// key.
    pub fn group_id(&self) -> (r: &GroupId)
        ensures
            *r == self.group,
    {
        &self.group
    }

    /// Parse the group identifier and return the group if possible.
    pub fn group(&self) -> (r: Result<Group, Error>)
        ensures
            match crate::group::spec_group_of(self.group.bytes@[0], self.group.bytes@[1]) {
                Some(g) => r == Ok::<Group, Error>(g),
                None => r == Err::<Group, Error>(Error::GroupUnknown),
            },
    {
        match Group::try_from_bytes(self.group.bytes[0], self.group.bytes[1]) {
            Some(g) => Ok(g),
            None => Err(Error::GroupUnknown),
        }
    }

    /// Retrieve a reference to the symbol in this key.
    pub fn symbol(&self) -> (r: &Symbol)
        ensures
            *r == self.symbol,
    {
        &self.symbol
    }
}

/// An alternate identifier (symbol alias) for an instrument: a
/// fixed-length, NUL-padded byte string.
#[derive(Clone, Copy, Debug)]
pub struct AlternateId {
    /// The identifier bytes.
    pub bytes: [u8; 32],
}

impl AlternateId {
    /// Wrap raw alternate-identifier bytes.
    pub fn new(bytes: [u8; 32]) -> (r: AlternateId)
        ensures
            r.bytes == bytes,
    {
        AlternateId { bytes }
    }

    /// Decode an alternate identifier from its wire record.
    pub fn from_wire(b: &Vec<u8>) -> (r: AlternateId)
        requires
            b@.len() == 32,
        ensures
            forall|i: int| 0 <= i < 32 ==> r.bytes@[i] == b@[i],
    {
        let mut bytes: [u8; 32] = [0u8; 32];
        let mut i: usize = 0;
        while i < 32
            invariant
                i <= 32,
                b@.len() == 32,
                forall|j: int| 0 <= j < i ==> bytes@[j] == b@[j],
            decreases 32 - i,
        {
            bytes[i] = b[i];
            i += 1;
        }
        AlternateId { bytes }
    }
}

} // verus!
