use std::collections::HashMap;
use vstd::prelude::*;

verus! {

broadcast use vstd::std_specs::hash::group_hash_axioms;

/// The record of one user: `None` while a room is being created for them (a
/// claim), `Some(channel)` once the room exists.
pub type Slot = Option<u64>;

/// Who owns a temporary room: user id to slot. Every question of the form
/// "does this user already own a room" is answered, and acted on, by one call.
pub struct TempChannelStore {
    records: HashMap<u64, Slot>,
}

impl View for TempChannelStore {
    type V = Map<u64, Slot>;

    closed spec fn view(&self) -> Map<u64, Slot> {
        self.records@
    }
}

/// The channel that `user` owns in `m`, if its room exists.
pub open spec fn owned_channel(m: Map<u64, Slot>, user: u64) -> Option<u64> {
    if m.contains_key(user) {
        m[user]
    } else {
        None
    }
}

/// `user` holds a claim: a room is being created for them.
pub open spec fn is_claimed(m: Map<u64, Slot>, user: u64) -> bool {
    m.contains_key(user) && m[user] is None
}

impl TempChannelStore {
    /// An empty store.
    pub fn new() -> (r: TempChannelStore)
        ensures
            r@ == Map::<u64, Slot>::empty(),
    {
        TempChannelStore { records: HashMap::new() }
    }

    /// Claims `user` if they hold no record; returns whether the claim is new.
    pub fn try_claim(&mut self, user: u64) -> (r: bool)
        ensures
            r == !old(self)@.contains_key(user),
            final(self)@ == if r {
                old(self)@.insert(user, None)
            } else {
                old(self)@
            },
    {
        if self.records.contains_key(&user) {
            false
        } else {
            self.records.insert(user, None);
            true
        }
    }

    /// Attaches `channel` to the claim of `user`; a user who holds no claim is
    /// left as they are. Returns whether the claim was bound.
    pub fn bind(&mut self, user: u64, channel: u64) -> (r: bool)
        ensures
            r == is_claimed(old(self)@, user),
            final(self)@ == if r {
                old(self)@.insert(user, Some(channel))
            } else {
                old(self)@
            },
    {
        match self.records.get(&user) {
            Some(None) => {
                self.records.insert(user, Some(channel));
                true
            },
            _ => false,
        }
    }

    /// Releases the claim of `user` after a failed creation; a bound record is
    /// kept. Returns whether a claim was released.
    pub fn abandon_claim(&mut self, user: u64) -> (r: bool)
        ensures
            r == is_claimed(old(self)@, user),
            final(self)@ == if r {
                old(self)@.remove(user)
            } else {
                old(self)@
            },
    {
        match self.records.get(&user) {
            Some(None) => {
                self.records.remove(&user);
                true
            },
            _ => false,
        }
    }

    /// Whether `user` holds a claim.
    pub fn has_claim(&self, user: u64) -> (r: bool)
        ensures
            r == is_claimed(self@, user),
    {
        match self.records.get(&user) {
            Some(None) => true,
            _ => false,
        }
    }

    /// The channel that `user` owns, if their room exists.
    pub fn lookup(&self, user: u64) -> (r: Option<u64>)
        ensures
            r == owned_channel(self@, user),
    {
        match self.records.get(&user) {
            Some(slot) => *slot,
            None => None,
        }
    }

    /// Removes the record of `user` only if it names `expected`; returns
    /// whether it did.
    pub fn remove_if(&mut self, user: u64, expected: u64) -> (r: bool)
        ensures
            r == (owned_channel(old(self)@, user) == Some(expected)),
            final(self)@ == if r {
                old(self)@.remove(user)
            } else {
                old(self)@
            },
    {
        match self.records.get(&user) {
            Some(Some(channel)) => {
                if *channel == expected {
                    self.records.remove(&user);
                    true
                } else {
                    false
                }
            },
            _ => false,
        }
    }

    /// Drops every record.
    pub fn clear(&mut self)
        ensures
            final(self)@ == Map::<u64, Slot>::empty(),
    {
        self.records.clear();
    }

    /// The number of records, claims included.
    pub fn len(&self) -> (r: usize)
        ensures
            r == self@.len(),
    {
        self.records.len()
    }
}

} // verus!
