//! The record and its guarded owner transition.

use vstd::prelude::*;
use crate::account::{unset_bytes, AccountId};

verus! {

/// What a record holds, as mathematical values: the flag, the bytes of the
/// owner's identity and the characters of the name.
pub ghost struct RecordState {
    pub value: bool,
    pub owner: Seq<u8>,
    pub name: Seq<char>,
}

impl RecordState {
    /// The state of a record right after construction: the given flag, an
    /// empty name and no owner.
    pub open spec fn initial(value: bool) -> RecordState {
        RecordState { value, owner: unset_bytes(), name: Seq::<char>::empty() }
    }

    /// Nobody has claimed the record yet.
    pub open spec fn is_unclaimed(self) -> bool {
        self.owner == unset_bytes()
    }

    /// `caller` may reassign the owner: the record is unclaimed, or `caller`
    /// is its owner.
    pub open spec fn may_assign(self, caller: Seq<u8>) -> bool {
        self.is_unclaimed() || caller == self.owner
    }

    /// The state after the flag is negated.
    pub open spec fn flip(self) -> RecordState {
        RecordState { value: !self.value, ..self }
    }

    /// The state after the name is overwritten.
    pub open spec fn set_name(self, name: Seq<char>) -> RecordState {
        RecordState { name, ..self }
    }

    /// The state after `caller` asks to make `owner` the owner: the request is
    /// carried out if `caller` may assign, and ignored otherwise.
    pub open spec fn set_owner(self, caller: Seq<u8>, owner: Seq<u8>) -> RecordState {
        if self.may_assign(caller) {
            RecordState { owner, ..self }
        } else {
            self
        }
    }

    /// The state after `caller` initialises the record: the name is
    /// overwritten, then `caller` asks to become the owner.
    pub open spec fn init_base(self, caller: Seq<u8>, name: Seq<char>) -> RecordState {
        self.set_name(name).set_owner(caller, caller)
    }
}

/// A record with a flag, a name and an owner.
pub struct Basictest {
    value: bool,
    owner: AccountId,
    name: String,
}

impl View for Basictest {
    type V = RecordState;

    closed spec fn view(&self) -> RecordState {
        RecordState { value: self.value, owner: self.owner@, name: self.name@ }
    }
}

impl Basictest {
    /// Creates an unclaimed, unnamed record with the given flag.
    pub fn new(init_value: bool) -> (r: Basictest)
        ensures
            r@ == RecordState::initial(init_value),
    {
        Basictest { value: init_value, name: String::default(), owner: AccountId::default() }
    }

    /// Creates an unclaimed, unnamed record whose flag is `false`.
    pub fn default() -> (r: Basictest)
        ensures
            r@ == RecordState::initial(false),
    {
        Basictest::new(false)
    }

    /// Negates the flag.
    pub fn flip(&mut self)
        ensures
            final(self)@ == old(self)@.flip(),
    {
        self.value = !self.value;
    }

    /// Returns the flag.
    pub fn get(&self) -> (r: bool)
        ensures
            r == self@.value,
    {
        self.value
    }

    /// Overwrites the name, then lets `caller` try to claim the record for
    /// themselves. The name changes in any case; the owner changes only if
    /// `caller` may assign it.
    pub fn init_base(&mut self, caller: AccountId, name: String)
        ensures
            final(self)@ == old(self)@.init_base(caller@, name@),
    {
        self.set_name(name);
        self.set_owner(caller, caller);
    }

    /// Overwrites the name.
    pub fn set_name(&mut self, name: String)
        ensures
            final(self)@ == old(self)@.set_name(name@),
    {
        self.name = name;
    }

    /// Returns a copy of the name.
    pub fn get_name(&self) -> (r: String)
        ensures
            r@ == self@.name,
    {
        self.name.clone()
    }

    /// On behalf of `caller`, makes `owner` the owner if the record is
    /// unclaimed or `caller` is the current owner. Otherwise nothing changes,
    /// and no error is raised.
    pub fn set_owner(&mut self, caller: AccountId, owner: AccountId)
        ensures
            final(self)@ == old(self)@.set_owner(caller@, owner@),
    {
        if self.owner == AccountId::default() || caller == self.owner {
            self.owner = owner;
        }
    }

    /// Returns the owner; the all-zero identity while the record is unclaimed.
    pub fn get_owner(&self) -> (r: AccountId)
        ensures
            r@ == self@.owner,
    {
        self.owner
    }
}

} // verus!
