//! Laws of the record, proved over its mathematical state.

use vstd::prelude::*;
use crate::account::{unset_bytes, AccountId};
use crate::record::RecordState;

verus! {

/// A freshly constructed record holds the flag it was given and an empty
/// name.
pub proof fn law_fresh_record(value: bool)
    ensures
        RecordState::initial(value).value == value,
        RecordState::initial(false).value == false,
        RecordState::initial(value).name == Seq::<char>::empty(),
{
}

/// Flipping twice restores the record.
pub proof fn law_flip_twice(s: RecordState)
    ensures
        s.flip().value == !s.value,
        s.flip().flip() == s,
{
}

/// Flipping touches neither the name nor the owner.
pub proof fn law_flip_keeps_name_and_owner(s: RecordState)
    ensures
        s.flip().name == s.name,
        s.flip().owner == s.owner,
{
}

/// After the name is set, the record holds exactly that name, whatever it
/// is, and its flag and owner are as before.
pub proof fn law_name_round_trip(s: RecordState, name: Seq<char>)
    ensures
        s.set_name(name).name == name,
        s.set_name(name).value == s.value,
        s.set_name(name).owner == s.owner,
{
}

/// A fresh record has no owner, and whoever asks first to own it does.
pub proof fn law_fresh_record_can_be_claimed(value: bool, caller: AccountId)
    ensures
        RecordState::initial(value).owner == unset_bytes(),
        RecordState::initial(value).set_owner(caller@, caller@).owner == caller@,
{
}

/// On an unclaimed record every request to set the owner is carried out,
/// whoever makes it and whomever it names.
pub proof fn law_unclaimed_accepts_any_request(s: RecordState, caller: AccountId, owner: AccountId)
    requires
        s.is_unclaimed(),
    ensures
        s.set_owner(caller@, owner@).owner == owner@,
{
}

/// Once a record has an owner, a request from anyone else changes nothing.
pub proof fn law_stranger_is_ignored(
    s: RecordState,
    holder: AccountId,
    caller: AccountId,
    owner: AccountId,
)
    requires
        s.owner == holder@,
        holder@ != unset_bytes(),
        caller@ != holder@,
    ensures
        s.set_owner(caller@, owner@) == s,
        s.set_owner(caller@, owner@).owner == holder@,
{
}

/// The owner can hand the record to any identity.
pub proof fn law_owner_transfers(s: RecordState, holder: AccountId, owner: AccountId)
    requires
        s.owner == holder@,
    ensures
        s.set_owner(holder@, owner@).owner == owner@,
{
}

/// Setting the owner never touches the flag or the name, and leaves the
/// owner either as it was or as requested.
pub proof fn law_set_owner_frame(s: RecordState, caller: AccountId, owner: AccountId)
    ensures
        s.set_owner(caller@, owner@).value == s.value,
        s.set_owner(caller@, owner@).name == s.name,
        s.set_owner(caller@, owner@).owner == s.owner || s.set_owner(caller@, owner@).owner
            == owner@,
        s.set_owner(caller@, owner@).owner != s.owner ==> s.may_assign(caller@),
{
}

/// Initialising a record that someone else owns overwrites the name and
/// leaves the owner in place.
pub proof fn law_init_asymmetry(
    s: RecordState,
    holder: AccountId,
    caller: AccountId,
    name: Seq<char>,
)
    requires
        s.owner == holder@,
        holder@ != unset_bytes(),
        caller@ != holder@,
    ensures
        s.init_base(caller@, name).name == name,
        s.init_base(caller@, name).owner == holder@,
        s.init_base(caller@, name).value == s.value,
{
}

/// Initialising an unclaimed record sets the name and makes the caller its
/// owner.
pub proof fn law_init_claims(s: RecordState, caller: AccountId, name: Seq<char>)
    requires
        s.is_unclaimed(),
    ensures
        s.init_base(caller@, name).name == name,
        s.init_base(caller@, name).owner == caller@,
        s.init_base(caller@, name).value == s.value,
{
}

/// An owner who hands the record to the all-zero identity leaves it
/// unclaimed, so that the next caller can claim it.
pub proof fn law_renounce_reopens(
    s: RecordState,
    holder: AccountId,
    caller: AccountId,
    owner: AccountId,
)
    requires
        s.owner == holder@,
    ensures
        s.set_owner(holder@, unset_bytes()).is_unclaimed(),
        s.set_owner(holder@, unset_bytes()).set_owner(caller@, owner@).owner == owner@,
{
}

} // verus!
