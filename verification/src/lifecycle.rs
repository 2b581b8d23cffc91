//! What holds of a record over its life: absent, then created once, then
//! updated any number of times by its owner.
//!
//! The statements are about the records as the contracts of `initialize` and
//! `update_state` describe them.

use vstd::prelude::*;
use crate::instructions::{
    initialize_outcome, initialize_records, update_state_outcome, update_state_records, Initialize,
    UpdateState,
};
use crate::pda::{canonical_address, lemma_canonical_address};
use crate::pubkey::Pubkey;
use crate::state::{zero_root, AiStateView, StateError};

verus! {

/// Every record sits at the canonical address of its owner and holds the
/// canonical bump.
pub open spec fn well_addressed(records: Map<Seq<u8>, AiStateView>) -> bool {
    forall|address: Seq<u8>| #[trigger]
        records.dom().contains(address) ==> canonical_address(records[address].user) == Some(
            (address, records[address].bump),
        )
}

/// A creation succeeds exactly for a caller whose identity derives an
/// address, who has no record there yet and who holds the rent. The record
/// then reads back with the caller as owner, a zero state root and the
/// canonical bump, and every other record is as before.
pub proof fn law_create_then_read(records: Map<Seq<u8>, AiStateView>, rent: u64, ctx: Initialize)
    ensures
        initialize_outcome(records, rent, ctx) is Ok <==> {
            &&& canonical_address(ctx.user@) matches Some((pda, _))
            &&& !records.dom().contains(pda)
            &&& ctx.lamports >= rent
        },
        initialize_outcome(records, rent, ctx) is Ok ==> {
            let after = initialize_records(records, rent, ctx);
            &&& canonical_address(ctx.user@) matches Some((pda, bump))
            &&& after.dom() == records.dom().insert(pda)
            &&& after[pda].user == ctx.user@
            &&& after[pda].state_root == zero_root()
            &&& after[pda].bump == bump
            &&& forall|other: Seq<u8>| records.dom().contains(other) ==> after[other] == records[other]
        },
{
}

/// Once a creation for an owner has found or left a record at the owner's
/// address, another creation for the same owner is refused with
/// `AlreadyInitialized`, whatever the caller then holds, and changes nothing.
pub proof fn law_create_twice(
    records: Map<Seq<u8>, AiStateView>,
    rent: u64,
    first: Initialize,
    second: Initialize,
)
    requires
        first.user == second.user,
        initialize_outcome(records, rent, first) != Err::<(), StateError>(
            StateError::AllocationFailed,
        ),
    ensures
        ({
            let once = initialize_records(records, rent, first);
            &&& initialize_outcome(once, rent, second) == Err::<(), StateError>(
                StateError::AlreadyInitialized,
            )
            &&& initialize_records(once, rent, second) == once
        }),
{
}

/// After a successful creation the owner can update: the update at the
/// owner's canonical address succeeds for every new state root, the record
/// then holds that root, and its owner and bump are as created.
pub proof fn law_create_then_update(
    records: Map<Seq<u8>, AiStateView>,
    rent: u64,
    ctx: Initialize,
    pda: Pubkey,
    new_root: [u8; 32],
)
    requires
        initialize_outcome(records, rent, ctx) is Ok,
        canonical_address(ctx.user@) matches Some((address, _)) && address == pda@,
    ensures
        ({
            let created = initialize_records(records, rent, ctx);
            let update = UpdateState { user: ctx.user, pda };
            let updated = update_state_records(created, update, new_root@);
            &&& update_state_outcome(created, update) is Ok
            &&& updated.dom() == created.dom()
            &&& updated[pda@].state_root == new_root@
            &&& updated[pda@].user == ctx.user@
            &&& updated[pda@].bump == created[pda@].bump
        }),
{
    lemma_canonical_address(ctx.user@);
}

/// An update by anyone but the owner of the record at the named address is
/// refused with `Unauthorized` and changes nothing.
pub proof fn law_update_by_stranger(
    records: Map<Seq<u8>, AiStateView>,
    ctx: UpdateState,
    new_root: [u8; 32],
)
    requires
        records.dom().contains(ctx.pda@),
        records[ctx.pda@].user != ctx.user@,
    ensures
        update_state_outcome(records, ctx) == Err::<(), StateError>(StateError::Unauthorized),
        update_state_records(records, ctx, new_root@) == records,
{
}

/// An update that names an address without a record is refused with
/// `RecordNotFound` and changes nothing.
pub proof fn law_update_before_create(
    records: Map<Seq<u8>, AiStateView>,
    ctx: UpdateState,
    new_root: [u8; 32],
)
    requires
        !records.dom().contains(ctx.pda@),
    ensures
        update_state_outcome(records, ctx) == Err::<(), StateError>(StateError::RecordNotFound),
        update_state_records(records, ctx, new_root@) == records,
{
}

/// Repeating an update changes nothing more: the second call ends as the
/// first did and leaves the records as the first left them.
pub proof fn law_update_twice(
    records: Map<Seq<u8>, AiStateView>,
    ctx: UpdateState,
    new_root: [u8; 32],
)
    ensures
        ({
            let once = update_state_records(records, ctx, new_root@);
            &&& update_state_outcome(once, ctx) == update_state_outcome(records, ctx)
            &&& update_state_records(once, ctx, new_root@) == once
        }),
{
    let once = update_state_records(records, ctx, new_root@);
    assert(update_state_records(once, ctx, new_root@) =~= once);
}

/// An update never adds or removes a record, and never changes an owner or
/// a bump: only the state root of the named record can differ afterwards.
pub proof fn law_update_keeps_owner(
    records: Map<Seq<u8>, AiStateView>,
    ctx: UpdateState,
    new_root: [u8; 32],
)
    ensures
        ({
            let after = update_state_records(records, ctx, new_root@);
            &&& after.dom() == records.dom()
            &&& forall|address: Seq<u8>| #[trigger]
                records.dom().contains(address) ==> {
                    &&& after[address].user == records[address].user
                    &&& after[address].bump == records[address].bump
                    &&& address != ctx.pda@ ==> after[address] == records[address]
                }
        }),
{
    assert(update_state_records(records, ctx, new_root@).dom() =~= records.dom());
}

/// An empty ledger is well addressed, and both operations keep a ledger so.
pub proof fn law_well_addressed_kept(
    records: Map<Seq<u8>, AiStateView>,
    rent: u64,
    create: Initialize,
    update: UpdateState,
    new_root: [u8; 32],
)
    requires
        well_addressed(records),
    ensures
        well_addressed(Map::<Seq<u8>, AiStateView>::empty()),
        well_addressed(initialize_records(records, rent, create)),
        well_addressed(update_state_records(records, update, new_root@)),
{
}

/// In a well-addressed ledger no owner has two records.
pub proof fn law_one_record_per_owner(
    records: Map<Seq<u8>, AiStateView>,
    first: Seq<u8>,
    second: Seq<u8>,
)
    requires
        well_addressed(records),
        records.dom().contains(first),
        records.dom().contains(second),
        records[first].user == records[second].user,
    ensures
        first == second,
{
}

/// In a well-addressed ledger the owner of a record can always update it at
/// its address.
pub proof fn law_owner_can_update(records: Map<Seq<u8>, AiStateView>, ctx: UpdateState)
    requires
        well_addressed(records),
        records.dom().contains(ctx.pda@),
        records[ctx.pda@].user == ctx.user@,
    ensures
        update_state_outcome(records, ctx) is Ok,
{
    lemma_canonical_address(ctx.user@);
}

} // verus!
