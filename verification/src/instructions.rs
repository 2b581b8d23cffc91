//! The two operations of the program: creating an owner's record and
//! replacing its state root.
//!
//! Each operation is all or nothing: it returns `Ok` and changes the ledger
//! as described, or it returns an error and the ledger stays as it was.
//!
//! Each operation comes twice. `initialize` and `update_state` derive the
//! address they need themselves. `initialize_with` and `update_state_with`
//! take the outcome of that derivation as an argument and do all the rest.

use vstd::prelude::*;
use crate::ledger::{create_outcome, Ledger};
use crate::pda::{
    address_view, address_with_bump, canonical_address, derived_address, find_program_address,
    found_view,
};
use crate::pubkey::{lemma_view_injective, Pubkey};
use crate::state::{AiState, AiStateView, StateError};

verus! {

/// A request to create the caller's record.
#[derive(Clone, Copy, Debug)]
pub struct Initialize {
    /// The caller: owner of the new record and funder of its allocation.
    pub user: Pubkey,
    /// The lamports that the caller holds.
    pub lamports: u64,
}

/// A request to replace the state root of a record.
#[derive(Clone, Copy, Debug)]
pub struct UpdateState {
    /// The caller.
    pub user: Pubkey,
    /// The address of the record to change, as the caller names it.
    pub pda: Pubkey,
}

/// How a creation ends, given the address and bump found for the caller.
/// Without an address nothing can be allocated; otherwise the store decides:
/// `AlreadyInitialized` where the address is occupied, else
/// `AllocationFailed` where the caller holds less than the rent.
pub open spec fn initialize_with_outcome(
    records: Map<Seq<u8>, AiStateView>,
    rent: u64,
    ctx: Initialize,
    found: Option<(Seq<u8>, u8)>,
) -> Result<(), StateError> {
    match found {
        Some((pda, _)) => create_outcome(records, rent, pda, ctx.lamports),
        None => Err(StateError::AllocationFailed),
    }
}

/// The records after a creation: on success the caller's fresh record is
/// added at the address that was found; on failure nothing changes.
pub open spec fn initialize_with_records(
    records: Map<Seq<u8>, AiStateView>,
    rent: u64,
    ctx: Initialize,
    found: Option<(Seq<u8>, u8)>,
) -> Map<Seq<u8>, AiStateView> {
    match found {
        Some((pda, bump)) if initialize_with_outcome(records, rent, ctx, found) is Ok => {
            records.insert(pda, AiStateView::fresh(ctx.user@, bump))
        },
        _ => records,
    }
}

/// How `initialize` ends: as a creation at the caller's canonical address.
pub open spec fn initialize_outcome(
    records: Map<Seq<u8>, AiStateView>,
    rent: u64,
    ctx: Initialize,
) -> Result<(), StateError> {
    initialize_with_outcome(records, rent, ctx, canonical_address(ctx.user@))
}

/// The records after `initialize`.
pub open spec fn initialize_records(
    records: Map<Seq<u8>, AiStateView>,
    rent: u64,
    ctx: Initialize,
) -> Map<Seq<u8>, AiStateView> {
    initialize_with_records(records, rent, ctx, canonical_address(ctx.user@))
}

/// How an update ends, given the address re-derived from the caller and the
/// record's bump. The checks come in this order: a record must exist at the
/// named address, the caller must be its owner, and the re-derived address
/// must be the named one.
pub open spec fn update_state_with_outcome(
    records: Map<Seq<u8>, AiStateView>,
    ctx: UpdateState,
    derived: Option<Seq<u8>>,
) -> Result<(), StateError> {
    if !records.dom().contains(ctx.pda@) {
        Err(StateError::RecordNotFound)
    } else if records[ctx.pda@].user != ctx.user@ {
        Err(StateError::Unauthorized)
    } else if derived != Some(ctx.pda@) {
        Err(StateError::AddressMismatch)
    } else {
        Ok(())
    }
}

/// The records after an update: on success the named record has the new
/// state root and is otherwise as before; on failure nothing changes.
pub open spec fn update_state_with_records(
    records: Map<Seq<u8>, AiStateView>,
    ctx: UpdateState,
    new_root: Seq<u8>,
    derived: Option<Seq<u8>>,
) -> Map<Seq<u8>, AiStateView> {
    if update_state_with_outcome(records, ctx, derived) is Ok {
        records.insert(ctx.pda@, records[ctx.pda@].with_state_root(new_root))
    } else {
        records
    }
}

/// The address that `update_state` re-derives: from the caller and the bump
/// of the record at the named address. `None` where no record is there or
/// that bump yields no address.
pub open spec fn rederived_address(records: Map<Seq<u8>, AiStateView>, ctx: UpdateState) -> Option<
    Seq<u8>,
> {
    if records.dom().contains(ctx.pda@) {
        derived_address(ctx.user@, records[ctx.pda@].bump)
    } else {
        None
    }
}

/// How `update_state` ends: as an update with the re-derived address.
pub open spec fn update_state_outcome(records: Map<Seq<u8>, AiStateView>, ctx: UpdateState) -> Result<
    (),
    StateError,
> {
    update_state_with_outcome(records, ctx, rederived_address(records, ctx))
}

/// The records after `update_state`.
pub open spec fn update_state_records(
    records: Map<Seq<u8>, AiStateView>,
    ctx: UpdateState,
    new_root: Seq<u8>,
) -> Map<Seq<u8>, AiStateView> {
    update_state_with_records(records, ctx, new_root, rederived_address(records, ctx))
}

/// Creates the caller's record at the address in `found`, the outcome of the
/// address search for the caller: owner the caller, state root zero, bump
/// the one in `found`.
pub fn initialize_with(ledger: &mut Ledger, ctx: &Initialize, found: Option<(Pubkey, u8)>) -> (outcome:
    Result<(), StateError>)
    ensures
        final(ledger).rent() == old(ledger).rent(),
        outcome == initialize_with_outcome(
            old(ledger)@,
            old(ledger).rent(),
            *ctx,
            found_view(found),
        ),
        final(ledger)@ == initialize_with_records(
            old(ledger)@,
            old(ledger).rent(),
            *ctx,
            found_view(found),
        ),
{
    match found {
        Some((pda, bump)) => ledger.create(pda, AiState::new(ctx.user, bump), ctx.lamports),
        None => Err(StateError::AllocationFailed),
    }
}

/// Creates the caller's record at the caller's canonical address: owner the
/// caller, state root zero, bump the canonical one.
pub fn initialize(ledger: &mut Ledger, ctx: &Initialize) -> (outcome: Result<(), StateError>)
    ensures
        final(ledger).rent() == old(ledger).rent(),
        outcome == initialize_outcome(old(ledger)@, old(ledger).rent(), *ctx),
        final(ledger)@ == initialize_records(old(ledger)@, old(ledger).rent(), *ctx),
{
    let found = find_program_address(&ctx.user);
    initialize_with(ledger, ctx, found)
}

/// Replaces the state root of the record at the named address, given in
/// `derived` the address re-derived from the caller and that record's bump.
pub fn update_state_with(
    ledger: &mut Ledger,
    ctx: &UpdateState,
    new_root: [u8; 32],
    derived: Option<Pubkey>,
) -> (outcome: Result<(), StateError>)
    ensures
        final(ledger).rent() == old(ledger).rent(),
        outcome == update_state_with_outcome(old(ledger)@, *ctx, address_view(derived)),
        final(ledger)@ == update_state_with_records(
            old(ledger)@,
            *ctx,
            new_root@,
            address_view(derived),
        ),
{
    match ledger.get(&ctx.pda) {
        None => Err(StateError::RecordNotFound),
        Some(record) => {
            proof {
                lemma_view_injective(record.user, ctx.user);
            }
            if !(record.user == ctx.user) {
                return Err(StateError::Unauthorized);
            }
            match derived {
                Some(address) => {
                    proof {
                        lemma_view_injective(address, ctx.pda);
                    }
                    if !(address == ctx.pda) {
                        return Err(StateError::AddressMismatch);
                    }
                },
                None => {
                    return Err(StateError::AddressMismatch);
                },
            }
            let mut updated = record;
            updated.set_state_root(new_root);
            ledger.write(&ctx.pda, updated)
        },
    }
}

/// Replaces the state root of the record at the named address with
/// `new_root`, for the record's owner only.
pub fn update_state(ledger: &mut Ledger, ctx: &UpdateState, new_root: [u8; 32]) -> (outcome: Result<
    (),
    StateError,
>)
    ensures
        final(ledger).rent() == old(ledger).rent(),
        outcome == update_state_outcome(old(ledger)@, *ctx),
        final(ledger)@ == update_state_records(old(ledger)@, *ctx, new_root@),
{
    let derived = match ledger.get(&ctx.pda) {
        Some(record) => address_with_bump(&ctx.user, record.bump),
        None => None,
    };
    update_state_with(ledger, ctx, new_root, derived)
}

} // verus!
