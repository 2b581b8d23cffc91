//! The record kept for each owner, and the ways an operation can fail.

use vstd::prelude::*;
use crate::pubkey::Pubkey;

verus! {

/// Why an operation was refused. A refused operation changes nothing.
#[derive(Clone, Copy, Debug, PartialEq, Eq, Structural)]
pub enum StateError {
    /// A record already exists at the owner's address.
    AlreadyInitialized,
    /// No record could be allocated: the caller cannot fund it, or the
    /// caller's identity derives no address.
    AllocationFailed,
    /// No record exists at the address that was named.
    RecordNotFound,
    /// The caller is not the owner of the record.
    Unauthorized,
    /// The record's owner and bump do not derive the address that was named.
    AddressMismatch,
}

/// The record of one owner.
#[derive(Clone, Copy, Debug, PartialEq, Eq)]
pub struct AiState {
    /// The identity that created the record. Never changes.
    pub user: Pubkey,
    /// 32 opaque bytes under the owner's control.
    pub state_root: [u8; 32],
    /// The bump with which the record's address was derived. Never changes.
    pub bump: u8,
}

/// What a record is in contracts.
pub ghost struct AiStateView {
    pub user: Seq<u8>,
    pub state_root: Seq<u8>,
    pub bump: u8,
}

impl View for AiState {
    type V = AiStateView;

    open spec fn view(&self) -> AiStateView {
        AiStateView { user: self.user@, state_root: self.state_root@, bump: self.bump }
    }
}

/// A state root of 32 zero bytes.
pub open spec fn zero_root() -> Seq<u8> {
    Seq::new(32, |i: int| 0u8)
}

impl AiStateView {
    /// The record of a new owner: the owner, a zero state root, the bump.
    pub open spec fn fresh(user: Seq<u8>, bump: u8) -> AiStateView {
        AiStateView { user, state_root: zero_root(), bump }
    }

    /// The record with its state root replaced.
    pub open spec fn with_state_root(self, state_root: Seq<u8>) -> AiStateView {
        AiStateView { state_root, ..self }
    }
}

impl AiState {
    /// The bytes that one stored record takes: a type tag of 8, the owner's
    /// 32, the state root's 32 and the bump's 1.
    pub const SPACE: usize = 8 + 32 + 32 + 1;

    /// The record of a new owner: the owner, a zero state root, the bump.
    pub fn new(user: Pubkey, bump: u8) -> (record: AiState)
        ensures
            record@ == AiStateView::fresh(user@, bump),
    {
        let record = AiState { user, state_root: [0u8; 32], bump };
        assert(record.state_root@ =~= zero_root());
        record
    }

    /// Replaces the state root as a whole; owner and bump stay.
    pub fn set_state_root(&mut self, new_root: [u8; 32])
        ensures
            final(self)@ == old(self)@.with_state_root(new_root@),
    {
        self.state_root = new_root;
    }
}

} // verus!
