//! The keyed store that holds the records: at most one record per address.

use vstd::prelude::*;
use crate::pubkey::{lemma_view_injective, Pubkey};
use crate::state::{AiState, AiStateView, StateError};

verus! {

/// One occupied address and the record stored there.
struct Slot {
    address: Pubkey,
    record: AiState,
}

/// A store of fixed-size records keyed by address. Allocating a record costs
/// a fixed number of lamports, the store's rent, which the funder must hold.
pub struct Ledger {
    slots: Vec<Slot>,
    rent: u64,
}

/// Whether the store grants a record at `address` to a funder who holds
/// `lamports`: not where the address is occupied, and not where the funder
/// holds less than the rent.
pub open spec fn create_outcome(
    records: Map<Seq<u8>, AiStateView>,
    rent: u64,
    address: Seq<u8>,
    lamports: u64,
) -> Result<(), StateError> {
    if records.dom().contains(address) {
        Err(StateError::AlreadyInitialized)
    } else if lamports < rent {
        Err(StateError::AllocationFailed)
    } else {
        Ok(())
    }
}

/// No address occurs in two slots.
spec fn distinct(slots: Seq<Slot>) -> bool {
    forall|i: int, j: int| 0 <= i < j < slots.len() ==> slots[i].address@ != slots[j].address@
}

/// Whether some slot has the address.
spec fn occupied(slots: Seq<Slot>, address: Seq<u8>) -> bool {
    exists|i: int| 0 <= i < slots.len() && slots[i].address@ == address
}

/// The index of a slot with the address, where there is one.
spec fn position(slots: Seq<Slot>, address: Seq<u8>) -> int {
    choose|i: int| 0 <= i < slots.len() && slots[i].address@ == address
}

/// The records by address.
spec fn records_of(slots: Seq<Slot>) -> Map<Seq<u8>, AiStateView> {
    Map::new(
        |address: Seq<u8>| occupied(slots, address),
        |address: Seq<u8>| slots[position(slots, address)].record@,
    )
}

/// The record of slot `i` is the one found under that slot's address.
proof fn lemma_records_at(slots: Seq<Slot>, i: int)
    requires
        distinct(slots),
        0 <= i < slots.len(),
    ensures
        records_of(slots).dom().contains(slots[i].address@),
        records_of(slots)[slots[i].address@] == slots[i].record@,
{
    let found = position(slots, slots[i].address@);
    assert(found == i);
}

/// A new slot with a free address adds one record and changes no other.
proof fn lemma_records_push(slots: Seq<Slot>, slot: Slot)
    requires
        distinct(slots),
        !occupied(slots, slot.address@),
    ensures
        distinct(slots.push(slot)),
        records_of(slots.push(slot)) == records_of(slots).insert(slot.address@, slot.record@),
{
    let longer = slots.push(slot);
    assert(longer[slots.len() as int] == slot);
    assert forall|a: Seq<u8>| occupied(longer, a) <==> (a == slot.address@ || occupied(slots, a)) by {
        if occupied(slots, a) {
            assert(longer[position(slots, a)].address@ == a);
        }
    }
    assert forall|a: Seq<u8>| occupied(longer, a) implies #[trigger] records_of(longer)[a]
        == records_of(slots).insert(slot.address@, slot.record@)[a] by {
        lemma_records_at(longer, position(longer, a));
        if a != slot.address@ {
            lemma_records_at(slots, position(longer, a));
        }
    }
    assert(records_of(longer) =~= records_of(slots).insert(slot.address@, slot.record@));
}

/// A new record in slot `i` replaces the record at that slot's address and
/// changes no other.
proof fn lemma_records_update(slots: Seq<Slot>, i: int, record: AiState)
    requires
        distinct(slots),
        0 <= i < slots.len(),
    ensures
        distinct(slots.update(i, Slot { address: slots[i].address, record })),
        records_of(slots.update(i, Slot { address: slots[i].address, record })) == records_of(
            slots,
        ).insert(slots[i].address@, record@),
{
    let address = slots[i].address;
    let changed = slots.update(i, Slot { address, record });
    assert forall|j: int| 0 <= j < slots.len() implies #[trigger] changed[j].address@
        == slots[j].address@ by {}
    assert forall|a: Seq<u8>| occupied(changed, a) <==> occupied(slots, a) by {
        if occupied(slots, a) {
            assert(changed[position(slots, a)].address@ == a);
        }
        if occupied(changed, a) {
            assert(slots[position(changed, a)].address@ == a);
        }
    }
    lemma_records_at(slots, i);
    assert forall|a: Seq<u8>| occupied(changed, a) implies #[trigger] records_of(changed)[a]
        == records_of(slots).insert(address@, record@)[a] by {
        lemma_records_at(changed, position(changed, a));
        lemma_records_at(slots, position(changed, a));
    }
    assert(records_of(changed) =~= records_of(slots).insert(address@, record@));
}

impl View for Ledger {
    type V = Map<Seq<u8>, AiStateView>;

    /// The records by address.
    closed spec fn view(&self) -> Map<Seq<u8>, AiStateView> {
        records_of(self.slots@)
    }
}

impl Ledger {
    #[verifier::type_invariant]
    spec fn well_formed(self) -> bool {
        distinct(self.slots@)
    }

    /// The lamports that allocating one record costs.
    pub closed spec fn spec_rent(&self) -> u64 {
        self.rent
    }

    /// An empty store that charges `rent` lamports for a record.
    pub fn new(rent: u64) -> (ledger: Ledger)
        ensures
            ledger@ == Map::<Seq<u8>, AiStateView>::empty(),
            ledger.rent() == rent,
    {
        let ledger = Ledger { slots: Vec::new(), rent };
        assert(ledger@ =~= Map::<Seq<u8>, AiStateView>::empty());
        ledger
    }

    /// The lamports that allocating one record costs.
    #[verifier::when_used_as_spec(spec_rent)]
    pub fn rent(&self) -> (rent: u64)
        ensures
            rent == self.rent(),
    {
        self.rent
    }

    /// The index of the slot with the given address, if there is one.
    fn locate(&self, address: &Pubkey) -> (at: Option<usize>)
        ensures
            match at {
                Some(i) => i < self.slots@.len() && self.slots@[i as int].address@ == address@,
                None => !occupied(self.slots@, address@),
            },
    {
        let mut i: usize = 0;
        while i < self.slots.len()
            invariant
                i <= self.slots@.len(),
                forall|j: int| 0 <= j < i ==> self.slots@[j].address@ != address@,
            decreases self.slots@.len() - i,
        {
            if self.slots[i].address == *address {
                return Some(i);
            }
            proof {
                lemma_view_injective(self.slots@[i as int].address, *address);
            }
            i += 1;
        }
        None
    }

    /// The record stored at `address`, if there is one.
    pub fn get(&self, address: &Pubkey) -> (found: Option<AiState>)
        ensures
            match found {
                Some(record) => self@.dom().contains(address@) && self@[address@] == record@,
                None => !self@.dom().contains(address@),
            },
    {
        match self.locate(address) {
            Some(i) => {
                proof {
                    use_type_invariant(self);
                    lemma_records_at(self.slots@, i as int);
                }
                Some(self.slots[i].record)
            },
            None => None,
        }
    }

    /// Allocates a record at `address`, paid for out of `lamports`, and
    /// stores `record` there. Refused with `AlreadyInitialized` where the
    /// address is occupied, else with `AllocationFailed` where `lamports` is
    /// less than the rent.
    pub fn create(&mut self, address: Pubkey, record: AiState, lamports: u64) -> (outcome: Result<
        (),
        StateError,
    >)
        ensures
            final(self).rent() == old(self).rent(),
            outcome == create_outcome(old(self)@, old(self).rent(), address@, lamports),
            final(self)@ == (if outcome is Ok {
                old(self)@.insert(address@, record@)
            } else {
                old(self)@
            }),
    {
        proof {
            use_type_invariant(&*self);
        }
        match self.locate(&address) {
            Some(i) => {
                proof {
                    lemma_records_at(self.slots@, i as int);
                }
                Err(StateError::AlreadyInitialized)
            },
            None => {
                if lamports < self.rent {
                    return Err(StateError::AllocationFailed);
                }
                proof {
                    lemma_records_push(self.slots@, Slot { address, record });
                }
                let mut slots: Vec<Slot> = Vec::new();
                core::mem::swap(&mut self.slots, &mut slots);
                slots.push(Slot { address, record });
                core::mem::swap(&mut self.slots, &mut slots);
                Ok(())
            },
        }
    }

    /// Replaces the record stored at `address`. Refused with
    /// `RecordNotFound` where the address holds none.
    pub fn write(&mut self, address: &Pubkey, record: AiState) -> (outcome: Result<(), StateError>)
        ensures
            final(self).rent() == old(self).rent(),
            outcome == (if old(self)@.dom().contains(address@) {
                Ok::<(), StateError>(())
            } else {
                Err(StateError::RecordNotFound)
            }),
            final(self)@ == (if outcome is Ok {
                old(self)@.insert(address@, record@)
            } else {
                old(self)@
            }),
    {
        proof {
            use_type_invariant(&*self);
        }
        match self.locate(address) {
            None => Err(StateError::RecordNotFound),
            Some(i) => {
                proof {
                    lemma_records_at(self.slots@, i as int);
                    lemma_records_update(self.slots@, i as int, record);
                    lemma_view_injective(self.slots@[i as int].address, *address);
                }
                let mut slots: Vec<Slot> = Vec::new();
                core::mem::swap(&mut self.slots, &mut slots);
                slots.set(i, Slot { address: *address, record });
                core::mem::swap(&mut self.slots, &mut slots);
                Ok(())
            },
        }
    }
}

} // verus!
