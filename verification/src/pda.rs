//! Where a record lives: the address derived from the program's label and
//! the owner's identity.
//!
//! The derivation hashes the label, the owner, one extra byte (the bump) and
//! the program's identity. Not every bump yields a usable address; the search
//! starts at 255 and walks down, and the first bump that yields one is the
//! owner's canonical bump.

use vstd::prelude::*;
use crate::pubkey::Pubkey;

verus! {

/// The label under which every record's address is derived: the ASCII bytes
/// of `sovereign_ai`.
pub const SEED: [u8; 12] = [115, 111, 118, 101, 114, 101, 105, 103, 110, 95, 97, 105];

/// The identity of the program, `3Dt3BQ2YmiCy6cwqYV8en1i1ES7GduUHsFd6QNmRPNev`
/// in base 58.
pub const PROGRAM_ID: [u8; 32] = [
    33, 4, 13, 75, 70, 112, 0, 168, 122, 47, 169, 242, 46, 181, 200, 202,
    126, 29, 157, 27, 87, 1, 207, 9, 64, 54, 7, 151, 41, 198, 118, 187,
];

/// The identity of the program.
pub fn id() -> (key: Pubkey)
    ensures
        key@ == PROGRAM_ID@,
{
    Pubkey(PROGRAM_ID)
}

/// The address that the seeds and the program's identity derive, or `None`
/// where they derive none. It stands for the result of
/// `Pubkey::create_program_address`, which is not specified further here.
pub uninterp spec fn program_address(seeds: Seq<Seq<u8>>, program_id: Seq<u8>) -> Option<Seq<u8>>;

/// The seeds of an owner's record for one bump.
pub open spec fn record_seeds(owner: Seq<u8>, bump: u8) -> Seq<Seq<u8>> {
    seq![SEED@, owner, seq![bump]]
}

/// The address of an owner's record for one bump, if that bump yields one.
pub open spec fn derived_address(owner: Seq<u8>, bump: u8) -> Option<Seq<u8>> {
    program_address(record_seeds(owner, bump), PROGRAM_ID@)
}

/// The first address found when the bumps `top`, `top - 1`, ..., 1 are tried
/// in that order, with its bump. Bump 0 is never tried.
pub open spec fn search_from(owner: Seq<u8>, top: u8) -> Option<(Seq<u8>, u8)>
    decreases top,
{
    if top == 0 {
        None
    } else {
        match derived_address(owner, top) {
            Some(address) => Some((address, top)),
            None => search_from(owner, (top - 1) as u8),
        }
    }
}

/// An owner's canonical address and bump: the result of the search from 255.
pub open spec fn canonical_address(owner: Seq<u8>) -> Option<(Seq<u8>, u8)> {
    search_from(owner, 255)
}

/// What an executable derivation result stands for in contracts.
pub open spec fn address_view(derived: Option<Pubkey>) -> Option<Seq<u8>> {
    match derived {
        Some(address) => Some(address@),
        None => None,
    }
}

/// What an executable search result stands for in contracts.
pub open spec fn found_view(found: Option<(Pubkey, u8)>) -> Option<(Seq<u8>, u8)> {
    match found {
        Some((address, bump)) => Some((address@, bump)),
        None => None,
    }
}

/// Calls `Pubkey::create_program_address` of anchor_lang on the three seeds
/// `label`, the bytes of `owner` and the single byte `bump`. The contract
/// claims only that the outcome is a function of these arguments: the address
/// on `Ok`, `None` on any error.
#[verifier::external_body]
fn create_program_address(label: &[u8], owner: &Pubkey, bump: u8, program_id: &Pubkey) -> (derived:
    Option<Pubkey>)
    ensures
        address_view(derived) == program_address(seq![label@, owner@, seq![bump]], program_id@),
{
    let program = anchor_lang::prelude::Pubkey::new_from_array(program_id.0);
    let seeds: [&[u8]; 3] = [label, &owner.0, &[bump]];
    match anchor_lang::prelude::Pubkey::create_program_address(&seeds, &program) {
        Ok(address) => Some(Pubkey(address.to_bytes())),
        Err(_) => None,
    }
}

/// The address of `owner`'s record for the given bump, or `None` where that
/// bump yields no address.
pub fn address_with_bump(owner: &Pubkey, bump: u8) -> (derived: Option<Pubkey>)
    ensures
        address_view(derived) == derived_address(owner@, bump),
{
    let program = id();
    create_program_address(SEED.as_slice(), owner, bump, &program)
}

/// The canonical address of `owner`'s record and its bump: the bumps 255
/// down to 1 are tried in turn and the first that yields an address wins.
/// `None` where none of them does. This is the search that
/// `Pubkey::find_program_address` of anchor_lang makes for the same seeds.
pub fn find_program_address(owner: &Pubkey) -> (found: Option<(Pubkey, u8)>)
    ensures
        found_view(found) == canonical_address(owner@),
{
    let mut bump: u8 = 255;
    while bump >= 1
        invariant
            search_from(owner@, bump) == canonical_address(owner@),
        decreases bump,
    {
        match address_with_bump(owner, bump) {
            Some(address) => {
                return Some((address, bump));
            },
            None => {},
        }
        bump -= 1;
    }
    None
}

/// The canonical address is the one with the highest bump from 1 to 255 that
/// yields an address at all.
pub proof fn lemma_canonical_address(owner: Seq<u8>)
    ensures
        match canonical_address(owner) {
            Some((address, bump)) => {
                &&& 1 <= bump
                &&& derived_address(owner, bump) == Some(address)
                &&& forall|other: u8| bump < other ==> derived_address(owner, other) is None
            },
            None => forall|other: u8| 1 <= other ==> derived_address(owner, other) is None,
        },
{
    lemma_search_from(owner, 255);
}

/// What `search_from` finds among the bumps 1 to `top`.
pub proof fn lemma_search_from(owner: Seq<u8>, top: u8)
    ensures
        match search_from(owner, top) {
            Some((address, bump)) => {
                &&& 1 <= bump <= top
                &&& derived_address(owner, bump) == Some(address)
                &&& forall|other: u8| bump < other <= top ==> derived_address(owner, other) is None
            },
            None => forall|other: u8| 1 <= other <= top ==> derived_address(owner, other) is None,
        },
    decreases top,
{
    if top > 0 && derived_address(owner, top) is None {
        lemma_search_from(owner, (top - 1) as u8);
    }
}

} // verus!
