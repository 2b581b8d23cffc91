use sovereign_ai::instructions::{initialize_with, update_state_with};
use sovereign_ai::pda::find_program_address;
use sovereign_ai::{
    initialize, update_state, AiState, Initialize, Ledger, Pubkey, StateError, UpdateState,
};

const RENT: u64 = 1_398_960;

fn key(fill: u8) -> Pubkey {
    Pubkey::new_from_array([fill; 32])
}

fn root(fill: u8) -> [u8; 32] {
    let mut bytes = [fill; 32];
    bytes[0] = 1;
    bytes[31] = 2;
    bytes
}

#[test]
fn initialize_with_places_a_fresh_record() {
    let mut ledger = Ledger::new(RENT);
    let ctx = Initialize { user: key(1), lamports: RENT };
    assert_eq!(initialize_with(&mut ledger, &ctx, Some((key(90), 250))), Ok(()));
    assert_eq!(
        ledger.get(&key(90)),
        Some(AiState { user: key(1), state_root: [0u8; 32], bump: 250 })
    );
    assert_eq!(ledger.get(&key(1)), None);
    assert_eq!(ledger.rent(), RENT);
}

#[test]
fn initialize_with_no_address_allocates_nothing() {
    let mut ledger = Ledger::new(RENT);
    let ctx = Initialize { user: key(1), lamports: u64::MAX };
    assert_eq!(initialize_with(&mut ledger, &ctx, None), Err(StateError::AllocationFailed));
    assert_eq!(ledger.get(&key(1)), None);
}

#[test]
fn initialize_with_checks_occupancy_before_funds() {
    let mut ledger = Ledger::new(RENT);
    let rich = Initialize { user: key(1), lamports: RENT };
    let poor = Initialize { user: key(1), lamports: RENT - 1 };
    assert_eq!(
        initialize_with(&mut ledger, &poor, Some((key(90), 250))),
        Err(StateError::AllocationFailed)
    );
    assert_eq!(ledger.get(&key(90)), None);
    assert_eq!(initialize_with(&mut ledger, &rich, Some((key(90), 250))), Ok(()));
    assert_eq!(
        initialize_with(&mut ledger, &poor, Some((key(90), 250))),
        Err(StateError::AlreadyInitialized)
    );
    assert_eq!(
        initialize_with(&mut ledger, &rich, Some((key(90), 249))),
        Err(StateError::AlreadyInitialized)
    );
    assert_eq!(ledger.get(&key(90)), Some(AiState::new(key(1), 250)));
}

#[test]
fn initialize_uses_the_canonical_address() {
    let mut ledger = Ledger::new(RENT);
    let user = key(97);
    let (pda, bump) = find_program_address(&user).unwrap();
    assert_eq!(bump, 249);
    assert_eq!(initialize(&mut ledger, &Initialize { user, lamports: RENT + 5 }), Ok(()));
    assert_eq!(ledger.get(&pda), Some(AiState { user, state_root: [0u8; 32], bump: 249 }));
    assert_eq!(ledger.get(&user), None);
}

#[test]
fn initialize_refuses_a_caller_below_the_rent() {
    let mut ledger = Ledger::new(RENT);
    let user = key(5);
    let (pda, _) = find_program_address(&user).unwrap();
    assert_eq!(
        initialize(&mut ledger, &Initialize { user, lamports: RENT - 1 }),
        Err(StateError::AllocationFailed)
    );
    assert_eq!(ledger.get(&pda), None);
    assert_eq!(initialize(&mut ledger, &Initialize { user, lamports: RENT }), Ok(()));
    assert_eq!(ledger.get(&pda), Some(AiState::new(user, 254)));
}

#[test]
fn initialize_gives_each_owner_an_own_record() {
    let mut ledger = Ledger::new(0);
    let mut addresses: Vec<Pubkey> = Vec::new();
    for fill in 0..20u8 {
        let user = key(fill);
        let (pda, bump) = find_program_address(&user).unwrap();
        assert_eq!(initialize(&mut ledger, &Initialize { user, lamports: 0 }), Ok(()));
        assert_eq!(ledger.get(&pda), Some(AiState::new(user, bump)));
        assert!(!addresses.contains(&pda));
        addresses.push(pda);
    }
    for fill in 0..20u8 {
        let user = key(fill);
        let (pda, bump) = find_program_address(&user).unwrap();
        assert_eq!(ledger.get(&pda), Some(AiState::new(user, bump)));
    }
}

#[test]
fn update_state_with_replaces_the_root() {
    let mut ledger = Ledger::new(0);
    assert_eq!(ledger.create(key(90), AiState::new(key(1), 250), 0), Ok(()));
    assert_eq!(ledger.create(key(91), AiState::new(key(2), 251), 0), Ok(()));
    let ctx = UpdateState { user: key(1), pda: key(90) };
    assert_eq!(update_state_with(&mut ledger, &ctx, root(7), Some(key(90))), Ok(()));
    assert_eq!(
        ledger.get(&key(90)),
        Some(AiState { user: key(1), state_root: root(7), bump: 250 })
    );
    assert_eq!(ledger.get(&key(91)), Some(AiState::new(key(2), 251)));
}

#[test]
fn update_state_with_refuses_an_empty_address() {
    let mut ledger = Ledger::new(0);
    assert_eq!(ledger.create(key(90), AiState::new(key(1), 250), 0), Ok(()));
    let ctx = UpdateState { user: key(1), pda: key(92) };
    assert_eq!(
        update_state_with(&mut ledger, &ctx, root(7), Some(key(92))),
        Err(StateError::RecordNotFound)
    );
    assert_eq!(
        update_state_with(&mut ledger, &ctx, root(7), None),
        Err(StateError::RecordNotFound)
    );
    assert_eq!(ledger.get(&key(92)), None);
    assert_eq!(ledger.get(&key(90)), Some(AiState::new(key(1), 250)));
}

#[test]
fn update_state_with_refuses_a_stranger() {
    let mut ledger = Ledger::new(0);
    assert_eq!(ledger.create(key(90), AiState::new(key(1), 250), 0), Ok(()));
    let ctx = UpdateState { user: key(2), pda: key(90) };
    assert_eq!(
        update_state_with(&mut ledger, &ctx, root(7), Some(key(90))),
        Err(StateError::Unauthorized)
    );
    assert_eq!(
        update_state_with(&mut ledger, &ctx, root(7), None),
        Err(StateError::Unauthorized)
    );
    assert_eq!(ledger.get(&key(90)), Some(AiState::new(key(1), 250)));
}

#[test]
fn update_state_with_refuses_a_mismatched_address() {
    let mut ledger = Ledger::new(0);
    assert_eq!(ledger.create(key(90), AiState::new(key(1), 250), 0), Ok(()));
    let ctx = UpdateState { user: key(1), pda: key(90) };
    assert_eq!(
        update_state_with(&mut ledger, &ctx, root(7), Some(key(91))),
        Err(StateError::AddressMismatch)
    );
    assert_eq!(
        update_state_with(&mut ledger, &ctx, root(7), None),
        Err(StateError::AddressMismatch)
    );
    assert_eq!(ledger.get(&key(90)), Some(AiState::new(key(1), 250)));
}

#[test]
fn update_state_refuses_a_record_at_a_foreign_address() {
    let mut ledger = Ledger::new(0);
    let user = key(1);
    let (_, bump) = find_program_address(&user).unwrap();
    assert_eq!(ledger.create(key(90), AiState::new(user, bump), 0), Ok(()));
    let ctx = UpdateState { user, pda: key(90) };
    assert_eq!(update_state(&mut ledger, &ctx, root(7)), Err(StateError::AddressMismatch));
    assert_eq!(ledger.get(&key(90)), Some(AiState::new(user, bump)));
}

#[test]
fn update_state_refuses_a_record_with_a_stale_bump() {
    let mut ledger = Ledger::new(0);
    let user = key(97);
    let (pda, bump) = find_program_address(&user).unwrap();
    assert_eq!(bump, 249);
    assert_eq!(ledger.create(pda, AiState::new(user, 255), 0), Ok(()));
    let ctx = UpdateState { user, pda };
    assert_eq!(update_state(&mut ledger, &ctx, root(7)), Err(StateError::AddressMismatch));
    assert_eq!(ledger.write(&pda, AiState::new(user, 248)), Ok(()));
    assert_eq!(update_state(&mut ledger, &ctx, root(7)), Err(StateError::AddressMismatch));
    assert_eq!(ledger.write(&pda, AiState::new(user, 249)), Ok(()));
    assert_eq!(update_state(&mut ledger, &ctx, root(7)), Ok(()));
    assert_eq!(ledger.get(&pda), Some(AiState { user, state_root: root(7), bump: 249 }));
}

#[test]
fn update_state_checks_the_owner_before_the_address() {
    let mut ledger = Ledger::new(0);
    assert_eq!(ledger.create(key(90), AiState::new(key(1), 250), 0), Ok(()));
    let ctx = UpdateState { user: key(2), pda: key(90) };
    assert_eq!(update_state(&mut ledger, &ctx, root(7)), Err(StateError::Unauthorized));
}
