use counter_program::{increment, initialize, Counter, ErrorCode, Increment, Initialize, Pubkey};

fn key(b: u8) -> Pubkey {
    Pubkey::new_from_array([b; 32])
}

fn vacant(authority: Pubkey) -> Initialize {
    Initialize { counter: None, authority, payer_lamports: 1_000_000, rent_lamports: 612_480 }
}

#[test]
fn initialize_sets_zero_and_authority() {
    let mut ctx = vacant(key(7));
    assert_eq!(initialize(&mut ctx), Ok(()));
    assert_eq!(ctx.counter, Some(Counter::new(0, key(7))));
    assert_eq!(ctx.payer_lamports, 1_000_000 - 612_480);
}

#[test]
fn initialize_on_taken_slot_fails_and_keeps_record() {
    let existing = Counter::new(41, key(1));
    let mut ctx = Initialize { counter: Some(existing), authority: key(2), payer_lamports: 5_000_000, rent_lamports: 100 };
    assert_eq!(initialize(&mut ctx), Err(ErrorCode::AllocationFailed));
    assert_eq!(ctx.counter, Some(existing));
    assert_eq!(ctx.payer_lamports, 5_000_000);
}

#[test]
fn initialize_without_funds_fails() {
    let mut ctx = Initialize { counter: None, authority: key(3), payer_lamports: 99, rent_lamports: 100 };
    assert_eq!(initialize(&mut ctx), Err(ErrorCode::AllocationFailed));
    assert_eq!(ctx.counter, None);
    assert_eq!(ctx.payer_lamports, 99);
}

#[test]
fn initialize_with_exact_funds_succeeds() {
    let mut ctx = Initialize { counter: None, authority: key(3), payer_lamports: 100, rent_lamports: 100 };
    assert_eq!(initialize(&mut ctx), Ok(()));
    assert_eq!(ctx.payer_lamports, 0);
    assert_eq!(ctx.counter.map(|c| c.count), Some(0));
}

#[test]
fn authority_increments_step_by_one() {
    let mut ctx = Increment { counter: Counter::new(0, key(9)), authority: key(9) };
    for expected in 1..=10u64 {
        assert_eq!(increment(&mut ctx), Ok(()));
        assert_eq!(ctx.counter.count, expected);
        assert_eq!(ctx.counter.authority, key(9));
    }
}

#[test]
fn stranger_is_unauthorized() {
    let mut ctx = Increment { counter: Counter::new(5, key(9)), authority: key(8) };
    assert_eq!(increment(&mut ctx), Err(ErrorCode::Unauthorized));
    assert_eq!(ctx.counter, Counter::new(5, key(9)));
}

#[test]
fn keys_differing_in_last_byte_are_different() {
    let mut other = [9u8; 32];
    other[31] = 10;
    let mut ctx = Increment { counter: Counter::new(5, key(9)), authority: Pubkey::new_from_array(other) };
    assert_eq!(increment(&mut ctx), Err(ErrorCode::Unauthorized));
    assert_eq!(ctx.counter.count, 5);
}

#[test]
fn increment_at_max_overflows() {
    let mut ctx = Increment { counter: Counter::new(u64::MAX, key(4)), authority: key(4) };
    assert_eq!(increment(&mut ctx), Err(ErrorCode::Overflow));
    assert_eq!(ctx.counter.count, u64::MAX);
}

#[test]
fn increment_reaches_max() {
    let mut ctx = Increment { counter: Counter::new(u64::MAX - 1, key(4)), authority: key(4) };
    assert_eq!(increment(&mut ctx), Ok(()));
    assert_eq!(ctx.counter.count, u64::MAX);
    assert_eq!(increment(&mut ctx), Err(ErrorCode::Overflow));
    assert_eq!(ctx.counter.count, u64::MAX);
}

#[test]
fn stranger_at_max_is_unauthorized_first() {
    let mut ctx = Increment { counter: Counter::new(u64::MAX, key(4)), authority: key(5) };
    assert_eq!(increment(&mut ctx), Err(ErrorCode::Unauthorized));
}

#[test]
fn end_to_end_initialize_increment_and_reject_stranger() {
    let owner = key(1);
    let mut init = vacant(owner);
    assert_eq!(initialize(&mut init), Ok(()));
    let record = init.counter.unwrap();
    assert_eq!(record.count, 0);

    let mut ctx = Increment { counter: record, authority: owner };
    for _ in 0..3 {
        assert_eq!(increment(&mut ctx), Ok(()));
    }
    assert_eq!(ctx.counter.count, 3);

    let mut by_stranger = Increment { counter: ctx.counter, authority: key(2) };
    assert_eq!(increment(&mut by_stranger), Err(ErrorCode::Unauthorized));
    assert_eq!(by_stranger.counter.count, 3);
}

#[test]
fn error_messages() {
    assert_eq!(ErrorCode::Overflow.message(), "Arithmetic overflow occurred");
    assert_eq!(
        ErrorCode::Unauthorized.message(),
        "Unauthorized: Only the counter authority can perform this action"
    );
    assert_eq!(ErrorCode::AllocationFailed.message(), "Storage for the record could not be allocated");
}

#[test]
fn pubkey_bytes_round_trip() {
    let mut bytes = [0u8; 32];
    bytes[0] = 3;
    bytes[17] = 200;
    let k = Pubkey::new_from_array(bytes);
    assert_eq!(k.to_bytes(), bytes);
    assert!(k.same_key(&Pubkey::new_from_array(bytes)));
    assert!(!k.same_key(&key(3)));
}

#[test]
fn record_sizes() {
    assert_eq!(Counter::INIT_SPACE, 40);
    assert_eq!(Counter::SPACE, 48);
}
