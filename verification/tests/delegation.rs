use multi_delegator::error::ErrorCode;
use multi_delegator::lifecycle::{create_delegation, standing_approval_needed};
use multi_delegator::state::{Delegation, DelegationKind, Pubkey, RecurringDelegation, State};

fn key(n: u64) -> Pubkey {
    Pubkey { w0: n, w1: n + 1, w2: n + 2, w3: n + 3 }
}

fn simple_record(state: State, remaining: u64) -> Delegation {
    Delegation { delegate: key(7), state, bump: 254, kind: DelegationKind::Simple(remaining) }
}

fn recurring(
    amount_per_period: u64,
    period: u64,
    start_date: u64,
    end_date: u64,
    last_claim: u64,
) -> RecurringDelegation {
    RecurringDelegation {
        amount_per_period,
        period,
        start_date,
        end_date,
        last_claim,
        destination: key(40),
    }
}

fn recurring_record(state: State, r: RecurringDelegation) -> Delegation {
    Delegation { delegate: key(7), state, bump: 254, kind: DelegationKind::Recurring(r) }
}

#[test]
fn simple_settlement_depletes_remaining() {
    let d = simple_record(State::Active, 10);
    assert_eq!(
        d.validate_simple_transfer(4),
        Ok((DelegationKind::Simple(6), State::Active, 4))
    );
    // The record itself is untouched; only the returned kind is depleted.
    assert_eq!(d.kind, DelegationKind::Simple(10));
}

#[test]
fn simple_settlement_over_remaining_fails() {
    let d = simple_record(State::Active, 10);
    assert_eq!(d.validate_simple_transfer(11), Err(ErrorCode::InsufficientAmount));
    assert_eq!(d.kind, DelegationKind::Simple(10));
}

#[test]
fn simple_settlement_exhaustion_deactivates() {
    let d = simple_record(State::Active, 5);
    assert_eq!(
        d.validate_simple_transfer(5),
        Ok((DelegationKind::Simple(0), State::Inactive, 5))
    );
    assert_eq!(
        d.validate_simple_transfer(3),
        Ok((DelegationKind::Simple(2), State::Active, 3))
    );
}

#[test]
fn simple_settlement_of_zero_allowed() {
    let d = simple_record(State::Active, 0);
    assert_eq!(
        d.validate_simple_transfer(0),
        Ok((DelegationKind::Simple(0), State::Inactive, 0))
    );
}

#[test]
fn settlement_requires_active_state() {
    assert_eq!(
        simple_record(State::Pending, 10).validate_simple_transfer(1),
        Err(ErrorCode::InvalidState)
    );
    assert_eq!(
        simple_record(State::Inactive, 10).validate_simple_transfer(1),
        Err(ErrorCode::InvalidState)
    );
    let d = recurring_record(State::Pending, recurring(5, 10, 0, 100, 0));
    assert_eq!(d.validate_recurring_transfer(&key(40), 50), Err(ErrorCode::InvalidState));
}

#[test]
fn settlement_kind_mismatch_fails() {
    let d = recurring_record(State::Active, recurring(5, 10, 0, 100, 0));
    assert_eq!(d.validate_simple_transfer(1), Err(ErrorCode::InvalidKind));
    let s = simple_record(State::Active, 10);
    assert_eq!(s.validate_recurring_transfer(&key(40), 50), Err(ErrorCode::InvalidKind));
}

#[test]
fn recurring_settlement_wrong_destination_fails() {
    let d = recurring_record(State::Active, recurring(5, 10, 0, 100, 0));
    assert_eq!(
        d.validate_recurring_transfer(&key(41), 50),
        Err(ErrorCode::InvalidDestination)
    );
}

#[test]
fn recurring_one_period_accrues_rate() {
    let d = recurring_record(State::Active, recurring(7, 10, 0, 100, 50));
    assert_eq!(
        d.validate_recurring_transfer(&key(40), 60),
        Ok((
            DelegationKind::Recurring(recurring(7, 10, 0, 100, 60)),
            State::Active,
            7
        ))
    );
}

#[test]
fn recurring_partial_period_rounds_down() {
    let d = recurring_record(State::Active, recurring(7, 10, 0, 100, 50));
    assert_eq!(
        d.validate_recurring_transfer(&key(40), 55),
        Ok((
            DelegationKind::Recurring(recurring(7, 10, 0, 100, 55)),
            State::Active,
            3
        ))
    );
}

#[test]
fn recurring_settlement_at_end_date_deactivates() {
    let d = recurring_record(State::Active, recurring(5, 10, 0, 100, 90));
    assert_eq!(
        d.validate_recurring_transfer(&key(40), 100),
        Ok((
            DelegationKind::Recurring(recurring(5, 10, 0, 100, 100)),
            State::Inactive,
            5
        ))
    );
}

#[test]
fn recurring_settlement_after_end_date_uncapped() {
    // The documented asymmetry: the claim mark is clamped to the window's
    // end while the payout still covers the full elapsed time.
    let d = recurring_record(State::Active, recurring(5, 10, 0, 20, 0));
    assert_eq!(
        d.validate_recurring_transfer(&key(40), 100),
        Ok((
            DelegationKind::Recurring(recurring(5, 10, 0, 20, 20)),
            State::Inactive,
            50
        ))
    );
}

#[test]
fn recurring_settlement_arithmetic_failures() {
    // Clock behind the claim mark.
    let d = recurring_record(State::Active, recurring(5, 10, 0, 100, 60));
    assert_eq!(d.validate_recurring_transfer(&key(40), 59), Err(ErrorCode::Arithmetic));
    // Zero period.
    let z = recurring_record(State::Active, recurring(5, 0, 0, 100, 0));
    assert_eq!(z.validate_recurring_transfer(&key(40), 50), Err(ErrorCode::Arithmetic));
    // Accrued quotient does not fit the amount type.
    let o = recurring_record(State::Active, recurring(u64::MAX, 1, 0, 100, 0));
    assert_eq!(
        o.validate_recurring_transfer(&key(40), u64::MAX),
        Err(ErrorCode::Arithmetic)
    );
}

#[test]
fn create_by_owner_is_active_immediately() {
    let owner = key(1);
    let d = create_delegation(key(7), DelegationKind::Simple(100), &owner, &owner, 254, 1000)
        .unwrap();
    assert_eq!(d.state, State::Active);
    assert_eq!(d.kind, DelegationKind::Simple(100));
    assert_eq!(d.delegate, key(7));
    assert_eq!(d.bump, 254);
}

#[test]
fn create_by_non_owner_is_pending_until_accept() {
    let mut d = create_delegation(
        key(7),
        DelegationKind::Simple(100),
        &key(2),
        &key(1),
        254,
        1000,
    )
    .unwrap();
    assert_eq!(d.state, State::Pending);
    assert_eq!(d.accept(), Ok(()));
    assert_eq!(d.state, State::Active);
}

#[test]
fn create_recurring_invalid_duration_fails() {
    let kind = DelegationKind::Recurring(recurring(5, 10, 100, 50, 0));
    let owner = key(1);
    assert_eq!(
        create_delegation(key(7), kind, &owner, &owner, 254, 10),
        Err(ErrorCode::InvalidDuration)
    );
    // An empty window is rejected too.
    let flat = DelegationKind::Recurring(recurring(5, 10, 50, 50, 0));
    assert_eq!(
        create_delegation(key(7), flat, &owner, &owner, 254, 10),
        Err(ErrorCode::InvalidDuration)
    );
}

#[test]
fn create_backdates_last_claim_to_now() {
    let owner = key(1);
    let kind = DelegationKind::Recurring(recurring(5, 10, 100, 500, 0));
    // Window already began: accrual starts at the creation instant.
    let d = create_delegation(key(7), kind, &owner, &owner, 254, 130).unwrap();
    assert_eq!(d.kind, DelegationKind::Recurring(recurring(5, 10, 100, 500, 130)));
    // Window not yet begun: accrual starts at the window's start.
    let e = create_delegation(key(7), kind, &owner, &owner, 254, 60).unwrap();
    assert_eq!(e.kind, DelegationKind::Recurring(recurring(5, 10, 100, 500, 100)));
}

#[test]
fn accept_requires_pending() {
    let mut active = simple_record(State::Active, 10);
    assert_eq!(active.accept(), Err(ErrorCode::InvalidState));
    assert_eq!(active.state, State::Active);
    let mut inactive = simple_record(State::Inactive, 10);
    assert_eq!(inactive.accept(), Err(ErrorCode::InvalidState));
    assert_eq!(inactive.state, State::Inactive);
}

#[test]
fn revoke_by_delegate_or_owner_succeeds() {
    let owner = key(1);
    let delegate = key(7);
    let mut d = simple_record(State::Active, 10);
    assert_eq!(d.revoke(&delegate, &owner), Ok(()));
    assert_eq!(d.state, State::Inactive);
    let mut p = simple_record(State::Pending, 10);
    assert_eq!(p.revoke(&owner, &owner), Ok(()));
    assert_eq!(p.state, State::Inactive);
}

#[test]
fn revoke_by_third_party_fails() {
    let mut d = simple_record(State::Active, 10);
    assert_eq!(d.revoke(&key(99), &key(1)), Err(ErrorCode::InvalidAuthority));
    assert_eq!(d.state, State::Active);
}

#[test]
fn kind_tag_distinguishes_shapes() {
    assert_eq!(DelegationKind::Simple(0).tag(), 1);
    assert_eq!(DelegationKind::Recurring(recurring(5, 10, 0, 100, 0)).tag(), 2);
}

#[test]
fn update_state_and_kind_replace_fields() {
    let mut d = simple_record(State::Pending, 10);
    d.update_state(State::Active);
    assert_eq!(d.state, State::Active);
    d.update_kind(DelegationKind::Simple(3));
    assert_eq!(d.kind, DelegationKind::Simple(3));
    assert_eq!(d.delegate, key(7));
}

#[test]
fn init_delegation_leaves_simple_records_alone() {
    let mut d = simple_record(State::Pending, 10);
    let before = d;
    assert_eq!(d.init_delegation(1000), Ok(()));
    assert_eq!(d, before);
}

#[test]
fn standing_approval_needed_checks_current_delegate() {
    let authority = key(5);
    assert!(standing_approval_needed(&None, &authority));
    assert!(standing_approval_needed(&Some(key(6)), &authority));
    assert!(!standing_approval_needed(&Some(key(5)), &authority));
}
