use crate::error::ErrorCode;
use crate::lifecycle::spec_create_delegation;
use crate::state::{Delegation, DelegationKind, Pubkey, RecurringDelegation, State};
use vstd::prelude::*;

verus! {

/// A successful simple settlement authorizes exactly the requested amount
/// and leaves a remainder that is smaller by exactly that amount — so the
/// remainder never increases and, being unsigned, never goes below zero.
/// An `Active` simple record asked for more than its remainder always
/// answers `InsufficientAmount`, and settlement returns a fresh kind
/// without touching the record, so a failed request changes nothing.
pub proof fn lemma_simple_remaining_non_increasing(d: Delegation, amount: u64)
    ensures
        d.spec_validate_simple_transfer(amount) matches Ok((k, s, a)) ==> {
            &&& a == amount
            &&& d.kind matches DelegationKind::Simple(rem)
            &&& rem >= amount
            &&& k == DelegationKind::Simple((rem - amount) as u64)
        },
        (d.state == State::Active && (d.kind matches DelegationKind::Simple(rem) && rem
            < amount)) ==> d.spec_validate_simple_transfer(amount) == Err::<
            (DelegationKind, State, u64),
            ErrorCode,
        >(ErrorCode::InsufficientAmount),
{
}

/// A simple settlement that drives the remainder to exactly zero moves the
/// record to `Inactive`; any nonzero remainder keeps it `Active`.
pub proof fn lemma_simple_exhaustion_deactivates(d: Delegation, amount: u64)
    ensures
        d.spec_validate_simple_transfer(amount) matches Ok((k, s, a)) ==> (s == State::Inactive
            <==> k == DelegationKind::Simple(0u64)),
{
}

/// Creating a recurring grant whose window already began (`start_date <=
/// now`) backdates the claim mark to `now`, not to `start_date`: no accrual
/// is owed for time before the grant existed. A window that has not begun
/// starts accruing at `start_date`.
pub proof fn lemma_create_backdates_claim_mark(
    delegate: Pubkey,
    r: RecurringDelegation,
    initiator: Pubkey,
    owner: Pubkey,
    bump: u8,
    now: u64,
)
    requires
        r.start_date < r.end_date,
    ensures
        spec_create_delegation(
            delegate,
            DelegationKind::Recurring(r),
            initiator,
            owner,
            bump,
            now,
        ) matches Ok(d) && d.kind == DelegationKind::Recurring(
            RecurringDelegation {
                last_claim: if r.start_date <= now {
                    now
                } else {
                    r.start_date
                },
                ..r
            },
        ),
{
}

/// One full period of accrual pays exactly the per-period rate: settling an
/// `Active` recurring record against its fixed destination at `now =
/// last_claim + period` authorizes exactly `amount_per_period` and advances
/// the claim mark by one period. Stated for settlements inside the window
/// (`now <= end_date`); past `end_date` the claim mark is clamped instead
/// of advanced.
pub proof fn lemma_recurring_one_period_accrues_rate(d: Delegation, dest: Pubkey, now: u64)
    requires
        d.state == State::Active,
        d.kind matches DelegationKind::Recurring(r) && {
            &&& r.destination == dest
            &&& r.period >= 1
            &&& now == r.last_claim + r.period
            &&& now <= r.end_date
        },
    ensures
        d.spec_validate_recurring_transfer(dest, now) == Ok::<
            (DelegationKind, State, u64),
            ErrorCode,
        >(
            (
                DelegationKind::Recurring(
                    RecurringDelegation { last_claim: now, ..d.kind->Recurring_0 },
                ),
                if now == d.kind->Recurring_0.end_date {
                    State::Inactive
                } else {
                    State::Active
                },
                d.kind->Recurring_0.amount_per_period,
            ),
        ),
{
    let r = d.kind->Recurring_0;
    assert((r.period as int) * (r.amount_per_period as int) / (r.period as int)
        == r.amount_per_period as int) by (nonlinear_arith)
        requires
            r.period >= 1,
    ;
}

/// The deliberate end-of-window asymmetry: a settlement made after
/// `end_date` stores `last_claim = end_date` and deactivates the record,
/// yet the amount it authorizes is still computed from the full elapsed
/// time `now - last_claim`, not capped at `end_date - last_claim`. Stated
/// for accruals that fit the amount type; larger ones answer `Arithmetic`.
pub proof fn lemma_recurring_final_claim_uncapped(d: Delegation, dest: Pubkey, now: u64)
    requires
        d.state == State::Active,
        d.kind matches DelegationKind::Recurring(r) && {
            &&& r.destination == dest
            &&& r.period >= 1
            &&& r.last_claim <= now
            &&& now > r.end_date
            &&& (now - r.last_claim) * r.amount_per_period / (r.period as int) <= u64::MAX
        },
    ensures
        d.spec_validate_recurring_transfer(dest, now) == Ok::<
            (DelegationKind, State, u64),
            ErrorCode,
        >(
            (
                DelegationKind::Recurring(
                    RecurringDelegation {
                        last_claim: d.kind->Recurring_0.end_date,
                        ..d.kind->Recurring_0
                    },
                ),
                State::Inactive,
                ((now - d.kind->Recurring_0.last_claim) * d.kind->Recurring_0.amount_per_period
                    / (d.kind->Recurring_0.period as int)) as u64,
            ),
        ),
{
}

/// Revocation is exactly an authority check: the delegate and the owner
/// succeed from any state — in particular from both non-terminal states —
/// and the record lands in the terminal `Inactive` state with every other
/// field kept; any third party is refused with `InvalidAuthority` and the
/// record keeps its state. Destruction of the stored record afterwards is
/// the host's side of a successful revoke.
pub proof fn lemma_revoke_authority(d: Delegation, caller: Pubkey, owner: Pubkey)
    ensures
        (caller == d.delegate || caller == owner) ==> d.spec_revoke(caller, owner) == Ok::<
            Delegation,
            ErrorCode,
        >(Delegation { state: State::Inactive, ..d }),
        !(caller == d.delegate || caller == owner) ==> d.spec_revoke(caller, owner) == Err::<
            Delegation,
            ErrorCode,
        >(ErrorCode::InvalidAuthority),
{
}

/// Who creates decides where the record starts: a grant created by the
/// owner of the source balance is `Active` immediately, one created by
/// anyone else is `Pending` until an explicit accept — which then yields
/// exactly the `Active` record.
pub proof fn lemma_create_initiator_sets_state(
    delegate: Pubkey,
    kind: DelegationKind,
    initiator: Pubkey,
    owner: Pubkey,
    bump: u8,
    now: u64,
)
    ensures
        spec_create_delegation(delegate, kind, initiator, owner, bump, now) matches Ok(d) ==> (
        d.state == State::Active <==> initiator == owner),
        spec_create_delegation(delegate, kind, initiator, owner, bump, now) matches Ok(d) ==> (
        d.state == State::Pending ==> d.spec_accept() == Ok::<Delegation, ErrorCode>(
            Delegation { state: State::Active, ..d },
        )),
{
}

/// Accept demands a `Pending` record: on an already-`Active` or `Inactive`
/// record it fails with `InvalidState`.
pub proof fn lemma_accept_requires_pending(d: Delegation)
    ensures
        d.state != State::Pending ==> d.spec_accept() == Err::<Delegation, ErrorCode>(
            ErrorCode::InvalidState,
        ),
{
}

/// Each settlement engine refuses the other engine's kind: on an `Active`
/// record, a simple settlement against a recurring allowance and a
/// recurring settlement against a simple allowance both fail with
/// `InvalidKind`.
pub proof fn lemma_settlement_kind_mismatch(d: Delegation, amount: u64, dest: Pubkey, now: u64)
    requires
        d.state == State::Active,
    ensures
        d.kind is Recurring ==> d.spec_validate_simple_transfer(amount) == Err::<
            (DelegationKind, State, u64),
            ErrorCode,
        >(ErrorCode::InvalidKind),
        d.kind is Simple ==> d.spec_validate_recurring_transfer(dest, now) == Err::<
            (DelegationKind, State, u64),
            ErrorCode,
        >(ErrorCode::InvalidKind),
{
}

/// `Inactive` is terminal: neither settlement engine nor accept succeeds on
/// an `Inactive` record, and the one operation that does succeed — a
/// revoke by an authorized caller — leaves the state `Inactive`.
pub proof fn lemma_inactive_is_terminal(
    d: Delegation,
    amount: u64,
    dest: Pubkey,
    now: u64,
    caller: Pubkey,
    owner: Pubkey,
)
    requires
        d.state == State::Inactive,
    ensures
        d.spec_validate_simple_transfer(amount) == Err::<
            (DelegationKind, State, u64),
            ErrorCode,
        >(ErrorCode::InvalidState),
        d.spec_validate_recurring_transfer(dest, now) == Err::<
            (DelegationKind, State, u64),
            ErrorCode,
        >(ErrorCode::InvalidState),
        d.spec_accept() == Err::<Delegation, ErrorCode>(ErrorCode::InvalidState),
        d.spec_revoke(caller, owner) matches Ok(after) ==> after.state == State::Inactive,
{
}

} // verus!
