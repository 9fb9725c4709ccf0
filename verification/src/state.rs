use crate::error::ErrorCode;
use vstd::prelude::*;

verus! {

/// A 256-bit account identity, stored as four 64-bit words.
///
/// The core only ever compares identities for equality; callers that bind
/// records to a concrete ledger convert their native 32-byte keys into this
/// form word by word.
#[derive(Clone, Copy, Debug, PartialEq, Eq, Structural)]
pub struct Pubkey {
    pub w0: u64,
    pub w1: u64,
    pub w2: u64,
    pub w3: u64,
}

/// Lifecycle state of a delegation record.
///
/// `Pending` -> `Active` -> `Inactive`; `Inactive` is terminal.
#[derive(Clone, Copy, Debug, PartialEq, Eq, Structural)]
pub enum State {
    Pending,
    Active,
    Inactive,
}

/// The accounting data of a recurring (rate-based) allowance:
/// `amount_per_period` value units accrue every `period` time units, within
/// the window `[start_date, end_date)`, payable only to `destination`.
#[derive(Clone, Copy, Debug, PartialEq, Eq, Structural)]
pub struct RecurringDelegation {
    pub amount_per_period: u64,
    pub period: u64,
    pub start_date: u64,
    pub end_date: u64,
    /// Timestamp up to which accrual has already been settled.
    pub last_claim: u64,
    pub destination: Pubkey,
}

/// The two allowance shapes a delegation record can carry. The shape is
/// fixed at creation; only the numeric fields inside mutate on settlement.
#[derive(Clone, Copy, Debug, PartialEq, Eq, Structural)]
pub enum DelegationKind {
    /// One-shot capped allowance; the payload is the spendable remainder.
    Simple(u64),
    Recurring(RecurringDelegation),
}

/// One delegation grant: who may spend, where the grant stands in its
/// lifecycle, and under which accounting shape.
#[derive(Clone, Copy, Debug, PartialEq, Eq, Structural)]
pub struct Delegation {
    pub delegate: Pubkey,
    pub state: State,
    /// Storage-address derivation byte, kept with the record by the host.
    pub bump: u8,
    pub kind: DelegationKind,
}

impl DelegationKind {
    /// The stable discriminant byte of this shape, used as part of the
    /// record's lookup key so the two shapes for one (source, delegate)
    /// pair cannot collide.
    pub open spec fn spec_tag(self) -> u8 {
        match self {
            DelegationKind::Simple(_) => 1u8,
            DelegationKind::Recurring(_) => 2u8,
        }
    }

    /// Executable form of [`Self::spec_tag`].
    pub fn tag(&self) -> (r: u8)
        ensures
            r == self.spec_tag(),
    {
        match self {
            DelegationKind::Simple(_) => 1u8,
            DelegationKind::Recurring(_) => 2u8,
        }
    }
}

impl Delegation {
    /// What a simple spend of `amount` settles to: the depleted kind, the
    /// resulting lifecycle state and the authorized amount, or the exact
    /// rejection. Success is owed precisely when the record is `Active`,
    /// carries a `Simple` allowance and the remainder covers the request;
    /// the authorized amount always equals the requested one.
    pub open spec fn spec_validate_simple_transfer(
        self,
        amount: u64,
    ) -> Result<(DelegationKind, State, u64), ErrorCode> {
        if self.state != State::Active {
            Err(ErrorCode::InvalidState)
        } else {
            match self.kind {
                DelegationKind::Simple(remaining) => {
                    if remaining < amount {
                        Err(ErrorCode::InsufficientAmount)
                    } else {
                        Ok(
                            (
                                DelegationKind::Simple((remaining - amount) as u64),
                                if remaining == amount {
                                    State::Inactive
                                } else {
                                    State::Active
                                },
                                amount,
                            ),
                        )
                    }
                },
                DelegationKind::Recurring(_) => Err(ErrorCode::InvalidKind),
            }
        }
    }

    /// Settlement engine for the one-shot allowance. Pure: the record itself
    /// is not mutated; the caller persists the returned kind and state only
    /// after the value transfer succeeds.
    pub fn validate_simple_transfer(&self, amount: u64) -> (r: Result<
        (DelegationKind, State, u64),
        ErrorCode,
    >)
        ensures
            r == self.spec_validate_simple_transfer(amount),
    {
        if self.state != State::Active {
            return Err(ErrorCode::InvalidState);
        }
        match &self.kind {
            DelegationKind::Simple(remaining) => {
                if *remaining < amount {
                    return Err(ErrorCode::InsufficientAmount);
                }
                let new_remaining: u64 = *remaining - amount;
                let new_state = if new_remaining == 0 {
                    State::Inactive
                } else {
                    State::Active
                };
                Ok((DelegationKind::Simple(new_remaining), new_state, amount))
            },
            DelegationKind::Recurring(_) => Err(ErrorCode::InvalidKind),
        }
    }

    /// What a recurring settlement against `destination` at time `now`
    /// settles to. Accrual pays for the time elapsed since `last_claim`:
    /// `floor((now - last_claim) * amount_per_period / period)`. The stored
    /// claim mark, by contrast, is clamped to `min(now, end_date)`, and the
    /// record goes `Inactive` exactly when that clamp hits `end_date`. The
    /// elapsed time itself is deliberately not clamped, so one settlement
    /// made after `end_date` pays out through `now`; callers relying on the
    /// window cap must settle promptly at `end_date`.
    ///
    /// `Arithmetic` is returned when the accrual formula is undefined or
    /// does not fit the amount type: `now` before `last_claim`, a zero
    /// `period`, or a quotient above `u64::MAX`.
    pub open spec fn spec_validate_recurring_transfer(
        self,
        destination: Pubkey,
        now: u64,
    ) -> Result<(DelegationKind, State, u64), ErrorCode> {
        if self.state != State::Active {
            Err(ErrorCode::InvalidState)
        } else {
            match self.kind {
                DelegationKind::Recurring(r) => {
                    if r.destination != destination {
                        Err(ErrorCode::InvalidDestination)
                    } else if now < r.last_claim || r.period == 0 {
                        Err(ErrorCode::Arithmetic)
                    } else if (now - r.last_claim) * r.amount_per_period / (r.period as int)
                        > u64::MAX {
                        Err(ErrorCode::Arithmetic)
                    } else {
                        let cutoff: u64 = if now <= r.end_date {
                            now
                        } else {
                            r.end_date
                        };
                        Ok(
                            (
                                DelegationKind::Recurring(
                                    RecurringDelegation { last_claim: cutoff, ..r },
                                ),
                                if cutoff == r.end_date {
                                    State::Inactive
                                } else {
                                    State::Active
                                },
                                ((now - r.last_claim) * r.amount_per_period / (
                                r.period as int)) as u64,
                            ),
                        )
                    }
                },
                DelegationKind::Simple(_) => Err(ErrorCode::InvalidKind),
            }
        }
    }

    /// Settlement engine for the rate-based allowance. Pure, like its
    /// simple counterpart; the clock reading is injected by the caller so
    /// settlement stays a function of record, destination and time. The
    /// multiplication runs at twice the amount width, so it cannot
    /// overflow; only narrowing the quotient back can fail.
    pub fn validate_recurring_transfer(&self, destination: &Pubkey, now: u64) -> (r: Result<
        (DelegationKind, State, u64),
        ErrorCode,
    >)
        ensures
            r == self.spec_validate_recurring_transfer(*destination, now),
    {
        if self.state != State::Active {
            return Err(ErrorCode::InvalidState);
        }
        match &self.kind {
            DelegationKind::Recurring(rec) => {
                if rec.destination != *destination {
                    return Err(ErrorCode::InvalidDestination);
                }
                if now < rec.last_claim || rec.period == 0 {
                    return Err(ErrorCode::Arithmetic);
                }
                let elapsed: u64 = now - rec.last_claim;
                assert((elapsed as int) * (rec.amount_per_period as int) <= (u64::MAX as int)
                    * (u64::MAX as int)) by (nonlinear_arith)
                    requires
                        elapsed <= u64::MAX,
                        rec.amount_per_period <= u64::MAX,
                ;
                let accrued: u128 = (elapsed as u128) * (rec.amount_per_period as u128);
                let quotient: u128 = accrued / (rec.period as u128);
                if quotient > u64::MAX as u128 {
                    return Err(ErrorCode::Arithmetic);
                }
                let amount: u64 = quotient as u64;
                let cutoff: u64 = if now <= rec.end_date {
                    now
                } else {
                    rec.end_date
                };
                let new_state = if cutoff == rec.end_date {
                    State::Inactive
                } else {
                    State::Active
                };
                let mut updated = *rec;
                updated.last_claim = cutoff;
                Ok((DelegationKind::Recurring(updated), new_state, amount))
            },
            DelegationKind::Simple(_) => Err(ErrorCode::InvalidKind),
        }
    }

    /// What creation-time initialization turns this record into. A simple
    /// record is admitted as it stands. A recurring record is admitted only
    /// if its window is non-empty (`start_date < end_date`, else
    /// `InvalidDuration`), and its claim mark is backdated to
    /// `max(start_date, now)`: a window that already began owes nothing for
    /// the time before the grant existed.
    pub open spec fn spec_init_delegation(self, now: u64) -> Result<Delegation, ErrorCode> {
        match self.kind {
            DelegationKind::Recurring(r) => {
                if r.start_date >= r.end_date {
                    Err(ErrorCode::InvalidDuration)
                } else {
                    let lc: u64 = if r.start_date <= now {
                        now
                    } else {
                        r.start_date
                    };
                    Ok(
                        Delegation {
                            kind: DelegationKind::Recurring(
                                RecurringDelegation { last_claim: lc, ..r },
                            ),
                            ..self
                        },
                    )
                }
            },
            DelegationKind::Simple(_) => Ok(self),
        }
    }

    /// Validates and initializes a freshly created record in place; on
    /// rejection the record is untouched.
    pub fn init_delegation(&mut self, now: u64) -> (r: Result<(), ErrorCode>)
        ensures
            match old(self).spec_init_delegation(now) {
                Ok(d) => r is Ok && *final(self) == d,
                Err(e) => r == Err::<(), ErrorCode>(e) && *final(self) == *old(self),
            },
    {
        match &mut self.kind {
            DelegationKind::Recurring(r) => {
                if r.start_date >= r.end_date {
                    return Err(ErrorCode::InvalidDuration);
                }
                if r.start_date <= now {
                    r.last_claim = now;
                } else {
                    r.last_claim = r.start_date;
                }
                Ok(())
            },
            DelegationKind::Simple(_) => Ok(()),
        }
    }

    /// Replaces the lifecycle state, leaving every other field alone.
    pub fn update_state(&mut self, new_state: State)
        ensures
            *final(self) == (Delegation { state: new_state, ..*old(self) }),
    {
        self.state = new_state;
    }

    /// Replaces the allowance kind, leaving every other field alone.
    pub fn update_kind(&mut self, new_kind: DelegationKind)
        ensures
            *final(self) == (Delegation { kind: new_kind, ..*old(self) }),
    {
        self.kind = new_kind;
    }
}

} // verus!
