use crate::error::ErrorCode;
use crate::state::{Delegation, DelegationKind, Pubkey, State};
use vstd::prelude::*;

verus! {

/// What creating a grant yields: a record that is `Active` at once when the
/// owner of the source balance created it themselves, and `Pending` —
/// awaiting an explicit accept — when anyone else did. A recurring grant
/// with an empty window is rejected with `InvalidDuration`; its claim mark
/// is backdated to `max(start_date, now)` on success.
pub open spec fn spec_create_delegation(
    delegate: Pubkey,
    kind: DelegationKind,
    initiator: Pubkey,
    owner: Pubkey,
    bump: u8,
    now: u64,
) -> Result<Delegation, ErrorCode> {
    let blank = Delegation {
        delegate,
        state: if initiator == owner {
            State::Active
        } else {
            State::Pending
        },
        bump,
        kind,
    };
    blank.spec_init_delegation(now)
}

/// Lifecycle entry point: builds the record for a new grant. The caller
/// supplies who initiated the creation and who owns the source balance
/// (identity verification is the host's job), plus the current time; on an
/// `Active` result the caller must also put the standing transfer
/// permission in place, exactly as after an accept.
pub fn create_delegation(
    delegate: Pubkey,
    kind: DelegationKind,
    initiator: &Pubkey,
    owner: &Pubkey,
    bump: u8,
    now: u64,
) -> (r: Result<Delegation, ErrorCode>)
    ensures
        r == spec_create_delegation(delegate, kind, *initiator, *owner, bump, now),
{
    let mut record = Delegation {
        delegate,
        state: if *initiator == *owner {
            State::Active
        } else {
            State::Pending
        },
        bump,
        kind,
    };
    match record.init_delegation(now) {
        Ok(_) => Ok(record),
        Err(e) => Err(e),
    }
}

impl Delegation {
    /// What accepting this record yields: only a `Pending` record may be
    /// accepted, and acceptance does nothing but move it to `Active`.
    pub open spec fn spec_accept(self) -> Result<Delegation, ErrorCode> {
        if self.state != State::Pending {
            Err(ErrorCode::InvalidState)
        } else {
            Ok(Delegation { state: State::Active, ..self })
        }
    }

    /// Moves a `Pending` record to `Active`. Which identities may call this
    /// is the host's concern: it must have bound the caller to the source
    /// balance's control before invoking it, and must follow a success with
    /// the standing-permission step.
    pub fn accept(&mut self) -> (r: Result<(), ErrorCode>)
        ensures
            match old(self).spec_accept() {
                Ok(d) => r is Ok && *final(self) == d,
                Err(e) => r == Err::<(), ErrorCode>(e) && *final(self) == *old(self),
            },
    {
        if self.state != State::Pending {
            return Err(ErrorCode::InvalidState);
        }
        self.state = State::Active;
        Ok(())
    }

    /// What revoking this record yields: the record's delegate and the
    /// source balance's owner may revoke from any state, moving the record
    /// to its terminal `Inactive` state; anyone else is rejected with
    /// `InvalidAuthority`.
    pub open spec fn spec_revoke(self, caller: Pubkey, owner: Pubkey) -> Result<
        Delegation,
        ErrorCode,
    > {
        if caller == self.delegate || caller == owner {
            Ok(Delegation { state: State::Inactive, ..self })
        } else {
            Err(ErrorCode::InvalidAuthority)
        }
    }

    /// Revokes the grant. After a success the host destroys the stored
    /// record and refunds its storage stake; the `Inactive` state written
    /// here is what a pre-destruction observer would read.
    pub fn revoke(&mut self, caller: &Pubkey, owner: &Pubkey) -> (r: Result<(), ErrorCode>)
        ensures
            match old(self).spec_revoke(*caller, *owner) {
                Ok(d) => r is Ok && *final(self) == d,
                Err(e) => r == Err::<(), ErrorCode>(e) && *final(self) == *old(self),
            },
    {
        if !(*caller == self.delegate || *caller == *owner) {
            return Err(ErrorCode::InvalidAuthority);
        }
        self.state = State::Inactive;
        Ok(())
    }
}

/// The decision half of the standing-permission step: the coarse transfer
/// permission must be (re)granted unless the ledger already names exactly
/// the expected acting authority as the standing delegate of the source
/// balance. The grant call itself is the host's.
pub fn standing_approval_needed(current_delegate: &Option<Pubkey>, authority: &Pubkey) -> (r:
    bool)
    ensures
        r <==> *current_delegate != Some(*authority),
{
    match current_delegate {
        Some(d) => !(*d == *authority),
        None => true,
    }
}

} // verus!
