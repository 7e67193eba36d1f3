use vstd::prelude::*;

use crate::error::AmmError;
use crate::state::{GovernanceApproval, Key, Pool};

verus! {

/// What validating `approval` for `target` at time `now` gives, against the
/// last nonce the pool consumed: the nonce to record, or the refusal.
pub open spec fn approval_check(approval: Option<GovernanceApproval>, target: Key, now: i64, last_nonce: u128) -> Result<u128, AmmError> {
    match approval {
        None => Err(AmmError::GovernanceApprovalMissing),
        Some(a) => {
            if !a.approved {
                Err(AmmError::GovernanceNotApproved)
            } else if a.expiry_ts < now {
                Err(AmmError::GovernanceApprovalExpired)
            } else if a.target != target {
                Err(AmmError::GovernanceApprovalTargetMismatch)
            } else if a.nonce <= last_nonce {
                Err(AmmError::GovernanceNotApproved)
            } else {
                Ok(a.nonce)
            }
        },
    }
}

/// Checks a governance approval and consumes its nonce.
///
/// The approval must be present, approved, unexpired at `now`, aimed at
/// `target`, and carry a nonce above the last one the pool consumed. On
/// success the pool records that nonce, so the same approval cannot be used
/// again; on failure the pool is unchanged.
pub fn validate_governance_approval(maybe_approval: &Option<GovernanceApproval>, target: Key, now: i64, pool: &mut Pool) -> (r: Result<(), AmmError>)
    ensures
        match approval_check(*maybe_approval, target, now, old(pool).last_governance_nonce) {
            Ok(nonce) => r is Ok && *final(pool) == (Pool { last_governance_nonce: nonce, ..*old(pool) }),
            Err(e) => r == Err::<(), AmmError>(e) && *final(pool) == *old(pool),
        },
{
    match maybe_approval {
        Some(approval) => {
            if !approval.approved {
                return Err(AmmError::GovernanceNotApproved);
            }
            if approval.expiry_ts < now {
                return Err(AmmError::GovernanceApprovalExpired);
            }
            if approval.target != target {
                return Err(AmmError::GovernanceApprovalTargetMismatch);
            }
            if approval.nonce <= pool.last_governance_nonce {
                return Err(AmmError::GovernanceNotApproved);
            }
            pool.last_governance_nonce = approval.nonce;
            Ok(())
        },
        None => Err(AmmError::GovernanceApprovalMissing),
    }
}

/// A consumed approval cannot be replayed: once validation has recorded its
/// nonce, validating the same approval again fails, at any later time.
pub proof fn lemma_approval_not_replayable(approval: Option<GovernanceApproval>, target: Key, now: i64, later: i64, last_nonce: u128)
    requires
        approval_check(approval, target, now, last_nonce) is Ok,
    ensures
        approval_check(approval, target, later, approval_check(approval, target, now, last_nonce)->Ok_0) is Err,
{
}

} // verus!
