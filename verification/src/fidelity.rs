//! Fidelity-bond bootstrap decisions.
//!
//! A fidelity bond is a time-locked on-chain deposit proving skin in the
//! game. At startup the maker publishes a proof for its existing bond, or
//! creates one; while the wallet lacks funds it asks the operator for a
//! top-up of the exact shortfall and retries with a growing sleep. The wallet
//! calls and the waiting happen outside; each retry's decision is made here.

use vstd::prelude::*;

use crate::chain::{OutPoint, OutPointV};

verus! {

/// A proof binding a time-locked on-chain deposit to this maker's advertised
/// address. Exactly one highest proof is kept.
pub struct FidelityProof {
    /// The bond's outpoint on chain.
    pub bond_outpoint: OutPoint,
    /// The bond's value, in satoshis.
    pub bond_value: u64,
    /// The absolute height until which the bond is locked.
    pub locktime: u32,
    /// The signature binding the bond to the maker's advertised address.
    pub signature: Vec<u8>,
}

/// Mathematical value of a [`FidelityProof`].
pub struct FidelityProofV {
    pub bond_outpoint: OutPointV,
    pub bond_value: u64,
    pub locktime: u32,
    pub signature: Seq<u8>,
}

impl View for FidelityProof {
    type V = FidelityProofV;

    open spec fn view(&self) -> FidelityProofV {
        FidelityProofV {
            bond_outpoint: self.bond_outpoint@,
            bond_value: self.bond_value,
            locktime: self.locktime,
            signature: self.signature@,
        }
    }
}

impl Clone for FidelityProof {
    fn clone(&self) -> (r: Self)
        ensures
            r@ == self@,
    {
        FidelityProof {
            bond_outpoint: self.bond_outpoint.clone(),
            bond_value: self.bond_value,
            locktime: self.locktime,
            signature: self.signature.clone(),
        }
    }
}

/// What the wallet reported for one bond-creation attempt.
pub enum FidelityEvent {
    /// The wallet already holds a bond at this index: refresh its proof
    /// instead of creating a new one.
    ExistingBond { index: u32 },
    /// The bond was created at this wallet index.
    CreateSucceeded { index: u32 },
    /// The wallet lacks funds: what it has and what the bond needs.
    InsufficientFunds { available: u64, required: u64 },
    /// Any other wallet failure.
    OtherFailure,
}

impl FidelityEvent {
    /// An insufficient-funds report never claims more available than
    /// required.
    pub open spec fn wf(self) -> bool {
        match self {
            FidelityEvent::InsufficientFunds { available, required } => available <= required,
            _ => true,
        }
    }
}

/// What the supervisor must do after one bond-creation attempt.
#[derive(Debug, Clone, Copy, PartialEq, Eq, Structural)]
pub enum FidelityAction {
    /// Publish the proof of the bond at this wallet index and proceed.
    PublishProof { index: u32 },
    /// Ask the operator to send at least `shortfall` satoshis, sleep
    /// `sleep_secs`, and try again.
    RetryAfterTopUp { shortfall: u64, sleep_secs: u64 },
    /// Give up and shut the maker down.
    Abort,
}

/// Seconds to sleep before retry number `attempt` (counted from 1):
/// exponential sleep-back, doubling from ten seconds, capped at a hundred
/// minutes.
pub open spec fn spec_fidelity_backoff(attempt: u64) -> int
    decreases attempt,
{
    if attempt <= 1 {
        10
    } else {
        let prev = spec_fidelity_backoff((attempt - 1) as u64);
        if prev >= 3000 {
            6000
        } else {
            2 * prev
        }
    }
}

/// The backoff never exceeds its cap.
pub proof fn lemma_fidelity_backoff_bounded(attempt: u64)
    ensures
        10 <= spec_fidelity_backoff(attempt) <= 6000,
    decreases attempt,
{
    if attempt > 1 {
        lemma_fidelity_backoff_bounded((attempt - 1) as u64);
    }
}

/// Decides the supervisor's next move after one bond-creation attempt.
///
/// An existing bond or a fresh one publishes its proof; missing funds ask
/// for the exact shortfall and retry after the exponential sleep-back; any
/// other failure aborts.
pub fn fidelity_step(attempt: u64, event: &FidelityEvent) -> (r: FidelityAction)
    requires
        event.wf(),
        attempt >= 1,
    ensures
        match *event {
            FidelityEvent::ExistingBond { index } => r == (FidelityAction::PublishProof { index }),
            FidelityEvent::CreateSucceeded { index } => r == (FidelityAction::PublishProof {
                index,
            }),
            FidelityEvent::InsufficientFunds { available, required } => r == (
            FidelityAction::RetryAfterTopUp {
                shortfall: (required - available) as u64,
                sleep_secs: spec_fidelity_backoff(attempt) as u64,
            }),
            FidelityEvent::OtherFailure => r == FidelityAction::Abort,
        },
{
    match event {
        FidelityEvent::ExistingBond { index } => FidelityAction::PublishProof { index: *index },
        FidelityEvent::CreateSucceeded { index } => FidelityAction::PublishProof { index: *index },
        FidelityEvent::InsufficientFunds { available, required } => {
            let mut sleep_secs: u64 = 10;
            let mut i: u64 = 1;
            while i < attempt
                invariant
                    attempt >= 1,
                    1 <= i <= attempt,
                    sleep_secs as int == spec_fidelity_backoff(i),
                    sleep_secs <= 6000,
                decreases attempt - i,
            {
                sleep_secs = if sleep_secs >= 3000 {
                    6000
                } else {
                    2 * sleep_secs
                };
                i += 1;
            }
            FidelityAction::RetryAfterTopUp { shortfall: required - available, sleep_secs }
        },
        FidelityEvent::OtherFailure => FidelityAction::Abort,
    }
}

/// The absolute locktime for a new bond: the current height plus the
/// configured bond lifetime, or nothing when that exceeds the height range.
pub fn fidelity_locktime(current_height: u32, fidelity_timelock: u32) -> (r: Option<u32>)
    ensures
        match r {
            Some(h) => h == current_height + fidelity_timelock,
            None => current_height + fidelity_timelock > u32::MAX,
        },
{
    current_height.checked_add(fidelity_timelock)
}

/// Whether `candidate` supersedes the currently held highest proof: it does
/// when nothing is held yet or its bond is strictly more valuable.
pub open spec fn spec_supersedes(current: Option<FidelityProofV>, candidate: FidelityProofV) -> bool {
    match current {
        None => true,
        Some(held) => candidate.bond_value > held.bond_value,
    }
}

/// Refreshes the highest-proof slot: the candidate replaces the held proof
/// exactly when it supersedes it.
pub fn update_highest_fidelity(current: Option<FidelityProof>, candidate: FidelityProof) -> (r:
    FidelityProof)
    ensures
        spec_supersedes(
            match current {
                Some(ref p) => Some(p@),
                None => None,
            },
            candidate@,
        ) ==> r@ == candidate@,
        !spec_supersedes(
            match current {
                Some(ref p) => Some(p@),
                None => None,
            },
            candidate@,
        ) ==> current is Some && r@ == current.unwrap()@,
{
    match current {
        None => candidate,
        Some(held) => {
            if candidate.bond_value > held.bond_value {
                candidate
            } else {
                held
            }
        },
    }
}

} // verus!
