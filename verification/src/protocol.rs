//! The message-ordering state machine of one Maker connection.
//!
//! The expectation advances monotonically along the protocol and never skips;
//! any out-of-order receipt is a fatal protocol error for that connection.

use vstd::prelude::*;

use crate::messages::{ExpectedMessage, MakerBehavior, MakerReplyKind, TakerMessageKind};
use crate::store::ConnectionState;

verus! {

/// Position of an expectation along the protocol. Later steps rank higher.
pub open spec fn rank(e: ExpectedMessage) -> int {
    match e {
        ExpectedMessage::TakerHello => 0,
        ExpectedMessage::NewlyConnectedTaker => 1,
        ExpectedMessage::ReqContractSigsForSender => 2,
        ExpectedMessage::ProofOfFunding => 3,
        ExpectedMessage::ProofOfFundingORContractSigsForRecvrAndSender => 4,
        ExpectedMessage::ReqContractSigsForRecvr => 5,
        ExpectedMessage::HashPreimage => 6,
        ExpectedMessage::PrivateKeyHandover => 7,
    }
}

/// Whether a message of kind `k` is acceptable while expecting `e`.
///
/// Each expectation admits exactly the message it is named after; the one
/// branching state admits either a further proof of funding or the Taker's
/// contract signatures.
pub open spec fn spec_allows(e: ExpectedMessage, k: TakerMessageKind) -> bool {
    match e {
        ExpectedMessage::TakerHello => k == TakerMessageKind::TakerHello,
        ExpectedMessage::NewlyConnectedTaker => k == TakerMessageKind::NewlyConnectedTaker,
        ExpectedMessage::ReqContractSigsForSender => k
            == TakerMessageKind::ReqContractSigsForSender,
        ExpectedMessage::ProofOfFunding => k == TakerMessageKind::ProofOfFunding,
        ExpectedMessage::ProofOfFundingORContractSigsForRecvrAndSender => k
            == TakerMessageKind::ProofOfFunding || k
            == TakerMessageKind::ContractSigsForRecvrAndSender,
        ExpectedMessage::ReqContractSigsForRecvr => k == TakerMessageKind::ReqContractSigsForRecvr,
        ExpectedMessage::HashPreimage => k == TakerMessageKind::HashPreimage,
        ExpectedMessage::PrivateKeyHandover => k == TakerMessageKind::PrivateKeyHandover,
    }
}

/// The expectation after accepting a message of kind `k` while expecting `e`.
///
/// Only meaningful when `spec_allows(e, k)` holds.
pub open spec fn spec_advance(e: ExpectedMessage, k: TakerMessageKind) -> ExpectedMessage {
    match e {
        ExpectedMessage::TakerHello => ExpectedMessage::NewlyConnectedTaker,
        ExpectedMessage::NewlyConnectedTaker => ExpectedMessage::ReqContractSigsForSender,
        ExpectedMessage::ReqContractSigsForSender => ExpectedMessage::ProofOfFunding,
        ExpectedMessage::ProofOfFunding => ExpectedMessage::ProofOfFundingORContractSigsForRecvrAndSender,
        ExpectedMessage::ProofOfFundingORContractSigsForRecvrAndSender => if k
            == TakerMessageKind::ProofOfFunding {
            ExpectedMessage::ProofOfFundingORContractSigsForRecvrAndSender
        } else {
            ExpectedMessage::ReqContractSigsForRecvr
        },
        ExpectedMessage::ReqContractSigsForRecvr => ExpectedMessage::HashPreimage,
        ExpectedMessage::HashPreimage => ExpectedMessage::PrivateKeyHandover,
        ExpectedMessage::PrivateKeyHandover => ExpectedMessage::PrivateKeyHandover,
    }
}

/// The expectation never regresses: accepting any allowed message leaves the
/// connection at the same or a later protocol step.
pub proof fn lemma_expectation_never_regresses(e: ExpectedMessage, k: TakerMessageKind)
    requires
        spec_allows(e, k),
    ensures
        rank(spec_advance(e, k)) >= rank(e),
{
}

/// Accepting an allowed message advances the expectation by at most one step.
pub proof fn lemma_expectation_never_skips(e: ExpectedMessage, k: TakerMessageKind)
    requires
        spec_allows(e, k),
    ensures
        rank(spec_advance(e, k)) <= rank(e) + 1,
{
}

/// Whether a message of kind `k` is acceptable while expecting `e`.
pub fn allows(e: ExpectedMessage, k: TakerMessageKind) -> (r: bool)
    ensures
        r == spec_allows(e, k),
{
    match e {
        ExpectedMessage::TakerHello => k == TakerMessageKind::TakerHello,
        ExpectedMessage::NewlyConnectedTaker => k == TakerMessageKind::NewlyConnectedTaker,
        ExpectedMessage::ReqContractSigsForSender => k
            == TakerMessageKind::ReqContractSigsForSender,
        ExpectedMessage::ProofOfFunding => k == TakerMessageKind::ProofOfFunding,
        ExpectedMessage::ProofOfFundingORContractSigsForRecvrAndSender => k
            == TakerMessageKind::ProofOfFunding || k
            == TakerMessageKind::ContractSigsForRecvrAndSender,
        ExpectedMessage::ReqContractSigsForRecvr => k == TakerMessageKind::ReqContractSigsForRecvr,
        ExpectedMessage::HashPreimage => k == TakerMessageKind::HashPreimage,
        ExpectedMessage::PrivateKeyHandover => k == TakerMessageKind::PrivateKeyHandover,
    }
}

/// The expectation after accepting a message of kind `k` while expecting `e`.
pub fn advance(e: ExpectedMessage, k: TakerMessageKind) -> (r: ExpectedMessage)
    requires
        spec_allows(e, k),
    ensures
        r == spec_advance(e, k),
{
    match e {
        ExpectedMessage::TakerHello => ExpectedMessage::NewlyConnectedTaker,
        ExpectedMessage::NewlyConnectedTaker => ExpectedMessage::ReqContractSigsForSender,
        ExpectedMessage::ReqContractSigsForSender => ExpectedMessage::ProofOfFunding,
        ExpectedMessage::ProofOfFunding => ExpectedMessage::ProofOfFundingORContractSigsForRecvrAndSender,
        ExpectedMessage::ProofOfFundingORContractSigsForRecvrAndSender => if k
            == TakerMessageKind::ProofOfFunding {
            ExpectedMessage::ProofOfFundingORContractSigsForRecvrAndSender
        } else {
            ExpectedMessage::ReqContractSigsForRecvr
        },
        ExpectedMessage::ReqContractSigsForRecvr => ExpectedMessage::HashPreimage,
        ExpectedMessage::HashPreimage => ExpectedMessage::PrivateKeyHandover,
        ExpectedMessage::PrivateKeyHandover => ExpectedMessage::PrivateKeyHandover,
    }
}

/// The testing behavior, if any, that closes the connection while handling a
/// message of kind `k`.
pub open spec fn spec_close_behavior_for(k: TakerMessageKind) -> Option<MakerBehavior> {
    match k {
        TakerMessageKind::ReqContractSigsForSender => Some(
            MakerBehavior::CloseAtReqContractSigsForSender,
        ),
        TakerMessageKind::ProofOfFunding => Some(MakerBehavior::CloseAtProofOfFunding),
        TakerMessageKind::ContractSigsForRecvrAndSender => Some(
            MakerBehavior::CloseAtContractSigsForRecvrAndSender,
        ),
        TakerMessageKind::ReqContractSigsForRecvr => Some(
            MakerBehavior::CloseAtContractSigsForRecvr,
        ),
        TakerMessageKind::HashPreimage => Some(MakerBehavior::CloseAtHashPreimage),
        _ => None,
    }
}

/// The reply owed for an accepted message of kind `k`. `None` marks the one
/// terminal leg without a counterpart reply.
pub open spec fn spec_reply_for(k: TakerMessageKind) -> Option<MakerReplyKind> {
    match k {
        TakerMessageKind::TakerHello => Some(MakerReplyKind::MakerHello),
        TakerMessageKind::NewlyConnectedTaker => Some(MakerReplyKind::Offer),
        TakerMessageKind::ReqContractSigsForSender => Some(MakerReplyKind::ContractSigsForSender),
        TakerMessageKind::ProofOfFunding => Some(MakerReplyKind::ReqContractSigsAsRecvrAndSender),
        TakerMessageKind::ContractSigsForRecvrAndSender => None,
        TakerMessageKind::ReqContractSigsForRecvr => Some(MakerReplyKind::ContractSigsForRecvr),
        TakerMessageKind::HashPreimage => Some(MakerReplyKind::PrivateKeyHandover),
        TakerMessageKind::PrivateKeyHandover => Some(MakerReplyKind::PrivateKeyHandover),
    }
}

/// What one accepted message obliges the connection to do next.
#[derive(Debug)]
pub struct StepOutcome {
    /// The reply owed to the Taker, if the leg has one.
    pub reply: Option<MakerReplyKind>,
    /// The expectation after this message.
    pub next_expected: ExpectedMessage,
    /// True when the testing behavior asks for the maker's contracts to be
    /// broadcast right after setup completes.
    pub broadcast_contracts: bool,
}

/// A protocol-level failure while stepping the connection.
#[derive(Debug, Clone, Copy, PartialEq, Eq, Structural)]
pub enum ProtocolStepError {
    /// The message's kind is not in the currently-expected set.
    UnexpectedMessage,
    /// A testing behavior closed the connection at this step.
    SpecialBehavior(MakerBehavior),
}

/// Steps the message-ordering machine for one received message kind.
///
/// Rejects a kind the expectation does not allow, closes at the configured
/// testing step, and otherwise advances the expectation and names the owed
/// reply. The expectation never regresses across an accepted step.
pub fn step_message_kind(expected: ExpectedMessage, kind: TakerMessageKind, behavior: MakerBehavior) -> (r:
    Result<StepOutcome, ProtocolStepError>)
    ensures
        !spec_allows(expected, kind) ==> r == Err::<StepOutcome, ProtocolStepError>(
            ProtocolStepError::UnexpectedMessage,
        ),
        spec_allows(expected, kind) && spec_close_behavior_for(kind) == Some(behavior) ==> r == Err::<
            StepOutcome,
            ProtocolStepError,
        >(ProtocolStepError::SpecialBehavior(behavior)),
        spec_allows(expected, kind) && spec_close_behavior_for(kind) != Some(behavior) ==> match r {
            Ok(out) => out.next_expected == spec_advance(expected, kind) && rank(out.next_expected)
                >= rank(expected) && out.reply == spec_reply_for(kind) && (out.broadcast_contracts
                <==> (behavior == MakerBehavior::BroadcastContractAfterSetup && kind
                == TakerMessageKind::ContractSigsForRecvrAndSender)),
            Err(_) => false,
        },
{
    if !allows(expected, kind) {
        return Err(ProtocolStepError::UnexpectedMessage);
    }
    let close_at: Option<MakerBehavior> = match kind {
        TakerMessageKind::ReqContractSigsForSender => Some(
            MakerBehavior::CloseAtReqContractSigsForSender,
        ),
        TakerMessageKind::ProofOfFunding => Some(MakerBehavior::CloseAtProofOfFunding),
        TakerMessageKind::ContractSigsForRecvrAndSender => Some(
            MakerBehavior::CloseAtContractSigsForRecvrAndSender,
        ),
        TakerMessageKind::ReqContractSigsForRecvr => Some(
            MakerBehavior::CloseAtContractSigsForRecvr,
        ),
        TakerMessageKind::HashPreimage => Some(MakerBehavior::CloseAtHashPreimage),
        _ => None,
    };
    if close_at == Some(behavior) {
        return Err(ProtocolStepError::SpecialBehavior(behavior));
    }
    let reply: Option<MakerReplyKind> = match kind {
        TakerMessageKind::TakerHello => Some(MakerReplyKind::MakerHello),
        TakerMessageKind::NewlyConnectedTaker => Some(MakerReplyKind::Offer),
        TakerMessageKind::ReqContractSigsForSender => Some(MakerReplyKind::ContractSigsForSender),
        TakerMessageKind::ProofOfFunding => Some(MakerReplyKind::ReqContractSigsAsRecvrAndSender),
        TakerMessageKind::ContractSigsForRecvrAndSender => None,
        TakerMessageKind::ReqContractSigsForRecvr => Some(MakerReplyKind::ContractSigsForRecvr),
        TakerMessageKind::HashPreimage => Some(MakerReplyKind::PrivateKeyHandover),
        TakerMessageKind::PrivateKeyHandover => Some(MakerReplyKind::PrivateKeyHandover),
    };
    let broadcast_contracts = matches!(behavior, MakerBehavior::BroadcastContractAfterSetup)
        && matches!(kind, TakerMessageKind::ContractSigsForRecvrAndSender);
    Ok(
        StepOutcome {
            reply,
            next_expected: advance(expected, kind),
            broadcast_contracts,
        },
    )
}

/// Steps one connection for one received message kind.
///
/// A rejected message leaves the connection state exactly as it was: no
/// swapcoin and no expectation is touched on the error path. An accepted
/// message advances the expectation — never backwards — and touches nothing
/// else; the payload work of the accepted legs is done by the validators.
pub fn handle_message_kind(
    state: &mut ConnectionState,
    kind: TakerMessageKind,
    behavior: MakerBehavior,
) -> (r: Result<StepOutcome, ProtocolStepError>)
    ensures
        match r {
            Ok(out) => {
                &&& final(state).allowed_message == spec_advance(old(state).allowed_message, kind)
                &&& rank(final(state).allowed_message) >= rank(old(state).allowed_message)
                &&& final(state)@.incoming_swapcoins == old(state)@.incoming_swapcoins
                &&& final(state)@.outgoing_swapcoins == old(state)@.outgoing_swapcoins
                &&& final(state)@.pending_funding_txes == old(state)@.pending_funding_txes
                &&& spec_allows(old(state).allowed_message, kind)
                &&& spec_close_behavior_for(kind) != Some(behavior)
                &&& out.reply == spec_reply_for(kind)
                &&& (out.broadcast_contracts <==> (behavior
                    == MakerBehavior::BroadcastContractAfterSetup && kind
                    == TakerMessageKind::ContractSigsForRecvrAndSender))
            },
            Err(e) => {
                &&& *final(state) == *old(state)
                &&& (e == ProtocolStepError::UnexpectedMessage <==> !spec_allows(
                    old(state).allowed_message,
                    kind,
                ))
                &&& (e is SpecialBehavior ==> spec_allows(old(state).allowed_message, kind)
                    && spec_close_behavior_for(kind) == Some(behavior))
            },
        },
{
    match step_message_kind(state.allowed_message, kind, behavior) {
        Ok(out) => {
            state.allowed_message = out.next_expected;
            proof {
                lemma_expectation_never_regresses(old(state).allowed_message, kind);
            }
            Ok(
                StepOutcome {
                    reply: out.reply,
                    next_expected: out.next_expected,
                    broadcast_contracts: out.broadcast_contracts,
                },
            )
        },
        Err(e) => Err(e),
    }
}

} // verus!
