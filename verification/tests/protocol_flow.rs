//! The message-ordering state machine: the accepted order, rejections,
//! and the testing behaviors.

use coinswap_maker::messages::{ExpectedMessage, MakerBehavior, MakerReplyKind, TakerMessageKind};
use coinswap_maker::protocol::{handle_message_kind, step_message_kind, ProtocolStepError};
use coinswap_maker::store::ConnectionState;

#[test]
fn accepts_the_protocol_order() {
    let mut state = ConnectionState::default();
    assert_eq!(state.allowed_message, ExpectedMessage::TakerHello);

    let out = handle_message_kind(&mut state, TakerMessageKind::TakerHello, MakerBehavior::Normal)
        .unwrap();
    assert_eq!(out.reply, Some(MakerReplyKind::MakerHello));
    assert_eq!(state.allowed_message, ExpectedMessage::NewlyConnectedTaker);

    let out = handle_message_kind(
        &mut state,
        TakerMessageKind::NewlyConnectedTaker,
        MakerBehavior::Normal,
    )
    .unwrap();
    assert_eq!(out.reply, Some(MakerReplyKind::Offer));

    let out = handle_message_kind(
        &mut state,
        TakerMessageKind::ReqContractSigsForSender,
        MakerBehavior::Normal,
    )
    .unwrap();
    assert_eq!(out.reply, Some(MakerReplyKind::ContractSigsForSender));

    let out =
        handle_message_kind(&mut state, TakerMessageKind::ProofOfFunding, MakerBehavior::Normal)
            .unwrap();
    assert_eq!(out.reply, Some(MakerReplyKind::ReqContractSigsAsRecvrAndSender));
    assert_eq!(
        state.allowed_message,
        ExpectedMessage::ProofOfFundingORContractSigsForRecvrAndSender
    );

    // the branching state accepts a further proof of funding and stays
    let out =
        handle_message_kind(&mut state, TakerMessageKind::ProofOfFunding, MakerBehavior::Normal)
            .unwrap();
    assert_eq!(out.reply, Some(MakerReplyKind::ReqContractSigsAsRecvrAndSender));
    assert_eq!(
        state.allowed_message,
        ExpectedMessage::ProofOfFundingORContractSigsForRecvrAndSender
    );

    let out = handle_message_kind(
        &mut state,
        TakerMessageKind::ContractSigsForRecvrAndSender,
        MakerBehavior::Normal,
    )
    .unwrap();
    assert_eq!(out.reply, None);
    assert_eq!(state.allowed_message, ExpectedMessage::ReqContractSigsForRecvr);

    let out = handle_message_kind(
        &mut state,
        TakerMessageKind::ReqContractSigsForRecvr,
        MakerBehavior::Normal,
    )
    .unwrap();
    assert_eq!(out.reply, Some(MakerReplyKind::ContractSigsForRecvr));

    let out =
        handle_message_kind(&mut state, TakerMessageKind::HashPreimage, MakerBehavior::Normal)
            .unwrap();
    assert_eq!(out.reply, Some(MakerReplyKind::PrivateKeyHandover));
    assert_eq!(state.allowed_message, ExpectedMessage::PrivateKeyHandover);

    let out = handle_message_kind(
        &mut state,
        TakerMessageKind::PrivateKeyHandover,
        MakerBehavior::Normal,
    )
    .unwrap();
    assert_eq!(out.reply, Some(MakerReplyKind::PrivateKeyHandover));
}

#[test]
fn rejects_out_of_order_message_without_mutation() {
    let mut state = ConnectionState::default();
    let r = handle_message_kind(&mut state, TakerMessageKind::ProofOfFunding, MakerBehavior::Normal);
    assert_eq!(r.unwrap_err(), ProtocolStepError::UnexpectedMessage);
    assert_eq!(state.allowed_message, ExpectedMessage::TakerHello);
    assert!(state.incoming_swapcoins.is_empty());
    assert!(state.outgoing_swapcoins.is_empty());
}

#[test]
fn skipping_a_step_is_rejected() {
    let mut state = ConnectionState::default();
    handle_message_kind(&mut state, TakerMessageKind::TakerHello, MakerBehavior::Normal).unwrap();
    // jumping straight to the signature request skips the offer leg
    let r = handle_message_kind(
        &mut state,
        TakerMessageKind::ReqContractSigsForSender,
        MakerBehavior::Normal,
    );
    assert_eq!(r.unwrap_err(), ProtocolStepError::UnexpectedMessage);
    assert_eq!(state.allowed_message, ExpectedMessage::NewlyConnectedTaker);
}

#[test]
fn close_at_proof_of_funding_behavior() {
    let r = step_message_kind(
        ExpectedMessage::ProofOfFunding,
        TakerMessageKind::ProofOfFunding,
        MakerBehavior::CloseAtProofOfFunding,
    );
    assert_eq!(
        r.unwrap_err(),
        ProtocolStepError::SpecialBehavior(MakerBehavior::CloseAtProofOfFunding)
    );
}

#[test]
fn close_behaviors_only_fire_at_their_step() {
    // the same behavior leaves every other leg alone
    let r = step_message_kind(
        ExpectedMessage::TakerHello,
        TakerMessageKind::TakerHello,
        MakerBehavior::CloseAtProofOfFunding,
    );
    assert!(r.is_ok());
}

#[test]
fn broadcast_contract_after_setup_flag() {
    let r = step_message_kind(
        ExpectedMessage::ProofOfFundingORContractSigsForRecvrAndSender,
        TakerMessageKind::ContractSigsForRecvrAndSender,
        MakerBehavior::BroadcastContractAfterSetup,
    )
    .unwrap();
    assert!(r.broadcast_contracts);

    let r = step_message_kind(
        ExpectedMessage::ProofOfFundingORContractSigsForRecvrAndSender,
        TakerMessageKind::ContractSigsForRecvrAndSender,
        MakerBehavior::Normal,
    )
    .unwrap();
    assert!(!r.broadcast_contracts);
}
