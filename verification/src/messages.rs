//! Message kinds of the Taker-to-Maker wire protocol, the per-connection
//! expectation they are checked against, and the configurable Maker behavior
//! used to exercise counterparty recovery in tests.

use vstd::prelude::*;

verus! {

/// Configures the maker to misbehave at a named protocol step, for tests of
/// counterparty recovery. `Normal` is the production behavior.
#[derive(Debug, Clone, Copy, PartialEq, Eq, Structural)]
pub enum MakerBehavior {
    Normal,
    CloseAtReqContractSigsForSender,
    CloseAtProofOfFunding,
    CloseAtContractSigsForRecvrAndSender,
    CloseAtContractSigsForRecvr,
    CloseAtHashPreimage,
    BroadcastContractAfterSetup,
}

/// The message a connection expects next from its Taker.
///
/// A received message whose kind is not allowed by the current expectation is
/// a fatal protocol error for that connection.
#[derive(Debug, Clone, Copy, PartialEq, Eq, Structural)]
pub enum ExpectedMessage {
    TakerHello,
    NewlyConnectedTaker,
    ReqContractSigsForSender,
    ProofOfFunding,
    ProofOfFundingORContractSigsForRecvrAndSender,
    ReqContractSigsForRecvr,
    HashPreimage,
    PrivateKeyHandover,
}

impl Default for ExpectedMessage {
    /// A fresh connection first expects the Taker's hello.
    fn default() -> (r: Self)
        ensures
            r == ExpectedMessage::TakerHello,
    {
        ExpectedMessage::TakerHello
    }
}

/// The kind of a message received from a Taker.
#[derive(Debug, Clone, Copy, PartialEq, Eq, Structural)]
pub enum TakerMessageKind {
    TakerHello,
    NewlyConnectedTaker,
    ReqContractSigsForSender,
    ProofOfFunding,
    ContractSigsForRecvrAndSender,
    ReqContractSigsForRecvr,
    HashPreimage,
    PrivateKeyHandover,
}

/// The kind of a reply the Maker sends back.
#[derive(Debug, Clone, Copy, PartialEq, Eq, Structural)]
pub enum MakerReplyKind {
    MakerHello,
    Offer,
    ContractSigsForSender,
    ReqContractSigsAsRecvrAndSender,
    ContractSigsForRecvr,
    PrivateKeyHandover,
}

} // verus!
