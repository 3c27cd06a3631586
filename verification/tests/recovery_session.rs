//! The recovery engine: broadcast decisions, maturity sweeps and wallet
//! cleanup.

use coinswap_maker::chain::{OutPoint, Transaction, TxOut};
use coinswap_maker::recovery::{broadcast_decision, BroadcastAction, RecoverySession};
use coinswap_maker::swapcoins::{IncomingSwapCoin, OutgoingSwapCoin};
use coinswap_maker::wallet::{Wallet, WalletError};
use coinswap_maker::watchdog::{IncomingRecovery, OutgoingRecovery, RecoveryTrigger};

fn tx(txid_byte: u8) -> Transaction {
    Transaction {
        txid: vec![txid_byte; 32],
        inputs: vec![],
        outputs: vec![TxOut { value: 1_000, script_pubkey: vec![0x51] }],
        raw: vec![],
    }
}

fn trigger() -> RecoveryTrigger {
    RecoveryTrigger {
        peer: 1,
        outgoings: vec![
            OutgoingRecovery {
                multisig_redeemscript: vec![0x0b, 0x02],
                contract_tx: tx(0x0b),
                timelock: 10,
                timelock_spend: tx(0x8b),
            },
            OutgoingRecovery {
                multisig_redeemscript: vec![0x0d, 0x02],
                contract_tx: tx(0x0d),
                timelock: 20,
                timelock_spend: tx(0x8d),
            },
        ],
        incomings: vec![IncomingRecovery {
            multisig_redeemscript: vec![0x0a, 0x01],
            contract_tx: tx(0x0a),
        }],
    }
}

#[test]
fn already_known_contracts_are_not_rebroadcast() {
    assert_eq!(broadcast_decision(true), BroadcastAction::AlreadyBroadcast);
    assert_eq!(broadcast_decision(false), BroadcastAction::Broadcast);
}

#[test]
fn sweeps_fire_at_maturity_and_only_once() {
    let mut session = RecoverySession::new(trigger());
    assert!(!session.done());

    // first contract confirmed but one block short of its timelock
    let fired = session.sweep_step(&vec![Some(9), None]);
    assert!(fired.is_empty());
    assert!(!session.done());

    // exactly the timelock of confirmations is mature
    let fired = session.sweep_step(&vec![Some(10), Some(19)]);
    assert_eq!(fired.len(), 1);
    assert_eq!(fired[0].txid, vec![0x8b; 32]);
    assert!(!session.done());

    // the first position never fires again, however deep its contract gets
    let fired = session.sweep_step(&vec![Some(50), Some(20)]);
    assert_eq!(fired.len(), 1);
    assert_eq!(fired[0].txid, vec![0x8d; 32]);
    assert!(session.done());

    let fired = session.sweep_step(&vec![Some(100), Some(100)]);
    assert!(fired.is_empty());
}

fn incoming_coin(rs: Vec<u8>) -> IncomingSwapCoin {
    IncomingSwapCoin {
        multisig_redeemscript: rs,
        contract_redeemscript: vec![],
        contract_tx: tx(0x0a),
        funding_outpoint: OutPoint { txid: vec![0x0a; 32], vout: 0 },
        funding_value: 50_000,
        multisig_nonce: vec![1u8; 32],
        hashlock_nonce: vec![2u8; 32],
        others_contract_sig: Some(vec![0x30]),
    }
}

fn outgoing_coin(rs: Vec<u8>, txid_byte: u8) -> OutgoingSwapCoin {
    OutgoingSwapCoin {
        multisig_redeemscript: rs,
        contract_redeemscript: vec![],
        contract_tx: tx(txid_byte),
        funding_outpoint: OutPoint { txid: vec![txid_byte; 32], vout: 0 },
        funding_value: 50_000,
        multisig_nonce: vec![1u8; 32],
        hashlock_nonce: vec![2u8; 32],
        others_contract_sig: Some(vec![0x30]),
        timelock_spend_tx: tx(txid_byte.wrapping_add(0x80)),
    }
}

#[test]
fn finalize_clears_the_wallet_of_the_trigger() {
    let mut wallet = Wallet::new(vec![1u8; 32], vec![2u8; 33]);
    wallet.add_incoming_swapcoin(incoming_coin(vec![0x0a, 0x01])).unwrap();
    wallet.add_outgoing_swapcoin(outgoing_coin(vec![0x0b, 0x02], 0x0b)).unwrap();
    wallet.add_outgoing_swapcoin(outgoing_coin(vec![0x0d, 0x02], 0x0d)).unwrap();
    // a position of some other, healthy swap stays
    wallet.add_outgoing_swapcoin(outgoing_coin(vec![0x0f, 0x02], 0x0f)).unwrap();

    let mut session = RecoverySession::new(trigger());
    assert_eq!(session.incoming_contracts().len(), 1);
    assert_eq!(session.outgoing_contracts().len(), 2);

    session.remove_incomings(&mut wallet).unwrap();
    assert!(wallet.incoming_swapcoins.is_empty());

    let fired = session.sweep_step(&vec![Some(10), Some(20)]);
    assert_eq!(fired.len(), 2);
    assert!(session.done());

    session.finalize(&mut wallet).unwrap();
    assert_eq!(wallet.outgoing_swapcoins.len(), 1);
    assert_eq!(wallet.outgoing_swapcoins[0].multisig_redeemscript, vec![0x0f, 0x02]);
}

#[test]
fn recovery_refuses_a_wallet_missing_a_trigger_coin() {
    // success is owed only when the wallet holds every position the trigger
    // names; a missing incoming makes the removal fail
    let mut wallet = Wallet::new(vec![1u8; 32], vec![2u8; 33]);
    let session = RecoverySession::new(trigger());
    assert!(session.remove_incomings(&mut wallet).is_err());

    // and a missing outgoing makes finalization fail
    let mut session = RecoverySession::new(trigger());
    let fired = session.sweep_step(&vec![Some(10), Some(20)]);
    assert_eq!(fired.len(), 2);
    assert!(session.finalize(&mut wallet).is_err());
}

#[test]
fn a_removed_swapcoin_cannot_be_removed_twice() {
    let mut wallet = Wallet::new(vec![1u8; 32], vec![2u8; 33]);
    wallet.add_incoming_swapcoin(incoming_coin(vec![0x0a, 0x01])).unwrap();
    let removed = wallet.remove_incoming_swapcoin(&vec![0x0a, 0x01]).unwrap();
    assert_eq!(removed.multisig_redeemscript, vec![0x0a, 0x01]);
    assert_eq!(
        wallet.remove_incoming_swapcoin(&vec![0x0a, 0x01]).unwrap_err(),
        WalletError::SwapCoinMissing
    );
}
