//! The idle detector and the contract observer, over a small store.

use coinswap_maker::chain::{OutPoint, Transaction, TxOut};
use coinswap_maker::script::create_contract_redeemscript;
use coinswap_maker::store::{ConnectionState, ConnectionStore};
use coinswap_maker::swapcoins::{IncomingSwapCoin, OutgoingSwapCoin};
use coinswap_maker::config::MakerConfig;
use coinswap_maker::maker::Maker;
use coinswap_maker::messages::MakerBehavior;
use coinswap_maker::wallet::Wallet;
use coinswap_maker::watchdog::{contract_observer_pass, idle_pass, watched_txids};

fn key(b: u8) -> Vec<u8> {
    let mut k = vec![b; 33];
    k[0] = 0x02;
    k
}

fn tx(txid_byte: u8) -> Transaction {
    Transaction {
        txid: vec![txid_byte; 32],
        inputs: vec![],
        outputs: vec![TxOut { value: 1_000, script_pubkey: vec![0x51] }],
        raw: vec![],
    }
}

fn incoming(txid_byte: u8, signed: bool) -> IncomingSwapCoin {
    IncomingSwapCoin {
        multisig_redeemscript: vec![txid_byte, 0x01],
        contract_redeemscript: vec![],
        contract_tx: tx(txid_byte),
        funding_outpoint: OutPoint { txid: vec![txid_byte; 32], vout: 0 },
        funding_value: 50_000,
        multisig_nonce: vec![1u8; 32],
        hashlock_nonce: vec![2u8; 32],
        others_contract_sig: if signed { Some(vec![0x30, 0x00]) } else { None },
    }
}

fn outgoing(txid_byte: u8, timelock: u16, signed: bool) -> OutgoingSwapCoin {
    OutgoingSwapCoin {
        multisig_redeemscript: vec![txid_byte, 0x02],
        contract_redeemscript: create_contract_redeemscript(
            &vec![9u8; 20],
            &key(0x33),
            &key(0x44),
            timelock,
        ),
        contract_tx: tx(txid_byte),
        funding_outpoint: OutPoint { txid: vec![txid_byte; 32], vout: 0 },
        funding_value: 50_000,
        multisig_nonce: vec![1u8; 32],
        hashlock_nonce: vec![2u8; 32],
        others_contract_sig: if signed { Some(vec![0x30, 0x01]) } else { None },
        timelock_spend_tx: tx(txid_byte.wrapping_add(0x80)),
    }
}

fn state_with_coins(inc: Vec<IncomingSwapCoin>, out: Vec<OutgoingSwapCoin>) -> ConnectionState {
    let mut s = ConnectionState::default();
    s.incoming_swapcoins = inc;
    s.outgoing_swapcoins = out;
    s
}

#[test]
fn idle_detector_drops_only_silent_peers_with_swaps() {
    let mut store = ConnectionStore::new();
    // silent past the timeout, with an in-flight swap: condemned
    store.upsert(1, state_with_coins(vec![incoming(0x0a, true)], vec![outgoing(0x0b, 20, true)]), 0);
    // silent for exactly the timeout: kept
    store.upsert(2, state_with_coins(vec![incoming(0x0c, true)], vec![outgoing(0x0d, 20, true)]), 1);
    // silent past the timeout but with no swap: kept
    store.upsert(3, ConnectionState::default(), 0);

    let triggers = idle_pass(&mut store, 61);
    assert_eq!(triggers.len(), 1);
    assert_eq!(triggers[0].peer, 1);
    assert_eq!(triggers[0].outgoings.len(), 1);
    assert_eq!(triggers[0].outgoings[0].multisig_redeemscript, vec![0x0b, 0x02]);
    assert_eq!(triggers[0].outgoings[0].timelock, 20);
    assert_eq!(triggers[0].outgoings[0].contract_tx.txid, vec![0x0b; 32]);
    assert_eq!(triggers[0].outgoings[0].timelock_spend.txid, vec![0x8b; 32]);
    assert_eq!(triggers[0].incomings.len(), 1);
    assert_eq!(triggers[0].incomings[0].multisig_redeemscript, vec![0x0a, 0x01]);

    // the condemned peer is gone, the others untouched
    assert_eq!(store.len(), 2);
    assert!(store.get(1).is_none());
    assert!(store.get(2).is_some());
    assert!(store.get(3).is_some());
}

#[test]
fn idle_detector_skips_unsigned_swapcoins() {
    let mut store = ConnectionStore::new();
    store.upsert(
        1,
        state_with_coins(vec![incoming(0x0a, true)], vec![outgoing(0x0b, 20, false)]),
        0,
    );
    let triggers = idle_pass(&mut store, 120);
    assert_eq!(triggers.len(), 1);
    // the unsigned outgoing is skipped with nothing to broadcast for it
    assert_eq!(triggers[0].outgoings.len(), 0);
    assert_eq!(triggers[0].incomings.len(), 1);
}

#[test]
fn idle_detector_over_empty_store_is_a_no_op() {
    let mut store = ConnectionStore::new();
    let triggers = idle_pass(&mut store, 1_000_000);
    assert!(triggers.is_empty());
    assert_eq!(store.len(), 0);
}

#[test]
fn observer_triggers_on_a_seen_contract() {
    let mut store = ConnectionStore::new();
    store.upsert(1, state_with_coins(vec![incoming(0x0a, true)], vec![outgoing(0x0b, 20, true)]), 50);
    store.upsert(2, state_with_coins(vec![incoming(0x0c, true)], vec![outgoing(0x0d, 20, true)]), 50);

    // nothing seen: nothing happens
    let triggers = contract_observer_pass(&mut store, &vec![]);
    assert!(triggers.is_empty());
    assert_eq!(store.len(), 2);

    // one outgoing contract of peer 1 appears in the mempool
    let triggers = contract_observer_pass(&mut store, &vec![vec![0x0b; 32]]);
    assert_eq!(triggers.len(), 1);
    assert_eq!(triggers[0].peer, 1);
    assert_eq!(store.len(), 1);
    assert!(store.get(1).is_none());
    assert!(store.get(2).is_some());
}

#[test]
fn completed_swap_moves_coins_into_the_wallet() {
    let wallet = Wallet::new(vec![1u8; 32], vec![2u8; 33]);
    let mut maker = Maker::init(MakerConfig::default(), wallet, MakerBehavior::Normal);
    maker.connection_state.upsert(
        9,
        state_with_coins(vec![incoming(0x0a, true)], vec![outgoing(0x0b, 20, true)]),
        100,
    );

    maker.complete_swap(9);

    // every position of the swap is custodied by the wallet, the record gone
    assert_eq!(maker.connection_state.len(), 0);
    assert_eq!(maker.wallet.incoming_swapcoins.len(), 1);
    assert_eq!(maker.wallet.incoming_swapcoins[0].multisig_redeemscript, vec![0x0a, 0x01]);
    assert_eq!(maker.wallet.outgoing_swapcoins.len(), 1);
    assert_eq!(maker.wallet.outgoing_swapcoins[0].multisig_redeemscript, vec![0x0b, 0x02]);
}

#[test]
fn watched_txids_cover_both_directions() {
    let state = state_with_coins(
        vec![incoming(0x0a, false), incoming(0x0c, true)],
        vec![outgoing(0x0b, 20, true)],
    );
    let txids = watched_txids(&state);
    assert_eq!(txids, vec![vec![0x0a; 32], vec![0x0c; 32], vec![0x0b; 32]]);
}
