//! The contract cache: append-only, injective, conflict-rejecting.

use coinswap_maker::chain::{OutPoint, Transaction};
use coinswap_maker::swapcoins::IncomingSwapCoin;
use coinswap_maker::wallet::{Wallet, WalletError};

fn op(b: u8, vout: u32) -> OutPoint {
    OutPoint { txid: vec![b; 32], vout }
}

#[test]
fn cache_rejects_a_conflicting_insertion() {
    let mut wallet = Wallet::new(vec![1u8; 32], vec![2u8; 33]);
    wallet.cache_prevout_to_contract(op(1, 0), vec![0xaa; 34]).unwrap();
    // a different contract for the cached outpoint fails
    assert_eq!(
        wallet.cache_prevout_to_contract(op(1, 0), vec![0xbb; 34]).unwrap_err(),
        WalletError::CacheConflict
    );
    // the entry is unharmed
    assert!(wallet.does_prevout_match_cached_contract(&op(1, 0), &vec![0xaa; 34]));
    assert!(!wallet.does_prevout_match_cached_contract(&op(1, 0), &vec![0xbb; 34]));
}

#[test]
fn cache_reinsertion_of_the_same_pair_is_fine() {
    let mut wallet = Wallet::new(vec![1u8; 32], vec![2u8; 33]);
    wallet.cache_prevout_to_contract(op(1, 0), vec![0xaa; 34]).unwrap();
    wallet.cache_prevout_to_contract(op(1, 0), vec![0xaa; 34]).unwrap();
    assert_eq!(wallet.contract_cache.len(), 1);
}

#[test]
fn cache_distinguishes_outpoints_by_index_and_txid() {
    let mut wallet = Wallet::new(vec![1u8; 32], vec![2u8; 33]);
    wallet.cache_prevout_to_contract(op(1, 0), vec![0xaa; 34]).unwrap();
    wallet.cache_prevout_to_contract(op(1, 1), vec![0xbb; 34]).unwrap();
    wallet.cache_prevout_to_contract(op(2, 0), vec![0xcc; 34]).unwrap();
    assert_eq!(wallet.contract_cache.len(), 3);
    // an uncached outpoint conflicts with nothing
    assert!(wallet.does_prevout_match_cached_contract(&op(3, 0), &vec![0xdd; 34]));
}

#[test]
fn duplicate_swapcoin_positions_are_rejected() {
    let mut wallet = Wallet::new(vec![1u8; 32], vec![2u8; 33]);
    let coin = IncomingSwapCoin {
        multisig_redeemscript: vec![0x0a],
        contract_redeemscript: vec![],
        contract_tx: Transaction { txid: vec![0; 32], inputs: vec![], outputs: vec![], raw: vec![] },
        funding_outpoint: op(1, 0),
        funding_value: 1,
        multisig_nonce: vec![],
        hashlock_nonce: vec![],
        others_contract_sig: None,
    };
    wallet.add_incoming_swapcoin(coin.clone()).unwrap();
    assert_eq!(
        wallet.add_incoming_swapcoin(coin).unwrap_err(),
        WalletError::SwapCoinDuplicate
    );
}
