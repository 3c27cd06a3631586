//! The two maker validators, exercised with real curve arithmetic: a proof
//! of funding that checks out, each way it can fail, and a contract
//! transaction signed end to end with a verifiable signature.

use coinswap_maker::chain::{OutPoint, Transaction, TxOut};
use coinswap_maker::config::MakerConfig;
use coinswap_maker::crypto::p2wsh_script_pubkey;
use coinswap_maker::maker::{
    check_funding_confirmations, ContractTxInfoForSender, FundingInfo, Maker, MakerError,
    ProofOfFunding, ReqContractSigsForSender,
};
use coinswap_maker::messages::MakerBehavior;
use coinswap_maker::script::{create_contract_redeemscript, create_multisig_redeemscript};
use coinswap_maker::wallet::Wallet;

use bitcoin::secp256k1::{Message, PublicKey, Scalar, Secp256k1, SecretKey};

struct Keys {
    seckey: Vec<u8>,
    pubkey: Vec<u8>,
    multisig_nonce: Vec<u8>,
    hashlock_nonce: Vec<u8>,
    tweaked_multisig_key: Vec<u8>,
    tweaked_hashlock_key: Vec<u8>,
    other_key: Vec<u8>,
}

fn make_keys() -> Keys {
    let secp = Secp256k1::new();
    let seckey = [1u8; 32];
    let sk = SecretKey::from_slice(&seckey).unwrap();
    let pk = PublicKey::from_secret_key(&secp, &sk);
    let multisig_nonce = [2u8; 32];
    let hashlock_nonce = [3u8; 32];
    let tweaked_ms = pk
        .add_exp_tweak(&secp, &Scalar::from_be_bytes(multisig_nonce).unwrap())
        .unwrap();
    let tweaked_hl = pk
        .add_exp_tweak(&secp, &Scalar::from_be_bytes(hashlock_nonce).unwrap())
        .unwrap();
    let other = PublicKey::from_secret_key(&secp, &SecretKey::from_slice(&[4u8; 32]).unwrap());
    Keys {
        seckey: seckey.to_vec(),
        pubkey: pk.serialize().to_vec(),
        multisig_nonce: multisig_nonce.to_vec(),
        hashlock_nonce: hashlock_nonce.to_vec(),
        tweaked_multisig_key: tweaked_ms.serialize().to_vec(),
        tweaked_hashlock_key: tweaked_hl.serialize().to_vec(),
        other_key: other.serialize().to_vec(),
    }
}

fn make_maker(keys: &Keys) -> Maker {
    let wallet = Wallet::new(keys.seckey.clone(), keys.pubkey.clone());
    Maker::init(MakerConfig::default(), wallet, MakerBehavior::Normal)
}

/// A funding entry whose scripts carry the maker's tweaked keys, whose
/// funding transaction (id `txid_byte` repeated) pays the multisig at output
/// one, and whose contract grants `locktime` blocks.
fn make_funding_entry_at(
    keys: &Keys,
    locktime: u16,
    hashvalue: [u8; 20],
    txid_byte: u8,
) -> FundingInfo {
    let multisig_redeemscript =
        create_multisig_redeemscript(&keys.tweaked_multisig_key, &keys.other_key);
    let contract_redeemscript = create_contract_redeemscript(
        &hashvalue.to_vec(),
        &keys.tweaked_hashlock_key,
        &keys.other_key,
        locktime,
    );
    let funding_tx = Transaction {
        txid: vec![txid_byte; 32],
        inputs: vec![],
        outputs: vec![
            TxOut { value: 40_000, script_pubkey: vec![0x51] },
            TxOut { value: 100_000, script_pubkey: p2wsh_script_pubkey(&multisig_redeemscript) },
        ],
        raw: vec![],
    };
    FundingInfo {
        funding_tx,
        multisig_redeemscript,
        multisig_nonce: keys.multisig_nonce.clone(),
        contract_redeemscript,
        hashlock_nonce: keys.hashlock_nonce.clone(),
    }
}

fn make_funding_entry(keys: &Keys, locktime: u16, hashvalue: [u8; 20]) -> FundingInfo {
    make_funding_entry_at(keys, locktime, hashvalue, 7)
}

/// Establishes the entry's contract in the cache for its funding outpoint,
/// as handling the earlier signature request would have.
fn cache_contract_for(maker: &mut Maker, entry: &FundingInfo) {
    let contract_spk = p2wsh_script_pubkey(&entry.contract_redeemscript);
    maker
        .wallet
        .cache_prevout_to_contract(
            OutPoint { txid: entry.funding_tx.txid.clone(), vout: 1 },
            contract_spk,
        )
        .unwrap();
}

#[test]
fn proof_of_funding_accepted() {
    let keys = make_keys();
    let mut maker = make_maker(&keys);
    let entry = make_funding_entry(&keys, 100, [9u8; 20]);
    cache_contract_for(&mut maker, &entry);
    let message = ProofOfFunding { confirmed_funding_txes: vec![entry], next_locktime: 52 };
    let (outpoints, hashvalue) = maker.verify_proof_of_funding(&message).unwrap();
    assert_eq!(outpoints.len(), 1);
    assert_eq!(outpoints[0].txid, vec![7u8; 32]);
    assert_eq!(outpoints[0].vout, 1);
    assert_eq!(hashvalue, vec![9u8; 20]);
}

#[test]
fn locktime_gap_boundary() {
    let keys = make_keys();
    let mut maker = make_maker(&keys);
    cache_contract_for(&mut maker, &make_funding_entry(&keys, 100, [9u8; 20]));
    // a gap of exactly the reaction time is accepted
    let ok = ProofOfFunding {
        confirmed_funding_txes: vec![make_funding_entry(&keys, 100, [9u8; 20])],
        next_locktime: 52,
    };
    assert!(maker.verify_proof_of_funding(&ok).is_ok());
    // one block less is rejected
    let close = ProofOfFunding {
        confirmed_funding_txes: vec![make_funding_entry(&keys, 100, [9u8; 20])],
        next_locktime: 53,
    };
    assert_eq!(maker.verify_proof_of_funding(&close).unwrap_err(), MakerError::LocktimeTooClose);
}

#[test]
fn empty_proof_of_funding_rejected() {
    let keys = make_keys();
    let maker = make_maker(&keys);
    let message = ProofOfFunding { confirmed_funding_txes: vec![], next_locktime: 0 };
    assert_eq!(maker.verify_proof_of_funding(&message).unwrap_err(), MakerError::NoFundingTxs);
}

#[test]
fn funding_output_must_pay_the_multisig() {
    let keys = make_keys();
    let maker = make_maker(&keys);
    let mut entry = make_funding_entry(&keys, 100, [9u8; 20]);
    entry.funding_tx.outputs[1].script_pubkey = vec![0x52];
    let message = ProofOfFunding { confirmed_funding_txes: vec![entry], next_locktime: 52 };
    assert_eq!(
        maker.verify_proof_of_funding(&message).unwrap_err(),
        MakerError::FundingOutputMissing
    );
}

#[test]
fn wrong_nonce_is_rejected() {
    let keys = make_keys();
    let maker = make_maker(&keys);
    let mut entry = make_funding_entry(&keys, 100, [9u8; 20]);
    entry.multisig_nonce = vec![0x55u8; 32];
    let message = ProofOfFunding { confirmed_funding_txes: vec![entry], next_locktime: 52 };
    assert_eq!(
        maker.verify_proof_of_funding(&message).unwrap_err(),
        MakerError::MultisigKeyMissing
    );
}

#[test]
fn mismatched_hashvalues_rejected() {
    let keys = make_keys();
    let mut maker = make_maker(&keys);
    let first = make_funding_entry_at(&keys, 100, [9u8; 20], 7);
    let second = make_funding_entry_at(&keys, 100, [10u8; 20], 8);
    cache_contract_for(&mut maker, &first);
    cache_contract_for(&mut maker, &second);
    let message = ProofOfFunding {
        confirmed_funding_txes: vec![first, second],
        next_locktime: 52,
    };
    assert_eq!(
        maker.verify_proof_of_funding(&message).unwrap_err(),
        MakerError::HashvalueMismatch
    );
}

#[test]
fn cached_contract_conflict_rejected() {
    let keys = make_keys();
    let mut maker = make_maker(&keys);
    // an earlier connection established a different contract for the outpoint
    maker
        .wallet
        .cache_prevout_to_contract(
            OutPoint { txid: vec![7u8; 32], vout: 1 },
            vec![0xee; 34],
        )
        .unwrap();
    let message = ProofOfFunding {
        confirmed_funding_txes: vec![make_funding_entry(&keys, 100, [9u8; 20])],
        next_locktime: 52,
    };
    assert_eq!(maker.verify_proof_of_funding(&message).unwrap_err(), MakerError::ContractMismatch);
}

#[test]
fn uncached_funding_outpoint_rejected() {
    // an outpoint whose contract was never established during the signature
    // request must not be accepted: the cache is authoritative
    let keys = make_keys();
    let maker = make_maker(&keys);
    let message = ProofOfFunding {
        confirmed_funding_txes: vec![make_funding_entry(&keys, 100, [9u8; 20])],
        next_locktime: 52,
    };
    assert_eq!(maker.verify_proof_of_funding(&message).unwrap_err(), MakerError::ContractMismatch);
}

#[test]
fn confirmation_boundary() {
    // exactly the demanded depth is enough, zero is not, absent is worse
    assert!(check_funding_confirmations(&vec![Some(1)]).is_ok());
    assert_eq!(
        check_funding_confirmations(&vec![Some(0)]).unwrap_err(),
        MakerError::FundingNotConfirmed
    );
    assert_eq!(
        check_funding_confirmations(&vec![Some(3), None]).unwrap_err(),
        MakerError::FundingOutputMissing
    );
    assert!(check_funding_confirmations(&vec![]).is_ok());
}

/// Builds a one-input-one-output contract transaction paying the contract
/// script expected for the given route parameters.
fn make_sender_request(keys: &Keys, locktime: u16, hashvalue: [u8; 20]) -> ReqContractSigsForSender {
    let contract_redeemscript = create_contract_redeemscript(
        &hashvalue.to_vec(),
        &keys.tweaked_hashlock_key,
        &keys.other_key,
        locktime,
    );
    let contract_spk = p2wsh_script_pubkey(&contract_redeemscript);
    let multisig_redeemscript =
        create_multisig_redeemscript(&keys.tweaked_multisig_key, &keys.other_key);
    let prev_txid = <bitcoin::Txid as bitcoin::hashes::Hash>::from_byte_array([5u8; 32]);
    let tx = bitcoin::Transaction {
        version: bitcoin::transaction::Version::TWO,
        lock_time: bitcoin::absolute::LockTime::ZERO,
        input: vec![bitcoin::TxIn {
            previous_output: bitcoin::OutPoint { txid: prev_txid, vout: 0 },
            script_sig: bitcoin::ScriptBuf::new(),
            sequence: bitcoin::Sequence::ZERO,
            witness: bitcoin::Witness::new(),
        }],
        output: vec![bitcoin::TxOut {
            value: bitcoin::Amount::from_sat(90_000),
            script_pubkey: bitcoin::ScriptBuf::from_bytes(contract_spk.clone()),
        }],
    };
    let raw = bitcoin::consensus::serialize(&tx);
    let model = Transaction {
        txid: <bitcoin::Txid as bitcoin::hashes::Hash>::to_byte_array(tx.compute_txid()).to_vec(),
        inputs: vec![OutPoint { txid: vec![5u8; 32], vout: 0 }],
        outputs: vec![TxOut { value: 90_000, script_pubkey: contract_spk }],
        raw,
    };
    ReqContractSigsForSender {
        txs_info: vec![ContractTxInfoForSender {
            multisig_nonce: keys.multisig_nonce.clone(),
            hashlock_nonce: keys.hashlock_nonce.clone(),
            timelock_pubkey: keys.other_key.clone(),
            senders_contract_tx: model,
            multisig_redeemscript,
            funding_input_value: 100_000,
        }],
        hashvalue: hashvalue.to_vec(),
        locktime,
    }
}

#[test]
fn contract_tx_signed_with_a_verifiable_signature() {
    let keys = make_keys();
    let mut maker = make_maker(&keys);
    let message = make_sender_request(&keys, 60, [9u8; 20]);
    let sigs = maker.verify_and_sign_contract_tx(&message).unwrap();
    assert_eq!(sigs.len(), 1);

    // the signature verifies under the tweaked multisig key over the BIP143
    // digest of the contract input
    let secp = Secp256k1::new();
    let info = &message.txs_info[0];
    let tx: bitcoin::Transaction =
        bitcoin::consensus::deserialize(&info.senders_contract_tx.raw).unwrap();
    let mut cache = bitcoin::sighash::SighashCache::new(&tx);
    let digest = cache
        .p2wsh_signature_hash(
            0,
            bitcoin::Script::from_bytes(&info.multisig_redeemscript),
            bitcoin::Amount::from_sat(info.funding_input_value),
            bitcoin::EcdsaSighashType::All,
        )
        .unwrap();
    let msg = Message::from_digest(<bitcoin::sighash::SegwitV0Sighash as bitcoin::hashes::Hash>::to_byte_array(digest));
    let sig = bitcoin::secp256k1::ecdsa::Signature::from_der(&sigs[0]).unwrap();
    let signer_key =
        PublicKey::from_slice(&keys.tweaked_multisig_key).unwrap();
    secp.verify_ecdsa(&msg, &sig, &signer_key).unwrap();

    // the contract is now cached for the spent outpoint
    assert!(maker.wallet.does_prevout_match_cached_contract(
        &OutPoint { txid: vec![5u8; 32], vout: 0 },
        &message.txs_info[0].senders_contract_tx.outputs[0].script_pubkey,
    ));
    // a different contract for the same outpoint is a conflict
    assert!(!maker.wallet.does_prevout_match_cached_contract(
        &OutPoint { txid: vec![5u8; 32], vout: 0 },
        &vec![0xee; 34],
    ));
}

#[test]
fn contract_tx_with_wrong_shape_rejected() {
    let keys = make_keys();
    let mut maker = make_maker(&keys);
    let mut message = make_sender_request(&keys, 60, [9u8; 20]);
    message.txs_info[0].senders_contract_tx.inputs.push(OutPoint { txid: vec![6u8; 32], vout: 1 });
    assert_eq!(
        maker.verify_and_sign_contract_tx(&message).unwrap_err(),
        MakerError::BadContractTx
    );
}

#[test]
fn contract_tx_below_reaction_time_rejected() {
    let keys = make_keys();
    let mut maker = make_maker(&keys);
    // a contract granting less than the reaction time must not be signed
    let message = make_sender_request(&keys, 47, [9u8; 20]);
    assert_eq!(
        maker.verify_and_sign_contract_tx(&message).unwrap_err(),
        MakerError::ContractOutInvalid
    );
}

#[test]
fn contract_tx_conflicting_with_cache_rejected() {
    let keys = make_keys();
    let mut maker = make_maker(&keys);
    maker
        .wallet
        .cache_prevout_to_contract(
            OutPoint { txid: vec![5u8; 32], vout: 0 },
            vec![0xee; 34],
        )
        .unwrap();
    let message = make_sender_request(&keys, 60, [9u8; 20]);
    assert_eq!(
        maker.verify_and_sign_contract_tx(&message).unwrap_err(),
        MakerError::ContractMismatch
    );
}
