//! The script templates and the wire framing.

use coinswap_maker::crypto::p2wsh_script_pubkey;
use coinswap_maker::framing::{decode_frame, encode_frame};
use coinswap_maker::script::{
    create_contract_redeemscript, create_multisig_redeemscript, is_contract_script,
    is_multisig_2of2, read_contract_hashvalue, read_contract_locktime, read_multisig_pubkeys,
};

fn key(b: u8) -> Vec<u8> {
    let mut k = vec![b; 33];
    k[0] = 0x02;
    k
}

#[test]
fn multisig_roundtrip() {
    let pk1 = key(0x11);
    let pk2 = key(0x22);
    let script = create_multisig_redeemscript(&pk1, &pk2);
    assert_eq!(script.len(), 71);
    assert!(is_multisig_2of2(&script));
    let (r1, r2) = read_multisig_pubkeys(&script).unwrap();
    assert_eq!(r1, pk1);
    assert_eq!(r2, pk2);
}

#[test]
fn junk_is_not_multisig() {
    assert!(!is_multisig_2of2(&vec![0x51u8; 71]));
    assert!(!is_multisig_2of2(&vec![0x52u8; 70]));
    assert!(read_multisig_pubkeys(&vec![0u8; 5]).is_err());
}

#[test]
fn contract_script_roundtrip() {
    let hash = vec![0xabu8; 20];
    let hl = key(0x33);
    let tl = key(0x44);
    let script = create_contract_redeemscript(&hash, &hl, &tl, 0x1234);
    assert_eq!(script.len(), 100);
    assert!(is_contract_script(&script));
    assert_eq!(read_contract_locktime(&script).unwrap(), 0x1234);
    assert_eq!(read_contract_hashvalue(&script).unwrap(), hash);
    // the locktime bytes sit little-endian behind the push opcode
    assert_eq!(script[60], 0x34);
    assert_eq!(script[61], 0x12);
}

#[test]
fn junk_is_not_contract_script() {
    assert!(read_contract_locktime(&vec![0u8; 100]).is_err());
    assert!(read_contract_hashvalue(&vec![0x63u8; 99]).is_err());
}

#[test]
fn p2wsh_script_pubkey_wraps_the_script_hash() {
    let script = create_multisig_redeemscript(&key(0x11), &key(0x22));
    let spk = p2wsh_script_pubkey(&script);
    assert_eq!(spk.len(), 34);
    // version-0 witness program: OP_0, a 32-byte push
    assert_eq!(spk[0], 0x00);
    assert_eq!(spk[1], 0x20);
    assert_ne!(spk, script);
    // the program is the sha256 of the witness script
    let digest = <bitcoin::hashes::sha256::Hash as bitcoin::hashes::Hash>::hash(&script);
    let digest_bytes: [u8; 32] = *<bitcoin::hashes::sha256::Hash as bitcoin::hashes::Hash>::as_byte_array(&digest);
    assert_eq!(&spk[2..], &digest_bytes[..]);
}

#[test]
fn frame_roundtrip() {
    let payload = vec![1u8, 2, 3];
    let frame = encode_frame(&payload).unwrap();
    assert_eq!(frame, vec![0u8, 0, 0, 3, 1, 2, 3]);
    let (decoded, consumed) = decode_frame(&frame).unwrap();
    assert_eq!(decoded, payload);
    assert_eq!(consumed, 7);
}

#[test]
fn incomplete_frames_decode_to_nothing() {
    assert!(decode_frame(&vec![0u8, 0, 0]).is_none());
    assert!(decode_frame(&vec![0u8, 0, 0, 5, 1, 2]).is_none());
    let (empty, consumed) = decode_frame(&vec![0u8, 0, 0, 0]).unwrap();
    assert!(empty.is_empty());
    assert_eq!(consumed, 4);
}
