//! Script-hashing and signature primitives, taken on trust from the bitcoin
//! and secp256k1 crates.
//!
//! Each result here is a pure function of its byte arguments; the names below
//! stand for those functions, and the verified logic reasons through the
//! names alone.

use vstd::prelude::*;

verus! {

/// The version-0 pay-to-witness-script-hash scriptPubKey of a witness script.
pub uninterp spec fn p2wsh_spk_of(redeemscript: Seq<u8>) -> Seq<u8>;

/// Relies on bitcoin's `Script::to_p2wsh`: hashes the witness script and wraps
/// the digest as a 34-byte version-0 witness-program scriptPubKey. The result
/// depends on the script bytes alone.
#[verifier::external_body]
pub fn p2wsh_script_pubkey(redeemscript: &Vec<u8>) -> (r: Vec<u8>)
    ensures
        r@ == p2wsh_spk_of(redeemscript@),
        r@.len() == 34,
{
    bitcoin::ScriptBuf::from_bytes(redeemscript.clone()).to_p2wsh().into_bytes()
}

/// The compressed public key obtained by adding `nonce * G` to a compressed
/// public key, or `None` when the bytes are not a key and a scalar or the sum
/// is invalid.
pub uninterp spec fn tweaked_pubkey_of(pubkey: Seq<u8>, nonce: Seq<u8>) -> Option<Seq<u8>>;

/// Relies on secp256k1's `PublicKey::add_exp_tweak`: adds `nonce * G` to the
/// parsed point. Parsing and the tweak are deterministic in the bytes, so the
/// outcome, success or failure, depends on the arguments alone.
#[verifier::external_body]
pub fn tweak_pubkey(pubkey: &Vec<u8>, nonce: &Vec<u8>) -> (r: Option<Vec<u8>>)
    ensures
        match r {
            Some(v) => tweaked_pubkey_of(pubkey@, nonce@) == Some(v@) && v@.len() == 33,
            None => tweaked_pubkey_of(pubkey@, nonce@) is None,
        },
{
    let secp = bitcoin::secp256k1::Secp256k1::new();
    let pk = bitcoin::secp256k1::PublicKey::from_slice(pubkey).ok()?;
    let nonce_arr: [u8; 32] = nonce.as_slice().try_into().ok()?;
    let scalar = bitcoin::secp256k1::Scalar::from_be_bytes(nonce_arr).ok()?;
    let tweaked = pk.add_exp_tweak(&secp, &scalar).ok()?;
    Some(tweaked.serialize().to_vec())
}

/// The secret key obtained by adding a scalar to a secret key modulo the curve
/// order, or `None` when the bytes are not a key and a scalar or the sum is
/// invalid.
pub uninterp spec fn tweaked_seckey_of(seckey: Seq<u8>, nonce: Seq<u8>) -> Option<Seq<u8>>;

/// Relies on secp256k1's `SecretKey::add_tweak`: adds the scalar modulo the
/// curve order. Deterministic in the bytes, so the outcome depends on the
/// arguments alone.
#[verifier::external_body]
pub fn tweak_seckey(seckey: &Vec<u8>, nonce: &Vec<u8>) -> (r: Option<Vec<u8>>)
    ensures
        match r {
            Some(v) => tweaked_seckey_of(seckey@, nonce@) == Some(v@) && v@.len() == 32,
            None => tweaked_seckey_of(seckey@, nonce@) is None,
        },
{
    let sk = bitcoin::secp256k1::SecretKey::from_slice(seckey).ok()?;
    let nonce_arr: [u8; 32] = nonce.as_slice().try_into().ok()?;
    let scalar = bitcoin::secp256k1::Scalar::from_be_bytes(nonce_arr).ok()?;
    let tweaked = sk.add_tweak(&scalar).ok()?;
    Some(tweaked.secret_bytes().to_vec())
}

/// The BIP143 all-inputs signature digest for spending one input of a
/// serialized transaction against a witness script and input value, or `None`
/// when the bytes do not decode to a transaction with such an input.
pub uninterp spec fn p2wsh_sighash_of(
    tx_raw: Seq<u8>,
    input_index: usize,
    redeemscript: Seq<u8>,
    input_value: u64,
) -> Option<Seq<u8>>;

/// Relies on bitcoin's `SighashCache::p2wsh_signature_hash`: the BIP143
/// digest, a deterministic function of the serialized transaction, the input
/// index, the witness script and the spent value.
#[verifier::external_body]
pub fn p2wsh_sighash(tx_raw: &Vec<u8>, input_index: usize, redeemscript: &Vec<u8>, input_value: u64) -> (r:
    Option<Vec<u8>>)
    ensures
        match r {
            Some(v) => p2wsh_sighash_of(tx_raw@, input_index, redeemscript@, input_value) == Some(
                v@,
            ) && v@.len() == 32,
            None => p2wsh_sighash_of(tx_raw@, input_index, redeemscript@, input_value) is None,
        },
{
    let tx: bitcoin::Transaction = bitcoin::consensus::deserialize(tx_raw).ok()?;
    let mut cache = bitcoin::sighash::SighashCache::new(&tx);
    let digest = cache.p2wsh_signature_hash(
        input_index,
        bitcoin::Script::from_bytes(redeemscript),
        bitcoin::Amount::from_sat(input_value),
        bitcoin::EcdsaSighashType::All,
    ).ok()?;
    Some(bitcoin::hashes::Hash::to_byte_array(digest).to_vec())
}

/// The DER-encoded RFC6979 ECDSA signature of a 32-byte digest under a secret
/// key, or `None` when the bytes are not a digest and a valid key.
pub uninterp spec fn ecdsa_sig_of(digest: Seq<u8>, seckey: Seq<u8>) -> Option<Seq<u8>>;

/// Relies on secp256k1's `sign_ecdsa`: RFC6979 makes the nonce, and so the
/// signature, a deterministic function of the digest and the key.
#[verifier::external_body]
pub fn ecdsa_sign(digest: &Vec<u8>, seckey: &Vec<u8>) -> (r: Option<Vec<u8>>)
    ensures
        match r {
            Some(v) => ecdsa_sig_of(digest@, seckey@) == Some(v@),
            None => ecdsa_sig_of(digest@, seckey@) is None,
        },
{
    let digest_arr: [u8; 32] = digest.as_slice().try_into().ok()?;
    let sk = bitcoin::secp256k1::SecretKey::from_slice(seckey).ok()?;
    let secp = bitcoin::secp256k1::Secp256k1::new();
    let msg = bitcoin::secp256k1::Message::from_digest(digest_arr);
    Some(secp.sign_ecdsa(&msg, &sk).serialize_der().to_vec())
}

} // verus!
