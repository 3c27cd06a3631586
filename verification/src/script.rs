//! The two script templates the swap protocol rests on: the canonical 2-of-2
//! multisig redeemscript that locks a funding output, and the hash-time-locked
//! contract redeemscript that the contract transaction pays into.
//!
//! Both are fixed-shape byte strings. The builders and readers here are exact
//! inverses, and every protocol check over a script is a check over these
//! shapes.

use vstd::prelude::*;

use crate::chain::{bytes_eq, TxOut};
use crate::crypto::{p2wsh_script_pubkey, p2wsh_spk_of, tweak_pubkey, tweaked_pubkey_of};

verus! {

/// A script handed in by a peer failed a shape or key check.
#[derive(Debug, Clone, Copy, PartialEq, Eq, Structural)]
pub enum ScriptError {
    /// Not a canonical 2-of-2 multisig redeemscript.
    NotMultisig,
    /// Not a contract redeemscript of the expected template.
    NotContractScript,
    /// The claimed nonce does not tweak to a valid key.
    BadTweak,
    /// The tweaked key does not appear where the template requires it.
    PubkeyMissing,
    /// The counterparty's contract signature is not known yet.
    SignatureMissing,
}

/// Length of a canonical 2-of-2 multisig redeemscript:
/// `OP_2 <33-byte key> <33-byte key> OP_2 OP_CHECKMULTISIG`.
pub const MULTISIG_SCRIPT_LEN: usize = 71;

/// Whether `s` is a canonical 2-of-2 multisig redeemscript.
pub open spec fn spec_is_multisig_2of2(s: Seq<u8>) -> bool {
    &&& s.len() == MULTISIG_SCRIPT_LEN
    &&& s[0] == 0x52
    &&& s[1] == 0x21
    &&& s[35] == 0x21
    &&& s[69] == 0x52
    &&& s[70] == 0xae
}

/// First key of a canonical 2-of-2 multisig redeemscript.
pub open spec fn spec_multisig_pubkey1(s: Seq<u8>) -> Seq<u8> {
    s.subrange(2, 35)
}

/// Second key of a canonical 2-of-2 multisig redeemscript.
pub open spec fn spec_multisig_pubkey2(s: Seq<u8>) -> Seq<u8> {
    s.subrange(36, 69)
}

/// The canonical 2-of-2 multisig redeemscript over two compressed keys.
pub open spec fn spec_multisig_script(pk1: Seq<u8>, pk2: Seq<u8>) -> Seq<u8> {
    seq![0x52u8, 0x21u8] + pk1 + seq![0x21u8] + pk2 + seq![0x52u8, 0xaeu8]
}

/// The multisig builder and its readers are exact inverses.
pub proof fn lemma_multisig_roundtrip(pk1: Seq<u8>, pk2: Seq<u8>)
    requires
        pk1.len() == 33,
        pk2.len() == 33,
    ensures
        spec_is_multisig_2of2(spec_multisig_script(pk1, pk2)),
        spec_multisig_pubkey1(spec_multisig_script(pk1, pk2)) == pk1,
        spec_multisig_pubkey2(spec_multisig_script(pk1, pk2)) == pk2,
{
    let s = spec_multisig_script(pk1, pk2);
    assert(spec_multisig_pubkey1(s) =~= pk1);
    assert(spec_multisig_pubkey2(s) =~= pk2);
}

/// Appends all of `src` to `dst`.
pub fn extend_bytes(dst: &mut Vec<u8>, src: &Vec<u8>)
    ensures
        final(dst)@ == old(dst)@ + src@,
{
    let n = src.len();
    let mut i: usize = 0;
    while i < n
        invariant
            n == src.len(),
            i <= n,
            dst@ == old(dst)@ + src@.subrange(0, i as int),
        decreases n - i,
    {
        dst.push(src[i]);
        proof {
            assert(old(dst)@ + src@.subrange(0, i as int) + seq![src@[i as int]] =~= old(dst)@
                + src@.subrange(0, i + 1 as int));
        }
        i += 1;
    }
    proof {
        assert(src@.subrange(0, n as int) =~= src@);
    }
}

/// Copies the bytes of `s` from `start` (inclusive) to `end` (exclusive).
pub fn bytes_range(s: &Vec<u8>, start: usize, end: usize) -> (r: Vec<u8>)
    requires
        start <= end <= s@.len(),
    ensures
        r@ == s@.subrange(start as int, end as int),
{
    let mut r: Vec<u8> = Vec::new();
    let mut i: usize = start;
    while i < end
        invariant
            start <= i <= end <= s@.len(),
            r@ == s@.subrange(start as int, i as int),
        decreases end - i,
    {
        r.push(s[i]);
        proof {
            assert(s@.subrange(start as int, i as int) + seq![s@[i as int]] =~= s@.subrange(
                start as int,
                i + 1 as int,
            ));
        }
        i += 1;
    }
    r
}

/// Whether `s` is a canonical 2-of-2 multisig redeemscript.
pub fn is_multisig_2of2(s: &Vec<u8>) -> (r: bool)
    ensures
        r == spec_is_multisig_2of2(s@),
{
    s.len() == MULTISIG_SCRIPT_LEN && s[0] == 0x52 && s[1] == 0x21 && s[35] == 0x21 && s[69]
        == 0x52 && s[70] == 0xae
}

/// Builds the canonical 2-of-2 multisig redeemscript over two compressed keys.
pub fn create_multisig_redeemscript(pk1: &Vec<u8>, pk2: &Vec<u8>) -> (r: Vec<u8>)
    requires
        pk1@.len() == 33,
        pk2@.len() == 33,
    ensures
        r@ == spec_multisig_script(pk1@, pk2@),
        spec_is_multisig_2of2(r@),
{
    let mut r: Vec<u8> = Vec::new();
    r.push(0x52);
    r.push(0x21);
    extend_bytes(&mut r, pk1);
    r.push(0x21);
    extend_bytes(&mut r, pk2);
    r.push(0x52);
    r.push(0xae);
    proof {
        assert(r@ =~= spec_multisig_script(pk1@, pk2@));
        lemma_multisig_roundtrip(pk1@, pk2@);
    }
    r
}

/// Reads the two keys out of a canonical 2-of-2 multisig redeemscript.
pub fn read_multisig_pubkeys(s: &Vec<u8>) -> (r: Result<(Vec<u8>, Vec<u8>), ScriptError>)
    ensures
        match r {
            Ok(pks) => spec_is_multisig_2of2(s@) && pks.0@ == spec_multisig_pubkey1(s@) && pks.1@
                == spec_multisig_pubkey2(s@),
            Err(e) => !spec_is_multisig_2of2(s@) && e == ScriptError::NotMultisig,
        },
{
    if !is_multisig_2of2(s) {
        return Err(ScriptError::NotMultisig);
    }
    Ok((bytes_range(s, 2, 35), bytes_range(s, 36, 69)))
}

/// Length of a contract redeemscript of the template below.
pub const CONTRACT_SCRIPT_LEN: usize = 100;

/// Whether `s` is a contract redeemscript of this crate's template:
///
/// `OP_IF OP_HASH160 <20-byte hash> OP_EQUALVERIFY <33-byte hashlock key>
/// OP_ELSE <2-byte locktime> OP_CSV OP_DROP <33-byte timelock key> OP_ENDIF
/// OP_CHECKSIG`
pub open spec fn spec_is_contract_script(s: Seq<u8>) -> bool {
    &&& s.len() == CONTRACT_SCRIPT_LEN
    &&& s[0] == 0x63
    &&& s[1] == 0xa9
    &&& s[2] == 0x14
    &&& s[23] == 0x88
    &&& s[24] == 0x21
    &&& s[58] == 0x67
    &&& s[59] == 0x02
    &&& s[62] == 0xb2
    &&& s[63] == 0x75
    &&& s[64] == 0x21
    &&& s[98] == 0x68
    &&& s[99] == 0xac
}

/// The 20-byte hashlock digest of a contract redeemscript.
pub open spec fn spec_contract_hashvalue(s: Seq<u8>) -> Seq<u8> {
    s.subrange(3, 23)
}

/// The hashlock key of a contract redeemscript.
pub open spec fn spec_contract_hashlock_pubkey(s: Seq<u8>) -> Seq<u8> {
    s.subrange(25, 58)
}

/// The relative locktime of a contract redeemscript, in blocks.
pub open spec fn spec_contract_locktime(s: Seq<u8>) -> int {
    s[60] + 0x100 * s[61]
}

/// The timelock key of a contract redeemscript.
pub open spec fn spec_contract_timelock_pubkey(s: Seq<u8>) -> Seq<u8> {
    s.subrange(65, 98)
}

/// The contract redeemscript over a hashlock digest, the two branch keys and
/// a relative locktime.
pub open spec fn spec_contract_script(
    hashvalue: Seq<u8>,
    hashlock_pk: Seq<u8>,
    timelock_pk: Seq<u8>,
    locktime: u16,
) -> Seq<u8> {
    seq![0x63u8, 0xa9u8, 0x14u8] + hashvalue + seq![0x88u8, 0x21u8] + hashlock_pk + seq![
        0x67u8,
        0x02u8,
        (locktime % 0x100) as u8,
        (locktime / 0x100) as u8,
        0xb2u8,
        0x75u8,
        0x21u8,
    ] + timelock_pk + seq![0x68u8, 0xacu8]
}

/// The contract builder and its readers are exact inverses.
pub proof fn lemma_contract_roundtrip(
    hashvalue: Seq<u8>,
    hashlock_pk: Seq<u8>,
    timelock_pk: Seq<u8>,
    locktime: u16,
)
    requires
        hashvalue.len() == 20,
        hashlock_pk.len() == 33,
        timelock_pk.len() == 33,
    ensures
        spec_is_contract_script(spec_contract_script(hashvalue, hashlock_pk, timelock_pk, locktime)),
        spec_contract_hashvalue(spec_contract_script(hashvalue, hashlock_pk, timelock_pk, locktime))
            == hashvalue,
        spec_contract_hashlock_pubkey(
            spec_contract_script(hashvalue, hashlock_pk, timelock_pk, locktime),
        ) == hashlock_pk,
        spec_contract_timelock_pubkey(
            spec_contract_script(hashvalue, hashlock_pk, timelock_pk, locktime),
        ) == timelock_pk,
        spec_contract_locktime(spec_contract_script(hashvalue, hashlock_pk, timelock_pk, locktime))
            == locktime as int,
{
    let s = spec_contract_script(hashvalue, hashlock_pk, timelock_pk, locktime);
    assert(spec_contract_hashvalue(s) =~= hashvalue);
    assert(spec_contract_hashlock_pubkey(s) =~= hashlock_pk);
    assert(spec_contract_timelock_pubkey(s) =~= timelock_pk);
    assert(s[60] == (locktime % 0x100) as u8 && s[61] == (locktime / 0x100) as u8);
    assert((locktime % 0x100) + 0x100 * (locktime / 0x100) == locktime) by (nonlinear_arith);
}

/// Builds a contract redeemscript of this crate's template.
pub fn create_contract_redeemscript(
    hashvalue: &Vec<u8>,
    hashlock_pk: &Vec<u8>,
    timelock_pk: &Vec<u8>,
    locktime: u16,
) -> (r: Vec<u8>)
    requires
        hashvalue@.len() == 20,
        hashlock_pk@.len() == 33,
        timelock_pk@.len() == 33,
    ensures
        r@ == spec_contract_script(hashvalue@, hashlock_pk@, timelock_pk@, locktime),
        spec_is_contract_script(r@),
{
    let mut r: Vec<u8> = Vec::new();
    r.push(0x63);
    r.push(0xa9);
    r.push(0x14);
    extend_bytes(&mut r, hashvalue);
    r.push(0x88);
    r.push(0x21);
    extend_bytes(&mut r, hashlock_pk);
    r.push(0x67);
    r.push(0x02);
    r.push((locktime % 0x100) as u8);
    r.push((locktime / 0x100) as u8);
    r.push(0xb2);
    r.push(0x75);
    r.push(0x21);
    extend_bytes(&mut r, timelock_pk);
    r.push(0x68);
    r.push(0xac);
    proof {
        assert(r@ =~= spec_contract_script(hashvalue@, hashlock_pk@, timelock_pk@, locktime));
        lemma_contract_roundtrip(hashvalue@, hashlock_pk@, timelock_pk@, locktime);
    }
    r
}

/// Whether `s` is a contract redeemscript of this crate's template.
pub fn is_contract_script(s: &Vec<u8>) -> (r: bool)
    ensures
        r == spec_is_contract_script(s@),
{
    s.len() == CONTRACT_SCRIPT_LEN && s[0] == 0x63 && s[1] == 0xa9 && s[2] == 0x14 && s[23] == 0x88
        && s[24] == 0x21 && s[58] == 0x67 && s[59] == 0x02 && s[62] == 0xb2 && s[63] == 0x75
        && s[64] == 0x21 && s[98] == 0x68 && s[99] == 0xac
}

/// Reads the relative locktime out of a contract redeemscript.
pub fn read_contract_locktime(s: &Vec<u8>) -> (r: Result<u16, ScriptError>)
    ensures
        match r {
            Ok(l) => spec_is_contract_script(s@) && l as int == spec_contract_locktime(s@),
            Err(e) => !spec_is_contract_script(s@) && e == ScriptError::NotContractScript,
        },
{
    if !is_contract_script(s) {
        return Err(ScriptError::NotContractScript);
    }
    let lo = s[60];
    let hi = s[61];
    Ok((lo as u16) + (hi as u16) * 0x100)
}

/// Reads the 20-byte hashlock digest out of a contract redeemscript.
pub fn read_contract_hashvalue(s: &Vec<u8>) -> (r: Result<Vec<u8>, ScriptError>)
    ensures
        match r {
            Ok(h) => spec_is_contract_script(s@) && h@ == spec_contract_hashvalue(s@),
            Err(e) => !spec_is_contract_script(s@) && e == ScriptError::NotContractScript,
        },
{
    if !is_contract_script(s) {
        return Err(ScriptError::NotContractScript);
    }
    Ok(bytes_range(s, 3, 23))
}

/// Whether the key tweaked from `pubkey` by `nonce` is one of the two keys of
/// the multisig redeemscript `s`.
pub open spec fn spec_multisig_has_tweaked_key(s: Seq<u8>, pubkey: Seq<u8>, nonce: Seq<u8>) -> bool {
    match tweaked_pubkey_of(pubkey, nonce) {
        Some(t) => spec_is_multisig_2of2(s) && (spec_multisig_pubkey1(s) == t
            || spec_multisig_pubkey2(s) == t),
        None => false,
    }
}

/// Checks that this maker's tweakable key, tweaked by the claimed nonce,
/// appears in the 2-of-2 multisig redeemscript.
pub fn check_multisig_has_pubkey(s: &Vec<u8>, pubkey: &Vec<u8>, nonce: &Vec<u8>) -> (r: Result<
    (),
    ScriptError,
>)
    ensures
        r is Ok <==> spec_multisig_has_tweaked_key(s@, pubkey@, nonce@),
{
    let tweaked = match tweak_pubkey(pubkey, nonce) {
        Some(t) => t,
        None => {
            return Err(ScriptError::BadTweak);
        },
    };
    let (pk1, pk2) = read_multisig_pubkeys(s)?;
    if bytes_eq(&pk1, &tweaked) || bytes_eq(&pk2, &tweaked) {
        Ok(())
    } else {
        Err(ScriptError::PubkeyMissing)
    }
}

/// Whether the key tweaked from `pubkey` by `nonce` is the hashlock key of
/// the contract redeemscript `s`.
pub open spec fn spec_hashlock_has_tweaked_key(s: Seq<u8>, pubkey: Seq<u8>, nonce: Seq<u8>) -> bool {
    match tweaked_pubkey_of(pubkey, nonce) {
        Some(t) => spec_is_contract_script(s) && spec_contract_hashlock_pubkey(s) == t,
        None => false,
    }
}

/// Checks that this maker's tweakable key, tweaked by the claimed nonce, is
/// the hashlock key of the contract redeemscript.
pub fn check_hashlock_has_pubkey(s: &Vec<u8>, pubkey: &Vec<u8>, nonce: &Vec<u8>) -> (r: Result<
    (),
    ScriptError,
>)
    ensures
        r is Ok <==> spec_hashlock_has_tweaked_key(s@, pubkey@, nonce@),
{
    let tweaked = match tweak_pubkey(pubkey, nonce) {
        Some(t) => t,
        None => {
            return Err(ScriptError::BadTweak);
        },
    };
    if !is_contract_script(s) {
        return Err(ScriptError::NotContractScript);
    }
    let hl = bytes_range(s, 25, 58);
    if bytes_eq(&hl, &tweaked) {
        Ok(())
    } else {
        Err(ScriptError::PubkeyMissing)
    }
}

/// Whether a contract output pays the expected contract script and grants at
/// least the demanded reaction time.
pub open spec fn spec_contract_out_valid(
    out: crate::chain::TxOutV,
    hashlock_pk: Seq<u8>,
    timelock_pk: Seq<u8>,
    hashvalue: Seq<u8>,
    locktime: u16,
    min_reaction_time: u16,
) -> bool {
    &&& out.script_pubkey == p2wsh_spk_of(
        spec_contract_script(hashvalue, hashlock_pk, timelock_pk, locktime),
    )
    &&& locktime >= min_reaction_time
}

/// Checks that a contract transaction output pays the contract script built
/// from the given parts, and that its locktime grants the demanded reaction
/// time.
pub fn is_contract_out_valid(
    out: &TxOut,
    hashlock_pk: &Vec<u8>,
    timelock_pk: &Vec<u8>,
    hashvalue: &Vec<u8>,
    locktime: u16,
    min_reaction_time: u16,
) -> (r: bool)
    requires
        hashvalue@.len() == 20,
        hashlock_pk@.len() == 33,
        timelock_pk@.len() == 33,
    ensures
        r == spec_contract_out_valid(
            out@,
            hashlock_pk@,
            timelock_pk@,
            hashvalue@,
            locktime,
            min_reaction_time,
        ),
{
    if locktime < min_reaction_time {
        return false;
    }
    let contract = create_contract_redeemscript(hashvalue, hashlock_pk, timelock_pk, locktime);
    let expected_spk = p2wsh_script_pubkey(&contract);
    bytes_eq(&out.script_pubkey, &expected_spk)
}

} // verus!
