//! The maker itself: its configuration, wallet, peer store and testing
//! behavior, and the two message validators at the heart of the protocol —
//! checking a Taker's proof of funding, and checking-and-signing a Taker's
//! contract transactions.

use vstd::prelude::*;

use crate::chain::{bytes_eq, OutPoint, OutPointV, Transaction, TransactionV, TxOutV};
use crate::config::MakerConfig;
use crate::crypto::{
    ecdsa_sig_of, ecdsa_sign, p2wsh_script_pubkey, p2wsh_sighash, p2wsh_sighash_of, p2wsh_spk_of,
    tweak_pubkey, tweak_seckey, tweaked_pubkey_of, tweaked_seckey_of,
};
use crate::fidelity::FidelityProof;
use crate::messages::MakerBehavior;
use crate::script::{
    check_hashlock_has_pubkey, check_multisig_has_pubkey, is_contract_out_valid, is_multisig_2of2,
    read_contract_hashvalue, read_contract_locktime, spec_contract_hashvalue,
    spec_contract_locktime, spec_contract_out_valid, spec_hashlock_has_tweaked_key,
    spec_is_contract_script, spec_is_multisig_2of2, spec_multisig_has_tweaked_key,
};
use crate::store::{spec_store_has, ConnectionState, ConnectionStore};
use crate::wallet::{spec_cache_consistent, spec_cache_has, spec_cache_maps_to, spec_has_incoming, spec_has_outgoing, CacheEntryV, Wallet};
use crate::MIN_CONTRACT_REACTION_TIME;
use crate::REQUIRED_CONFIRMS;

verus! {

/// The connection state recorded for `peer`; meaningful only while the
/// store holds the peer, and single-valued because peers are unique.
pub open spec fn spec_state_of(entries: Seq<crate::store::PeerEntryV>, peer: u128) -> crate::store::ConnectionStateV {
    entries[choose|i: int| 0 <= i < entries.len() && entries[i].peer == peer].state
}

/// Whether a finished swap's coins can move into the wallet: each position
/// is new to the wallet and the positions are pairwise distinct.
pub open spec fn spec_coins_transferable(wallet: Wallet, s: crate::store::ConnectionStateV) -> bool {
    &&& forall|a: int, b: int|
        0 <= a < b < s.incoming_swapcoins.len() ==> s.incoming_swapcoins[a].multisig_redeemscript
            != s.incoming_swapcoins[b].multisig_redeemscript
    &&& forall|a: int, b: int|
        0 <= a < b < s.outgoing_swapcoins.len() ==> s.outgoing_swapcoins[a].multisig_redeemscript
            != s.outgoing_swapcoins[b].multisig_redeemscript
    &&& forall|a: int|
        0 <= a < s.incoming_swapcoins.len() ==> !spec_has_incoming(
            wallet.incoming_swapcoins.deep_view(),
            (#[trigger] s.incoming_swapcoins[a]).multisig_redeemscript,
        )
    &&& forall|a: int|
        0 <= a < s.outgoing_swapcoins.len() ==> !spec_has_outgoing(
            wallet.outgoing_swapcoins.deep_view(),
            (#[trigger] s.outgoing_swapcoins[a]).multisig_redeemscript,
        )
}

/// A failure of one of the maker's validators.
#[derive(Debug, Clone, Copy, PartialEq, Eq, Structural)]
pub enum MakerError {
    /// The proof of funding names no funding transactions.
    NoFundingTxs,
    /// A contract redeemscript is not of the expected template.
    BadContractScript,
    /// The next hop's locktime is too close to this hop's.
    LocktimeTooClose,
    /// No funding output pays the multisig's script.
    FundingOutputMissing,
    /// A funding output lacks the demanded confirmations.
    FundingNotConfirmed,
    /// A multisig redeemscript is not a canonical 2-of-2.
    NotMultisig,
    /// The maker's tweaked key is absent from the multisig.
    MultisigKeyMissing,
    /// The maker's tweaked key is absent from the hashlock branch.
    HashlockKeyMissing,
    /// A claimed contract contradicts the cached contract for its outpoint.
    ContractMismatch,
    /// The funding entries do not all share one hashlock digest.
    HashvalueMismatch,
    /// A contract transaction does not have exactly one input and output.
    BadContractTx,
    /// A contract output does not pay the expected contract script.
    ContractOutInvalid,
    /// A claimed nonce does not derive a usable key.
    KeyDerivationFailed,
    /// The contract input could not be signed.
    SigningFailed,
}

/// One funding entry of a proof-of-funding message.
pub struct FundingInfo {
    /// The funding transaction.
    pub funding_tx: Transaction,
    /// The 2-of-2 multisig redeemscript of the funded output.
    pub multisig_redeemscript: Vec<u8>,
    /// Nonce deriving this maker's multisig key.
    pub multisig_nonce: Vec<u8>,
    /// The contract redeemscript claimed for this funding.
    pub contract_redeemscript: Vec<u8>,
    /// Nonce deriving this maker's hashlock key.
    pub hashlock_nonce: Vec<u8>,
}

/// Mathematical value of a [`FundingInfo`].
pub struct FundingInfoV {
    pub funding_tx: TransactionV,
    pub multisig_redeemscript: Seq<u8>,
    pub multisig_nonce: Seq<u8>,
    pub contract_redeemscript: Seq<u8>,
    pub hashlock_nonce: Seq<u8>,
}

impl View for FundingInfo {
    type V = FundingInfoV;

    open spec fn view(&self) -> FundingInfoV {
        FundingInfoV {
            funding_tx: self.funding_tx@,
            multisig_redeemscript: self.multisig_redeemscript@,
            multisig_nonce: self.multisig_nonce@,
            contract_redeemscript: self.contract_redeemscript@,
            hashlock_nonce: self.hashlock_nonce@,
        }
    }
}

impl DeepView for FundingInfo {
    type V = FundingInfoV;

    open spec fn deep_view(&self) -> FundingInfoV {
        self.view()
    }
}

/// A Taker's proof that the funding of this hop is on chain.
pub struct ProofOfFunding {
    /// The funding entries, one per transaction of the swap.
    pub confirmed_funding_txes: Vec<FundingInfo>,
    /// The locktime the Taker asks for the next hop's contract.
    pub next_locktime: u16,
}

/// Mathematical value of a [`ProofOfFunding`].
pub struct ProofOfFundingV {
    pub confirmed_funding_txes: Seq<FundingInfoV>,
    pub next_locktime: u16,
}

impl ProofOfFundingV {
    /// Output lists small enough that an output index fits the outpoint
    /// field.
    pub open spec fn wf(self) -> bool {
        forall|i: int|
            0 <= i < self.confirmed_funding_txes.len()
                ==> #[trigger] self.confirmed_funding_txes[i].funding_tx.outputs.len()
                <= u32::MAX
    }
}

impl View for ProofOfFunding {
    type V = ProofOfFundingV;

    open spec fn view(&self) -> ProofOfFundingV {
        ProofOfFundingV {
            confirmed_funding_txes: self.confirmed_funding_txes.deep_view(),
            next_locktime: self.next_locktime,
        }
    }
}

/// One contract transaction a Taker asks this maker to sign as sender.
pub struct ContractTxInfoForSender {
    /// Nonce deriving this maker's multisig key.
    pub multisig_nonce: Vec<u8>,
    /// Nonce deriving this maker's hashlock key.
    pub hashlock_nonce: Vec<u8>,
    /// The counterparty's timelock key for the contract output.
    pub timelock_pubkey: Vec<u8>,
    /// The contract transaction to be signed.
    pub senders_contract_tx: Transaction,
    /// The multisig redeemscript of the funding output it spends.
    pub multisig_redeemscript: Vec<u8>,
    /// Value of the funding output, in satoshis.
    pub funding_input_value: u64,
}

/// Mathematical value of a [`ContractTxInfoForSender`].
pub struct ContractTxInfoForSenderV {
    pub multisig_nonce: Seq<u8>,
    pub hashlock_nonce: Seq<u8>,
    pub timelock_pubkey: Seq<u8>,
    pub senders_contract_tx: TransactionV,
    pub multisig_redeemscript: Seq<u8>,
    pub funding_input_value: u64,
}

impl View for ContractTxInfoForSender {
    type V = ContractTxInfoForSenderV;

    open spec fn view(&self) -> ContractTxInfoForSenderV {
        ContractTxInfoForSenderV {
            multisig_nonce: self.multisig_nonce@,
            hashlock_nonce: self.hashlock_nonce@,
            timelock_pubkey: self.timelock_pubkey@,
            senders_contract_tx: self.senders_contract_tx@,
            multisig_redeemscript: self.multisig_redeemscript@,
            funding_input_value: self.funding_input_value,
        }
    }
}

impl DeepView for ContractTxInfoForSender {
    type V = ContractTxInfoForSenderV;

    open spec fn deep_view(&self) -> ContractTxInfoForSenderV {
        self.view()
    }
}

/// A Taker's request for this maker's signatures on its contract
/// transactions as the sender of this hop.
pub struct ReqContractSigsForSender {
    /// The contract transactions to sign.
    pub txs_info: Vec<ContractTxInfoForSender>,
    /// The hashlock digest of the whole route.
    pub hashvalue: Vec<u8>,
    /// The relative locktime of this hop's contracts.
    pub locktime: u16,
}

/// Mathematical value of a [`ReqContractSigsForSender`].
pub struct ReqContractSigsForSenderV {
    pub txs_info: Seq<ContractTxInfoForSenderV>,
    pub hashvalue: Seq<u8>,
    pub locktime: u16,
}

impl ReqContractSigsForSenderV {
    /// The digest and keys carry the lengths their wire types enforce.
    pub open spec fn wf(self) -> bool {
        &&& self.hashvalue.len() == 20
        &&& forall|i: int|
            0 <= i < self.txs_info.len() ==> #[trigger] self.txs_info[i].timelock_pubkey.len()
                == 33
    }
}

impl View for ReqContractSigsForSender {
    type V = ReqContractSigsForSenderV;

    open spec fn view(&self) -> ReqContractSigsForSenderV {
        ReqContractSigsForSenderV {
            txs_info: self.txs_info.deep_view(),
            hashvalue: self.hashvalue@,
            locktime: self.locktime,
        }
    }
}

/// Whether `k` is the first output of `outs` paying `spk`.
pub open spec fn spec_first_match(outs: Seq<TxOutV>, spk: Seq<u8>, k: int) -> bool {
    &&& 0 <= k < outs.len()
    &&& outs[k].script_pubkey == spk
    &&& forall|j: int| 0 <= j < k ==> outs[j].script_pubkey != spk
}

/// At most one output is the first match.
pub proof fn lemma_first_match_unique(outs: Seq<TxOutV>, spk: Seq<u8>, k1: int, k2: int)
    requires
        spec_first_match(outs, spk, k1),
        spec_first_match(outs, spk, k2),
    ensures
        k1 == k2,
{
    if k1 < k2 {
        assert(outs[k1].script_pubkey == spk);
    } else if k2 < k1 {
        assert(outs[k2].script_pubkey == spk);
    }
}

/// Everything this maker demands of one funding entry, except the node's
/// confirmation count: the contract script is of the template and leaves at
/// least the reaction time before the next hop's locktime; some funding
/// output pays the multisig; the multisig is canonical and carries the
/// maker's tweaked key, as does the hashlock branch; and the cache holds,
/// for the funding outpoint, exactly the claimed contract — the entry
/// established while the contract signatures were requested is
/// authoritative, and a funding outpoint with no cached contract is
/// rejected, defeating bait-and-switch.
pub open spec fn spec_funding_entry_valid(
    cache: Seq<CacheEntryV>,
    tweakable_pubkey: Seq<u8>,
    e: FundingInfoV,
    next_locktime: u16,
) -> bool {
    &&& spec_is_contract_script(e.contract_redeemscript)
    &&& spec_contract_locktime(e.contract_redeemscript) - next_locktime
        >= MIN_CONTRACT_REACTION_TIME as int
    &&& exists|k: int|
        #[trigger] spec_first_match(
            e.funding_tx.outputs,
            p2wsh_spk_of(e.multisig_redeemscript),
            k,
        )
    &&& spec_is_multisig_2of2(e.multisig_redeemscript)
    &&& spec_multisig_has_tweaked_key(e.multisig_redeemscript, tweakable_pubkey, e.multisig_nonce)
    &&& spec_hashlock_has_tweaked_key(e.contract_redeemscript, tweakable_pubkey, e.hashlock_nonce)
    &&& forall|k: int|
        #[trigger] spec_first_match(e.funding_tx.outputs, p2wsh_spk_of(e.multisig_redeemscript), k)
            ==> spec_cache_maps_to(
            cache,
            OutPointV { txid: e.funding_tx.txid, vout: k as u32 },
            p2wsh_spk_of(e.contract_redeemscript),
        )
}

/// Whether every funding entry passes this maker's local checks.
pub open spec fn spec_all_funding_valid(
    cache: Seq<CacheEntryV>,
    tweakable_pubkey: Seq<u8>,
    txes: Seq<FundingInfoV>,
    next_locktime: u16,
) -> bool {
    forall|i: int|
        0 <= i < txes.len() ==> spec_funding_entry_valid(
            cache,
            tweakable_pubkey,
            #[trigger] txes[i],
            next_locktime,
        )
}

/// Whether every funding entry carries the same hashlock digest.
pub open spec fn spec_hashvalues_equal(txes: Seq<FundingInfoV>) -> bool {
    forall|i: int|
        0 <= i < txes.len() ==> spec_contract_hashvalue(#[trigger] txes[i].contract_redeemscript)
            == spec_contract_hashvalue(txes[0].contract_redeemscript)
}

/// The signature this maker owes for one sender contract entry, through the
/// trusted key-derivation, digest and signing primitives; `None` when any of
/// them refuses the entry's data.
pub open spec fn spec_contract_sig(seckey: Seq<u8>, e: ContractTxInfoForSenderV) -> Option<
    Seq<u8>,
> {
    match tweaked_seckey_of(seckey, e.multisig_nonce) {
        None => None,
        Some(k) => match p2wsh_sighash_of(
            e.senders_contract_tx.raw,
            0,
            e.multisig_redeemscript,
            e.funding_input_value,
        ) {
            None => None,
            Some(h) => ecdsa_sig_of(h, k),
        },
    }
}

/// The contract cache after the first `n` sender entries have been cached:
/// each new funding outpoint is appended with its contract script, an
/// outpoint already present is left as it is.
pub open spec fn spec_cache_after(
    cache: Seq<CacheEntryV>,
    txs: Seq<ContractTxInfoForSenderV>,
    n: int,
) -> Seq<CacheEntryV>
    decreases n,
{
    if n <= 0 {
        cache
    } else {
        let prev = spec_cache_after(cache, txs, n - 1);
        let e = txs[n - 1];
        let op = e.senders_contract_tx.inputs[0];
        if spec_cache_has(prev, op) {
            prev
        } else {
            prev.push(
                CacheEntryV {
                    outpoint: op,
                    contract_spk: e.senders_contract_tx.outputs[0].script_pubkey,
                },
            )
        }
    }
}

/// The cache only grows while a request is processed: every entry present
/// before keeps its place, and nothing is overwritten. This is the
/// append-only discipline of the contract cache, seen over a whole message.
pub proof fn lemma_cache_append_only(
    cache: Seq<CacheEntryV>,
    txs: Seq<ContractTxInfoForSenderV>,
    n: int,
)
    ensures
        spec_cache_after(cache, txs, n).len() >= cache.len(),
        forall|i: int|
            0 <= i < cache.len() ==> #[trigger] spec_cache_after(cache, txs, n)[i] == cache[i],
    decreases n,
{
    if n > 0 {
        lemma_cache_append_only(cache, txs, n - 1);
    }
}

/// Everything this maker demands of one sender contract entry, against the
/// cache as it stands when the entry is reached: exactly one input and one
/// output; no contradiction with the cached contract for the spent outpoint;
/// the maker's tweaked key in the multisig; a derivable hashlock key; a
/// contract output paying exactly the contract script built from the route's
/// digest, the derived keys and the locktime; and signable input data.
pub open spec fn spec_sender_entry_valid(
    cache: Seq<CacheEntryV>,
    tweakable_pubkey: Seq<u8>,
    tweakable_seckey: Seq<u8>,
    hashvalue: Seq<u8>,
    locktime: u16,
    e: ContractTxInfoForSenderV,
) -> bool {
    &&& e.senders_contract_tx.inputs.len() == 1
    &&& e.senders_contract_tx.outputs.len() == 1
    &&& spec_cache_consistent(
        cache,
        e.senders_contract_tx.inputs[0],
        e.senders_contract_tx.outputs[0].script_pubkey,
    )
    &&& spec_multisig_has_tweaked_key(e.multisig_redeemscript, tweakable_pubkey, e.multisig_nonce)
    &&& tweaked_pubkey_of(tweakable_pubkey, e.hashlock_nonce) is Some
    &&& spec_contract_out_valid(
        e.senders_contract_tx.outputs[0],
        tweaked_pubkey_of(tweakable_pubkey, e.hashlock_nonce).unwrap(),
        e.timelock_pubkey,
        hashvalue,
        locktime,
        MIN_CONTRACT_REACTION_TIME,
    )
    &&& spec_contract_sig(tweakable_seckey, e) is Some
}

/// Whether every sender entry is valid against the cache evolving over the
/// entries before it.
pub open spec fn spec_all_sender_entries_valid(
    cache: Seq<CacheEntryV>,
    tweakable_pubkey: Seq<u8>,
    tweakable_seckey: Seq<u8>,
    hashvalue: Seq<u8>,
    locktime: u16,
    txs: Seq<ContractTxInfoForSenderV>,
) -> bool {
    forall|i: int|
        0 <= i < txs.len() ==> spec_sender_entry_valid(
            spec_cache_after(cache, txs, i),
            tweakable_pubkey,
            tweakable_seckey,
            hashvalue,
            locktime,
            #[trigger] txs[i],
        )
}

/// The maker in the swap protocol: behavior, configuration, wallet, peer
/// store, the highest fidelity proof, and the two process flags.
pub struct Maker {
    /// Special behavior for tests of counterparty recovery.
    pub behavior: MakerBehavior,
    /// The maker's configuration.
    pub config: MakerConfig,
    /// The maker's wallet.
    pub wallet: Wallet,
    /// Whether shutdown has been requested.
    pub shutdown: bool,
    /// The per-peer connection states.
    pub connection_state: ConnectionStore,
    /// The highest fidelity proof published so far.
    pub highest_fidelity_proof: Option<FidelityProof>,
    /// Whether the startup sequence has completed.
    pub is_setup_complete: bool,
}

impl Maker {
    /// A well-formed maker holds a well-formed wallet and peer store.
    pub open spec fn wf(self) -> bool {
        &&& self.wallet.wf()
        &&& self.connection_state.wf()
    }

    /// A maker over a wallet and configuration, with no peers, no fidelity
    /// proof and nothing requested yet.
    pub fn init(config: MakerConfig, wallet: Wallet, behavior: MakerBehavior) -> (r: Self)
        requires
            wallet.wf(),
        ensures
            r.wf(),
            r.behavior == behavior,
            r.config@ == config@,
            r.wallet == wallet,
            !r.shutdown,
            !r.is_setup_complete,
            r.highest_fidelity_proof is None,
            r.connection_state@ =~= Seq::<crate::store::PeerEntryV>::empty(),
    {
        Maker {
            behavior,
            config,
            wallet,
            shutdown: false,
            connection_state: ConnectionStore::new(),
            highest_fidelity_proof: None,
            is_setup_complete: false,
        }
    }

    /// Completes a finished swap for `peer`: transfers the connection's
    /// swapcoins into the wallet, in order, and destroys the peer's record.
    ///
    /// Afterwards no record of the peer remains in the store and every
    /// position of the swap is custodied by the wallet.
    pub fn complete_swap(&mut self, peer: u128)
        requires
            old(self).wf(),
            spec_store_has(old(self).connection_state@, peer),
            spec_coins_transferable(
                old(self).wallet,
                spec_state_of(old(self).connection_state@, peer),
            ),
        ensures
            final(self).wf(),
            !spec_store_has(final(self).connection_state@, peer),
            final(self).wallet.incoming_swapcoins.deep_view() =~= old(
                self,
            ).wallet.incoming_swapcoins.deep_view() + spec_state_of(
                old(self).connection_state@,
                peer,
            ).incoming_swapcoins,
            final(self).wallet.outgoing_swapcoins.deep_view() =~= old(
                self,
            ).wallet.outgoing_swapcoins.deep_view() + spec_state_of(
                old(self).connection_state@,
                peer,
            ).outgoing_swapcoins,
            final(self).wallet.contract_cache@ == old(self).wallet.contract_cache@,
            final(self).wallet.tweakable_seckey@ == old(self).wallet.tweakable_seckey@,
            final(self).wallet.tweakable_pubkey@ == old(self).wallet.tweakable_pubkey@,
            final(self).behavior == old(self).behavior,
            final(self).config@ == old(self).config@,
    {
        let ghost old_entries = self.connection_state@;
        let ghost target = spec_state_of(old_entries, peer);
        let state = match self.connection_state.get(peer) {
            Some(entry) => entry.0,
            None => {
                proof {
                    assert(false);
                }
                ConnectionState::default()
            },
        };
        proof {
            let w = choose|i: int|
                0 <= i < old_entries.len() && old_entries[i].peer == peer && old_entries[i].state
                    == state@;
            let c = choose|i: int| 0 <= i < old_entries.len() && old_entries[i].peer == peer;
            assert(w == c);
            assert(state@ == target);
        }
        self.connection_state.remove(peer);
        let ghost wallet_in0 = self.wallet.incoming_swapcoins.deep_view();
        let in_count = state.incoming_swapcoins.len();
        let mut k: usize = 0;
        while k < in_count
            invariant
                self.wallet.wf(),
                state@ == target,
                spec_coins_transferable(old(self).wallet, target),
                wallet_in0 == old(self).wallet.incoming_swapcoins.deep_view(),
                in_count == state.incoming_swapcoins.len(),
                k <= in_count,
                self.wallet.incoming_swapcoins.deep_view() =~= wallet_in0
                    + target.incoming_swapcoins.subrange(0, k as int),
                self.wallet.outgoing_swapcoins.deep_view() == old(
                    self,
                ).wallet.outgoing_swapcoins.deep_view(),
                self.wallet.contract_cache@ == old(self).wallet.contract_cache@,
                self.wallet.tweakable_seckey@ == old(self).wallet.tweakable_seckey@,
                self.wallet.tweakable_pubkey@ == old(self).wallet.tweakable_pubkey@,
                self.connection_state.wf(),
                !spec_store_has(self.connection_state@, peer),
                self.behavior == old(self).behavior,
                self.config@ == old(self).config@,
            decreases in_count - k,
        {
            let coin = state.incoming_swapcoins[k].clone();
            proof {
                let rs = target.incoming_swapcoins[k as int].multisig_redeemscript;
                assert(!spec_has_incoming(wallet_in0, rs));
                assert forall|j: int|
                    0 <= j < self.wallet.incoming_swapcoins.deep_view().len() implies #[trigger] self.wallet.incoming_swapcoins.deep_view()[j].multisig_redeemscript
                    != rs by {
                    if j < wallet_in0.len() {
                        assert(self.wallet.incoming_swapcoins.deep_view()[j] == wallet_in0[j]);
                    } else {
                        assert(self.wallet.incoming_swapcoins.deep_view()[j]
                            == target.incoming_swapcoins[j - wallet_in0.len()]);
                        assert(target.incoming_swapcoins[j
                            - wallet_in0.len()].multisig_redeemscript != rs);
                    }
                }
            }
            match self.wallet.add_incoming_swapcoin(coin) {
                Ok(()) => {},
                Err(_) => {
                    proof {
                        assert(false);
                    }
                },
            }
            proof {
                assert(self.wallet.incoming_swapcoins.deep_view() =~= wallet_in0
                    + target.incoming_swapcoins.subrange(0, k + 1));
            }
            k += 1;
        }
        proof {
            assert(target.incoming_swapcoins.subrange(0, in_count as int)
                =~= target.incoming_swapcoins);
        }
        let ghost wallet_out0 = self.wallet.outgoing_swapcoins.deep_view();
        let out_count = state.outgoing_swapcoins.len();
        let mut k2: usize = 0;
        while k2 < out_count
            invariant
                self.wallet.wf(),
                state@ == target,
                spec_coins_transferable(old(self).wallet, target),
                wallet_out0 == old(self).wallet.outgoing_swapcoins.deep_view(),
                out_count == state.outgoing_swapcoins.len(),
                k2 <= out_count,
                self.wallet.outgoing_swapcoins.deep_view() =~= wallet_out0
                    + target.outgoing_swapcoins.subrange(0, k2 as int),
                self.wallet.incoming_swapcoins.deep_view() =~= old(
                    self,
                ).wallet.incoming_swapcoins.deep_view() + target.incoming_swapcoins,
                self.wallet.contract_cache@ == old(self).wallet.contract_cache@,
                self.wallet.tweakable_seckey@ == old(self).wallet.tweakable_seckey@,
                self.wallet.tweakable_pubkey@ == old(self).wallet.tweakable_pubkey@,
                self.connection_state.wf(),
                !spec_store_has(self.connection_state@, peer),
                self.behavior == old(self).behavior,
                self.config@ == old(self).config@,
            decreases out_count - k2,
        {
            let coin = state.outgoing_swapcoins[k2].clone();
            proof {
                let rs = target.outgoing_swapcoins[k2 as int].multisig_redeemscript;
                assert(!spec_has_outgoing(wallet_out0, rs));
                assert forall|j: int|
                    0 <= j < self.wallet.outgoing_swapcoins.deep_view().len() implies #[trigger] self.wallet.outgoing_swapcoins.deep_view()[j].multisig_redeemscript
                    != rs by {
                    if j < wallet_out0.len() {
                        assert(self.wallet.outgoing_swapcoins.deep_view()[j] == wallet_out0[j]);
                    } else {
                        assert(self.wallet.outgoing_swapcoins.deep_view()[j]
                            == target.outgoing_swapcoins[j - wallet_out0.len()]);
                        assert(target.outgoing_swapcoins[j
                            - wallet_out0.len()].multisig_redeemscript != rs);
                    }
                }
            }
            match self.wallet.add_outgoing_swapcoin(coin) {
                Ok(()) => {},
                Err(_) => {
                    proof {
                        assert(false);
                    }
                },
            }
            proof {
                assert(self.wallet.outgoing_swapcoins.deep_view() =~= wallet_out0
                    + target.outgoing_swapcoins.subrange(0, k2 + 1));
            }
            k2 += 1;
        }
        proof {
            assert(target.outgoing_swapcoins.subrange(0, out_count as int)
                =~= target.outgoing_swapcoins);
        }
    }

    /// Refreshes the highest-fidelity-proof slot: the candidate replaces the
    /// held proof exactly when it supersedes it, and the slot is never empty
    /// afterwards.
    pub fn refresh_fidelity_proof(&mut self, candidate: FidelityProof)
        ensures
            final(self).highest_fidelity_proof is Some,
            crate::fidelity::spec_supersedes(
                match old(self).highest_fidelity_proof {
                    Some(ref p) => Some(p@),
                    None => None,
                },
                candidate@,
            ) ==> final(self).highest_fidelity_proof.unwrap()@ == candidate@,
            !crate::fidelity::spec_supersedes(
                match old(self).highest_fidelity_proof {
                    Some(ref p) => Some(p@),
                    None => None,
                },
                candidate@,
            ) ==> old(self).highest_fidelity_proof is Some
                && final(self).highest_fidelity_proof.unwrap()@
                == old(self).highest_fidelity_proof.unwrap()@,
            final(self).wallet == old(self).wallet,
            final(self).connection_state@ == old(self).connection_state@,
            final(self).behavior == old(self).behavior,
            final(self).config@ == old(self).config@,
            final(self).shutdown == old(self).shutdown,
            final(self).is_setup_complete == old(self).is_setup_complete,
    {
        let current = self.highest_fidelity_proof.take();
        self.highest_fidelity_proof = Some(
            crate::fidelity::update_highest_fidelity(current, candidate),
        );
    }

    /// A reference to the maker's wallet.
    pub fn get_wallet(&self) -> (r: &Wallet)
        ensures
            r == &self.wallet,
    {
        &self.wallet
    }

    /// Checks the consistency of a proof-of-funding message and returns the
    /// funding outpoints whose confirmations the node must report, together
    /// with the route's hashlock digest.
    ///
    /// Succeeds exactly when the message names at least one funding, every
    /// entry passes the maker's local checks — including that the contract
    /// cached for its funding outpoint while the contract signatures were
    /// requested exists and is exactly the claimed one — and all entries
    /// share one hashlock digest; [`check_funding_confirmations`] then
    /// judges what the node reports for the returned outpoints.
    pub fn verify_proof_of_funding(&self, message: &ProofOfFunding) -> (r: Result<
        (Vec<OutPoint>, Vec<u8>),
        MakerError,
    >)
        requires
            self.wf(),
            message@.wf(),
        ensures
            match r {
                Ok(res) => {
                    &&& message@.confirmed_funding_txes.len() > 0
                    &&& spec_all_funding_valid(
                        self.wallet.contract_cache@,
                        self.wallet.tweakable_pubkey@,
                        message@.confirmed_funding_txes,
                        message@.next_locktime,
                    )
                    &&& spec_hashvalues_equal(message@.confirmed_funding_txes)
                    &&& res.1@ == spec_contract_hashvalue(
                        message@.confirmed_funding_txes[0].contract_redeemscript,
                    )
                    &&& res.0.deep_view().len() == message@.confirmed_funding_txes.len()
                    &&& forall|i: int|
                        0 <= i < res.0.deep_view().len() ==> {
                            let e = message@.confirmed_funding_txes[i];
                            (#[trigger] res.0.deep_view()[i]).txid == e.funding_tx.txid
                                && spec_first_match(
                                e.funding_tx.outputs,
                                p2wsh_spk_of(e.multisig_redeemscript),
                                res.0.deep_view()[i].vout as int,
                            )
                        }
                },
                Err(e) => {
                    let txes = message@.confirmed_funding_txes;
                    &&& !(txes.len() > 0 && spec_all_funding_valid(
                        self.wallet.contract_cache@,
                        self.wallet.tweakable_pubkey@,
                        txes,
                        message@.next_locktime,
                    ) && spec_hashvalues_equal(txes))
                    &&& (e == MakerError::NoFundingTxs <==> txes.len() == 0)
                    &&& (e == MakerError::BadContractScript ==> exists|i: int|
                        0 <= i < txes.len() && !spec_is_contract_script(
                            (#[trigger] txes[i]).contract_redeemscript,
                        ))
                    &&& (e == MakerError::LocktimeTooClose ==> exists|i: int|
                        0 <= i < txes.len() && spec_contract_locktime(
                            (#[trigger] txes[i]).contract_redeemscript,
                        ) - message@.next_locktime < MIN_CONTRACT_REACTION_TIME as int)
                    &&& (e == MakerError::FundingOutputMissing ==> exists|i: int|
                        0 <= i < txes.len() && !exists|k: int|
                            spec_first_match(
                                (#[trigger] txes[i]).funding_tx.outputs,
                                p2wsh_spk_of(txes[i].multisig_redeemscript),
                                k,
                            ))
                    &&& (e == MakerError::NotMultisig ==> exists|i: int|
                        0 <= i < txes.len() && !spec_is_multisig_2of2(
                            (#[trigger] txes[i]).multisig_redeemscript,
                        ))
                    &&& (e == MakerError::MultisigKeyMissing ==> exists|i: int|
                        0 <= i < txes.len() && !spec_multisig_has_tweaked_key(
                            (#[trigger] txes[i]).multisig_redeemscript,
                            self.wallet.tweakable_pubkey@,
                            txes[i].multisig_nonce,
                        ))
                    &&& (e == MakerError::HashlockKeyMissing ==> exists|i: int|
                        0 <= i < txes.len() && !spec_hashlock_has_tweaked_key(
                            (#[trigger] txes[i]).contract_redeemscript,
                            self.wallet.tweakable_pubkey@,
                            txes[i].hashlock_nonce,
                        ))
                    &&& (e == MakerError::HashvalueMismatch ==> !spec_hashvalues_equal(txes))
                },
            },
    {
        let count = message.confirmed_funding_txes.len();
        if count == 0 {
            return Err(MakerError::NoFundingTxs);
        }
        let ghost txes = message@.confirmed_funding_txes;
        let ghost cache = self.wallet.contract_cache@;
        let ghost pubkey = self.wallet.tweakable_pubkey@;
        let mut outpoints: Vec<OutPoint> = Vec::new();
        let mut first_hashvalue: Vec<u8> = Vec::new();
        let mut i: usize = 0;
        while i < count
            invariant
                self.wf(),
                message@.wf(),
                txes == message@.confirmed_funding_txes,
                cache == self.wallet.contract_cache@,
                pubkey == self.wallet.tweakable_pubkey@,
                count == message.confirmed_funding_txes.len(),
                0 < count,
                i <= count,
                forall|j: int|
                    0 <= j < i ==> spec_funding_entry_valid(
                        cache,
                        pubkey,
                        #[trigger] txes[j],
                        message@.next_locktime,
                    ),
                forall|j: int|
                    0 <= j < i ==> spec_contract_hashvalue(
                        #[trigger] txes[j].contract_redeemscript,
                    ) == spec_contract_hashvalue(txes[0].contract_redeemscript),
                i > 0 ==> first_hashvalue@ == spec_contract_hashvalue(
                    txes[0].contract_redeemscript,
                ),
                outpoints.deep_view().len() == i,
                forall|j: int|
                    0 <= j < i ==> {
                        let e = txes[j];
                        (#[trigger] outpoints.deep_view()[j]).txid == e.funding_tx.txid
                            && spec_first_match(
                            e.funding_tx.outputs,
                            p2wsh_spk_of(e.multisig_redeemscript),
                            outpoints.deep_view()[j].vout as int,
                        )
                    },
            decreases count - i,
        {
            let entry = &message.confirmed_funding_txes[i];
            proof {
                assert(entry@ == txes[i as int]);
            }
            // (i) the contract script is of the template, and the next hop's
            // locktime leaves the reaction time
            let locktime = match read_contract_locktime(&entry.contract_redeemscript) {
                Ok(l) => l,
                Err(_) => {
                    return Err(MakerError::BadContractScript);
                },
            };
            if (locktime as u32) < (message.next_locktime as u32) + (
            MIN_CONTRACT_REACTION_TIME as u32) {
                return Err(MakerError::LocktimeTooClose);
            }
            // (ii) locate the funding output paying the multisig
            let expected_spk = p2wsh_script_pubkey(&entry.multisig_redeemscript);
            let out_count = entry.funding_tx.outputs.len();
            let mut idx: usize = 0;
            let mut found = false;
            while !found && idx < out_count
                invariant
                    out_count == entry.funding_tx.outputs.len(),
                    idx <= out_count,
                    expected_spk@ == p2wsh_spk_of(entry@.multisig_redeemscript),
                    found ==> idx < out_count && entry@.funding_tx.outputs[idx as int].script_pubkey
                        == expected_spk@,
                    forall|j: int|
                        0 <= j < idx ==> entry@.funding_tx.outputs[j].script_pubkey
                            != expected_spk@,
                decreases out_count - idx, (if found { 0int } else { 1int }),
            {
                if bytes_eq(&entry.funding_tx.outputs[idx].script_pubkey, &expected_spk) {
                    found = true;
                } else {
                    idx += 1;
                }
            }
            if !found {
                proof {
                    assert forall|k: int|
                        !spec_first_match(
                            entry@.funding_tx.outputs,
                            p2wsh_spk_of(entry@.multisig_redeemscript),
                            k,
                        ) by {
                        if 0 <= k < entry@.funding_tx.outputs.len() {
                            assert(entry@.funding_tx.outputs[k].script_pubkey != expected_spk@);
                        }
                    }
                }
                return Err(MakerError::FundingOutputMissing);
            }
            proof {
                assert(spec_first_match(
                    entry@.funding_tx.outputs,
                    p2wsh_spk_of(entry@.multisig_redeemscript),
                    idx as int,
                ));
            }
            // (iv) the multisig redeemscript is a canonical 2-of-2
            if !is_multisig_2of2(&entry.multisig_redeemscript) {
                return Err(MakerError::NotMultisig);
            }
            // (v) the maker's tweaked key appears in the multisig and the
            // hashlock branch under the claimed nonces
            if check_multisig_has_pubkey(
                &entry.multisig_redeemscript,
                &self.wallet.tweakable_pubkey,
                &entry.multisig_nonce,
            ).is_err() {
                return Err(MakerError::MultisigKeyMissing);
            }
            if check_hashlock_has_pubkey(
                &entry.contract_redeemscript,
                &self.wallet.tweakable_pubkey,
                &entry.hashlock_nonce,
            ).is_err() {
                return Err(MakerError::HashlockKeyMissing);
            }
            // (vi) the cached contract established earlier for the funding
            // outpoint is authoritative: it must exist and be exactly the
            // claimed one, else this is a bait-and-switch
            let contract_spk = p2wsh_script_pubkey(&entry.contract_redeemscript);
            let outpoint = OutPoint { txid: entry.funding_tx.txid.clone(), vout: idx as u32 };
            let cache_ok = match self.wallet.contract_cache.lookup(&outpoint) {
                Some(cached_spk) => bytes_eq(&cached_spk, &contract_spk),
                None => false,
            };
            if !cache_ok {
                proof {
                    // were the cache to map this outpoint to the claimed
                    // script, the lookup would have found that very entry
                    let e = txes[i as int];
                    let op = OutPointV { txid: e.funding_tx.txid, vout: idx as u32 };
                    let spk = p2wsh_spk_of(e.contract_redeemscript);
                    if spec_funding_entry_valid(cache, pubkey, e, message@.next_locktime) {
                        assert(spec_cache_maps_to(cache, op, spk));
                        let w = choose|w: int|
                            0 <= w < cache.len() && cache[w].outpoint == op && cache[w].contract_spk
                                == spk;
                        assert(spec_cache_has(cache, op));
                        assert(false);
                    }
                }
                return Err(MakerError::ContractMismatch);
            }
            // the entries must share one hashlock digest
            let hashvalue = match read_contract_hashvalue(&entry.contract_redeemscript) {
                Ok(h) => h,
                Err(_) => {
                    proof {
                        assert(false);
                    }
                    Vec::new()
                },
            };
            if i == 0 {
                first_hashvalue = hashvalue;
            } else if !bytes_eq(&hashvalue, &first_hashvalue) {
                return Err(MakerError::HashvalueMismatch);
            }
            let ghost ops_before = outpoints.deep_view();
            outpoints.push(outpoint);
            proof {
                let e = txes[i as int];
                assert(outpoints.deep_view() =~= ops_before.push(
                    OutPointV { txid: e.funding_tx.txid, vout: idx as u32 },
                ));
                assert forall|k: int|
                    #[trigger] spec_first_match(
                        e.funding_tx.outputs,
                        p2wsh_spk_of(e.multisig_redeemscript),
                        k,
                    ) implies spec_cache_maps_to(
                    cache,
                    OutPointV { txid: e.funding_tx.txid, vout: k as u32 },
                    p2wsh_spk_of(e.contract_redeemscript),
                ) by {
                    lemma_first_match_unique(
                        e.funding_tx.outputs,
                        p2wsh_spk_of(e.multisig_redeemscript),
                        k,
                        idx as int,
                    );
                }
                assert(spec_funding_entry_valid(cache, pubkey, e, message@.next_locktime));
            }
            i += 1;
        }
        Ok((outpoints, first_hashvalue))
    }

    /// Checks each requested sender contract transaction, records its
    /// contract in the cache, and signs its input with the maker's derived
    /// multisig key.
    ///
    /// All or nothing: on any failure no signatures are returned, though
    /// contracts cached for the entries already processed remain cached, as
    /// legitimately established contracts. Succeeds exactly when every entry
    /// is valid against the cache as it evolves over the request.
    #[verifier::rlimit(100)]
    pub fn verify_and_sign_contract_tx(&mut self, message: &ReqContractSigsForSender) -> (r:
        Result<Vec<Vec<u8>>, MakerError>)
        requires
            old(self).wf(),
            message@.wf(),
        ensures
            final(self).wf(),
            final(self).behavior == old(self).behavior,
            final(self).config@ == old(self).config@,
            final(self).shutdown == old(self).shutdown,
            final(self).is_setup_complete == old(self).is_setup_complete,
            final(self).connection_state@ == old(self).connection_state@,
            final(self).wallet.tweakable_seckey@ == old(self).wallet.tweakable_seckey@,
            final(self).wallet.tweakable_pubkey@ == old(self).wallet.tweakable_pubkey@,
            final(self).wallet.incoming_swapcoins.deep_view() == old(
                self,
            ).wallet.incoming_swapcoins.deep_view(),
            final(self).wallet.outgoing_swapcoins.deep_view() == old(
                self,
            ).wallet.outgoing_swapcoins.deep_view(),
            match r {
                Ok(sigs) => {
                    &&& spec_all_sender_entries_valid(
                        old(self).wallet.contract_cache@,
                        old(self).wallet.tweakable_pubkey@,
                        old(self).wallet.tweakable_seckey@,
                        message@.hashvalue,
                        message@.locktime,
                        message@.txs_info,
                    )
                    &&& final(self).wallet.contract_cache@ == spec_cache_after(
                        old(self).wallet.contract_cache@,
                        message@.txs_info,
                        message@.txs_info.len() as int,
                    )
                    &&& sigs.deep_view().len() == message@.txs_info.len()
                    &&& forall|i: int|
                        0 <= i < sigs.deep_view().len() ==> Some(#[trigger] sigs.deep_view()[i])
                            == spec_contract_sig(
                            old(self).wallet.tweakable_seckey@,
                            message@.txs_info[i],
                        )
                },
                Err(e) => {
                    let txs = message@.txs_info;
                    let cache0 = old(self).wallet.contract_cache@;
                    let pubkey = old(self).wallet.tweakable_pubkey@;
                    let seckey = old(self).wallet.tweakable_seckey@;
                    &&& !spec_all_sender_entries_valid(
                        cache0,
                        pubkey,
                        seckey,
                        message@.hashvalue,
                        message@.locktime,
                        txs,
                    )
                    &&& exists|k: int|
                        0 <= k <= txs.len() && final(self).wallet.contract_cache@
                            == #[trigger] spec_cache_after(cache0, txs, k)
                    &&& (e == MakerError::BadContractTx ==> exists|i: int|
                        0 <= i < txs.len() && !((#[trigger] txs[i]).senders_contract_tx.inputs.len()
                            == 1 && txs[i].senders_contract_tx.outputs.len() == 1))
                    &&& (e == MakerError::ContractMismatch ==> exists|i: int|
                        0 <= i < txs.len() && !spec_cache_consistent(
                            spec_cache_after(cache0, txs, i),
                            (#[trigger] txs[i]).senders_contract_tx.inputs[0],
                            txs[i].senders_contract_tx.outputs[0].script_pubkey,
                        ))
                    &&& (e == MakerError::MultisigKeyMissing ==> exists|i: int|
                        0 <= i < txs.len() && !spec_multisig_has_tweaked_key(
                            (#[trigger] txs[i]).multisig_redeemscript,
                            pubkey,
                            txs[i].multisig_nonce,
                        ))
                    &&& (e == MakerError::KeyDerivationFailed ==> exists|i: int|
                        0 <= i < txs.len() && (tweaked_pubkey_of(
                            pubkey,
                            (#[trigger] txs[i]).hashlock_nonce,
                        ) is None || tweaked_seckey_of(seckey, txs[i].multisig_nonce) is None))
                    &&& (e == MakerError::ContractOutInvalid ==> exists|i: int|
                        0 <= i < txs.len() && tweaked_pubkey_of(
                            pubkey,
                            (#[trigger] txs[i]).hashlock_nonce,
                        ) is Some && !spec_contract_out_valid(
                            txs[i].senders_contract_tx.outputs[0],
                            tweaked_pubkey_of(pubkey, txs[i].hashlock_nonce).unwrap(),
                            txs[i].timelock_pubkey,
                            message@.hashvalue,
                            message@.locktime,
                            MIN_CONTRACT_REACTION_TIME,
                        ))
                    &&& (e == MakerError::SigningFailed ==> exists|i: int|
                        0 <= i < txs.len() && spec_contract_sig(
                            seckey,
                            #[trigger] txs[i],
                        ) is None)
                },
            },
    {
        let ghost txs = message@.txs_info;
        let ghost cache0 = old(self).wallet.contract_cache@;
        let ghost pubkey = old(self).wallet.tweakable_pubkey@;
        let ghost seckey = old(self).wallet.tweakable_seckey@;
        let count = message.txs_info.len();
        let mut sigs: Vec<Vec<u8>> = Vec::new();
        let mut i: usize = 0;
        while i < count
            invariant
                old(self).wf(),
                self.wf(),
                message@.wf(),
                txs == message@.txs_info,
                pubkey == old(self).wallet.tweakable_pubkey@,
                seckey == old(self).wallet.tweakable_seckey@,
                cache0 == old(self).wallet.contract_cache@,
                count == message.txs_info.len(),
                i <= count,
                self.behavior == old(self).behavior,
                self.config@ == old(self).config@,
                self.shutdown == old(self).shutdown,
                self.is_setup_complete == old(self).is_setup_complete,
                self.connection_state@ == old(self).connection_state@,
                self.wallet.tweakable_seckey@ == seckey,
                self.wallet.tweakable_pubkey@ == pubkey,
                self.wallet.incoming_swapcoins.deep_view() == old(
                    self,
                ).wallet.incoming_swapcoins.deep_view(),
                self.wallet.outgoing_swapcoins.deep_view() == old(
                    self,
                ).wallet.outgoing_swapcoins.deep_view(),
                self.wallet.contract_cache@ == spec_cache_after(cache0, txs, i as int),
                forall|j: int|
                    0 <= j < i ==> spec_sender_entry_valid(
                        spec_cache_after(cache0, txs, j),
                        pubkey,
                        seckey,
                        message@.hashvalue,
                        message@.locktime,
                        #[trigger] txs[j],
                    ),
                sigs.deep_view().len() == i,
                forall|j: int|
                    0 <= j < i ==> Some(#[trigger] sigs.deep_view()[j]) == spec_contract_sig(
                        seckey,
                        txs[j],
                    ),
            decreases count - i,
        {
            let txinfo = &message.txs_info[i];
            proof {
                assert(txinfo@ == txs[i as int]);
            }
            // exactly one input and one output
            if txinfo.senders_contract_tx.inputs.len() != 1 || txinfo.senders_contract_tx.outputs.len() != 1 {
                return Err(MakerError::BadContractTx);
            }
            // no contradiction with the cached contract for the spent
            // outpoint: a different contract for the same outpoint is a
            // multiple-contract attack
            if !self.wallet.does_prevout_match_cached_contract(
                &txinfo.senders_contract_tx.inputs[0],
                &txinfo.senders_contract_tx.outputs[0].script_pubkey,
            ) {
                return Err(MakerError::ContractMismatch);
            }
            // the maker's tweaked key must be in the multisig
            if check_multisig_has_pubkey(
                &txinfo.multisig_redeemscript,
                &self.wallet.tweakable_pubkey,
                &txinfo.multisig_nonce,
            ).is_err() {
                return Err(MakerError::MultisigKeyMissing);
            }
            // derive the hashlock key from the claimed nonce
            let hashlock_pubkey = match tweak_pubkey(
                &self.wallet.tweakable_pubkey,
                &txinfo.hashlock_nonce,
            ) {
                Some(k) => k,
                None => {
                    return Err(MakerError::KeyDerivationFailed);
                },
            };
            // the contract output must pay exactly the expected contract
            proof {
                assert(message@.txs_info[i as int].timelock_pubkey.len() == 33);
                assert(message@.hashvalue.len() == 20);
            }
            if !is_contract_out_valid(
                &txinfo.senders_contract_tx.outputs[0],
                &hashlock_pubkey,
                &txinfo.timelock_pubkey,
                &message.hashvalue,
                message.locktime,
                MIN_CONTRACT_REACTION_TIME,
            ) {
                return Err(MakerError::ContractOutInvalid);
            }
            // record the contract for this outpoint
            let op = txinfo.senders_contract_tx.inputs[0].clone();
            let spk = txinfo.senders_contract_tx.outputs[0].script_pubkey.clone();
            match self.wallet.cache_prevout_to_contract(op, spk) {
                Ok(()) => {},
                Err(_) => {
                    proof {
                        assert(false);
                    }
                    return Err(MakerError::ContractMismatch);
                },
            }
            proof {
                assert(self.wallet.contract_cache@ == spec_cache_after(cache0, txs, i + 1));
            }
            // derive the multisig key and sign the contract input
            let multisig_privkey = match tweak_seckey(
                &self.wallet.tweakable_seckey,
                &txinfo.multisig_nonce,
            ) {
                Some(k) => k,
                None => {
                    return Err(MakerError::KeyDerivationFailed);
                },
            };
            let sighash = match p2wsh_sighash(
                &txinfo.senders_contract_tx.raw,
                0,
                &txinfo.multisig_redeemscript,
                txinfo.funding_input_value,
            ) {
                Some(h) => h,
                None => {
                    return Err(MakerError::SigningFailed);
                },
            };
            let sig = match ecdsa_sign(&sighash, &multisig_privkey) {
                Some(s) => s,
                None => {
                    return Err(MakerError::SigningFailed);
                },
            };
            let ghost sigs_before = sigs.deep_view();
            proof {
                assert(Some(sig@) == spec_contract_sig(seckey, txs[i as int]));
                assert(spec_sender_entry_valid(
                    spec_cache_after(cache0, txs, i as int),
                    pubkey,
                    seckey,
                    message@.hashvalue,
                    message@.locktime,
                    txs[i as int],
                ));
            }
            sigs.push(sig);
            proof {
                assert(sigs.deep_view() =~~= sigs_before.push(
                    spec_contract_sig(seckey, txs[i as int]).unwrap(),
                ));
            }
            i += 1;
        }
        Ok(sigs)
    }
}

/// Judges the node's confirmation reports for the funding outpoints: every
/// funding output must exist and have at least the demanded confirmations.
///
/// Succeeds exactly when each report is present with enough confirmations;
/// an absent output and a shallow one are told apart.
pub fn check_funding_confirmations(confirmations: &Vec<Option<u64>>) -> (r: Result<
    (),
    MakerError,
>)
    ensures
        match r {
            Ok(()) => forall|i: int|
                0 <= i < confirmations@.len() ==> (#[trigger] confirmations@[i]) is Some
                    && confirmations@[i].unwrap() >= REQUIRED_CONFIRMS,
            Err(e) => {
                &&& (e == MakerError::FundingOutputMissing ==> exists|i: int|
                    0 <= i < confirmations@.len() && (#[trigger] confirmations@[i]) is None)
                &&& (e == MakerError::FundingNotConfirmed ==> exists|i: int|
                    0 <= i < confirmations@.len() && (#[trigger] confirmations@[i]) is Some
                        && confirmations@[i].unwrap() < REQUIRED_CONFIRMS)
                &&& !(forall|i: int|
                    0 <= i < confirmations@.len() ==> (#[trigger] confirmations@[i]) is Some
                        && confirmations@[i].unwrap() >= REQUIRED_CONFIRMS)
            },
        },
{
    let n = confirmations.len();
    let mut i: usize = 0;
    while i < n
        invariant
            n == confirmations.len(),
            i <= n,
            forall|j: int|
                0 <= j < i ==> (#[trigger] confirmations@[j]) is Some && confirmations@[j].unwrap()
                    >= REQUIRED_CONFIRMS,
        decreases n - i,
    {
        match confirmations[i] {
            Some(c) => {
                if c < REQUIRED_CONFIRMS {
                    return Err(MakerError::FundingNotConfirmed);
                }
            },
            None => {
                return Err(MakerError::FundingOutputMissing);
            },
        }
        i += 1;
    }
    Ok(())
}

} // verus!
