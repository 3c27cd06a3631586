//! The maker's wallet as the core mutates it: the swapcoins it custodies and
//! the contract cache that defeats bait-and-switch attacks.
//!
//! The cache maps a funding outpoint to the contract scriptPubKey first
//! established for it. It is append-only: an insertion that would change an
//! existing entry is rejected, so within a connection's lifetime an outpoint's
//! contract can never be silently replaced.

use vstd::prelude::*;

use crate::chain::{bytes_eq, OutPoint, OutPointV};
use crate::swapcoins::{IncomingSwapCoin, IncomingSwapCoinV, OutgoingSwapCoin, OutgoingSwapCoinV};

verus! {

/// A wallet-level failure of the core's operations.
#[derive(Debug, Clone, Copy, PartialEq, Eq, Structural)]
pub enum WalletError {
    /// The cache already maps this outpoint to a different contract.
    CacheConflict,
    /// No swapcoin with the given multisig redeemscript exists.
    SwapCoinMissing,
    /// A swapcoin with the given multisig redeemscript already exists.
    SwapCoinDuplicate,
}

/// One entry of the contract cache.
#[derive(Debug)]
pub struct CacheEntry {
    /// The funding outpoint.
    pub outpoint: OutPoint,
    /// The contract scriptPubKey established for that outpoint.
    pub contract_spk: Vec<u8>,
}

/// Mathematical value of a [`CacheEntry`].
pub struct CacheEntryV {
    pub outpoint: OutPointV,
    pub contract_spk: Seq<u8>,
}

impl View for CacheEntry {
    type V = CacheEntryV;

    open spec fn view(&self) -> CacheEntryV {
        CacheEntryV { outpoint: self.outpoint@, contract_spk: self.contract_spk@ }
    }
}

impl DeepView for CacheEntry {
    type V = CacheEntryV;

    open spec fn deep_view(&self) -> CacheEntryV {
        self.view()
    }
}

/// Whether some entry maps `op` at all.
pub open spec fn spec_cache_has(entries: Seq<CacheEntryV>, op: OutPointV) -> bool {
    exists|i: int| 0 <= i < entries.len() && entries[i].outpoint == op
}

/// Whether some entry maps `op` to `spk`.
pub open spec fn spec_cache_maps_to(entries: Seq<CacheEntryV>, op: OutPointV, spk: Seq<u8>) -> bool {
    exists|i: int| 0 <= i < entries.len() && entries[i].outpoint == op && entries[i].contract_spk
        == spk
}

/// Whether every entry for `op`, if any, carries exactly `spk`: the
/// no-bait-and-switch condition a peer's claimed contract must meet.
pub open spec fn spec_cache_consistent(entries: Seq<CacheEntryV>, op: OutPointV, spk: Seq<u8>) -> bool {
    forall|i: int| 0 <= i < entries.len() && entries[i].outpoint == op ==> entries[i].contract_spk
        == spk
}

/// The contract cache: an injective, append-only mapping from funding
/// outpoint to contract scriptPubKey.
#[derive(Debug)]
pub struct ContractCache {
    /// The cached entries, in insertion order.
    pub entries: Vec<CacheEntry>,
}

impl View for ContractCache {
    type V = Seq<CacheEntryV>;

    open spec fn view(&self) -> Seq<CacheEntryV> {
        self.entries.deep_view()
    }
}

impl ContractCache {
    /// Each outpoint appears in at most one entry.
    pub open spec fn wf(self) -> bool {
        forall|i: int, j: int|
            0 <= i < j < self@.len() ==> self@[i].outpoint != self@[j].outpoint
    }

    /// An empty cache.
    pub fn new() -> (r: Self)
        ensures
            r@ =~= Seq::<CacheEntryV>::empty(),
            r.wf(),
    {
        ContractCache { entries: Vec::new() }
    }

    /// How many outpoints are cached.
    pub fn len(&self) -> (r: usize)
        ensures
            r == self@.len(),
    {
        self.entries.len()
    }

    /// The contract scriptPubKey cached for `op`, if any.
    pub fn lookup(&self, op: &OutPoint) -> (r: Option<Vec<u8>>)
        ensures
            match r {
                Some(spk) => spec_cache_maps_to(self@, op@, spk@),
                None => !spec_cache_has(self@, op@),
            },
    {
        let n = self.entries.len();
        let mut i: usize = 0;
        while i < n
            invariant
                n == self.entries.len(),
                i <= n,
                forall|j: int| 0 <= j < i ==> self@[j].outpoint != op@,
            decreases n - i,
        {
            let e = &self.entries[i];
            if bytes_eq(&e.outpoint.txid, &op.txid) && e.outpoint.vout == op.vout {
                assert(self@[i as int].outpoint == op@);
                return Some(e.contract_spk.clone());
            }
            i += 1;
        }
        None
    }

    /// Whether a peer's claimed contract for `op` is consistent with the
    /// cache: either nothing is cached for `op` yet, or the cached script is
    /// exactly `spk`.
    pub fn is_consistent(&self, op: &OutPoint, spk: &Vec<u8>) -> (r: bool)
        requires
            self.wf(),
        ensures
            r == spec_cache_consistent(self@, op@, spk@),
    {
        match self.lookup(op) {
            Some(cached) => {
                let eq = bytes_eq(&cached, spk);
                proof {
                    let w = choose|w: int|
                        0 <= w < self@.len() && self@[w].outpoint == op@ && self@[w].contract_spk
                            == cached@;
                    if eq {
                        assert forall|i: int|
                            0 <= i < self@.len() && self@[i].outpoint == op@ implies self@[i].contract_spk
                            == spk@ by {
                            assert(i == w);
                        }
                    } else {
                        assert(!(self@[w].contract_spk == spk@));
                    }
                }
                eq
            },
            None => true,
        }
    }

    /// Inserts `(op, spk)`, rejecting any change to an existing entry.
    ///
    /// Inserting the pair already present leaves the cache unchanged and
    /// succeeds; inserting a different script for a cached outpoint fails and
    /// changes nothing.
    pub fn insert(&mut self, op: OutPoint, spk: Vec<u8>) -> (r: Result<(), WalletError>)
        requires
            old(self).wf(),
        ensures
            final(self).wf(),
            match r {
                Ok(()) => spec_cache_consistent(old(self)@, op@, spk@) && spec_cache_maps_to(
                    final(self)@,
                    op@,
                    spk@,
                ) && (if spec_cache_has(old(self)@, op@) {
                    final(self)@ == old(self)@
                } else {
                    final(self)@ =~= old(self)@ + seq![
                        CacheEntryV { outpoint: op@, contract_spk: spk@ },
                    ]
                }),
                Err(e) => e == WalletError::CacheConflict && !spec_cache_consistent(
                    old(self)@,
                    op@,
                    spk@,
                ) && final(self)@ == old(self)@,
            },
    {
        match self.lookup(&op) {
            Some(cached) => {
                let ghost w = choose|w: int|
                    0 <= w < self@.len() && self@[w].outpoint == op@ && self@[w].contract_spk
                        == cached@;
                if bytes_eq(&cached, &spk) {
                    proof {
                        assert forall|i: int|
                            0 <= i < self@.len() && self@[i].outpoint == op@ implies self@[i].contract_spk
                            == spk@ by {
                            assert(i == w);
                        }
                    }
                    Ok(())
                } else {
                    proof {
                        assert(!(self@[w].contract_spk == spk@));
                    }
                    Err(WalletError::CacheConflict)
                }
            },
            None => {
                let ghost before = self@;
                self.entries.push(CacheEntry { outpoint: op, contract_spk: spk });
                proof {
                    assert(self@ =~= before + seq![
                        CacheEntryV { outpoint: op@, contract_spk: spk@ },
                    ]);
                    let n = before.len() as int;
                    assert(self@[n].outpoint == op@ && self@[n].contract_spk == spk@);
                }
                Ok(())
            },
        }
    }
}

/// Whether some incoming swapcoin in `coins` is identified by `rs`.
pub open spec fn spec_has_incoming(coins: Seq<IncomingSwapCoinV>, rs: Seq<u8>) -> bool {
    exists|i: int| 0 <= i < coins.len() && coins[i].multisig_redeemscript == rs
}

/// Whether some outgoing swapcoin in `coins` is identified by `rs`.
pub open spec fn spec_has_outgoing(coins: Seq<OutgoingSwapCoinV>, rs: Seq<u8>) -> bool {
    exists|i: int| 0 <= i < coins.len() && coins[i].multisig_redeemscript == rs
}

/// The maker's wallet as the core reads and mutates it.
///
/// The tweakable keypair is the root from which per-swap multisig and
/// hashlock keys are derived under peer-chosen nonces. Address derivation,
/// coin selection and persistence live outside this model.
#[derive(Debug)]
pub struct Wallet {
    /// This maker's tweakable secret key, 32 bytes.
    pub tweakable_seckey: Vec<u8>,
    /// The compressed public key of the tweakable secret key, 33 bytes.
    pub tweakable_pubkey: Vec<u8>,
    /// Incoming swapcoins custodied by this wallet.
    pub incoming_swapcoins: Vec<IncomingSwapCoin>,
    /// Outgoing swapcoins custodied by this wallet.
    pub outgoing_swapcoins: Vec<OutgoingSwapCoin>,
    /// The contract cache.
    pub contract_cache: ContractCache,
}

impl Wallet {
    /// Swapcoins are uniquely identified by their multisig redeemscript, and
    /// the cache is injective.
    pub open spec fn wf(self) -> bool {
        &&& self.contract_cache.wf()
        &&& forall|i: int, j: int|
            0 <= i < j < self.incoming_swapcoins.deep_view().len()
                ==> self.incoming_swapcoins.deep_view()[i].multisig_redeemscript
                != self.incoming_swapcoins.deep_view()[j].multisig_redeemscript
        &&& forall|i: int, j: int|
            0 <= i < j < self.outgoing_swapcoins.deep_view().len()
                ==> self.outgoing_swapcoins.deep_view()[i].multisig_redeemscript
                != self.outgoing_swapcoins.deep_view()[j].multisig_redeemscript
    }

    /// A wallet holding a tweakable keypair and no swapcoins.
    pub fn new(tweakable_seckey: Vec<u8>, tweakable_pubkey: Vec<u8>) -> (r: Self)
        ensures
            r.wf(),
            r.tweakable_seckey@ == tweakable_seckey@,
            r.tweakable_pubkey@ == tweakable_pubkey@,
            r.incoming_swapcoins.deep_view() =~= Seq::<IncomingSwapCoinV>::empty(),
            r.outgoing_swapcoins.deep_view() =~= Seq::<OutgoingSwapCoinV>::empty(),
            r.contract_cache@ =~= Seq::<CacheEntryV>::empty(),
    {
        Wallet {
            tweakable_seckey,
            tweakable_pubkey,
            incoming_swapcoins: Vec::new(),
            outgoing_swapcoins: Vec::new(),
            contract_cache: ContractCache::new(),
        }
    }

    /// This maker's tweakable keypair, secret key first.
    pub fn get_tweakable_keypair(&self) -> (r: (Vec<u8>, Vec<u8>))
        ensures
            r.0@ == self.tweakable_seckey@,
            r.1@ == self.tweakable_pubkey@,
    {
        (self.tweakable_seckey.clone(), self.tweakable_pubkey.clone())
    }

    /// Whether a peer's claimed contract for a funding outpoint is consistent
    /// with the cached contract, if one was established earlier.
    pub fn does_prevout_match_cached_contract(&self, op: &OutPoint, contract_spk: &Vec<u8>) -> (r:
        bool)
        requires
            self.wf(),
        ensures
            r == spec_cache_consistent(self.contract_cache@, op@, contract_spk@),
    {
        self.contract_cache.is_consistent(op, contract_spk)
    }

    /// Caches the contract established for a funding outpoint, rejecting any
    /// change to an earlier entry.
    pub fn cache_prevout_to_contract(&mut self, op: OutPoint, contract_spk: Vec<u8>) -> (r: Result<
        (),
        WalletError,
    >)
        requires
            old(self).wf(),
        ensures
            final(self).wf(),
            final(self).tweakable_seckey@ == old(self).tweakable_seckey@,
            final(self).tweakable_pubkey@ == old(self).tweakable_pubkey@,
            final(self).incoming_swapcoins.deep_view() == old(self).incoming_swapcoins.deep_view(),
            final(self).outgoing_swapcoins.deep_view() == old(self).outgoing_swapcoins.deep_view(),
            match r {
                Ok(()) => spec_cache_consistent(old(self).contract_cache@, op@, contract_spk@)
                    && spec_cache_maps_to(final(self).contract_cache@, op@, contract_spk@) && (
                if spec_cache_has(old(self).contract_cache@, op@) {
                    final(self).contract_cache@ == old(self).contract_cache@
                } else {
                    final(self).contract_cache@ =~= old(self).contract_cache@ + seq![
                        CacheEntryV { outpoint: op@, contract_spk: contract_spk@ },
                    ]
                }),
                Err(e) => e == WalletError::CacheConflict && !spec_cache_consistent(
                    old(self).contract_cache@,
                    op@,
                    contract_spk@,
                ) && final(self).contract_cache@ == old(self).contract_cache@,
            },
    {
        self.contract_cache.insert(op, contract_spk)
    }

    /// Removes and returns the incoming swapcoin identified by `rs`.
    pub fn remove_incoming_swapcoin(&mut self, rs: &Vec<u8>) -> (r: Result<
        IncomingSwapCoin,
        WalletError,
    >)
        requires
            old(self).wf(),
        ensures
            final(self).wf(),
            final(self).tweakable_seckey@ == old(self).tweakable_seckey@,
            final(self).tweakable_pubkey@ == old(self).tweakable_pubkey@,
            final(self).outgoing_swapcoins.deep_view() == old(self).outgoing_swapcoins.deep_view(),
            final(self).contract_cache@ == old(self).contract_cache@,
            match r {
                Ok(coin) => coin@.multisig_redeemscript == rs@ && spec_has_incoming(
                    old(self).incoming_swapcoins.deep_view(),
                    rs@,
                ) && !spec_has_incoming(final(self).incoming_swapcoins.deep_view(), rs@) && forall|
                    s: Seq<u8>,
                |
                    s != rs@ ==> (spec_has_incoming(final(self).incoming_swapcoins.deep_view(), s)
                        == spec_has_incoming(old(self).incoming_swapcoins.deep_view(), s)),
                Err(e) => e == WalletError::SwapCoinMissing && !spec_has_incoming(
                    old(self).incoming_swapcoins.deep_view(),
                    rs@,
                ) && *final(self) == *old(self),
            },
    {
        let n = self.incoming_swapcoins.len();
        let mut i: usize = 0;
        while i < n
            invariant
                old(self).wf(),
                *self == *old(self),
                n == self.incoming_swapcoins.len(),
                i <= n,
                forall|j: int|
                    0 <= j < i ==> self.incoming_swapcoins.deep_view()[j].multisig_redeemscript
                        != rs@,
            decreases n - i,
        {
            if bytes_eq(&self.incoming_swapcoins[i].multisig_redeemscript, rs) {
                let ghost before = self.incoming_swapcoins.deep_view();
                let ghost before_raw = self.incoming_swapcoins@;
                let coin = self.incoming_swapcoins.remove(i);
                proof {
                    assert(coin@.multisig_redeemscript == rs@);
                    let after = self.incoming_swapcoins.deep_view();
                    let after_raw = self.incoming_swapcoins@;
                    assert(after_raw == before_raw.remove(i as int));
                    assert(after.len() == before.len() - 1);
                    assert forall|j: int| 0 <= j < after.len() implies after[j] == (if j < i {
                        before[j]
                    } else {
                        before[j + 1]
                    }) by {
                        if j < i {
                            assert(after_raw[j] == before_raw[j]);
                        } else {
                            assert(after_raw[j] == before_raw[j + 1]);
                        }
                    }
                    assert(before == old(self).incoming_swapcoins.deep_view());
                    assert(before[i as int].multisig_redeemscript == rs@);
                    assert forall|a: int, b: int| 0 <= a < b < before.len() implies before[
                        a
                    ].multisig_redeemscript != before[b].multisig_redeemscript by {
                        assert(old(self).incoming_swapcoins.deep_view()[a].multisig_redeemscript
                            != old(self).incoming_swapcoins.deep_view()[b].multisig_redeemscript);
                    }
                    assert forall|j: int| 0 <= j < after.len() implies after[j].multisig_redeemscript
                        != rs@ by {
                        if j < i {
                            assert(after[j] == before[j]);
                        } else {
                            assert(after[j] == before[j + 1]);
                            assert(before[j + 1].multisig_redeemscript != before[
                                i as int
                            ].multisig_redeemscript);
                        }
                    }
                    assert forall|a: int, b: int| 0 <= a < b < after.len() implies after[
                        a
                    ].multisig_redeemscript != after[b].multisig_redeemscript by {
                        let a0 = if a < i { a } else { a + 1 };
                        let b0 = if b < i { b } else { b + 1 };
                        assert(after[a] == before[a0] && after[b] == before[b0]);
                        assert(before[a0].multisig_redeemscript != before[b0].multisig_redeemscript);
                    }
                    assert forall|s: Seq<u8>|
                        s != rs@ && spec_has_incoming(before, s) implies spec_has_incoming(
                        after,
                        s,
                    ) by {
                        let w = choose|w: int|
                            0 <= w < before.len() && before[w].multisig_redeemscript == s;
                        if w < i {
                            assert(after[w] == before[w]);
                        } else {
                            assert(after[w - 1] == before[w]);
                        }
                    }
                    assert forall|s: Seq<u8>|
                        s != rs@ && spec_has_incoming(after, s) implies spec_has_incoming(
                        before,
                        s,
                    ) by {
                        let w = choose|w: int|
                            0 <= w < after.len() && after[w].multisig_redeemscript == s;
                        if w < i {
                            assert(before[w] == after[w]);
                        } else {
                            assert(before[w + 1] == after[w]);
                        }
                    }
                }
                return Ok(coin);
            }
            i += 1;
        }
        Err(WalletError::SwapCoinMissing)
    }

    /// Removes and returns the outgoing swapcoin identified by `rs`.
    pub fn remove_outgoing_swapcoin(&mut self, rs: &Vec<u8>) -> (r: Result<
        OutgoingSwapCoin,
        WalletError,
    >)
        requires
            old(self).wf(),
        ensures
            final(self).wf(),
            final(self).tweakable_seckey@ == old(self).tweakable_seckey@,
            final(self).tweakable_pubkey@ == old(self).tweakable_pubkey@,
            final(self).incoming_swapcoins.deep_view() == old(self).incoming_swapcoins.deep_view(),
            final(self).contract_cache@ == old(self).contract_cache@,
            match r {
                Ok(coin) => coin@.multisig_redeemscript == rs@ && spec_has_outgoing(
                    old(self).outgoing_swapcoins.deep_view(),
                    rs@,
                ) && !spec_has_outgoing(final(self).outgoing_swapcoins.deep_view(), rs@) && forall|
                    s: Seq<u8>,
                |
                    s != rs@ ==> (spec_has_outgoing(final(self).outgoing_swapcoins.deep_view(), s)
                        == spec_has_outgoing(old(self).outgoing_swapcoins.deep_view(), s)),
                Err(e) => e == WalletError::SwapCoinMissing && !spec_has_outgoing(
                    old(self).outgoing_swapcoins.deep_view(),
                    rs@,
                ) && *final(self) == *old(self),
            },
    {
        let n = self.outgoing_swapcoins.len();
        let mut i: usize = 0;
        while i < n
            invariant
                old(self).wf(),
                *self == *old(self),
                n == self.outgoing_swapcoins.len(),
                i <= n,
                forall|j: int|
                    0 <= j < i ==> self.outgoing_swapcoins.deep_view()[j].multisig_redeemscript
                        != rs@,
            decreases n - i,
        {
            if bytes_eq(&self.outgoing_swapcoins[i].multisig_redeemscript, rs) {
                let ghost before = self.outgoing_swapcoins.deep_view();
                let ghost before_raw = self.outgoing_swapcoins@;
                let coin = self.outgoing_swapcoins.remove(i);
                proof {
                    assert(coin@.multisig_redeemscript == rs@);
                    let after = self.outgoing_swapcoins.deep_view();
                    let after_raw = self.outgoing_swapcoins@;
                    assert(after_raw == before_raw.remove(i as int));
                    assert(after.len() == before.len() - 1);
                    assert forall|j: int| 0 <= j < after.len() implies after[j] == (if j < i {
                        before[j]
                    } else {
                        before[j + 1]
                    }) by {
                        if j < i {
                            assert(after_raw[j] == before_raw[j]);
                        } else {
                            assert(after_raw[j] == before_raw[j + 1]);
                        }
                    }
                    assert(before == old(self).outgoing_swapcoins.deep_view());
                    assert(before[i as int].multisig_redeemscript == rs@);
                    assert forall|a: int, b: int| 0 <= a < b < before.len() implies before[
                        a
                    ].multisig_redeemscript != before[b].multisig_redeemscript by {
                        assert(old(self).outgoing_swapcoins.deep_view()[a].multisig_redeemscript
                            != old(self).outgoing_swapcoins.deep_view()[b].multisig_redeemscript);
                    }
                    assert forall|j: int| 0 <= j < after.len() implies after[j].multisig_redeemscript
                        != rs@ by {
                        if j < i {
                            assert(after[j] == before[j]);
                        } else {
                            assert(after[j] == before[j + 1]);
                            assert(before[j + 1].multisig_redeemscript != before[
                                i as int
                            ].multisig_redeemscript);
                        }
                    }
                    assert forall|a: int, b: int| 0 <= a < b < after.len() implies after[
                        a
                    ].multisig_redeemscript != after[b].multisig_redeemscript by {
                        let a0 = if a < i { a } else { a + 1 };
                        let b0 = if b < i { b } else { b + 1 };
                        assert(after[a] == before[a0] && after[b] == before[b0]);
                        assert(before[a0].multisig_redeemscript != before[b0].multisig_redeemscript);
                    }
                    assert forall|s: Seq<u8>|
                        s != rs@ && spec_has_outgoing(before, s) implies spec_has_outgoing(
                        after,
                        s,
                    ) by {
                        let w = choose|w: int|
                            0 <= w < before.len() && before[w].multisig_redeemscript == s;
                        if w < i {
                            assert(after[w] == before[w]);
                        } else {
                            assert(after[w - 1] == before[w]);
                        }
                    }
                    assert forall|s: Seq<u8>|
                        s != rs@ && spec_has_outgoing(after, s) implies spec_has_outgoing(
                        before,
                        s,
                    ) by {
                        let w = choose|w: int|
                            0 <= w < after.len() && after[w].multisig_redeemscript == s;
                        if w < i {
                            assert(before[w] == after[w]);
                        } else {
                            assert(before[w + 1] == after[w]);
                        }
                    }
                }
                return Ok(coin);
            }
            i += 1;
        }
        Err(WalletError::SwapCoinMissing)
    }

    /// Adds an incoming swapcoin, rejecting a duplicate position.
    pub fn add_incoming_swapcoin(&mut self, coin: IncomingSwapCoin) -> (r: Result<(), WalletError>)
        requires
            old(self).wf(),
        ensures
            final(self).wf(),
            match r {
                Ok(()) => !spec_has_incoming(old(self).incoming_swapcoins.deep_view(), coin@.multisig_redeemscript)
                    && final(self).incoming_swapcoins.deep_view() =~= old(
                    self,
                ).incoming_swapcoins.deep_view() + seq![coin@],
                Err(e) => e == WalletError::SwapCoinDuplicate && spec_has_incoming(
                    old(self).incoming_swapcoins.deep_view(),
                    coin@.multisig_redeemscript,
                ) && *final(self) == *old(self),
            },
            final(self).outgoing_swapcoins.deep_view() == old(self).outgoing_swapcoins.deep_view(),
            final(self).contract_cache@ == old(self).contract_cache@,
            final(self).tweakable_seckey@ == old(self).tweakable_seckey@,
            final(self).tweakable_pubkey@ == old(self).tweakable_pubkey@,
    {
        let n = self.incoming_swapcoins.len();
        let mut i: usize = 0;
        while i < n
            invariant
                old(self).wf(),
                *self == *old(self),
                n == self.incoming_swapcoins.len(),
                i <= n,
                forall|j: int|
                    0 <= j < i ==> self.incoming_swapcoins.deep_view()[j].multisig_redeemscript
                        != coin@.multisig_redeemscript,
            decreases n - i,
        {
            if bytes_eq(&self.incoming_swapcoins[i].multisig_redeemscript, &coin.multisig_redeemscript) {
                proof {
                    assert(self.incoming_swapcoins.deep_view()[i as int].multisig_redeemscript
                        == coin@.multisig_redeemscript);
                }
                return Err(WalletError::SwapCoinDuplicate);
            }
            i += 1;
        }
        let ghost before = self.incoming_swapcoins.deep_view();
        proof {
            assert forall|w: int|
                0 <= w < old(self).incoming_swapcoins.deep_view().len() implies old(
                self,
            ).incoming_swapcoins.deep_view()[w].multisig_redeemscript != coin@.multisig_redeemscript by {
                assert(self.incoming_swapcoins.deep_view()[w].multisig_redeemscript
                    != coin@.multisig_redeemscript);
            }
        }
        self.incoming_swapcoins.push(coin);
        proof {
            let after = self.incoming_swapcoins.deep_view();
            assert(after =~= before + seq![coin@]);
            assert forall|a: int, b: int| 0 <= a < b < after.len() implies after[
                a
            ].multisig_redeemscript != after[b].multisig_redeemscript by {
                if b < before.len() {
                    assert(after[a] == before[a] && after[b] == before[b]);
                } else {
                    assert(after[a] == before[a] && after[b] == coin@);
                }
            }
        }
        Ok(())
    }

    /// Adds an outgoing swapcoin, rejecting a duplicate position.
    pub fn add_outgoing_swapcoin(&mut self, coin: OutgoingSwapCoin) -> (r: Result<(), WalletError>)
        requires
            old(self).wf(),
        ensures
            final(self).wf(),
            match r {
                Ok(()) => !spec_has_outgoing(old(self).outgoing_swapcoins.deep_view(), coin@.multisig_redeemscript)
                    && final(self).outgoing_swapcoins.deep_view() =~= old(
                    self,
                ).outgoing_swapcoins.deep_view() + seq![coin@],
                Err(e) => e == WalletError::SwapCoinDuplicate && spec_has_outgoing(
                    old(self).outgoing_swapcoins.deep_view(),
                    coin@.multisig_redeemscript,
                ) && *final(self) == *old(self),
            },
            final(self).incoming_swapcoins.deep_view() == old(self).incoming_swapcoins.deep_view(),
            final(self).contract_cache@ == old(self).contract_cache@,
            final(self).tweakable_seckey@ == old(self).tweakable_seckey@,
            final(self).tweakable_pubkey@ == old(self).tweakable_pubkey@,
    {
        let n = self.outgoing_swapcoins.len();
        let mut i: usize = 0;
        while i < n
            invariant
                old(self).wf(),
                *self == *old(self),
                n == self.outgoing_swapcoins.len(),
                i <= n,
                forall|j: int|
                    0 <= j < i ==> self.outgoing_swapcoins.deep_view()[j].multisig_redeemscript
                        != coin@.multisig_redeemscript,
            decreases n - i,
        {
            if bytes_eq(&self.outgoing_swapcoins[i].multisig_redeemscript, &coin.multisig_redeemscript) {
                proof {
                    assert(self.outgoing_swapcoins.deep_view()[i as int].multisig_redeemscript
                        == coin@.multisig_redeemscript);
                }
                return Err(WalletError::SwapCoinDuplicate);
            }
            i += 1;
        }
        let ghost before = self.outgoing_swapcoins.deep_view();
        proof {
            assert forall|w: int|
                0 <= w < old(self).outgoing_swapcoins.deep_view().len() implies old(
                self,
            ).outgoing_swapcoins.deep_view()[w].multisig_redeemscript != coin@.multisig_redeemscript by {
                assert(self.outgoing_swapcoins.deep_view()[w].multisig_redeemscript
                    != coin@.multisig_redeemscript);
            }
        }
        self.outgoing_swapcoins.push(coin);
        proof {
            let after = self.outgoing_swapcoins.deep_view();
            assert(after =~= before + seq![coin@]);
            assert forall|a: int, b: int| 0 <= a < b < after.len() implies after[
                a
            ].multisig_redeemscript != after[b].multisig_redeemscript by {
                if b < before.len() {
                    assert(after[a] == before[a] && after[b] == before[b]);
                } else {
                    assert(after[a] == before[a] && after[b] == coin@);
                }
            }
        }
        Ok(())
    }
}

} // verus!
