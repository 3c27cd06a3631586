//! The two watchdog decisions: dropping peers that went idle mid-swap, and
//! reacting to a contract transaction seen on chain or in the mempool.
//!
//! Each pass inspects the connection-state store, assembles the recovery
//! payload for every peer it condemns — the fully signed contract
//! transactions in both directions, and for each outgoing contract its
//! relative timelock and prepared timelock-spend — removes those peers from
//! the store, and hands the payloads back for the recovery engine. A swapcoin
//! whose counterparty signature is not yet known is skipped: the protocol had
//! not progressed far enough to require action for that coin.

use vstd::prelude::*;

use crate::chain::{bytes_eq, Transaction, TransactionV};
use crate::script::spec_contract_locktime;
use crate::store::{ConnectionStateV, ConnectionStore, PeerEntry, PeerEntryV};
use crate::swapcoins::{IncomingSwapCoinV, OutgoingSwapCoinV};
use crate::IDLE_TIMEOUT_SECS;

verus! {

/// Recovery payload for one outgoing contract: what to broadcast, and how to
/// sweep it after maturity.
#[derive(Debug)]
pub struct OutgoingRecovery {
    /// The multisig redeemscript identifying the swapcoin in the wallet.
    pub multisig_redeemscript: Vec<u8>,
    /// The fully signed contract transaction.
    pub contract_tx: Transaction,
    /// The contract's relative timelock, in blocks.
    pub timelock: u16,
    /// The prepared timelock-spend transaction.
    pub timelock_spend: Transaction,
}

/// Mathematical value of an [`OutgoingRecovery`].
pub struct OutgoingRecoveryV {
    pub multisig_redeemscript: Seq<u8>,
    pub contract_tx: TransactionV,
    pub timelock: u16,
    pub timelock_spend: TransactionV,
}

impl View for OutgoingRecovery {
    type V = OutgoingRecoveryV;

    open spec fn view(&self) -> OutgoingRecoveryV {
        OutgoingRecoveryV {
            multisig_redeemscript: self.multisig_redeemscript@,
            contract_tx: self.contract_tx@,
            timelock: self.timelock,
            timelock_spend: self.timelock_spend@,
        }
    }
}

impl DeepView for OutgoingRecovery {
    type V = OutgoingRecoveryV;

    open spec fn deep_view(&self) -> OutgoingRecoveryV {
        self.view()
    }
}

/// Recovery payload for one incoming contract.
#[derive(Debug)]
pub struct IncomingRecovery {
    /// The multisig redeemscript identifying the swapcoin in the wallet.
    pub multisig_redeemscript: Vec<u8>,
    /// The fully signed contract transaction.
    pub contract_tx: Transaction,
}

/// Mathematical value of an [`IncomingRecovery`].
pub struct IncomingRecoveryV {
    pub multisig_redeemscript: Seq<u8>,
    pub contract_tx: TransactionV,
}

impl View for IncomingRecovery {
    type V = IncomingRecoveryV;

    open spec fn view(&self) -> IncomingRecoveryV {
        IncomingRecoveryV {
            multisig_redeemscript: self.multisig_redeemscript@,
            contract_tx: self.contract_tx@,
        }
    }
}

impl DeepView for IncomingRecovery {
    type V = IncomingRecoveryV;

    open spec fn deep_view(&self) -> IncomingRecoveryV {
        self.view()
    }
}

/// Everything the recovery engine needs for one condemned peer.
#[derive(Debug)]
pub struct RecoveryTrigger {
    /// The condemned peer.
    pub peer: u128,
    /// Payloads for the outgoing contracts, in swapcoin order.
    pub outgoings: Vec<OutgoingRecovery>,
    /// Payloads for the incoming contracts, in swapcoin order.
    pub incomings: Vec<IncomingRecovery>,
}

/// Mathematical value of a [`RecoveryTrigger`].
pub struct RecoveryTriggerV {
    pub peer: u128,
    pub outgoings: Seq<OutgoingRecoveryV>,
    pub incomings: Seq<IncomingRecoveryV>,
}

impl View for RecoveryTrigger {
    type V = RecoveryTriggerV;

    open spec fn view(&self) -> RecoveryTriggerV {
        RecoveryTriggerV {
            peer: self.peer,
            outgoings: self.outgoings.deep_view(),
            incomings: self.incomings.deep_view(),
        }
    }
}

impl DeepView for RecoveryTrigger {
    type V = RecoveryTriggerV;

    open spec fn deep_view(&self) -> RecoveryTriggerV {
        self.view()
    }
}

/// The recovery payload of one outgoing swapcoin.
pub open spec fn spec_outgoing_recovery(c: OutgoingSwapCoinV) -> OutgoingRecoveryV {
    OutgoingRecoveryV {
        multisig_redeemscript: c.multisig_redeemscript,
        contract_tx: c.contract_tx,
        timelock: spec_contract_locktime(c.contract_redeemscript) as u16,
        timelock_spend: c.timelock_spend_tx,
    }
}

/// Payloads of the first `n` outgoing swapcoins whose counterparty signature
/// is known.
pub open spec fn spec_recovery_outgoings(out: Seq<OutgoingSwapCoinV>, n: int) -> Seq<
    OutgoingRecoveryV,
>
    decreases n,
{
    if n <= 0 {
        Seq::empty()
    } else {
        let prefix = spec_recovery_outgoings(out, n - 1);
        if out[n - 1].others_contract_sig is Some {
            prefix.push(spec_outgoing_recovery(out[n - 1]))
        } else {
            prefix
        }
    }
}

/// Payloads of the first `n` incoming swapcoins whose counterparty signature
/// is known.
pub open spec fn spec_recovery_incomings(inc: Seq<IncomingSwapCoinV>, n: int) -> Seq<
    IncomingRecoveryV,
>
    decreases n,
{
    if n <= 0 {
        Seq::empty()
    } else {
        let prefix = spec_recovery_incomings(inc, n - 1);
        if inc[n - 1].others_contract_sig is Some {
            prefix.push(
                IncomingRecoveryV {
                    multisig_redeemscript: inc[n - 1].multisig_redeemscript,
                    contract_tx: inc[n - 1].contract_tx,
                },
            )
        } else {
            prefix
        }
    }
}

/// Number of index-paired swapcoin positions of a connection state.
pub open spec fn spec_paired_len(s: ConnectionStateV) -> int {
    if s.outgoing_swapcoins.len() <= s.incoming_swapcoins.len() {
        s.outgoing_swapcoins.len() as int
    } else {
        s.incoming_swapcoins.len() as int
    }
}

/// The recovery trigger assembled for one condemned peer: the signed
/// contracts of its paired swapcoin positions, in both directions.
pub open spec fn spec_trigger_of(e: PeerEntryV) -> RecoveryTriggerV {
    RecoveryTriggerV {
        peer: e.peer,
        outgoings: spec_recovery_outgoings(e.state.outgoing_swapcoins, spec_paired_len(e.state)),
        incomings: spec_recovery_incomings(e.state.incoming_swapcoins, spec_paired_len(e.state)),
    }
}

/// Assembles the recovery payload of one peer's connection state: the signed
/// contracts of the index-paired positions, unsigned ones skipped.
pub fn build_recovery_payload(state: &crate::store::ConnectionState) -> (r: (
    Vec<OutgoingRecovery>,
    Vec<IncomingRecovery>,
))
    requires
        state@.wf(),
    ensures
        r.0.deep_view() == spec_recovery_outgoings(
            state@.outgoing_swapcoins,
            spec_paired_len(state@),
        ),
        r.1.deep_view() == spec_recovery_incomings(
            state@.incoming_swapcoins,
            spec_paired_len(state@),
        ),
{
    let pairs: usize = if state.outgoing_swapcoins.len() <= state.incoming_swapcoins.len() {
        state.outgoing_swapcoins.len()
    } else {
        state.incoming_swapcoins.len()
    };
    let mut outgoings: Vec<OutgoingRecovery> = Vec::new();
    let mut incomings: Vec<IncomingRecovery> = Vec::new();
    let mut k: usize = 0;
    while k < pairs
        invariant
            state@.wf(),
            pairs <= state.outgoing_swapcoins.len(),
            pairs <= state.incoming_swapcoins.len(),
            pairs as int == spec_paired_len(state@),
            k <= pairs,
            outgoings.deep_view() == spec_recovery_outgoings(state@.outgoing_swapcoins, k as int),
            incomings.deep_view() == spec_recovery_incomings(state@.incoming_swapcoins, k as int),
        decreases pairs - k,
    {
        let og = &state.outgoing_swapcoins[k];
        let ghost out_before = outgoings.deep_view();
        match og.get_fully_signed_contract_tx() {
            Ok(contract_tx) => {
                let timelock = match og.get_timelock() {
                    Ok(l) => l,
                    Err(_) => {
                        proof {
                            assert(false);
                        }
                        0
                    },
                };
                let payload = OutgoingRecovery {
                    multisig_redeemscript: og.get_multisig_redeemscript(),
                    contract_tx,
                    timelock,
                    timelock_spend: og.create_timelock_spend(),
                };
                proof {
                    let c = state@.outgoing_swapcoins[k as int];
                    assert(0 <= spec_contract_locktime(c.contract_redeemscript) < 0x10000);
                    assert(payload@ == spec_outgoing_recovery(c));
                }
                outgoings.push(payload);
                proof {
                    assert(outgoings.deep_view() =~= out_before.push(
                        spec_outgoing_recovery(state@.outgoing_swapcoins[k as int]),
                    ));
                }
            },
            Err(_) => {},
        }
        let ic = &state.incoming_swapcoins[k];
        let ghost in_before = incomings.deep_view();
        match ic.get_fully_signed_contract_tx() {
            Ok(contract_tx) => {
                let payload = IncomingRecovery {
                    multisig_redeemscript: ic.get_multisig_redeemscript(),
                    contract_tx,
                };
                incomings.push(payload);
                proof {
                    assert(incomings.deep_view() =~= in_before.push(
                        IncomingRecoveryV {
                            multisig_redeemscript: state@.incoming_swapcoins[
                                k as int
                            ].multisig_redeemscript,
                            contract_tx: state@.incoming_swapcoins[k as int].contract_tx,
                        },
                    ));
                }
            },
            Err(_) => {},
        }
        k += 1;
    }
    (outgoings, incomings)
}

/// Triggers for the flagged entries among the first `n`, in store order.
pub open spec fn spec_flagged_triggers(entries: Seq<PeerEntryV>, flags: Seq<bool>, n: int) -> Seq<
    RecoveryTriggerV,
>
    decreases n,
{
    if n <= 0 {
        Seq::empty()
    } else {
        let prefix = spec_flagged_triggers(entries, flags, n - 1);
        if flags[n - 1] {
            prefix.push(spec_trigger_of(entries[n - 1]))
        } else {
            prefix
        }
    }
}

/// The unflagged entries among the first `n`, in store order.
pub open spec fn spec_unflagged_kept(entries: Seq<PeerEntryV>, flags: Seq<bool>, n: int) -> Seq<
    PeerEntryV,
>
    decreases n,
{
    if n <= 0 {
        Seq::empty()
    } else {
        let prefix = spec_unflagged_kept(entries, flags, n - 1);
        if flags[n - 1] {
            prefix
        } else {
            prefix.push(entries[n - 1])
        }
    }
}

/// Whether `e` is one of the first `n` entries and unflagged.
pub open spec fn spec_kept_from(
    entries: Seq<PeerEntryV>,
    flags: Seq<bool>,
    n: int,
    e: PeerEntryV,
) -> bool {
    exists|i: int| 0 <= i < n && e == #[trigger] entries[i] && !flags[i]
}

/// Whether `tr` is the trigger of one of the first `n` entries, flagged.
pub open spec fn spec_trigger_from(
    entries: Seq<PeerEntryV>,
    flags: Seq<bool>,
    n: int,
    tr: RecoveryTriggerV,
) -> bool {
    exists|i: int| 0 <= i < n && tr == spec_trigger_of(#[trigger] entries[i]) && flags[i]
}

/// Whether some trigger in `ts` names `peer`.
pub open spec fn spec_triggers_contain(ts: Seq<RecoveryTriggerV>, peer: u128) -> bool {
    exists|t: int| 0 <= t < ts.len() && #[trigger] ts[t].peer == peer
}

/// Every kept entry is one of the original entries, unflagged.
pub proof fn lemma_kept_is_subset(entries: Seq<PeerEntryV>, flags: Seq<bool>, n: int)
    requires
        n <= entries.len(),
    ensures
        forall|a: int|
            0 <= a < spec_unflagged_kept(entries, flags, n).len() ==> spec_kept_from(
                entries,
                flags,
                n,
                #[trigger] spec_unflagged_kept(entries, flags, n)[a],
            ),
    decreases n,
{
    if n > 0 {
        lemma_kept_is_subset(entries, flags, n - 1);
        let prev = spec_unflagged_kept(entries, flags, n - 1);
        let cur = spec_unflagged_kept(entries, flags, n);
        assert forall|a: int| 0 <= a < cur.len() implies spec_kept_from(
            entries,
            flags,
            n,
            cur[a],
        ) by {
            if a < prev.len() {
                assert(spec_kept_from(entries, flags, n - 1, prev[a]));
                let i = choose|i: int| 0 <= i < n - 1 && prev[a] == entries[i] && !flags[i];
                assert(cur[a] == entries[i]);
            } else {
                assert(!flags[n - 1] && cur[a] == entries[n - 1]);
            }
        }
    }
}

/// Every unflagged entry survives the pass: its record appears, unchanged,
/// among the kept entries.
pub proof fn lemma_unflagged_all_kept(entries: Seq<PeerEntryV>, flags: Seq<bool>, n: int)
    requires
        n <= entries.len(),
    ensures
        forall|i: int|
            0 <= i < n && !flags[i] ==> exists|a: int|
                0 <= a < spec_unflagged_kept(entries, flags, n).len()
                    && spec_unflagged_kept(entries, flags, n)[a] == #[trigger] entries[i],
    decreases n,
{
    if n > 0 {
        lemma_unflagged_all_kept(entries, flags, n - 1);
        let prev = spec_unflagged_kept(entries, flags, n - 1);
        let cur = spec_unflagged_kept(entries, flags, n);
        assert forall|i: int| 0 <= i < n && !flags[i] implies exists|a: int|
            0 <= a < cur.len() && cur[a] == entries[i] by {
            if i < n - 1 {
                let a = choose|a: int| 0 <= a < prev.len() && prev[a] == entries[i];
                assert(cur[a] == entries[i]);
            } else {
                assert(cur[cur.len() - 1] == entries[n - 1]);
            }
        }
    }
}

/// Every trigger among the first `n` is the trigger of some flagged entry.
pub proof fn lemma_triggers_are_of_flagged(entries: Seq<PeerEntryV>, flags: Seq<bool>, n: int)
    requires
        n <= entries.len(),
    ensures
        forall|t: int|
            0 <= t < spec_flagged_triggers(entries, flags, n).len() ==> spec_trigger_from(
                entries,
                flags,
                n,
                #[trigger] spec_flagged_triggers(entries, flags, n)[t],
            ),
    decreases n,
{
    if n > 0 {
        lemma_triggers_are_of_flagged(entries, flags, n - 1);
        let prev = spec_flagged_triggers(entries, flags, n - 1);
        let cur = spec_flagged_triggers(entries, flags, n);
        assert forall|t: int| 0 <= t < cur.len() implies spec_trigger_from(
            entries,
            flags,
            n,
            cur[t],
        ) by {
            if t < prev.len() {
                assert(spec_trigger_from(entries, flags, n - 1, prev[t]));
                let i = choose|i: int|
                    0 <= i < n - 1 && prev[t] == spec_trigger_of(entries[i]) && flags[i];
                assert(cur[t] == spec_trigger_of(entries[i]));
            } else {
                assert(flags[n - 1] && cur[t] == spec_trigger_of(entries[n - 1]));
            }
        }
    }
}

/// A flagged peer appears among the triggers, an unflagged one does not —
/// provided peers are distinct.
pub proof fn lemma_flagged_triggers_complete(entries: Seq<PeerEntryV>, flags: Seq<bool>, n: int)
    requires
        n <= entries.len(),
        forall|i: int, j: int| 0 <= i < j < entries.len() ==> entries[i].peer != entries[j].peer,
    ensures
        forall|i: int|
            0 <= i < n ==> (#[trigger] flags[i] <==> spec_triggers_contain(
                spec_flagged_triggers(entries, flags, n),
                entries[i].peer,
            )),
    decreases n,
{
    if n > 0 {
        lemma_flagged_triggers_complete(entries, flags, n - 1);
        lemma_triggers_are_of_flagged(entries, flags, n - 1);
        let prev = spec_flagged_triggers(entries, flags, n - 1);
        let cur = spec_flagged_triggers(entries, flags, n);
        assert forall|i: int| 0 <= i < n implies (flags[i] <==> spec_triggers_contain(
            cur,
            entries[i].peer,
        )) by {
            if i < n - 1 {
                if flags[i] {
                    assert(spec_triggers_contain(prev, entries[i].peer));
                    let t = choose|t: int| 0 <= t < prev.len() && prev[t].peer == entries[i].peer;
                    assert(cur[t].peer == entries[i].peer);
                    assert(spec_triggers_contain(cur, entries[i].peer));
                } else {
                    if spec_triggers_contain(cur, entries[i].peer) {
                        let t = choose|t: int| 0 <= t < cur.len() && cur[t].peer == entries[i].peer;
                        if flags[n - 1] && t == cur.len() - 1 {
                            assert(cur[t].peer == entries[n - 1].peer);
                            assert(entries[i].peer != entries[n - 1].peer);
                        } else {
                            assert(cur[t] == prev[t]);
                            assert(spec_triggers_contain(prev, entries[i].peer));
                        }
                        assert(false);
                    }
                }
            } else {
                if flags[n - 1] {
                    assert(cur[cur.len() - 1].peer == entries[n - 1].peer);
                    assert(spec_triggers_contain(cur, entries[i].peer));
                } else {
                    if spec_triggers_contain(cur, entries[i].peer) {
                        let t = choose|t: int| 0 <= t < cur.len() && cur[t].peer == entries[i].peer;
                        assert(spec_trigger_from(entries, flags, n - 1, prev[t]));
                        let w = choose|w: int|
                            0 <= w < n - 1 && prev[t] == spec_trigger_of(entries[w]) && flags[w];
                        assert(entries[w].peer != entries[n - 1].peer);
                        assert(false);
                    }
                }
            }
        }
    }
}

/// Condemns the flagged peers: removes them from the store and returns their
/// recovery triggers, leaving every other peer's record untouched, in order.
pub fn sweep_flagged(store: &mut ConnectionStore, flags: &Vec<bool>) -> (triggers: Vec<
    RecoveryTrigger,
>)
    requires
        old(store).wf(),
        flags@.len() == old(store)@.len(),
    ensures
        final(store).wf(),
        triggers.deep_view() == spec_flagged_triggers(
            old(store)@,
            flags@,
            old(store)@.len() as int,
        ),
        final(store)@ == spec_unflagged_kept(old(store)@, flags@, old(store)@.len() as int),
{
    let n = store.entries.len();
    let mut kept: Vec<PeerEntry> = Vec::new();
    let mut triggers: Vec<RecoveryTrigger> = Vec::new();
    let mut k: usize = 0;
    while k < n
        invariant
            old(store).wf(),
            *store == *old(store),
            flags@.len() == old(store)@.len(),
            n == store.entries.len(),
            k <= n,
            triggers.deep_view() == spec_flagged_triggers(store@, flags@, k as int),
            kept.deep_view() == spec_unflagged_kept(store@, flags@, k as int),
        decreases n - k,
    {
        let e = &store.entries[k];
        if flags[k] {
            let (outgoings, incomings) = build_recovery_payload(&e.state);
            let trigger = RecoveryTrigger { peer: e.peer, outgoings, incomings };
            let ghost t_before = triggers.deep_view();
            proof {
                assert(store@[k as int].state.wf());
                assert(trigger@ == spec_trigger_of(store@[k as int]));
            }
            triggers.push(trigger);
            proof {
                assert(triggers.deep_view() =~= t_before.push(spec_trigger_of(store@[k as int])));
            }
        } else {
            let ghost k_before = kept.deep_view();
            kept.push(e.clone());
            proof {
                assert(kept.deep_view() =~= k_before.push(store@[k as int]));
            }
        }
        k += 1;
    }
    let ghost old_view = store@;
    store.entries = kept;
    proof {
        assert(store@ == spec_unflagged_kept(old_view, flags@, n as int));
        lemma_kept_is_subset(old_view, flags@, n as int);
        lemma_kept_distinct_indexes(old_view, flags@, n as int);
        let cur = store@;
        assert forall|a: int| 0 <= a < cur.len() implies cur[a].state.wf() by {
            assert(spec_kept_from(old_view, flags@, n as int, cur[a]));
            let i = choose|i: int| 0 <= i < n && cur[a] == old_view[i] && !flags@[i];
            assert(old_view[i].state.wf());
        }
    }
    triggers
}

/// A store with distinct peers keeps them distinct.
pub proof fn lemma_kept_distinct_indexes(entries: Seq<PeerEntryV>, flags: Seq<bool>, n: int)
    requires
        n <= entries.len(),
        forall|i: int, j: int| 0 <= i < j < entries.len() ==> entries[i].peer != entries[j].peer,
    ensures
        forall|a: int, b: int|
            0 <= a < b < spec_unflagged_kept(entries, flags, n).len()
                ==> #[trigger] spec_unflagged_kept(entries, flags, n)[a].peer
                != #[trigger] spec_unflagged_kept(entries, flags, n)[b].peer,
    decreases n,
{
    if n > 0 {
        lemma_kept_distinct_indexes(entries, flags, n - 1);
        lemma_kept_is_subset(entries, flags, n - 1);
        let prev = spec_unflagged_kept(entries, flags, n - 1);
        let cur = spec_unflagged_kept(entries, flags, n);
        assert forall|a: int, b: int| 0 <= a < b < cur.len() implies cur[a].peer != cur[b].peer by {
            if b < prev.len() {
                assert(cur[a] == prev[a] && cur[b] == prev[b]);
                assert(prev[a].peer != prev[b].peer);
            } else {
                assert(!flags[n - 1] && cur[a] == prev[a] && cur[b] == entries[n - 1]);
                assert(spec_kept_from(entries, flags, n - 1, prev[a]));
                let i = choose|i: int| 0 <= i < n - 1 && prev[a] == entries[i] && !flags[i];
                assert(entries[i].peer != entries[n - 1].peer);
            }
        }
    }
}

/// Over an empty store a watchdog pass is a no-op: it triggers no recovery
/// and leaves the store empty.
pub proof fn lemma_pass_over_empty_store(entries: Seq<PeerEntryV>, flags: Seq<bool>)
    requires
        entries.len() == 0,
    ensures
        spec_flagged_triggers(entries, flags, entries.len() as int) =~= Seq::<
            RecoveryTriggerV,
        >::empty(),
        spec_unflagged_kept(entries, flags, entries.len() as int) =~= entries,
{
}

/// The idle boundary: with an in-flight swap, a peer silent for strictly
/// more than the timeout is condemned, one silent for the timeout or less is
/// not.
pub proof fn lemma_idle_boundary(e: PeerEntryV, now: u64)
    requires
        e.state.incoming_swapcoins.len() > 0,
        e.state.outgoing_swapcoins.len() > 0,
    ensures
        now - e.last_seen > IDLE_TIMEOUT_SECS ==> spec_idle_triggered(e, now),
        now - e.last_seen <= IDLE_TIMEOUT_SECS ==> !spec_idle_triggered(e, now),
{
}

/// Whether a peer record has gone idle past the timeout with an in-flight
/// swap: strictly more than the idle timeout since its last message, and at
/// least one swapcoin in each direction.
pub open spec fn spec_idle_triggered(e: PeerEntryV, now: u64) -> bool {
    &&& now - e.last_seen > IDLE_TIMEOUT_SECS
    &&& e.state.incoming_swapcoins.len() > 0
    &&& e.state.outgoing_swapcoins.len() > 0
}

/// Flags every peer the idle detector condemns at time `now`.
pub fn idle_flags(store: &ConnectionStore, now: u64) -> (flags: Vec<bool>)
    ensures
        flags@.len() == store@.len(),
        forall|i: int| 0 <= i < store@.len() ==> flags@[i] == spec_idle_triggered(store@[i], now),
{
    let n = store.entries.len();
    let mut flags: Vec<bool> = Vec::new();
    let mut k: usize = 0;
    while k < n
        invariant
            n == store.entries.len(),
            k <= n,
            flags@.len() == k,
            forall|i: int| 0 <= i < k ==> flags@[i] == spec_idle_triggered(store@[i], now),
        decreases n - k,
    {
        let e = &store.entries[k];
        let idle = now > e.last_seen && now - e.last_seen > IDLE_TIMEOUT_SECS;
        let flagged = idle && e.state.incoming_swapcoins.len() > 0
            && e.state.outgoing_swapcoins.len() > 0;
        flags.push(flagged);
        k += 1;
    }
    flags
}

/// One pass of the idle detector over the store at time `now`: every peer
/// silent for strictly more than the idle timeout with an in-flight swap is
/// removed and handed to recovery; every other record is untouched.
pub fn idle_pass(store: &mut ConnectionStore, now: u64) -> (triggers: Vec<RecoveryTrigger>)
    requires
        old(store).wf(),
    ensures
        final(store).wf(),
        triggers.deep_view() == spec_flagged_triggers(
            old(store)@,
            Seq::new(old(store)@.len(), |i: int| spec_idle_triggered(old(store)@[i], now)),
            old(store)@.len() as int,
        ),
        final(store)@ == spec_unflagged_kept(
            old(store)@,
            Seq::new(old(store)@.len(), |i: int| spec_idle_triggered(old(store)@[i], now)),
            old(store)@.len() as int,
        ),
{
    let flags = idle_flags(store, now);
    let triggers = sweep_flagged(store, &flags);
    proof {
        assert(flags@ =~= Seq::new(
            old(store)@.len(),
            |i: int| spec_idle_triggered(old(store)@[i], now),
        ));
    }
    triggers
}

/// Whether one of the watched contract transactions of this peer's swap is
/// among the transactions the node reports as seen.
pub open spec fn spec_contract_observed(e: PeerEntryV, visible: Seq<Seq<u8>>) -> bool {
    ||| exists|k: int|
        0 <= k < e.state.incoming_swapcoins.len() && visible.contains(
            e.state.incoming_swapcoins[k].contract_tx.txid,
        )
    ||| exists|k: int|
        0 <= k < e.state.outgoing_swapcoins.len() && visible.contains(
            e.state.outgoing_swapcoins[k].contract_tx.txid,
        )
}

/// Whether `txid` is among the transactions reported seen.
fn txid_visible(txid: &Vec<u8>, visible: &Vec<Vec<u8>>) -> (r: bool)
    ensures
        r == visible.deep_view().contains(txid@),
{
    let n = visible.len();
    let mut i: usize = 0;
    while i < n
        invariant
            n == visible.len(),
            i <= n,
            forall|j: int| 0 <= j < i ==> visible.deep_view()[j] != txid@,
        decreases n - i,
    {
        let hit = bytes_eq(&visible[i], txid);
        proof {
            assert(visible.deep_view()[i as int] == visible@[i as int]@);
        }
        if hit {
            assert(visible.deep_view()[i as int] == txid@);
            return true;
        }
        i += 1;
    }
    assert(forall|j: int|
        0 <= j < visible.deep_view().len() ==> visible.deep_view()[j] != txid@);
    false
}

/// Flags every peer one of whose contract transactions has been seen.
pub fn observed_flags(store: &ConnectionStore, visible: &Vec<Vec<u8>>) -> (flags: Vec<bool>)
    ensures
        flags@.len() == store@.len(),
        forall|i: int|
            0 <= i < store@.len() ==> flags@[i] == spec_contract_observed(
                store@[i],
                visible.deep_view(),
            ),
{
    let n = store.entries.len();
    let mut flags: Vec<bool> = Vec::new();
    let mut k: usize = 0;
    while k < n
        invariant
            n == store.entries.len(),
            k <= n,
            flags@.len() == k,
            forall|i: int|
                0 <= i < k ==> flags@[i] == spec_contract_observed(
                    store@[i],
                    visible.deep_view(),
                ),
        decreases n - k,
    {
        let e = &store.entries[k];
        let mut seen = false;
        let in_len = e.state.incoming_swapcoins.len();
        let mut a: usize = 0;
        while a < in_len
            invariant
                in_len == e.state.incoming_swapcoins.len(),
                a <= in_len,
                seen ==> spec_contract_observed(e@, visible.deep_view()),
                !seen ==> forall|j: int|
                    0 <= j < a ==> !visible.deep_view().contains(
                        e@.state.incoming_swapcoins[j].contract_tx.txid,
                    ),
            decreases in_len - a,
        {
            if !seen && txid_visible(&e.state.incoming_swapcoins[a].contract_tx.txid, visible) {
                proof {
                    assert(visible.deep_view().contains(
                        e@.state.incoming_swapcoins[a as int].contract_tx.txid,
                    ));
                }
                seen = true;
            }
            a += 1;
        }
        let out_len = e.state.outgoing_swapcoins.len();
        let mut b: usize = 0;
        while b < out_len
            invariant
                out_len == e.state.outgoing_swapcoins.len(),
                b <= out_len,
                seen ==> spec_contract_observed(e@, visible.deep_view()),
                !seen ==> forall|j: int|
                    0 <= j < e@.state.incoming_swapcoins.len() ==> !visible.deep_view().contains(
                        e@.state.incoming_swapcoins[j].contract_tx.txid,
                    ),
                !seen ==> forall|j: int|
                    0 <= j < b ==> !visible.deep_view().contains(
                        e@.state.outgoing_swapcoins[j].contract_tx.txid,
                    ),
            decreases out_len - b,
        {
            if !seen && txid_visible(&e.state.outgoing_swapcoins[b].contract_tx.txid, visible) {
                proof {
                    assert(visible.deep_view().contains(
                        e@.state.outgoing_swapcoins[b as int].contract_tx.txid,
                    ));
                }
                seen = true;
            }
            b += 1;
        }
        proof {
            assert(e@ == store@[k as int]);
        }
        flags.push(seen);
        k += 1;
    }
    flags
}

/// One pass of the contract observer: every peer one of whose watched
/// contract transactions the node reports as seen is removed and handed to
/// recovery; one sighting condemns all of the peer's swapcoins.
pub fn contract_observer_pass(store: &mut ConnectionStore, visible: &Vec<Vec<u8>>) -> (triggers:
    Vec<RecoveryTrigger>)
    requires
        old(store).wf(),
    ensures
        final(store).wf(),
        triggers.deep_view() == spec_flagged_triggers(
            old(store)@,
            Seq::new(
                old(store)@.len(),
                |i: int| spec_contract_observed(old(store)@[i], visible.deep_view()),
            ),
            old(store)@.len() as int,
        ),
        final(store)@ == spec_unflagged_kept(
            old(store)@,
            Seq::new(
                old(store)@.len(),
                |i: int| spec_contract_observed(old(store)@[i], visible.deep_view()),
            ),
            old(store)@.len() as int,
        ),
{
    let flags = observed_flags(store, visible);
    let triggers = sweep_flagged(store, &flags);
    proof {
        assert(flags@ =~= Seq::new(
            old(store)@.len(),
            |i: int| spec_contract_observed(old(store)@[i], visible.deep_view()),
        ));
    }
    triggers
}

/// The contract-transaction ids a watchdog must query the node for: those of
/// every incoming and every outgoing swapcoin of this connection.
pub open spec fn spec_watched_txids(s: ConnectionStateV) -> Seq<Seq<u8>> {
    s.incoming_swapcoins.map_values(|c: IncomingSwapCoinV| c.contract_tx.txid)
        + s.outgoing_swapcoins.map_values(|c: OutgoingSwapCoinV| c.contract_tx.txid)
}

/// Collects the contract-transaction ids to watch for one connection.
pub fn watched_txids(state: &crate::store::ConnectionState) -> (r: Vec<Vec<u8>>)
    ensures
        r.deep_view() == spec_watched_txids(state@),
{
    let mut r: Vec<Vec<u8>> = Vec::new();
    let in_len = state.incoming_swapcoins.len();
    let mut a: usize = 0;
    while a < in_len
        invariant
            in_len == state.incoming_swapcoins.len(),
            a <= in_len,
            r.deep_view() =~= state@.incoming_swapcoins.map_values(
                |c: IncomingSwapCoinV| c.contract_tx.txid,
            ).subrange(0, a as int),
        decreases in_len - a,
    {
        let ghost before = r.deep_view();
        let tx = state.incoming_swapcoins[a].contract_tx.txid.clone();
        proof {
            assert(tx@ == state@.incoming_swapcoins[a as int].contract_tx.txid);
        }
        r.push(tx);
        proof {
            assert(r.deep_view() =~~= before.push(
                state@.incoming_swapcoins[a as int].contract_tx.txid,
            ));
            assert(r.deep_view() =~~= state@.incoming_swapcoins.map_values(
                |c: IncomingSwapCoinV| c.contract_tx.txid,
            ).subrange(0, a + 1 as int));
        }
        a += 1;
    }
    let ghost in_part = r.deep_view();
    proof {
        assert(in_part =~= state@.incoming_swapcoins.map_values(
            |c: IncomingSwapCoinV| c.contract_tx.txid,
        ));
    }
    let out_len = state.outgoing_swapcoins.len();
    let mut b: usize = 0;
    while b < out_len
        invariant
            out_len == state.outgoing_swapcoins.len(),
            b <= out_len,
            r.deep_view() =~= in_part + state@.outgoing_swapcoins.map_values(
                |c: OutgoingSwapCoinV| c.contract_tx.txid,
            ).subrange(0, b as int),
        decreases out_len - b,
    {
        let ghost before = r.deep_view();
        let tx = state.outgoing_swapcoins[b].contract_tx.txid.clone();
        proof {
            assert(tx@ == state@.outgoing_swapcoins[b as int].contract_tx.txid);
        }
        r.push(tx);
        proof {
            assert(r.deep_view() =~~= before.push(
                state@.outgoing_swapcoins[b as int].contract_tx.txid,
            ));
            assert(r.deep_view() =~~= in_part + state@.outgoing_swapcoins.map_values(
                |c: OutgoingSwapCoinV| c.contract_tx.txid,
            ).subrange(0, b + 1 as int));
        }
        b += 1;
    }
    proof {
        assert(r.deep_view() =~= spec_watched_txids(state@));
    }
    r
}

} // verus!
