//! The recovery engine: unilateral exit from a failed swap.
//!
//! Driven by the surrounding process, one session per trigger: broadcast the
//! incoming and outgoing contract transactions (tolerating ones the node
//! already knows), remove the incoming swapcoins, then poll until every
//! outgoing contract has matured past its relative timelock, broadcasting
//! each prepared timelock-spend exactly once, and finally remove the outgoing
//! swapcoins from the wallet.

use vstd::prelude::*;

use crate::chain::{Transaction, TransactionV};
use crate::wallet::{spec_has_incoming, spec_has_outgoing, Wallet, WalletError};
use crate::watchdog::{OutgoingRecoveryV, RecoveryTrigger};

verus! {

/// What to do with a contract transaction the engine must get on chain.
#[derive(Debug, Clone, Copy, PartialEq, Eq, Structural)]
pub enum BroadcastAction {
    /// The node already knows the transaction: skip, it is not an error.
    AlreadyBroadcast,
    /// The node does not know it yet: send it.
    Broadcast,
}

/// Decides how to get a contract transaction on chain: one the node already
/// reports is left alone, any other is sent. Re-broadcasting is thereby
/// idempotent across transient node failures.
pub fn broadcast_decision(already_known: bool) -> (r: BroadcastAction)
    ensures
        r == BroadcastAction::AlreadyBroadcast <==> already_known,
        r == BroadcastAction::Broadcast <==> !already_known,
{
    if already_known {
        BroadcastAction::AlreadyBroadcast
    } else {
        BroadcastAction::Broadcast
    }
}

/// Whether an outgoing contract with relative timelock `timelock` has matured
/// under the confirmation count the node reported for it: `None` while the
/// contract is not confirmed at all.
pub open spec fn spec_matured(conf: Option<u64>, timelock: u16) -> bool {
    match conf {
        Some(c) => c >= timelock as u64,
        None => false,
    }
}

/// Whether a sweep fires for position `i` this pass: not yet swept, and the
/// contract has matured.
pub open spec fn spec_sweep_fires(
    outgoings: Seq<OutgoingRecoveryV>,
    swept: Seq<bool>,
    confs: Seq<Option<u64>>,
    i: int,
) -> bool {
    !swept[i] && spec_matured(confs[i], outgoings[i].timelock)
}

/// The timelock-spends fired among the first `n` positions, in order.
pub open spec fn spec_fired_spends(
    outgoings: Seq<OutgoingRecoveryV>,
    swept: Seq<bool>,
    confs: Seq<Option<u64>>,
    n: int,
) -> Seq<TransactionV>
    decreases n,
{
    if n <= 0 {
        Seq::empty()
    } else {
        let prefix = spec_fired_spends(outgoings, swept, confs, n - 1);
        if spec_sweep_fires(outgoings, swept, confs, n - 1) {
            prefix.push(outgoings[n - 1].timelock_spend)
        } else {
            prefix
        }
    }
}

/// One recovery session: the trigger it serves and which outgoing positions
/// have had their timelock-spend broadcast.
pub struct RecoverySession {
    /// The condemned peer's recovery payload.
    pub trigger: RecoveryTrigger,
    /// Per outgoing position: whether its timelock-spend has been broadcast.
    pub swept: Vec<bool>,
}

impl RecoverySession {
    /// One sweep flag per outgoing position.
    pub open spec fn wf(self) -> bool {
        self.swept@.len() == self.trigger@.outgoings.len()
    }

    /// Starts a session: nothing swept yet.
    pub fn new(trigger: RecoveryTrigger) -> (r: Self)
        ensures
            r.wf(),
            r.trigger@ == trigger@,
            forall|i: int| 0 <= i < r.swept@.len() ==> !r.swept@[i],
    {
        let n = trigger.outgoings.len();
        let mut swept: Vec<bool> = Vec::new();
        let mut i: usize = 0;
        while i < n
            invariant
                i <= n,
                swept@.len() == i,
                forall|j: int| 0 <= j < i ==> !swept@[j],
            decreases n - i,
        {
            swept.push(false);
            i += 1;
        }
        RecoverySession { trigger, swept }
    }

    /// The incoming contract transactions to get on chain.
    pub fn incoming_contracts(&self) -> (r: Vec<Transaction>)
        ensures
            r.deep_view() =~= self.trigger@.incomings.map_values(
                |c: crate::watchdog::IncomingRecoveryV| c.contract_tx,
            ),
    {
        let n = self.trigger.incomings.len();
        let mut r: Vec<Transaction> = Vec::new();
        let mut i: usize = 0;
        while i < n
            invariant
                n == self.trigger.incomings.len(),
                i <= n,
                r.deep_view() =~= self.trigger@.incomings.map_values(
                    |c: crate::watchdog::IncomingRecoveryV| c.contract_tx,
                ).subrange(0, i as int),
            decreases n - i,
        {
            let ghost before = r.deep_view();
            r.push(self.trigger.incomings[i].contract_tx.clone());
            proof {
                assert(r.deep_view() =~= before.push(
                    self.trigger@.incomings[i as int].contract_tx,
                ));
                assert(r.deep_view() =~= self.trigger@.incomings.map_values(
                    |c: crate::watchdog::IncomingRecoveryV| c.contract_tx,
                ).subrange(0, i + 1 as int));
            }
            i += 1;
        }
        proof {
            assert(r.deep_view() =~= self.trigger@.incomings.map_values(
                |c: crate::watchdog::IncomingRecoveryV| c.contract_tx,
            ));
        }
        r
    }

    /// The outgoing contract transactions to get on chain.
    pub fn outgoing_contracts(&self) -> (r: Vec<Transaction>)
        ensures
            r.deep_view() =~= self.trigger@.outgoings.map_values(
                |c: OutgoingRecoveryV| c.contract_tx,
            ),
    {
        let n = self.trigger.outgoings.len();
        let mut r: Vec<Transaction> = Vec::new();
        let mut i: usize = 0;
        while i < n
            invariant
                n == self.trigger.outgoings.len(),
                i <= n,
                r.deep_view() =~= self.trigger@.outgoings.map_values(
                    |c: OutgoingRecoveryV| c.contract_tx,
                ).subrange(0, i as int),
            decreases n - i,
        {
            let ghost before = r.deep_view();
            r.push(self.trigger.outgoings[i].contract_tx.clone());
            proof {
                assert(r.deep_view() =~= before.push(
                    self.trigger@.outgoings[i as int].contract_tx,
                ));
                assert(r.deep_view() =~= self.trigger@.outgoings.map_values(
                    |c: OutgoingRecoveryV| c.contract_tx,
                ).subrange(0, i + 1 as int));
            }
            i += 1;
        }
        proof {
            assert(r.deep_view() =~= self.trigger@.outgoings.map_values(
                |c: OutgoingRecoveryV| c.contract_tx,
            ));
        }
        r
    }

    /// Removes every incoming swapcoin of the trigger from the wallet.
    ///
    /// Succeeds exactly when the wallet holds every incoming position the
    /// trigger names; afterwards none of them remains, and every position
    /// the trigger does not name is untouched.
    pub fn remove_incomings(&self, wallet: &mut Wallet) -> (r: Result<(), WalletError>)
        requires
            old(wallet).wf(),
            forall|a: int, b: int|
                0 <= a < b < self.trigger@.incomings.len()
                    ==> (#[trigger] self.trigger@.incomings[a]).multisig_redeemscript
                    != (#[trigger] self.trigger@.incomings[b]).multisig_redeemscript,
        ensures
            final(wallet).wf(),
            final(wallet).outgoing_swapcoins.deep_view() == old(
                wallet,
            ).outgoing_swapcoins.deep_view(),
            final(wallet).contract_cache@ == old(wallet).contract_cache@,
            final(wallet).tweakable_seckey@ == old(wallet).tweakable_seckey@,
            final(wallet).tweakable_pubkey@ == old(wallet).tweakable_pubkey@,
            r is Ok <==> (forall|k: int|
                0 <= k < self.trigger@.incomings.len() ==> spec_has_incoming(
                    old(wallet).incoming_swapcoins.deep_view(),
                    (#[trigger] self.trigger@.incomings[k]).multisig_redeemscript,
                )),
            r is Ok ==> forall|k: int|
                0 <= k < self.trigger@.incomings.len() ==> !spec_has_incoming(
                    final(wallet).incoming_swapcoins.deep_view(),
                    (#[trigger] self.trigger@.incomings[k]).multisig_redeemscript,
                ),
            forall|s: Seq<u8>|
                #![trigger spec_has_incoming(final(wallet).incoming_swapcoins.deep_view(), s)]
                (forall|j: int|
                    0 <= j < self.trigger@.incomings.len() ==> s
                        != (#[trigger] self.trigger@.incomings[j]).multisig_redeemscript)
                    ==> spec_has_incoming(final(wallet).incoming_swapcoins.deep_view(), s)
                    == spec_has_incoming(old(wallet).incoming_swapcoins.deep_view(), s),
    {
        let n = self.trigger.incomings.len();
        let mut k: usize = 0;
        while k < n
            invariant
                old(wallet).wf(),
                forall|a: int, b: int|
                    0 <= a < b < self.trigger@.incomings.len()
                        ==> (#[trigger] self.trigger@.incomings[a]).multisig_redeemscript
                        != (#[trigger] self.trigger@.incomings[b]).multisig_redeemscript,
                n == self.trigger.incomings.len(),
                k <= n,
                wallet.wf(),
                wallet.outgoing_swapcoins.deep_view() == old(
                    wallet,
                ).outgoing_swapcoins.deep_view(),
                wallet.contract_cache@ == old(wallet).contract_cache@,
                wallet.tweakable_seckey@ == old(wallet).tweakable_seckey@,
                wallet.tweakable_pubkey@ == old(wallet).tweakable_pubkey@,
                forall|j: int|
                    0 <= j < k ==> spec_has_incoming(
                        old(wallet).incoming_swapcoins.deep_view(),
                        (#[trigger] self.trigger@.incomings[j]).multisig_redeemscript,
                    ),
                forall|j: int|
                    0 <= j < k ==> !spec_has_incoming(
                        wallet.incoming_swapcoins.deep_view(),
                        (#[trigger] self.trigger@.incomings[j]).multisig_redeemscript,
                    ),
                forall|s: Seq<u8>|
                    #![trigger spec_has_incoming(wallet.incoming_swapcoins.deep_view(), s)]
                    (forall|j: int|
                        0 <= j < k ==> s
                            != (#[trigger] self.trigger@.incomings[j]).multisig_redeemscript)
                        ==> spec_has_incoming(wallet.incoming_swapcoins.deep_view(), s)
                        == spec_has_incoming(old(wallet).incoming_swapcoins.deep_view(), s),
            decreases n - k,
        {
            let ghost rs_k = self.trigger@.incomings[k as int].multisig_redeemscript;
            let ghost before = wallet.incoming_swapcoins.deep_view();
            proof {
                // this position's script differs from every one already
                // removed, so its presence now equals its presence at entry
                assert(spec_has_incoming(before, rs_k) == spec_has_incoming(
                    old(wallet).incoming_swapcoins.deep_view(),
                    rs_k,
                ));
            }
            match wallet.remove_incoming_swapcoin(&self.trigger.incomings[k].multisig_redeemscript) {
                Ok(_) => {},
                Err(e) => {
                    proof {
                        assert(!spec_has_incoming(
                            old(wallet).incoming_swapcoins.deep_view(),
                            rs_k,
                        ));
                    }
                    return Err(e);
                },
            }
            proof {
                assert forall|j: int| 0 <= j < k + 1 implies !spec_has_incoming(
                    wallet.incoming_swapcoins.deep_view(),
                    (#[trigger] self.trigger@.incomings[j]).multisig_redeemscript,
                ) by {
                    if j < k {
                        let rs_j = self.trigger@.incomings[j].multisig_redeemscript;
                        assert(rs_j != rs_k);
                        assert(spec_has_incoming(wallet.incoming_swapcoins.deep_view(), rs_j)
                            == spec_has_incoming(before, rs_j));
                    }
                }
                assert forall|s: Seq<u8>|
                    #![trigger spec_has_incoming(wallet.incoming_swapcoins.deep_view(), s)]
                    (forall|j: int|
                        0 <= j < k + 1 ==> s
                            != (#[trigger] self.trigger@.incomings[j]).multisig_redeemscript)
                        implies spec_has_incoming(wallet.incoming_swapcoins.deep_view(), s)
                        == spec_has_incoming(
                        old(wallet).incoming_swapcoins.deep_view(),
                        s,
                    ) by {
                    assert(s != rs_k);
                    assert(spec_has_incoming(wallet.incoming_swapcoins.deep_view(), s)
                        == spec_has_incoming(before, s));
                }
            }
            k += 1;
        }
        Ok(())
    }

    /// One maturity pass: `confs` holds, per outgoing position, the
    /// confirmation count the node reports for that contract transaction.
    ///
    /// Returns the timelock-spends to broadcast now: exactly those positions
    /// not yet swept whose contract has at least its relative timelock of
    /// confirmations. Each returned position is marked swept, so no
    /// timelock-spend is ever returned twice within a session.
    pub fn sweep_step(&mut self, confs: &Vec<Option<u64>>) -> (to_broadcast: Vec<Transaction>)
        requires
            old(self).wf(),
            confs@.len() == old(self).trigger@.outgoings.len(),
        ensures
            final(self).wf(),
            final(self).trigger@ == old(self).trigger@,
            forall|i: int|
                0 <= i < final(self).swept@.len() ==> final(self).swept@[i] == (old(self).swept@[i]
                    || spec_sweep_fires(old(self).trigger@.outgoings, old(self).swept@, confs@, i)),
            to_broadcast.deep_view() == spec_fired_spends(
                old(self).trigger@.outgoings,
                old(self).swept@,
                confs@,
                old(self).trigger@.outgoings.len() as int,
            ),
    {
        let n = self.trigger.outgoings.len();
        let mut to_broadcast: Vec<Transaction> = Vec::new();
        let mut i: usize = 0;
        while i < n
            invariant
                old(self).wf(),
                self.trigger@ == old(self).trigger@,
                n == self.trigger.outgoings.len(),
                confs@.len() == n,
                self.swept@.len() == n,
                i <= n,
                forall|j: int|
                    i <= j < n ==> self.swept@[j] == old(self).swept@[j],
                forall|j: int|
                    0 <= j < i ==> self.swept@[j] == (old(self).swept@[j] || spec_sweep_fires(
                        old(self).trigger@.outgoings,
                        old(self).swept@,
                        confs@,
                        j,
                    )),
                to_broadcast.deep_view() == spec_fired_spends(
                    old(self).trigger@.outgoings,
                    old(self).swept@,
                    confs@,
                    i as int,
                ),
            decreases n - i,
        {
            let ghost fired_before = to_broadcast.deep_view();
            let fires = !self.swept[i] && match confs[i] {
                Some(c) => c >= self.trigger.outgoings[i].timelock as u64,
                None => false,
            };
            proof {
                assert(fires == spec_sweep_fires(
                    old(self).trigger@.outgoings,
                    old(self).swept@,
                    confs@,
                    i as int,
                ));
            }
            if fires {
                to_broadcast.push(self.trigger.outgoings[i].timelock_spend.clone());
                self.swept[i] = true;
                proof {
                    assert(to_broadcast.deep_view() =~= fired_before.push(
                        old(self).trigger@.outgoings[i as int].timelock_spend,
                    ));
                }
            }
            proof {
                assert(to_broadcast.deep_view() =~= spec_fired_spends(
                    old(self).trigger@.outgoings,
                    old(self).swept@,
                    confs@,
                    i + 1 as int,
                ));
            }
            i += 1;
        }
        to_broadcast
    }

    /// Whether every outgoing position has been swept.
    pub fn done(&self) -> (r: bool)
        requires
            self.wf(),
        ensures
            r == (forall|i: int| 0 <= i < self.swept@.len() ==> self.swept@[i]),
    {
        let n = self.swept.len();
        let mut i: usize = 0;
        while i < n
            invariant
                n == self.swept.len(),
                i <= n,
                forall|j: int| 0 <= j < i ==> self.swept@[j],
            decreases n - i,
        {
            if !self.swept[i] {
                return false;
            }
            i += 1;
        }
        true
    }

    /// Removes every outgoing swapcoin of the trigger from the wallet, once
    /// all timelock-spends are broadcast.
    ///
    /// Succeeds exactly when the wallet holds every outgoing position the
    /// trigger names; afterwards none of them remains — the session leaves
    /// nothing of the failed swap in the wallet — and every position the
    /// trigger does not name is untouched.
    pub fn finalize(&self, wallet: &mut Wallet) -> (r: Result<(), WalletError>)
        requires
            old(wallet).wf(),
            self.wf(),
            forall|i: int| 0 <= i < self.swept@.len() ==> self.swept@[i],
            forall|a: int, b: int|
                0 <= a < b < self.trigger@.outgoings.len()
                    ==> (#[trigger] self.trigger@.outgoings[a]).multisig_redeemscript
                    != (#[trigger] self.trigger@.outgoings[b]).multisig_redeemscript,
        ensures
            final(wallet).wf(),
            final(wallet).incoming_swapcoins.deep_view() == old(
                wallet,
            ).incoming_swapcoins.deep_view(),
            final(wallet).contract_cache@ == old(wallet).contract_cache@,
            final(wallet).tweakable_seckey@ == old(wallet).tweakable_seckey@,
            final(wallet).tweakable_pubkey@ == old(wallet).tweakable_pubkey@,
            r is Ok <==> (forall|k: int|
                0 <= k < self.trigger@.outgoings.len() ==> spec_has_outgoing(
                    old(wallet).outgoing_swapcoins.deep_view(),
                    (#[trigger] self.trigger@.outgoings[k]).multisig_redeemscript,
                )),
            r is Ok ==> forall|k: int|
                0 <= k < self.trigger@.outgoings.len() ==> !spec_has_outgoing(
                    final(wallet).outgoing_swapcoins.deep_view(),
                    (#[trigger] self.trigger@.outgoings[k]).multisig_redeemscript,
                ),
            forall|s: Seq<u8>|
                #![trigger spec_has_outgoing(final(wallet).outgoing_swapcoins.deep_view(), s)]
                (forall|j: int|
                    0 <= j < self.trigger@.outgoings.len() ==> s
                        != (#[trigger] self.trigger@.outgoings[j]).multisig_redeemscript)
                    ==> spec_has_outgoing(final(wallet).outgoing_swapcoins.deep_view(), s)
                    == spec_has_outgoing(old(wallet).outgoing_swapcoins.deep_view(), s),
    {
        let n = self.trigger.outgoings.len();
        let mut k: usize = 0;
        while k < n
            invariant
                old(wallet).wf(),
                forall|a: int, b: int|
                    0 <= a < b < self.trigger@.outgoings.len()
                        ==> (#[trigger] self.trigger@.outgoings[a]).multisig_redeemscript
                        != (#[trigger] self.trigger@.outgoings[b]).multisig_redeemscript,
                n == self.trigger.outgoings.len(),
                k <= n,
                wallet.wf(),
                wallet.incoming_swapcoins.deep_view() == old(
                    wallet,
                ).incoming_swapcoins.deep_view(),
                wallet.contract_cache@ == old(wallet).contract_cache@,
                wallet.tweakable_seckey@ == old(wallet).tweakable_seckey@,
                wallet.tweakable_pubkey@ == old(wallet).tweakable_pubkey@,
                forall|j: int|
                    0 <= j < k ==> spec_has_outgoing(
                        old(wallet).outgoing_swapcoins.deep_view(),
                        (#[trigger] self.trigger@.outgoings[j]).multisig_redeemscript,
                    ),
                forall|j: int|
                    0 <= j < k ==> !spec_has_outgoing(
                        wallet.outgoing_swapcoins.deep_view(),
                        (#[trigger] self.trigger@.outgoings[j]).multisig_redeemscript,
                    ),
                forall|s: Seq<u8>|
                    #![trigger spec_has_outgoing(wallet.outgoing_swapcoins.deep_view(), s)]
                    (forall|j: int|
                        0 <= j < k ==> s
                            != (#[trigger] self.trigger@.outgoings[j]).multisig_redeemscript)
                        ==> spec_has_outgoing(wallet.outgoing_swapcoins.deep_view(), s)
                        == spec_has_outgoing(old(wallet).outgoing_swapcoins.deep_view(), s),
            decreases n - k,
        {
            let ghost rs_k = self.trigger@.outgoings[k as int].multisig_redeemscript;
            let ghost before = wallet.outgoing_swapcoins.deep_view();
            proof {
                // this position's script differs from every one already
                // removed, so its presence now equals its presence at entry
                assert(spec_has_outgoing(before, rs_k) == spec_has_outgoing(
                    old(wallet).outgoing_swapcoins.deep_view(),
                    rs_k,
                ));
            }
            match wallet.remove_outgoing_swapcoin(&self.trigger.outgoings[k].multisig_redeemscript) {
                Ok(_) => {},
                Err(e) => {
                    proof {
                        assert(!spec_has_outgoing(
                            old(wallet).outgoing_swapcoins.deep_view(),
                            rs_k,
                        ));
                    }
                    return Err(e);
                },
            }
            proof {
                assert forall|j: int| 0 <= j < k + 1 implies !spec_has_outgoing(
                    wallet.outgoing_swapcoins.deep_view(),
                    (#[trigger] self.trigger@.outgoings[j]).multisig_redeemscript,
                ) by {
                    if j < k {
                        let rs_j = self.trigger@.outgoings[j].multisig_redeemscript;
                        assert(rs_j != rs_k);
                        assert(spec_has_outgoing(wallet.outgoing_swapcoins.deep_view(), rs_j)
                            == spec_has_outgoing(before, rs_j));
                    }
                }
                assert forall|s: Seq<u8>|
                    #![trigger spec_has_outgoing(wallet.outgoing_swapcoins.deep_view(), s)]
                    (forall|j: int|
                        0 <= j < k + 1 ==> s
                            != (#[trigger] self.trigger@.outgoings[j]).multisig_redeemscript)
                        implies spec_has_outgoing(wallet.outgoing_swapcoins.deep_view(), s)
                        == spec_has_outgoing(
                        old(wallet).outgoing_swapcoins.deep_view(),
                        s,
                    ) by {
                    assert(s != rs_k);
                    assert(spec_has_outgoing(wallet.outgoing_swapcoins.deep_view(), s)
                        == spec_has_outgoing(before, s));
                }
            }
            k += 1;
        }
        Ok(())
    }
}

/// Within one session, a timelock-spend fired by one maturity pass can never
/// fire again in a later pass: each is broadcast at most once per trigger.
pub proof fn lemma_sweep_at_most_once(
    outgoings: Seq<OutgoingRecoveryV>,
    swept0: Seq<bool>,
    swept1: Seq<bool>,
    confs1: Seq<Option<u64>>,
    confs2: Seq<Option<u64>>,
    i: int,
)
    requires
        0 <= i < outgoings.len(),
        swept0.len() == outgoings.len(),
        swept1.len() == outgoings.len(),
        // `swept1` is the flag state after a pass with `confs1` from `swept0`
        forall|j: int|
            0 <= j < swept1.len() ==> swept1[j] == (swept0[j] || spec_sweep_fires(
                outgoings,
                swept0,
                confs1,
                j,
            )),
        spec_sweep_fires(outgoings, swept0, confs1, i),
    ensures
        !spec_sweep_fires(outgoings, swept1, confs2, i),
{
}

/// A sweep fires only after the contract has at least its relative timelock
/// of confirmations; an unconfirmed or immature contract is never swept.
pub proof fn lemma_sweep_only_after_maturity(
    outgoings: Seq<OutgoingRecoveryV>,
    swept: Seq<bool>,
    confs: Seq<Option<u64>>,
    i: int,
)
    requires
        0 <= i < outgoings.len(),
        spec_sweep_fires(outgoings, swept, confs, i),
    ensures
        confs[i] is Some,
        confs[i].unwrap() >= outgoings[i].timelock as u64,
{
}

} // verus!
