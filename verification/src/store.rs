//! The process-wide connection-state store: one entry per peer, holding the
//! peer's protocol state and the time it was last heard from.
//!
//! A peer record is created on first message, mutated by the protocol handler
//! or a watchdog, and destroyed when recovery is triggered for it or its swap
//! completes. The store does not persist across restarts: an interrupted swap
//! is recovered from on-chain observation.

use vstd::prelude::*;

use crate::chain::{Transaction, TransactionV};
use crate::messages::ExpectedMessage;
use crate::script::spec_is_contract_script;
use crate::swapcoins::{IncomingSwapCoin, IncomingSwapCoinV, OutgoingSwapCoin, OutgoingSwapCoinV};

verus! {

/// The state of one peer connection: the next expected message and the
/// swapcoins and funding transactions of its in-flight swap.
#[derive(Debug)]
pub struct ConnectionState {
    /// The message kind this connection expects next.
    pub allowed_message: ExpectedMessage,
    /// HTLC positions where this maker receives funds from the previous hop.
    pub incoming_swapcoins: Vec<IncomingSwapCoin>,
    /// HTLC positions where this maker sends funds to the next hop.
    pub outgoing_swapcoins: Vec<OutgoingSwapCoin>,
    /// Funding transactions awaiting confirmation.
    pub pending_funding_txes: Vec<Transaction>,
}

/// Mathematical value of a [`ConnectionState`].
pub struct ConnectionStateV {
    pub allowed_message: ExpectedMessage,
    pub incoming_swapcoins: Seq<IncomingSwapCoinV>,
    pub outgoing_swapcoins: Seq<OutgoingSwapCoinV>,
    pub pending_funding_txes: Seq<TransactionV>,
}

impl ConnectionStateV {
    /// Every outgoing swapcoin the maker created carries a contract
    /// redeemscript of the crate's template, so its relative timelock can
    /// always be read back.
    pub open spec fn wf(self) -> bool {
        forall|k: int|
            0 <= k < self.outgoing_swapcoins.len() ==> spec_is_contract_script(
                self.outgoing_swapcoins[k].contract_redeemscript,
            )
    }

    /// The state of a peer with no in-flight swap.
    pub open spec fn spec_default() -> ConnectionStateV {
        ConnectionStateV {
            allowed_message: ExpectedMessage::TakerHello,
            incoming_swapcoins: Seq::empty(),
            outgoing_swapcoins: Seq::empty(),
            pending_funding_txes: Seq::empty(),
        }
    }
}

impl View for ConnectionState {
    type V = ConnectionStateV;

    open spec fn view(&self) -> ConnectionStateV {
        ConnectionStateV {
            allowed_message: self.allowed_message,
            incoming_swapcoins: self.incoming_swapcoins.deep_view(),
            outgoing_swapcoins: self.outgoing_swapcoins.deep_view(),
            pending_funding_txes: self.pending_funding_txes.deep_view(),
        }
    }
}

impl DeepView for ConnectionState {
    type V = ConnectionStateV;

    open spec fn deep_view(&self) -> ConnectionStateV {
        self.view()
    }
}

impl Default for ConnectionState {
    /// A fresh connection expects the Taker's hello and holds no swapcoins.
    fn default() -> (r: Self)
        ensures
            r@ == ConnectionStateV::spec_default(),
            r@.wf(),
    {
        let r = ConnectionState {
            allowed_message: ExpectedMessage::TakerHello,
            incoming_swapcoins: Vec::new(),
            outgoing_swapcoins: Vec::new(),
            pending_funding_txes: Vec::new(),
        };
        proof {
            assert(r@.incoming_swapcoins =~= Seq::<IncomingSwapCoinV>::empty());
            assert(r@.outgoing_swapcoins =~= Seq::<OutgoingSwapCoinV>::empty());
            assert(r@.pending_funding_txes =~= Seq::<TransactionV>::empty());
        }
        r
    }
}

impl Clone for ConnectionState {
    fn clone(&self) -> (r: Self)
        ensures
            r@ == self@,
    {
        let r = ConnectionState {
            allowed_message: self.allowed_message,
            incoming_swapcoins: self.incoming_swapcoins.clone(),
            outgoing_swapcoins: self.outgoing_swapcoins.clone(),
            pending_funding_txes: self.pending_funding_txes.clone(),
        };
        proof {
            assert(r@.incoming_swapcoins =~= self@.incoming_swapcoins);
            assert(r@.outgoing_swapcoins =~= self@.outgoing_swapcoins);
            assert(r@.pending_funding_txes =~= self@.pending_funding_txes);
        }
        r
    }
}

/// One store entry: a peer, its connection state, and when it was last heard.
#[derive(Debug)]
pub struct PeerEntry {
    /// Numeric form of the peer's IP address.
    pub peer: u128,
    /// The peer's connection state.
    pub state: ConnectionState,
    /// Seconds-precision timestamp of the peer's last accepted message.
    pub last_seen: u64,
}

/// Mathematical value of a [`PeerEntry`].
pub struct PeerEntryV {
    pub peer: u128,
    pub state: ConnectionStateV,
    pub last_seen: u64,
}

impl View for PeerEntry {
    type V = PeerEntryV;

    open spec fn view(&self) -> PeerEntryV {
        PeerEntryV { peer: self.peer, state: self.state@, last_seen: self.last_seen }
    }
}

impl DeepView for PeerEntry {
    type V = PeerEntryV;

    open spec fn deep_view(&self) -> PeerEntryV {
        self.view()
    }
}

impl Clone for PeerEntry {
    fn clone(&self) -> (r: Self)
        ensures
            r@ == self@,
    {
        PeerEntry { peer: self.peer, state: self.state.clone(), last_seen: self.last_seen }
    }
}

/// Whether `entries` holds a record for `peer`.
pub open spec fn spec_store_has(entries: Seq<PeerEntryV>, peer: u128) -> bool {
    exists|i: int| 0 <= i < entries.len() && entries[i].peer == peer
}

/// The process-wide mapping from peer to connection state, mutated only under
/// the surrounding process's lock.
#[derive(Debug)]
pub struct ConnectionStore {
    /// The peer records, each peer at most once.
    pub entries: Vec<PeerEntry>,
}

impl View for ConnectionStore {
    type V = Seq<PeerEntryV>;

    open spec fn view(&self) -> Seq<PeerEntryV> {
        self.entries.deep_view()
    }
}

impl ConnectionStore {
    /// Each peer has at most one record, and every record's state is
    /// well-formed.
    pub open spec fn wf(self) -> bool {
        &&& forall|i: int, j: int| 0 <= i < j < self@.len() ==> self@[i].peer != self@[j].peer
        &&& forall|i: int| 0 <= i < self@.len() ==> self@[i].state.wf()
    }

    /// An empty store.
    pub fn new() -> (r: Self)
        ensures
            r@ =~= Seq::<PeerEntryV>::empty(),
            r.wf(),
    {
        ConnectionStore { entries: Vec::new() }
    }

    /// How many peers have records.
    pub fn len(&self) -> (r: usize)
        ensures
            r == self@.len(),
    {
        self.entries.len()
    }

    /// The state and last-seen time recorded for `peer`, if any.
    pub fn get(&self, peer: u128) -> (r: Option<(ConnectionState, u64)>)
        ensures
            match r {
                Some(entry) => exists|i: int|
                    0 <= i < self@.len() && self@[i].peer == peer && self@[i].state == entry.0@
                        && self@[i].last_seen == entry.1,
                None => !spec_store_has(self@, peer),
            },
    {
        let n = self.entries.len();
        let mut i: usize = 0;
        while i < n
            invariant
                n == self.entries.len(),
                i <= n,
                forall|j: int| 0 <= j < i ==> self@[j].peer != peer,
            decreases n - i,
        {
            if self.entries[i].peer == peer {
                let state = self.entries[i].state.clone();
                let last_seen = self.entries[i].last_seen;
                proof {
                    let w = i as int;
                    assert(self@[w].peer == peer && self@[w].state == state@ && self@[w].last_seen
                        == last_seen);
                }
                return Some((state, last_seen));
            }
            i += 1;
        }
        None
    }

    /// The state recorded for `peer`, creating the default record first when
    /// none exists. `now` stamps a newly created record.
    pub fn get_or_init(&mut self, peer: u128, now: u64) -> (r: ConnectionState)
        requires
            old(self).wf(),
        ensures
            final(self).wf(),
            spec_store_has(final(self)@, peer),
            if spec_store_has(old(self)@, peer) {
                final(self)@ == old(self)@ && exists|i: int|
                    0 <= i < final(self)@.len() && final(self)@[i].peer == peer
                        && final(self)@[i].state == r@
            } else {
                r@ == ConnectionStateV::spec_default() && final(self)@ =~= old(self)@ + seq![
                    PeerEntryV {
                        peer,
                        state: ConnectionStateV::spec_default(),
                        last_seen: now,
                    },
                ]
            },
    {
        match self.get(peer) {
            Some((state, _)) => state,
            None => {
                let state = ConnectionState::default();
                let entry = PeerEntry { peer, state: ConnectionState::default(), last_seen: now };
                let ghost before = self@;
                self.entries.push(entry);
                proof {
                    assert(self@ =~= before + seq![entry@]);
                    assert(self@[before.len() as int].peer == peer);
                    assert forall|i: int, j: int| 0 <= i < j < self@.len() implies self@[i].peer
                        != self@[j].peer by {
                        if j < before.len() {
                            assert(self@[i] == before[i] && self@[j] == before[j]);
                        } else {
                            assert(self@[i] == before[i] && self@[j] == entry@);
                            assert(!spec_store_has(before, peer));
                        }
                    }
                }
                state
            },
        }
    }

    /// Records `state` for `peer` with `now` as its last-seen time, replacing
    /// the peer's record or creating it.
    pub fn upsert(&mut self, peer: u128, state: ConnectionState, now: u64)
        requires
            old(self).wf(),
            state@.wf(),
        ensures
            final(self).wf(),
            spec_store_has(final(self)@, peer),
            exists|i: int|
                0 <= i < final(self)@.len() && final(self)@[i] == (PeerEntryV {
                    peer,
                    state: state@,
                    last_seen: now,
                }),
            if spec_store_has(old(self)@, peer) {
                exists|i: int|
                    0 <= i < old(self)@.len() && old(self)@[i].peer == peer && final(self)@
                        =~= old(self)@.update(
                        i,
                        PeerEntryV { peer, state: state@, last_seen: now },
                    )
            } else {
                final(self)@ =~= old(self)@ + seq![
                    PeerEntryV { peer, state: state@, last_seen: now },
                ]
            },
    {
        let n = self.entries.len();
        let mut i: usize = 0;
        while i < n
            invariant
                old(self).wf(),
                state@.wf(),
                *self == *old(self),
                n == self.entries.len(),
                i <= n,
                forall|j: int| 0 <= j < i ==> self@[j].peer != peer,
            decreases n - i,
        {
            if self.entries[i].peer == peer {
                let ghost before = self@;
                let entry = PeerEntry { peer, state, last_seen: now };
                self.entries[i] = entry;
                proof {
                    let w = i as int;
                    assert(self.entries@ == old(self).entries@.update(w, entry));
                    assert forall|j: int| 0 <= j < self@.len() implies self@[j] == (if j == w {
                        entry@
                    } else {
                        before[j]
                    }) by {
                        if j != w {
                            assert(self.entries@[j] == old(self).entries@[j]);
                        } else {
                            assert(self.entries@[j] == entry);
                        }
                    }
                    assert(self@ =~= before.update(w, entry@));
                    assert(before[w].peer == peer);
                    assert(self@[w] == entry@);
                    assert forall|a: int, b: int| 0 <= a < b < self@.len() implies self@[a].peer
                        != self@[b].peer by {
                        assert(before[a].peer != before[b].peer);
                        assert(a != w ==> self@[a] == before[a]);
                        assert(b != w ==> self@[b] == before[b]);
                    }
                    assert forall|j: int| 0 <= j < self@.len() implies self@[j].state.wf() by {
                        if j != w {
                            assert(before[j].state.wf());
                        }
                    }
                }
                return ;
            }
            i += 1;
        }
        let entry = PeerEntry { peer, state, last_seen: now };
        let ghost before = self@;
        self.entries.push(entry);
        proof {
            assert(self@ =~= before + seq![entry@]);
            assert(self@[before.len() as int] == entry@);
            assert forall|a: int, b: int| 0 <= a < b < self@.len() implies self@[a].peer
                != self@[b].peer by {
                if b < before.len() {
                    assert(self@[a] == before[a] && self@[b] == before[b]);
                } else {
                    assert(self@[a] == before[a] && self@[b] == entry@);
                }
            }
        }
    }

    /// Removes the record for `peer`, if any.
    pub fn remove(&mut self, peer: u128)
        requires
            old(self).wf(),
        ensures
            final(self).wf(),
            !spec_store_has(final(self)@, peer),
            forall|p: u128|
                p != peer ==> (spec_store_has(final(self)@, p) == spec_store_has(old(self)@, p)),
            if spec_store_has(old(self)@, peer) {
                exists|i: int|
                    0 <= i < old(self)@.len() && old(self)@[i].peer == peer && final(self)@
                        =~= old(self)@.remove(i)
            } else {
                final(self)@ == old(self)@
            },
    {
        let n = self.entries.len();
        let mut i: usize = 0;
        while i < n
            invariant
                old(self).wf(),
                *self == *old(self),
                n == self.entries.len(),
                i <= n,
                forall|j: int| 0 <= j < i ==> self@[j].peer != peer,
            decreases n - i,
        {
            if self.entries[i].peer == peer {
                let ghost before = self@;
                self.entries.remove(i);
                proof {
                    assert(self@ =~= before.remove(i as int));
                    assert forall|j: int| 0 <= j < self@.len() implies self@[j] == (if j < i {
                        before[j]
                    } else {
                        before[j + 1]
                    }) by {
                        if j < i {
                            assert(self.entries@[j] == old(self).entries@[j]);
                        } else {
                            assert(self.entries@[j] == old(self).entries@[j + 1]);
                        }
                    }
                    assert forall|j: int| 0 <= j < self@.len() implies self@[j].peer != peer by {
                        if j >= i {
                            assert(before[j + 1].peer != before[i as int].peer);
                        }
                    }
                    assert forall|a: int, b: int| 0 <= a < b < self@.len() implies self@[a].peer
                        != self@[b].peer by {
                        let a0 = if a < i {
                            a
                        } else {
                            a + 1
                        };
                        let b0 = if b < i {
                            b
                        } else {
                            b + 1
                        };
                        assert(self@[a] == before[a0] && self@[b] == before[b0]);
                        assert(before[a0].peer != before[b0].peer);
                    }
                    assert forall|p: u128|
                        p != peer && spec_store_has(before, p) implies spec_store_has(
                        self@,
                        p,
                    ) by {
                        let w = choose|w: int| 0 <= w < before.len() && before[w].peer == p;
                        if w < i {
                            assert(self@[w] == before[w]);
                        } else {
                            assert(self@[w - 1] == before[w]);
                        }
                    }
                }
                return ;
            }
            i += 1;
        }
    }
}

} // verus!
