//! Plain-value models of the on-chain objects the maker's logic reads.
//!
//! A transaction is carried as the fields the core inspects — its id, the
//! outpoints it spends, its outputs — together with its consensus
//! serialization, which the signing primitives consume. Filling these fields
//! consistently from a node's or a peer's encoding is the caller's duty at the
//! process edge; every rule in this crate is stated over these values.

use vstd::prelude::*;

verus! {

/// Byte length of a transaction id.
pub const TXID_LEN: usize = 32;

/// Compares two byte vectors for equality.
pub fn bytes_eq(a: &Vec<u8>, b: &Vec<u8>) -> (r: bool)
    ensures
        r == (a@ == b@),
{
    if a.len() != b.len() {
        assert(a@ != b@);
        return false;
    }
    let n = a.len();
    let mut i: usize = 0;
    while i < n
        invariant
            n == a.len() == b.len(),
            i <= n,
            forall|j: int| 0 <= j < i ==> a@[j] == b@[j],
        decreases n - i,
    {
        if a[i] != b[i] {
            assert(a@ != b@);
            return false;
        }
        i += 1;
    }
    assert(a@ =~= b@);
    true
}

/// A reference to one output of a transaction.
#[derive(Debug)]
pub struct OutPoint {
    /// Id of the transaction holding the output, 32 bytes.
    pub txid: Vec<u8>,
    /// Index of the output within that transaction.
    pub vout: u32,
}

/// Mathematical value of an [`OutPoint`].
pub struct OutPointV {
    pub txid: Seq<u8>,
    pub vout: u32,
}

impl OutPointV {
    /// A well-formed outpoint carries a full-length transaction id.
    pub open spec fn wf(self) -> bool {
        self.txid.len() == TXID_LEN
    }
}

impl View for OutPoint {
    type V = OutPointV;

    open spec fn view(&self) -> OutPointV {
        OutPointV { txid: self.txid@, vout: self.vout }
    }
}

impl DeepView for OutPoint {
    type V = OutPointV;

    open spec fn deep_view(&self) -> OutPointV {
        self.view()
    }
}

impl Clone for OutPoint {
    fn clone(&self) -> (r: Self)
        ensures
            r@ == self@,
    {
        OutPoint { txid: self.txid.clone(), vout: self.vout }
    }
}

impl PartialEq for OutPoint {
    fn eq(&self, other: &Self) -> (r: bool) {
        bytes_eq(&self.txid, &other.txid) && self.vout == other.vout
    }
}

impl vstd::std_specs::cmp::PartialEqSpecImpl for OutPoint {
    open spec fn obeys_eq_spec() -> bool {
        true
    }

    open spec fn eq_spec(&self, other: &Self) -> bool {
        self@ == other@
    }
}

/// One output of a transaction: its value and the script that locks it.
#[derive(Debug)]
pub struct TxOut {
    /// Value in satoshis.
    pub value: u64,
    /// The locking script, as raw bytes.
    pub script_pubkey: Vec<u8>,
}

/// Mathematical value of a [`TxOut`].
pub struct TxOutV {
    pub value: u64,
    pub script_pubkey: Seq<u8>,
}

impl View for TxOut {
    type V = TxOutV;

    open spec fn view(&self) -> TxOutV {
        TxOutV { value: self.value, script_pubkey: self.script_pubkey@ }
    }
}

impl DeepView for TxOut {
    type V = TxOutV;

    open spec fn deep_view(&self) -> TxOutV {
        self.view()
    }
}

impl Clone for TxOut {
    fn clone(&self) -> (r: Self)
        ensures
            r@ == self@,
    {
        TxOut { value: self.value, script_pubkey: self.script_pubkey.clone() }
    }
}

/// A transaction as the maker's logic reads it.
#[derive(Debug)]
pub struct Transaction {
    /// The transaction id, 32 bytes.
    pub txid: Vec<u8>,
    /// The outpoints this transaction spends, in input order.
    pub inputs: Vec<OutPoint>,
    /// The outputs this transaction creates, in order.
    pub outputs: Vec<TxOut>,
    /// The consensus serialization of the whole transaction.
    pub raw: Vec<u8>,
}

/// Mathematical value of a [`Transaction`].
pub struct TransactionV {
    pub txid: Seq<u8>,
    pub inputs: Seq<OutPointV>,
    pub outputs: Seq<TxOutV>,
    pub raw: Seq<u8>,
}

impl TransactionV {
    /// A well-formed transaction carries a full-length id and well-formed
    /// input references.
    pub open spec fn wf(self) -> bool {
        &&& self.txid.len() == TXID_LEN
        &&& forall|i: int| 0 <= i < self.inputs.len() ==> self.inputs[i].wf()
    }
}

impl View for Transaction {
    type V = TransactionV;

    open spec fn view(&self) -> TransactionV {
        TransactionV {
            txid: self.txid@,
            inputs: self.inputs.deep_view(),
            outputs: self.outputs.deep_view(),
            raw: self.raw@,
        }
    }
}

impl DeepView for Transaction {
    type V = TransactionV;

    open spec fn deep_view(&self) -> TransactionV {
        self.view()
    }
}

impl Clone for Transaction {
    fn clone(&self) -> (r: Self)
        ensures
            r@ == self@,
    {
        let r = Transaction {
            txid: self.txid.clone(),
            inputs: self.inputs.clone(),
            outputs: self.outputs.clone(),
            raw: self.raw.clone(),
        };
        proof {
            assert(r.inputs.deep_view() =~= self.inputs.deep_view());
            assert(r.outputs.deep_view() =~= self.outputs.deep_view());
        }
        r
    }
}

} // verus!
