//! Maker-side records of one HTLC position within a swap route.
//!
//! An incoming swapcoin receives funds from the previous hop; an outgoing
//! swapcoin sends funds to the next hop and additionally carries the prepared
//! timelock-spend transaction with which the maker sweeps its contract output
//! after maturity.

use vstd::prelude::*;

use crate::chain::{OutPoint, OutPointV, Transaction, TransactionV};
use crate::script::{
    read_contract_locktime, spec_contract_locktime, spec_is_contract_script, ScriptError,
};

verus! {

/// The maker-side record of an HTLC position where this maker receives funds.
#[derive(Debug)]
pub struct IncomingSwapCoin {
    /// The 2-of-2 multisig redeemscript of the funding output.
    pub multisig_redeemscript: Vec<u8>,
    /// The contract (HTLC) redeemscript.
    pub contract_redeemscript: Vec<u8>,
    /// The contract transaction spending the funding output.
    pub contract_tx: Transaction,
    /// The funding outpoint this position spends.
    pub funding_outpoint: OutPoint,
    /// Value of the funding output, in satoshis.
    pub funding_value: u64,
    /// Nonce deriving this maker's multisig key from its tweakable keypair.
    pub multisig_nonce: Vec<u8>,
    /// Nonce deriving this maker's hashlock key from its tweakable keypair.
    pub hashlock_nonce: Vec<u8>,
    /// The counterparty's contract signature, once known.
    pub others_contract_sig: Option<Vec<u8>>,
}

/// Mathematical value of an [`IncomingSwapCoin`].
pub struct IncomingSwapCoinV {
    pub multisig_redeemscript: Seq<u8>,
    pub contract_redeemscript: Seq<u8>,
    pub contract_tx: TransactionV,
    pub funding_outpoint: OutPointV,
    pub funding_value: u64,
    pub multisig_nonce: Seq<u8>,
    pub hashlock_nonce: Seq<u8>,
    pub others_contract_sig: Option<Seq<u8>>,
}

impl View for IncomingSwapCoin {
    type V = IncomingSwapCoinV;

    open spec fn view(&self) -> IncomingSwapCoinV {
        IncomingSwapCoinV {
            multisig_redeemscript: self.multisig_redeemscript@,
            contract_redeemscript: self.contract_redeemscript@,
            contract_tx: self.contract_tx@,
            funding_outpoint: self.funding_outpoint@,
            funding_value: self.funding_value,
            multisig_nonce: self.multisig_nonce@,
            hashlock_nonce: self.hashlock_nonce@,
            others_contract_sig: match self.others_contract_sig {
                Some(ref s) => Some(s@),
                None => None,
            },
        }
    }
}

impl DeepView for IncomingSwapCoin {
    type V = IncomingSwapCoinV;

    open spec fn deep_view(&self) -> IncomingSwapCoinV {
        self.view()
    }
}

impl Clone for IncomingSwapCoin {
    fn clone(&self) -> (r: Self)
        ensures
            r@ == self@,
    {
        IncomingSwapCoin {
            multisig_redeemscript: self.multisig_redeemscript.clone(),
            contract_redeemscript: self.contract_redeemscript.clone(),
            contract_tx: self.contract_tx.clone(),
            funding_outpoint: self.funding_outpoint.clone(),
            funding_value: self.funding_value,
            multisig_nonce: self.multisig_nonce.clone(),
            hashlock_nonce: self.hashlock_nonce.clone(),
            others_contract_sig: match &self.others_contract_sig {
                Some(s) => Some(s.clone()),
                None => None,
            },
        }
    }
}

impl IncomingSwapCoin {
    /// The contract transaction completed with the counterparty's signature.
    ///
    /// The witness does not change the transaction id, so the completed
    /// transaction is the stored one; it exists exactly when the signature is
    /// known.
    pub fn get_fully_signed_contract_tx(&self) -> (r: Result<Transaction, ScriptError>)
        ensures
            match r {
                Ok(tx) => self@.others_contract_sig is Some && tx@ == self@.contract_tx,
                Err(_) => self@.others_contract_sig is None,
            },
    {
        match &self.others_contract_sig {
            Some(_) => Ok(self.contract_tx.clone()),
            None => Err(ScriptError::SignatureMissing),
        }
    }

    /// A copy of the multisig redeemscript identifying this position.
    pub fn get_multisig_redeemscript(&self) -> (r: Vec<u8>)
        ensures
            r@ == self@.multisig_redeemscript,
    {
        self.multisig_redeemscript.clone()
    }
}

/// The maker-side record of an HTLC position where this maker sends funds.
#[derive(Debug)]
pub struct OutgoingSwapCoin {
    /// The 2-of-2 multisig redeemscript of the funding output.
    pub multisig_redeemscript: Vec<u8>,
    /// The contract (HTLC) redeemscript.
    pub contract_redeemscript: Vec<u8>,
    /// The contract transaction spending the funding output.
    pub contract_tx: Transaction,
    /// The funding outpoint this position spends.
    pub funding_outpoint: OutPoint,
    /// Value of the funding output, in satoshis.
    pub funding_value: u64,
    /// Nonce deriving this maker's multisig key from its tweakable keypair.
    pub multisig_nonce: Vec<u8>,
    /// Nonce deriving this maker's hashlock key from its tweakable keypair.
    pub hashlock_nonce: Vec<u8>,
    /// The counterparty's contract signature, once known.
    pub others_contract_sig: Option<Vec<u8>>,
    /// The prepared transaction sweeping the contract output to this maker's
    /// wallet after the relative timelock matures.
    pub timelock_spend_tx: Transaction,
}

/// Mathematical value of an [`OutgoingSwapCoin`].
pub struct OutgoingSwapCoinV {
    pub multisig_redeemscript: Seq<u8>,
    pub contract_redeemscript: Seq<u8>,
    pub contract_tx: TransactionV,
    pub funding_outpoint: OutPointV,
    pub funding_value: u64,
    pub multisig_nonce: Seq<u8>,
    pub hashlock_nonce: Seq<u8>,
    pub others_contract_sig: Option<Seq<u8>>,
    pub timelock_spend_tx: TransactionV,
}

impl View for OutgoingSwapCoin {
    type V = OutgoingSwapCoinV;

    open spec fn view(&self) -> OutgoingSwapCoinV {
        OutgoingSwapCoinV {
            multisig_redeemscript: self.multisig_redeemscript@,
            contract_redeemscript: self.contract_redeemscript@,
            contract_tx: self.contract_tx@,
            funding_outpoint: self.funding_outpoint@,
            funding_value: self.funding_value,
            multisig_nonce: self.multisig_nonce@,
            hashlock_nonce: self.hashlock_nonce@,
            others_contract_sig: match self.others_contract_sig {
                Some(ref s) => Some(s@),
                None => None,
            },
            timelock_spend_tx: self.timelock_spend_tx@,
        }
    }
}

impl DeepView for OutgoingSwapCoin {
    type V = OutgoingSwapCoinV;

    open spec fn deep_view(&self) -> OutgoingSwapCoinV {
        self.view()
    }
}

impl Clone for OutgoingSwapCoin {
    fn clone(&self) -> (r: Self)
        ensures
            r@ == self@,
    {
        OutgoingSwapCoin {
            multisig_redeemscript: self.multisig_redeemscript.clone(),
            contract_redeemscript: self.contract_redeemscript.clone(),
            contract_tx: self.contract_tx.clone(),
            funding_outpoint: self.funding_outpoint.clone(),
            funding_value: self.funding_value,
            multisig_nonce: self.multisig_nonce.clone(),
            hashlock_nonce: self.hashlock_nonce.clone(),
            others_contract_sig: match &self.others_contract_sig {
                Some(s) => Some(s.clone()),
                None => None,
            },
            timelock_spend_tx: self.timelock_spend_tx.clone(),
        }
    }
}

impl OutgoingSwapCoin {
    /// The relative timelock of this position, read from the contract
    /// redeemscript.
    pub fn get_timelock(&self) -> (r: Result<u16, ScriptError>)
        ensures
            match r {
                Ok(l) => spec_is_contract_script(self@.contract_redeemscript) && l as int
                    == spec_contract_locktime(self@.contract_redeemscript),
                Err(_) => !spec_is_contract_script(self@.contract_redeemscript),
            },
    {
        read_contract_locktime(&self.contract_redeemscript)
    }

    /// The contract transaction completed with the counterparty's signature.
    pub fn get_fully_signed_contract_tx(&self) -> (r: Result<Transaction, ScriptError>)
        ensures
            match r {
                Ok(tx) => self@.others_contract_sig is Some && tx@ == self@.contract_tx,
                Err(_) => self@.others_contract_sig is None,
            },
    {
        match &self.others_contract_sig {
            Some(_) => Ok(self.contract_tx.clone()),
            None => Err(ScriptError::SignatureMissing),
        }
    }

    /// A copy of the multisig redeemscript identifying this position.
    pub fn get_multisig_redeemscript(&self) -> (r: Vec<u8>)
        ensures
            r@ == self@.multisig_redeemscript,
    {
        self.multisig_redeemscript.clone()
    }

    /// A copy of the prepared timelock-spend transaction.
    pub fn create_timelock_spend(&self) -> (r: Transaction)
        ensures
            r@ == self@.timelock_spend_tx,
    {
        self.timelock_spend_tx.clone()
    }
}

} // verus!
