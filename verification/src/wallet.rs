//! What the wallet RPC server reports, held as plain values: the snapshot of
//! a wallet and its transfer rows.

use vstd::prelude::*;

verus! {

/// One transfer as the transfers list shows it.
pub struct TransferRow {
    /// Category: `in`, `out`, `pending`, `failed`, `pool` or `block`.
    pub kind: String,
    /// Amount in piconero.
    pub amount: u64,
    /// Fee in piconero.
    pub fee: u64,
    pub confirmations: Option<u64>,
    /// `YYYY-MM-DD HH:MM`.
    pub timestamp: String,
    /// Transaction id in lowercase hex.
    pub txid: String,
    pub address: String,
}

/// The state of the wallet after a refresh.
pub struct Snapshot {
    pub address: String,
    /// Balance in piconero.
    pub balance: u64,
    /// Unlocked balance in piconero.
    pub unlocked: u64,
    pub height: u64,
    /// Newest first.
    pub transfers: Vec<TransferRow>,
}

pub struct TransferRowView {
    pub kind: Seq<char>,
    pub amount: u64,
    pub fee: u64,
    pub confirmations: Option<u64>,
    pub timestamp: Seq<char>,
    pub txid: Seq<char>,
    pub address: Seq<char>,
}

#[verifier::ext_equal]
pub struct SnapshotView {
    pub address: Seq<char>,
    pub balance: u64,
    pub unlocked: u64,
    pub height: u64,
    pub transfers: Seq<TransferRowView>,
}

impl View for TransferRow {
    type V = TransferRowView;

    open spec fn view(&self) -> TransferRowView {
        TransferRowView {
            kind: self.kind@,
            amount: self.amount,
            fee: self.fee,
            confirmations: self.confirmations,
            timestamp: self.timestamp@,
            txid: self.txid@,
            address: self.address@,
        }
    }
}

impl View for Snapshot {
    type V = SnapshotView;

    open spec fn view(&self) -> SnapshotView {
        SnapshotView {
            address: self.address@,
            balance: self.balance,
            unlocked: self.unlocked,
            height: self.height,
            transfers: self.transfers@.map_values(|r: TransferRow| r@),
        }
    }
}

impl TransferRow {
    /// A field-by-field copy.
    pub fn duplicate(&self) -> (r: TransferRow)
        ensures
            r@ == self@,
    {
        TransferRow {
            kind: self.kind.clone(),
            amount: self.amount,
            fee: self.fee,
            confirmations: self.confirmations,
            timestamp: self.timestamp.clone(),
            txid: self.txid.clone(),
            address: self.address.clone(),
        }
    }
}

} // verus!
