use vstd::prelude::*;

verus! {

/// A finished payment as the payment processor records it, field for field in the
/// record's order: its id, the transaction hash as 64 hex bytes, the amount paid, the
/// time in milliseconds, the transaction fee and the number of payees.
pub struct FinishedPaymentRaw {
    pub id: u32,
    pub hash_hex: [u8; 64],
    pub paid_amount: i64,
    pub time_ms: i64,
    pub tx_fee: i64,
    pub payee_amount: u32,
}

/// A payout as the API reports it.
pub struct Payout {
    pub id: u32,
    pub txid: String,
    pub payee_amount: u32,
    pub paid_amount: u64,
    pub tx_fee: u64,
    pub time_ms: u64,
}

} // verus!
