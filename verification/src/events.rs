use vstd::prelude::*;

use crate::accounts::Pubkey;
use crate::accounts::RevenueSource;

verus! {

/// Emitted after a successful deposit: what arrived, from where, and when.
#[derive(Clone, Copy, Debug, PartialEq, Eq, Structural)]
pub struct RevenueDeposited {
    pub amount: u64,
    pub source: RevenueSource,
    pub timestamp: i64,
}

/// Emitted after a successful usage payment: which artist was credited
/// and the full fee split that was applied.
#[derive(Debug)]
pub struct StreamPaymentProcessed {
    pub artist_id: String,
    pub stream_count: u64,
    pub gross_earnings: u64,
    pub net_earnings: u64,
    pub timestamp: i64,
}

/// Emitted after a successful withdrawal: who was paid, how much, and when.
#[derive(Clone, Copy, Debug, PartialEq, Eq, Structural)]
pub struct EarningsWithdrawn {
    pub artist_wallet: Pubkey,
    pub amount: u64,
    pub timestamp: i64,
}

} // verus!
