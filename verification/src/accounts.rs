use vstd::prelude::*;

verus! {

/// Highest platform fee percentage a pool may be created with.
pub const MAX_FEE_PERCENT: u8 = 30;

/// Longest artist label a registration accepts.
pub const MAX_ARTIST_ID_LEN: usize = 64;

/// Most payment entries a single batch may carry.
pub const MAX_BATCH_LEN: usize = 50;

/// A 32-byte account identity of the host platform, held as four 64-bit
/// words. The core only ever compares identities for equality; the host
/// owns their real representation.
#[derive(Clone, Copy, Debug, PartialEq, Eq, Structural)]
pub struct Pubkey {
    pub w0: u64,
    pub w1: u64,
    pub w2: u64,
    pub w3: u64,
}

/// Where a revenue deposit came from. Informational only: it is carried
/// into the emitted event and used in no calculation.
#[derive(Clone, Copy, Debug, PartialEq, Eq, Structural)]
pub enum RevenueSource {
    Ads,
    Subscription,
    DirectFunding,
}

/// The one pool record of a deployment: the platform fee rate fixed at
/// creation and the lifetime deposit and distribution totals.
#[derive(Clone, Copy, Debug, PartialEq, Eq, Structural)]
pub struct PaymentPool {
    /// Identity allowed to configure the pool and process payments.
    pub authority: Pubkey,
    /// Fraction of gross earnings the platform retains, in [0, 30].
    pub platform_fee_percent: u8,
    /// Lifetime total of revenue ever deposited; never decreases.
    pub total_sol_deposited: u64,
    /// Lifetime total of gross earnings ever attributed; never decreases.
    pub total_sol_distributed: u64,
}

impl PaymentPool {
    /// The pool invariant: the fee rate stays within its creation bound.
    pub open spec fn wf(self) -> bool {
        self.platform_fee_percent <= MAX_FEE_PERCENT
    }
}

/// One record per registered artist: identity, label, lifetime counters
/// and the currently withdrawable balance.
#[derive(Debug)]
pub struct ArtistAccount {
    /// Identity allowed to withdraw this record's pending balance.
    pub wallet: Pubkey,
    /// Opaque label of at most 64 characters, set at registration.
    pub artist_id: String,
    /// Lifetime count of streams ever attributed; never decreases.
    pub total_streams: u64,
    /// Lifetime net earnings ever credited; never decreases.
    pub total_earnings: u64,
    /// Withdrawable amount; grows on payment, reset to zero on withdrawal.
    pub pending_withdrawal: u64,
    /// Set by an out-of-scope verification process; read by no operation.
    pub is_verified: bool,
}

impl ArtistAccount {
    /// The account invariant: the label keeps its registration bound.
    pub open spec fn wf(self) -> bool {
        self.artist_id@.len() <= MAX_ARTIST_ID_LEN
    }
}

impl Clone for ArtistAccount {
    fn clone(&self) -> (res: Self)
        ensures
            res == *self,
    {
        ArtistAccount {
            wallet: self.wallet,
            artist_id: self.artist_id.clone(),
            total_streams: self.total_streams,
            total_earnings: self.total_earnings,
            pending_withdrawal: self.pending_withdrawal,
            is_verified: self.is_verified,
        }
    }
}

/// One entry of a batch: which artist to credit and for how much usage.
#[derive(Debug)]
pub struct StreamPaymentData {
    /// Label of the artist record this entry is meant for.
    pub artist_id: String,
    /// Number of usage events to attribute.
    pub stream_count: u64,
    /// Payment per usage event, in smallest currency units.
    pub payment_rate: u64,
}

impl Clone for StreamPaymentData {
    fn clone(&self) -> (res: Self)
        ensures
            res == *self,
    {
        StreamPaymentData {
            artist_id: self.artist_id.clone(),
            stream_count: self.stream_count,
            payment_rate: self.payment_rate,
        }
    }
}

} // verus!
