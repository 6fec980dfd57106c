//! Mathematical model of the ledger transitions.
//!
//! Each operation of the engine is specified against the functions here:
//! the fee-split formulas over unbounded integers, the exact conditions
//! under which a transition is accepted, and the record states it leaves
//! behind. The executable operations in `engine` promise to agree with
//! this model on every input.

use vstd::prelude::*;

use crate::accounts::ArtistAccount;
use crate::accounts::PaymentPool;
use crate::accounts::Pubkey;
use crate::accounts::StreamPaymentData;
use crate::errors::CustomError;

verus! {

/// Gross earnings attributed for `stream_count` usage events paid at
/// `payment_rate` per event.
pub open spec fn gross_of(stream_count: u64, payment_rate: u64) -> int {
    stream_count * payment_rate
}

/// Platform fee retained out of `gross`: `floor(gross * fee_percent / 100)`.
/// The division truncates toward zero, so rounding favors the artist by at
/// most one unit per payment; the remainder is not tracked separately.
pub open spec fn fee_of(gross: int, fee_percent: u8) -> int {
    gross * fee_percent / 100
}

/// Net earnings credited to the artist once the platform fee is taken out.
pub open spec fn net_of(gross: int, fee_percent: u8) -> int {
    gross - fee_of(gross, fee_percent)
}

/// Every checked step of the payment arithmetic stays within 64 bits:
/// the gross product, the fee numerator, the fee subtraction, and each of
/// the four running totals the payment bumps.
pub open spec fn payment_fits(
    pool: PaymentPool,
    artist: ArtistAccount,
    stream_count: u64,
    payment_rate: u64,
) -> bool {
    let gross = gross_of(stream_count, payment_rate);
    let fee = fee_of(gross, pool.platform_fee_percent);
    let net = net_of(gross, pool.platform_fee_percent);
    &&& gross <= u64::MAX
    &&& gross * pool.platform_fee_percent <= u64::MAX
    &&& fee <= gross
    &&& artist.total_streams + stream_count <= u64::MAX
    &&& artist.total_earnings + net <= u64::MAX
    &&& artist.pending_withdrawal + net <= u64::MAX
    &&& pool.total_sol_distributed + gross <= u64::MAX
}

/// A usage payment is accepted exactly when the supplied label matches the
/// record being credited and the whole arithmetic chain fits in 64 bits.
pub open spec fn payment_ok(
    pool: PaymentPool,
    artist: ArtistAccount,
    artist_id: Seq<char>,
    stream_count: u64,
    payment_rate: u64,
) -> bool {
    &&& artist.artist_id@ == artist_id
    &&& payment_fits(pool, artist, stream_count, payment_rate)
}

/// Which failure a rejected usage payment reports: a label mismatch is
/// caught before any arithmetic runs.
pub open spec fn payment_err(
    artist: ArtistAccount,
    artist_id: Seq<char>,
) -> CustomError {
    if artist.artist_id@ != artist_id {
        CustomError::InvalidArtist
    } else {
        CustomError::MathOverflow
    }
}

/// The pool after one accepted usage payment: the gross amount is added to
/// the lifetime distribution total and nothing else moves.
pub open spec fn pool_after_payment(
    pool: PaymentPool,
    stream_count: u64,
    payment_rate: u64,
) -> PaymentPool {
    PaymentPool {
        authority: pool.authority,
        platform_fee_percent: pool.platform_fee_percent,
        total_sol_deposited: pool.total_sol_deposited,
        total_sol_distributed: (pool.total_sol_distributed
            + gross_of(stream_count, payment_rate)) as u64,
    }
}

/// The artist record after one accepted usage payment: the stream counter
/// grows by the usage, and the net share is credited both to the lifetime
/// earnings and to the withdrawable balance.
pub open spec fn artist_after_payment(
    artist: ArtistAccount,
    fee_percent: u8,
    stream_count: u64,
    payment_rate: u64,
) -> ArtistAccount {
    let net = net_of(gross_of(stream_count, payment_rate), fee_percent);
    ArtistAccount {
        wallet: artist.wallet,
        artist_id: artist.artist_id,
        total_streams: (artist.total_streams + stream_count) as u64,
        total_earnings: (artist.total_earnings + net) as u64,
        pending_withdrawal: (artist.pending_withdrawal + net) as u64,
        is_verified: artist.is_verified,
    }
}

/// A withdrawal is accepted exactly when there is something to withdraw,
/// the caller is the record's owner, and the pool's live balance covers
/// the amount.
pub open spec fn withdraw_ok(
    artist: ArtistAccount,
    signer: Pubkey,
    pool_balance: u64,
) -> bool {
    &&& artist.pending_withdrawal > 0
    &&& artist.wallet == signer
    &&& pool_balance >= artist.pending_withdrawal
}

/// Which failure a rejected withdrawal reports, in the order the checks
/// run: empty balance first, then ownership, then pool coverage.
pub open spec fn withdraw_err(
    artist: ArtistAccount,
    signer: Pubkey,
    pool_balance: u64,
) -> CustomError {
    if artist.pending_withdrawal == 0 {
        CustomError::NoFundsToWithdraw
    } else if artist.wallet != signer {
        CustomError::UnauthorizedWithdrawal
    } else {
        CustomError::InsufficientPoolFunds
    }
}

/// The artist record after a successful withdrawal: only the pending
/// balance is cleared; the lifetime counters stay.
pub open spec fn artist_after_withdraw(artist: ArtistAccount) -> ArtistAccount {
    ArtistAccount {
        wallet: artist.wallet,
        artist_id: artist.artist_id,
        total_streams: artist.total_streams,
        total_earnings: artist.total_earnings,
        pending_withdrawal: 0,
        is_verified: artist.is_verified,
    }
}

/// The pool after the first `n` entries of a batch have been applied in
/// input order. Only the distribution total threads from entry to entry;
/// the fee rate never moves.
pub open spec fn pool_after_batch(
    pool: PaymentPool,
    payments: Seq<StreamPaymentData>,
    n: int,
) -> PaymentPool
    decreases n,
{
    if n <= 0 {
        pool
    } else {
        pool_after_payment(
            pool_after_batch(pool, payments, n - 1),
            payments[n - 1].stream_count,
            payments[n - 1].payment_rate,
        )
    }
}

/// The first `n` entries of a batch are all accepted: entry `i` is judged
/// against the pool state left by the entries before it and against its
/// own artist record.
pub open spec fn batch_ok_upto(
    pool: PaymentPool,
    artists: Seq<ArtistAccount>,
    payments: Seq<StreamPaymentData>,
    n: int,
) -> bool
    decreases n,
{
    if n <= 0 {
        true
    } else {
        &&& batch_ok_upto(pool, artists, payments, n - 1)
        &&& payment_ok(
            pool_after_batch(pool, payments, n - 1),
            artists[n - 1],
            payments[n - 1].artist_id@,
            payments[n - 1].stream_count,
            payments[n - 1].payment_rate,
        )
    }
}

/// An accepted batch prefix accepts each of its entries.
pub proof fn lemma_batch_ok_upto_each(
    pool: PaymentPool,
    artists: Seq<ArtistAccount>,
    payments: Seq<StreamPaymentData>,
    n: int,
)
    requires
        batch_ok_upto(pool, artists, payments, n),
    ensures
        forall|i: int|
            0 <= i < n ==> payment_ok(
                pool_after_batch(pool, payments, i),
                artists[i],
                #[trigger] payments[i].artist_id@,
                payments[i].stream_count,
                payments[i].payment_rate,
            ),
    decreases n,
{
    if n > 0 {
        lemma_batch_ok_upto_each(pool, artists, payments, n - 1);
    }
}

} // verus!
