//! Proved laws of the ledger, stated over the model in `model`.
//!
//! These are the crate's general guarantees that span more than one
//! operation or more than one call; the contracts in `engine` tie the
//! executable operations to the same model, so each law carries over to
//! the running code.

use vstd::prelude::*;

use vstd::arithmetic::div_mod::lemma_div_is_ordered;
use vstd::arithmetic::div_mod::lemma_div_multiples_vanish;
use vstd::arithmetic::div_mod::lemma_div_pos_is_pos;
use vstd::arithmetic::mul::lemma_mul_inequality;
use vstd::arithmetic::mul::lemma_mul_nonnegative;

use crate::accounts::ArtistAccount;
use crate::accounts::PaymentPool;
use crate::accounts::Pubkey;
use crate::accounts::MAX_FEE_PERCENT;
use crate::errors::CustomError;
use crate::model::artist_after_payment;
use crate::model::artist_after_withdraw;
use crate::model::fee_of;
use crate::model::gross_of;
use crate::model::net_of;
use crate::model::payment_fits;
use crate::model::payment_ok;
use crate::model::pool_after_payment;
use crate::model::withdraw_err;
use crate::model::withdraw_ok;

verus! {

/// The fee never exceeds the amount it is taken from: for a non-negative
/// gross and a rate of at most 100 percent, `0 <= fee <= gross`.
pub proof fn lemma_fee_within_gross(gross: int, fee_percent: u8)
    requires
        0 <= gross,
        fee_percent <= 100,
    ensures
        0 <= fee_of(gross, fee_percent) <= gross,
        0 <= net_of(gross, fee_percent) <= gross,
{
    lemma_mul_nonnegative(gross, fee_percent as int);
    lemma_div_pos_is_pos(gross * fee_percent, 100);
    lemma_mul_inequality(fee_percent as int, 100, gross);
    lemma_div_is_ordered(gross * fee_percent, gross * 100, 100);
    lemma_div_multiples_vanish(gross, 100);
}

/// The fee split behind every accepted usage payment: the gross amount is
/// the plain product, the fee is the truncated percentage of it, the net
/// share is exactly the remainder, and the net share never exceeds the
/// gross amount.
pub proof fn lemma_fee_split(stream_count: u64, payment_rate: u64, fee_percent: u8)
    requires
        fee_percent <= MAX_FEE_PERCENT,
        gross_of(stream_count, payment_rate) <= u64::MAX,
    ensures
        gross_of(stream_count, payment_rate) == stream_count * payment_rate,
        fee_of(gross_of(stream_count, payment_rate), fee_percent) == gross_of(
            stream_count,
            payment_rate,
        ) * fee_percent / 100,
        net_of(gross_of(stream_count, payment_rate), fee_percent) == gross_of(
            stream_count,
            payment_rate,
        ) - fee_of(gross_of(stream_count, payment_rate), fee_percent),
        0 <= fee_of(gross_of(stream_count, payment_rate), fee_percent) <= gross_of(
            stream_count,
            payment_rate,
        ),
        0 <= net_of(gross_of(stream_count, payment_rate), fee_percent) <= gross_of(
            stream_count,
            payment_rate,
        ),
{
    lemma_mul_nonnegative(stream_count as int, payment_rate as int);
    lemma_fee_within_gross(gross_of(stream_count, payment_rate), fee_percent);
}

/// The lifetime counters never decrease: an accepted usage payment can
/// only grow the artist's stream count, earnings and pending balance and
/// the pool's distribution total, leaves the deposit total alone, and a
/// withdrawal touches nothing but the pending balance it clears.
pub proof fn lemma_counters_monotonic(
    pool: PaymentPool,
    artist: ArtistAccount,
    stream_count: u64,
    payment_rate: u64,
)
    requires
        payment_fits(pool, artist, stream_count, payment_rate),
    ensures
        pool_after_payment(pool, stream_count, payment_rate).total_sol_distributed
            >= pool.total_sol_distributed,
        pool_after_payment(pool, stream_count, payment_rate).total_sol_deposited
            == pool.total_sol_deposited,
        artist_after_payment(
            artist,
            pool.platform_fee_percent,
            stream_count,
            payment_rate,
        ).total_streams >= artist.total_streams,
        artist_after_payment(
            artist,
            pool.platform_fee_percent,
            stream_count,
            payment_rate,
        ).total_earnings >= artist.total_earnings,
        artist_after_payment(
            artist,
            pool.platform_fee_percent,
            stream_count,
            payment_rate,
        ).pending_withdrawal >= artist.pending_withdrawal,
        artist_after_withdraw(artist).total_streams == artist.total_streams,
        artist_after_withdraw(artist).total_earnings == artist.total_earnings,
{
    lemma_mul_nonnegative(stream_count as int, payment_rate as int);
}

/// Running the same accepted usage payment twice moves every counter by
/// exactly twice its single-run delta: the fee rate is not changed by a
/// payment, so the second run credits the same net share as the first.
pub proof fn lemma_payment_deltas_double(
    pool: PaymentPool,
    artist: ArtistAccount,
    artist_id: Seq<char>,
    stream_count: u64,
    payment_rate: u64,
)
    requires
        payment_ok(pool, artist, artist_id, stream_count, payment_rate),
        payment_ok(
            pool_after_payment(pool, stream_count, payment_rate),
            artist_after_payment(artist, pool.platform_fee_percent, stream_count, payment_rate),
            artist_id,
            stream_count,
            payment_rate,
        ),
    ensures
        pool_after_payment(pool, stream_count, payment_rate).platform_fee_percent
            == pool.platform_fee_percent,
        artist_after_payment(
            artist,
            pool.platform_fee_percent,
            stream_count,
            payment_rate,
        ).total_streams == artist.total_streams + stream_count,
        artist_after_payment(
            artist,
            pool.platform_fee_percent,
            stream_count,
            payment_rate,
        ).total_earnings == artist.total_earnings + net_of(
            gross_of(stream_count, payment_rate),
            pool.platform_fee_percent,
        ),
        artist_after_payment(
            artist,
            pool.platform_fee_percent,
            stream_count,
            payment_rate,
        ).pending_withdrawal == artist.pending_withdrawal + net_of(
            gross_of(stream_count, payment_rate),
            pool.platform_fee_percent,
        ),
        pool_after_payment(pool, stream_count, payment_rate).total_sol_distributed
            == pool.total_sol_distributed + gross_of(stream_count, payment_rate),
        pool_after_payment(
            pool_after_payment(pool, stream_count, payment_rate),
            stream_count,
            payment_rate,
        ).total_sol_distributed == pool.total_sol_distributed + 2 * gross_of(
            stream_count,
            payment_rate,
        ),
        artist_after_payment(
            artist_after_payment(artist, pool.platform_fee_percent, stream_count, payment_rate),
            pool.platform_fee_percent,
            stream_count,
            payment_rate,
        ) == (ArtistAccount {
            wallet: artist.wallet,
            artist_id: artist.artist_id,
            total_streams: (artist.total_streams + 2 * stream_count) as u64,
            total_earnings: (artist.total_earnings + 2 * net_of(
                gross_of(stream_count, payment_rate),
                pool.platform_fee_percent,
            )) as u64,
            pending_withdrawal: (artist.pending_withdrawal + 2 * net_of(
                gross_of(stream_count, payment_rate),
                pool.platform_fee_percent,
            )) as u64,
            is_verified: artist.is_verified,
        }),
{
    lemma_mul_nonnegative(stream_count as int, payment_rate as int);
}

/// A successful withdrawal clears the pending balance and leaves the
/// lifetime earnings untouched, and a second withdrawal with no
/// intervening credit is rejected for want of funds, whatever live
/// balance the pool has by then.
pub proof fn lemma_withdraw_then_withdraw(
    artist: ArtistAccount,
    signer: Pubkey,
    pool_balance: u64,
    later_balance: u64,
)
    requires
        withdraw_ok(artist, signer, pool_balance),
    ensures
        artist_after_withdraw(artist).pending_withdrawal == 0,
        artist_after_withdraw(artist).total_earnings == artist.total_earnings,
        !withdraw_ok(artist_after_withdraw(artist), signer, later_balance),
        withdraw_err(artist_after_withdraw(artist), signer, later_balance)
            == CustomError::NoFundsToWithdraw,
{
}

/// A withdrawal signed by anyone but the record's owner is rejected as
/// unauthorized whenever there is a balance to protect. (With an empty
/// balance the engine reports the no-funds failure first; the engine's
/// contract adds that a rejected withdrawal changes no record.)
pub proof fn lemma_withdraw_wrong_signer(
    artist: ArtistAccount,
    signer: Pubkey,
    pool_balance: u64,
)
    requires
        artist.pending_withdrawal > 0,
        signer != artist.wallet,
    ensures
        !withdraw_ok(artist, signer, pool_balance),
        withdraw_err(artist, signer, pool_balance) == CustomError::UnauthorizedWithdrawal,
{
}

} // verus!
