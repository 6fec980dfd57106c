//! The accounting operations.
//!
//! Each function here is one atomic transition of the ledger: it validates,
//! then either mutates the records it was handed and returns the event the
//! host should emit, or returns a distinct error and leaves every record
//! exactly as it was. The host platform supplies identities, the pool's
//! live balance and timestamps as plain values and performs the actual
//! currency movement that a returned event describes.

use vstd::prelude::*;
use vstd::string::StrSliceExecFns;

use crate::accounts::ArtistAccount;
use crate::accounts::PaymentPool;
use crate::accounts::Pubkey;
use crate::accounts::RevenueSource;
use crate::accounts::StreamPaymentData;
use crate::accounts::MAX_ARTIST_ID_LEN;
use crate::accounts::MAX_BATCH_LEN;
use crate::accounts::MAX_FEE_PERCENT;
use crate::errors::CustomError;
use crate::events::EarningsWithdrawn;
use crate::events::RevenueDeposited;
use crate::events::StreamPaymentProcessed;
use crate::model::artist_after_payment;
use crate::model::artist_after_withdraw;
use crate::model::batch_ok_upto;
use crate::model::lemma_batch_ok_upto_each;
use crate::model::pool_after_batch;
use crate::model::gross_of;
use crate::model::net_of;
use crate::model::payment_err;
use crate::model::payment_ok;
use crate::model::pool_after_payment;
use crate::model::withdraw_err;
use crate::model::withdraw_ok;

verus! {

/// Create the pool record for a deployment.
///
/// Succeeds exactly when the fee percentage is within [0, 30]; the new
/// record carries the given authority, the fee rate, and zero totals.
/// Creating the record a second time for the same deployment is refused by
/// the host's duplicate-resource rule, not re-checked here.
pub fn initialize_payment_pool(
    authority: Pubkey,
    platform_fee_percent: u8,
) -> (result: Result<PaymentPool, CustomError>)
    ensures
        result is Ok <==> platform_fee_percent <= MAX_FEE_PERCENT,
        result is Ok ==> result->Ok_0 == (PaymentPool {
            authority,
            platform_fee_percent,
            total_sol_deposited: 0,
            total_sol_distributed: 0,
        }),
        result is Ok ==> result->Ok_0.wf(),
        result is Err ==> result->Err_0 == CustomError::InvalidFeePercent,
{
    if platform_fee_percent > MAX_FEE_PERCENT {
        return Err(CustomError::InvalidFeePercent);
    }
    Ok(PaymentPool {
        authority,
        platform_fee_percent,
        total_sol_deposited: 0,
        total_sol_distributed: 0,
    })
}

/// Create the record for a newly registered artist.
///
/// Succeeds exactly when the label holds at most 64 characters; the new
/// record belongs to the registering wallet and starts with zero totals,
/// an empty pending balance, and the verification flag cleared. Labels
/// need not be unique across artists: only the wallet pairing is, and the
/// host's addressing enforces that.
pub fn register_artist(
    artist_wallet: Pubkey,
    artist_id: String,
) -> (result: Result<ArtistAccount, CustomError>)
    ensures
        result is Ok <==> artist_id@.len() <= MAX_ARTIST_ID_LEN,
        result is Ok ==> result->Ok_0 == (ArtistAccount {
            wallet: artist_wallet,
            artist_id,
            total_streams: 0,
            total_earnings: 0,
            pending_withdrawal: 0,
            is_verified: false,
        }),
        result is Ok ==> result->Ok_0.wf(),
        result is Err ==> result->Err_0 == CustomError::ArtistIdTooLong,
{
    if artist_id.as_str().unicode_len() > MAX_ARTIST_ID_LEN {
        return Err(CustomError::ArtistIdTooLong);
    }
    Ok(ArtistAccount {
        wallet: artist_wallet,
        artist_id,
        total_streams: 0,
        total_earnings: 0,
        pending_withdrawal: 0,
        is_verified: false,
    })
}

/// Record a revenue deposit in the pool's lifetime total.
///
/// The host moves `amount` of native currency from the depositor to the
/// pool in the same atomic unit; this core adds it to the deposited total.
/// Succeeds exactly when that total does not overflow 64 bits; a zero
/// amount is accepted and only performs the (no-op) addition. The returned
/// event carries the amount, its source tag and the host's timestamp.
pub fn deposit_revenue(
    payment_pool: &mut PaymentPool,
    amount: u64,
    revenue_source: RevenueSource,
    timestamp: i64,
) -> (result: Result<RevenueDeposited, CustomError>)
    ensures
        result is Ok <==> old(payment_pool).total_sol_deposited + amount <= u64::MAX,
        result is Ok ==> *final(payment_pool) == (PaymentPool {
            authority: old(payment_pool).authority,
            platform_fee_percent: old(payment_pool).platform_fee_percent,
            total_sol_deposited: (old(payment_pool).total_sol_deposited + amount) as u64,
            total_sol_distributed: old(payment_pool).total_sol_distributed,
        }),
        result is Ok ==> result->Ok_0 == (RevenueDeposited {
            amount,
            source: revenue_source,
            timestamp,
        }),
        result is Err ==> *final(payment_pool) == *old(payment_pool),
        result is Err ==> result->Err_0 == CustomError::MathOverflow,
{
    let new_total = match payment_pool.total_sol_deposited.checked_add(amount) {
        Some(total) => total,
        None => {
            return Err(CustomError::MathOverflow);
        },
    };
    payment_pool.total_sol_deposited = new_total;
    Ok(RevenueDeposited { amount, source: revenue_source, timestamp })
}

/// Credit one artist for a span of usage and charge the pool.
///
/// Succeeds exactly when the supplied label matches the record and the
/// whole arithmetic chain fits in 64 bits (`payment_ok`). On success the
/// records move to `pool_after_payment` and `artist_after_payment`: the
/// artist's stream counter grows by the usage, the net share lands in the
/// lifetime earnings and the pending balance, and the gross amount lands
/// in the pool's distribution total. On any failure — a mismatched label
/// is reported before arithmetic, any overflow as an arithmetic failure —
/// neither record changes: there is no partial credit.
///
/// Two deliberate looseness points, kept as the ledger was designed:
/// the authorization check compares the caller-presented label with the
/// label stored on the record being mutated, which is weaker than
/// checking the record's storage address; and no solvency rule ties
/// `total_sol_distributed` to `total_sol_deposited` — distributing more
/// than was ever deposited is not rejected here, the withdrawal-time
/// balance check being the only backstop.
pub fn process_stream_payment(
    payment_pool: &mut PaymentPool,
    artist_account: &mut ArtistAccount,
    artist_id: String,
    stream_count: u64,
    payment_rate: u64,
    timestamp: i64,
) -> (result: Result<StreamPaymentProcessed, CustomError>)
    ensures
        result is Ok <==> payment_ok(
            *old(payment_pool),
            *old(artist_account),
            artist_id@,
            stream_count,
            payment_rate,
        ),
        result is Ok ==> {
            &&& *final(payment_pool) == pool_after_payment(
                *old(payment_pool),
                stream_count,
                payment_rate,
            )
            &&& *final(artist_account) == artist_after_payment(
                *old(artist_account),
                old(payment_pool).platform_fee_percent,
                stream_count,
                payment_rate,
            )
            &&& result->Ok_0.artist_id == artist_id
            &&& result->Ok_0.stream_count == stream_count
            &&& result->Ok_0.gross_earnings == gross_of(stream_count, payment_rate)
            &&& result->Ok_0.net_earnings == net_of(
                gross_of(stream_count, payment_rate),
                old(payment_pool).platform_fee_percent,
            )
            &&& result->Ok_0.timestamp == timestamp
        },
        result is Err ==> {
            &&& *final(payment_pool) == *old(payment_pool)
            &&& *final(artist_account) == *old(artist_account)
            &&& result->Err_0 == payment_err(*old(artist_account), artist_id@)
        },
{
    if !(artist_account.artist_id == artist_id) {
        return Err(CustomError::InvalidArtist);
    }
    let gross_earnings = match stream_count.checked_mul(payment_rate) {
        Some(gross) => gross,
        None => {
            return Err(CustomError::MathOverflow);
        },
    };
    let fee_numerator = match gross_earnings.checked_mul(payment_pool.platform_fee_percent as u64) {
        Some(numerator) => numerator,
        None => {
            return Err(CustomError::MathOverflow);
        },
    };
    let platform_fee = fee_numerator / 100;
    let net_earnings = match gross_earnings.checked_sub(platform_fee) {
        Some(net) => net,
        None => {
            return Err(CustomError::MathOverflow);
        },
    };
    let new_total_streams = match artist_account.total_streams.checked_add(stream_count) {
        Some(total) => total,
        None => {
            return Err(CustomError::MathOverflow);
        },
    };
    let new_total_earnings = match artist_account.total_earnings.checked_add(net_earnings) {
        Some(total) => total,
        None => {
            return Err(CustomError::MathOverflow);
        },
    };
    let new_pending = match artist_account.pending_withdrawal.checked_add(net_earnings) {
        Some(total) => total,
        None => {
            return Err(CustomError::MathOverflow);
        },
    };
    let new_distributed = match payment_pool.total_sol_distributed.checked_add(gross_earnings) {
        Some(total) => total,
        None => {
            return Err(CustomError::MathOverflow);
        },
    };
    artist_account.total_streams = new_total_streams;
    artist_account.total_earnings = new_total_earnings;
    artist_account.pending_withdrawal = new_pending;
    payment_pool.total_sol_distributed = new_distributed;
    Ok(StreamPaymentProcessed {
        artist_id,
        stream_count,
        gross_earnings,
        net_earnings,
        timestamp,
    })
}

/// Pay out an artist's pending balance.
///
/// The host moves the amount named by the returned event from the pool to
/// the artist's wallet in the same atomic unit; `pool_balance` is the
/// pool's live transferable balance the host read inside that unit.
/// Succeeds exactly when there is a pending balance, the signer is the
/// record's owner, and the pool covers the amount (`withdraw_ok`); the
/// three rejections are reported in that order. On success only the
/// pending balance is cleared — the lifetime earnings counter stays — and
/// on failure the record does not change.
pub fn withdraw_earnings(
    artist_account: &mut ArtistAccount,
    artist_wallet: Pubkey,
    pool_balance: u64,
    timestamp: i64,
) -> (result: Result<EarningsWithdrawn, CustomError>)
    ensures
        result is Ok <==> withdraw_ok(*old(artist_account), artist_wallet, pool_balance),
        result is Ok ==> *final(artist_account) == artist_after_withdraw(*old(artist_account)),
        result is Ok ==> result->Ok_0 == (EarningsWithdrawn {
            artist_wallet,
            amount: old(artist_account).pending_withdrawal,
            timestamp,
        }),
        result is Err ==> *final(artist_account) == *old(artist_account),
        result is Err ==> result->Err_0 == withdraw_err(
            *old(artist_account),
            artist_wallet,
            pool_balance,
        ),
{
    let withdrawal_amount = artist_account.pending_withdrawal;
    if withdrawal_amount == 0 {
        return Err(CustomError::NoFundsToWithdraw);
    }
    if !(artist_account.wallet == artist_wallet) {
        return Err(CustomError::UnauthorizedWithdrawal);
    }
    if pool_balance < withdrawal_amount {
        return Err(CustomError::InsufficientPoolFunds);
    }
    artist_account.pending_withdrawal = 0;
    Ok(EarningsWithdrawn { artist_wallet, amount: withdrawal_amount, timestamp })
}

/// Apply a whole batch of usage payments as one atomic unit.
///
/// The host hands one artist record per entry, in entry order. A batch of
/// more than 50 entries is rejected wholesale; otherwise each entry runs
/// through the single-payment logic against the pool state left by the
/// entries before it. The batch succeeds exactly when every entry does
/// (`batch_ok_upto` over the whole input); it then returns one event per
/// entry and commits every update at once. If any entry is rejected, its
/// failure is reported for the first such entry and no record changes at
/// all — there is no partial batch.
pub fn batch_process_payments(
    payment_pool: &mut PaymentPool,
    artist_accounts: &mut Vec<ArtistAccount>,
    payments: &Vec<StreamPaymentData>,
    timestamp: i64,
) -> (result: Result<Vec<StreamPaymentProcessed>, CustomError>)
    requires
        old(artist_accounts)@.len() == payments@.len(),
    ensures
        result is Ok <==> payments@.len() <= MAX_BATCH_LEN && batch_ok_upto(
            *old(payment_pool),
            old(artist_accounts)@,
            payments@,
            payments@.len() as int,
        ),
        result is Ok ==> {
            &&& *final(payment_pool) == pool_after_batch(
                *old(payment_pool),
                payments@,
                payments@.len() as int,
            )
            &&& final(artist_accounts)@.len() == payments@.len()
            &&& forall|i: int|
                0 <= i < payments@.len() ==> final(artist_accounts)@[i] == artist_after_payment(
                    old(artist_accounts)@[i],
                    old(payment_pool).platform_fee_percent,
                    #[trigger] payments@[i].stream_count,
                    payments@[i].payment_rate,
                )
            &&& result->Ok_0@.len() == payments@.len()
            &&& forall|i: int|
                0 <= i < payments@.len() ==> {
                    let event = #[trigger] result->Ok_0@[i];
                    &&& event.artist_id@ == payments@[i].artist_id@
                    &&& event.stream_count == payments@[i].stream_count
                    &&& event.gross_earnings == gross_of(
                        payments@[i].stream_count,
                        payments@[i].payment_rate,
                    )
                    &&& event.net_earnings == net_of(
                        gross_of(payments@[i].stream_count, payments@[i].payment_rate),
                        old(payment_pool).platform_fee_percent,
                    )
                    &&& event.timestamp == timestamp
                }
        },
        result is Err ==> {
            &&& *final(payment_pool) == *old(payment_pool)
            &&& final(artist_accounts)@ == old(artist_accounts)@
        },
        payments@.len() > MAX_BATCH_LEN ==> result is Err && result->Err_0
            == CustomError::BatchTooLarge,
        payments@.len() <= MAX_BATCH_LEN && result is Err ==> exists|i: int|
            {
                &&& 0 <= i < payments@.len()
                &&& batch_ok_upto(*old(payment_pool), old(artist_accounts)@, payments@, i)
                &&& !payment_ok(
                    pool_after_batch(*old(payment_pool), payments@, i),
                    old(artist_accounts)@[i],
                    #[trigger] payments@[i].artist_id@,
                    payments@[i].stream_count,
                    payments@[i].payment_rate,
                )
                &&& result->Err_0 == payment_err(
                    old(artist_accounts)@[i],
                    payments@[i].artist_id@,
                )
            },
{
    if payments.len() > MAX_BATCH_LEN {
        return Err(CustomError::BatchTooLarge);
    }
    let mut staged_pool: PaymentPool = *payment_pool;
    let mut staged_artists: Vec<ArtistAccount> = Vec::new();
    let mut events: Vec<StreamPaymentProcessed> = Vec::new();
    let mut i: usize = 0;
    while i < payments.len()
        invariant
            i <= payments@.len(),
            payments@.len() <= MAX_BATCH_LEN,
            old(artist_accounts)@.len() == payments@.len(),
            *payment_pool == *old(payment_pool),
            *artist_accounts == *old(artist_accounts),
            staged_pool == pool_after_batch(*old(payment_pool), payments@, i as int),
            staged_pool.platform_fee_percent == old(payment_pool).platform_fee_percent,
            batch_ok_upto(*old(payment_pool), old(artist_accounts)@, payments@, i as int),
            staged_artists@.len() == i,
            events@.len() == i,
            forall|j: int|
                0 <= j < i ==> staged_artists@[j] == artist_after_payment(
                    old(artist_accounts)@[j],
                    old(payment_pool).platform_fee_percent,
                    #[trigger] payments@[j].stream_count,
                    payments@[j].payment_rate,
                ),
            forall|j: int|
                0 <= j < i ==> {
                    let event = #[trigger] events@[j];
                    &&& event.artist_id@ == payments@[j].artist_id@
                    &&& event.stream_count == payments@[j].stream_count
                    &&& event.gross_earnings == gross_of(
                        payments@[j].stream_count,
                        payments@[j].payment_rate,
                    )
                    &&& event.net_earnings == net_of(
                        gross_of(payments@[j].stream_count, payments@[j].payment_rate),
                        old(payment_pool).platform_fee_percent,
                    )
                    &&& event.timestamp == timestamp
                },
        decreases payments@.len() - i,
    {
        let entry = &payments[i];
        let mut staged_account = artist_accounts[i].clone();
        let outcome = process_stream_payment(
            &mut staged_pool,
            &mut staged_account,
            entry.artist_id.clone(),
            entry.stream_count,
            entry.payment_rate,
            timestamp,
        );
        match outcome {
            Ok(event) => {
                staged_artists.push(staged_account);
                events.push(event);
            },
            Err(failure) => {
                proof {
                    if batch_ok_upto(
                        *old(payment_pool),
                        old(artist_accounts)@,
                        payments@,
                        payments@.len() as int,
                    ) {
                        lemma_batch_ok_upto_each(
                            *old(payment_pool),
                            old(artist_accounts)@,
                            payments@,
                            payments@.len() as int,
                        );
                    }
                }
                return Err(failure);
            },
        }
        i += 1;
    }
    *payment_pool = staged_pool;
    *artist_accounts = staged_artists;
    Ok(events)
}

} // verus!
