use music_payment::accounts::ArtistAccount;
use music_payment::accounts::PaymentPool;
use music_payment::accounts::Pubkey;
use music_payment::accounts::RevenueSource;
use music_payment::engine::deposit_revenue;
use music_payment::engine::initialize_payment_pool;
use music_payment::engine::process_stream_payment;
use music_payment::engine::withdraw_earnings;
use music_payment::errors::CustomError;

fn key(n: u64) -> Pubkey {
    Pubkey { w0: n, w1: 0, w2: 0, w3: 0 }
}

fn pool_with_fee(fee: u8) -> PaymentPool {
    initialize_payment_pool(key(1), fee).unwrap()
}

fn registered(label: &str) -> ArtistAccount {
    register(label, 2)
}

fn register(label: &str, wallet: u64) -> ArtistAccount {
    music_payment::engine::register_artist(key(wallet), label.to_string()).unwrap()
}

fn assert_same_artist(a: &ArtistAccount, b: &ArtistAccount) {
    assert_eq!(a.wallet, b.wallet);
    assert_eq!(a.artist_id, b.artist_id);
    assert_eq!(a.total_streams, b.total_streams);
    assert_eq!(a.total_earnings, b.total_earnings);
    assert_eq!(a.pending_withdrawal, b.pending_withdrawal);
    assert_eq!(a.is_verified, b.is_verified);
}

#[test]
fn init_pool_accepts_fee_up_to_thirty() {
    for fee in 0..=30u8 {
        let pool = initialize_payment_pool(key(9), fee).unwrap();
        assert_eq!(pool.authority, key(9));
        assert_eq!(pool.platform_fee_percent, fee);
        assert_eq!(pool.total_sol_deposited, 0);
        assert_eq!(pool.total_sol_distributed, 0);
    }
}

#[test]
fn init_pool_rejects_fee_above_thirty() {
    assert_eq!(
        initialize_payment_pool(key(9), 31),
        Err(CustomError::InvalidFeePercent)
    );
    assert_eq!(
        initialize_payment_pool(key(9), 255),
        Err(CustomError::InvalidFeePercent)
    );
}

#[test]
fn register_accepts_label_of_sixty_four() {
    let label = "a".repeat(64);
    let account = music_payment::engine::register_artist(key(5), label.clone()).unwrap();
    assert_eq!(account.wallet, key(5));
    assert_eq!(account.artist_id, label);
    assert_eq!(account.total_streams, 0);
    assert_eq!(account.total_earnings, 0);
    assert_eq!(account.pending_withdrawal, 0);
    assert!(!account.is_verified);
}

#[test]
fn register_rejects_label_of_sixty_five() {
    let label = "a".repeat(65);
    assert_eq!(
        music_payment::engine::register_artist(key(5), label).unwrap_err(),
        CustomError::ArtistIdTooLong
    );
}

#[test]
fn payment_example_fee_split() {
    let mut pool = pool_with_fee(10);
    let mut artist = registered("ava");
    let event = process_stream_payment(&mut pool, &mut artist, "ava".to_string(), 1000, 1_000_000, 7)
        .unwrap();
    assert_eq!(event.gross_earnings, 1_000_000_000);
    assert_eq!(event.net_earnings, 900_000_000);
    assert_eq!(event.stream_count, 1000);
    assert_eq!(event.artist_id, "ava");
    assert_eq!(event.timestamp, 7);
    assert_eq!(artist.pending_withdrawal, 900_000_000);
    assert_eq!(artist.total_earnings, 900_000_000);
    assert_eq!(artist.total_streams, 1000);
    assert_eq!(pool.total_sol_distributed, 1_000_000_000);
}

#[test]
fn payment_fee_division_truncates_toward_zero() {
    let mut pool = pool_with_fee(10);
    let mut artist = registered("bo");
    let event =
        process_stream_payment(&mut pool, &mut artist, "bo".to_string(), 1, 33, 0).unwrap();
    assert_eq!(event.gross_earnings, 33);
    // floor(33 * 10 / 100) = 3: the remainder stays with the artist.
    assert_eq!(event.net_earnings, 30);
}

#[test]
fn payment_with_zero_fee_credits_whole_gross() {
    let mut pool = pool_with_fee(0);
    let mut artist = registered("cy");
    let event =
        process_stream_payment(&mut pool, &mut artist, "cy".to_string(), 12, 25, 0).unwrap();
    assert_eq!(event.gross_earnings, 300);
    assert_eq!(event.net_earnings, 300);
    assert_eq!(artist.pending_withdrawal, 300);
}

#[test]
fn payment_rejects_mismatched_label() {
    let mut pool = pool_with_fee(10);
    let mut artist = registered("dee");
    let before_pool = pool;
    let before_artist = artist.clone();
    let result = process_stream_payment(&mut pool, &mut artist, "dea".to_string(), 10, 10, 0);
    assert_eq!(result.unwrap_err(), CustomError::InvalidArtist);
    assert_eq!(pool, before_pool);
    assert_same_artist(&artist, &before_artist);
}

#[test]
fn payment_detects_multiplication_overflow() {
    let mut pool = pool_with_fee(10);
    let mut artist = registered("eli");
    let before_pool = pool;
    let before_artist = artist.clone();
    let result =
        process_stream_payment(&mut pool, &mut artist, "eli".to_string(), 1u64 << 63, 4, 0);
    assert_eq!(result.unwrap_err(), CustomError::MathOverflow);
    assert_eq!(pool, before_pool);
    assert_same_artist(&artist, &before_artist);
}

#[test]
fn payment_detects_fee_numerator_overflow() {
    let mut pool = pool_with_fee(10);
    let mut artist = registered("fay");
    let before_artist = artist.clone();
    // The gross product fits, but gross * 10 does not.
    let result =
        process_stream_payment(&mut pool, &mut artist, "fay".to_string(), u64::MAX, 1, 0);
    assert_eq!(result.unwrap_err(), CustomError::MathOverflow);
    assert_same_artist(&artist, &before_artist);
    assert_eq!(pool.total_sol_distributed, 0);
}

#[test]
fn payment_twice_doubles_every_delta() {
    let mut pool = pool_with_fee(10);
    let mut artist = registered("gus");
    process_stream_payment(&mut pool, &mut artist, "gus".to_string(), 1000, 1_000_000, 0)
        .unwrap();
    let streams_once = artist.total_streams;
    let earnings_once = artist.total_earnings;
    let pending_once = artist.pending_withdrawal;
    let distributed_once = pool.total_sol_distributed;
    process_stream_payment(&mut pool, &mut artist, "gus".to_string(), 1000, 1_000_000, 0)
        .unwrap();
    assert_eq!(artist.total_streams, 2 * streams_once);
    assert_eq!(artist.total_earnings, 2 * earnings_once);
    assert_eq!(artist.pending_withdrawal, 2 * pending_once);
    assert_eq!(pool.total_sol_distributed, 2 * distributed_once);
}

#[test]
fn deposit_accumulates_and_reports() {
    let mut pool = pool_with_fee(5);
    let event = deposit_revenue(&mut pool, 400, RevenueSource::Ads, 11).unwrap();
    assert_eq!(event.amount, 400);
    assert_eq!(event.source, RevenueSource::Ads);
    assert_eq!(event.timestamp, 11);
    deposit_revenue(&mut pool, 600, RevenueSource::Subscription, 12).unwrap();
    assert_eq!(pool.total_sol_deposited, 1000);
    assert_eq!(pool.total_sol_distributed, 0);
}

#[test]
fn deposit_of_zero_is_accepted() {
    let mut pool = pool_with_fee(5);
    deposit_revenue(&mut pool, 0, RevenueSource::DirectFunding, 0).unwrap();
    assert_eq!(pool.total_sol_deposited, 0);
}

#[test]
fn deposit_detects_overflow() {
    let mut pool = pool_with_fee(5);
    deposit_revenue(&mut pool, u64::MAX, RevenueSource::Ads, 0).unwrap();
    let before = pool;
    let result = deposit_revenue(&mut pool, 1, RevenueSource::Ads, 0);
    assert_eq!(result.unwrap_err(), CustomError::MathOverflow);
    assert_eq!(pool, before);
}

#[test]
fn withdraw_clears_pending_and_keeps_earnings() {
    let mut pool = pool_with_fee(10);
    let mut artist = registered("hal");
    process_stream_payment(&mut pool, &mut artist, "hal".to_string(), 1000, 1_000_000, 0)
        .unwrap();
    let event = withdraw_earnings(&mut artist, key(2), 900_000_000, 21).unwrap();
    assert_eq!(event.amount, 900_000_000);
    assert_eq!(event.artist_wallet, key(2));
    assert_eq!(event.timestamp, 21);
    assert_eq!(artist.pending_withdrawal, 0);
    assert_eq!(artist.total_earnings, 900_000_000);
    let second = withdraw_earnings(&mut artist, key(2), 900_000_000, 22);
    assert_eq!(second.unwrap_err(), CustomError::NoFundsToWithdraw);
    assert_eq!(artist.total_earnings, 900_000_000);
}

#[test]
fn withdraw_rejects_wrong_signer() {
    let mut pool = pool_with_fee(10);
    let mut artist = registered("ida");
    process_stream_payment(&mut pool, &mut artist, "ida".to_string(), 10, 100, 0).unwrap();
    let before = artist.clone();
    let result = withdraw_earnings(&mut artist, key(99), u64::MAX, 0);
    assert_eq!(result.unwrap_err(), CustomError::UnauthorizedWithdrawal);
    assert_same_artist(&artist, &before);
}

#[test]
fn withdraw_rejects_uncovered_amount() {
    let mut pool = pool_with_fee(0);
    let mut artist = registered("joy");
    process_stream_payment(&mut pool, &mut artist, "joy".to_string(), 10, 100, 0).unwrap();
    let before = artist.clone();
    let result = withdraw_earnings(&mut artist, key(2), 999, 0);
    assert_eq!(result.unwrap_err(), CustomError::InsufficientPoolFunds);
    assert_same_artist(&artist, &before);
}

#[test]
fn withdraw_rejects_empty_balance() {
    let mut artist = registered("kim");
    let result = withdraw_earnings(&mut artist, key(2), u64::MAX, 0);
    assert_eq!(result.unwrap_err(), CustomError::NoFundsToWithdraw);
    assert_eq!(artist.pending_withdrawal, 0);
}
