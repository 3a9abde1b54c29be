use metadogo::draw::{draw_byte, make_draw_input, push_be_bytes, reduce_byte};
use metadogo::game::{payout_for, release_for, CallContext, Metadogo, PlayError, Released};

const EVE: [u8; 32] = [5u8; 32];

fn paid_call(now: u64, transferred: u128, balance: u128) -> CallContext {
    CallContext { now, caller: EVE, transferred, balance }
}

#[test]
fn lib_default_works() {
    let metadogo = Metadogo::default(42);
    assert_eq!(metadogo.get_last_play_time(), 42);
    assert_eq!(metadogo.get_last_feed_time(), 42);
    assert_eq!(metadogo.get_salt(), 0);
}

#[test]
fn throw_ball_without_value_works() {
    let play_time = 0;
    let feed_time = 0;
    let salt = 0;
    let mut dogo = Metadogo::new(feed_time, play_time, salt);
    assert_eq!(dogo.get_last_play_time(), 0);
    assert_eq!(dogo.get_last_feed_time(), 0);
    assert_eq!(dogo.get_salt(), salt);
    let released = dogo.throw_ball(&paid_call(0, 0, 0));
    assert_eq!(released, None);
    assert_eq!(dogo.get_last_play_time(), 0);
    assert_eq!(dogo.get_last_feed_time(), 0);
    assert_eq!(dogo.get_salt(), salt);
}

#[test]
fn throw_ball_with_value_works() {
    let initial_timestamp = 10;
    let mut dogo = Metadogo::new(initial_timestamp, initial_timestamp, 0);
    assert_eq!(dogo.get_last_play_time(), initial_timestamp);
    assert_eq!(dogo.get_last_feed_time(), initial_timestamp);
    assert_eq!(dogo.get_salt(), 0);
    // the draw at this time with salt 0 is 82
    let current_timestamp = 1000;
    let caller_balance_initial: u128 = 100;
    // holdings of 10, plus the 100 attached to the call
    let released = dogo.throw_ball(&paid_call(current_timestamp, 100, 110));
    assert_eq!(dogo.get_last_play_time(), current_timestamp);
    assert_eq!(dogo.get_last_feed_time(), initial_timestamp);
    assert_eq!(dogo.get_salt(), 1);
    assert_eq!(released, Some(Released { value: 110 / 92, to: EVE }));
    let caller_balance_new = caller_balance_initial - 100 + released.unwrap().value;
    assert_ne!(caller_balance_initial, caller_balance_new)
}

#[test]
fn throw_ball_with_value_but_no_payout_works() {
    let initial_timestamp = 10;
    let mut dogo = Metadogo::new(initial_timestamp, initial_timestamp, 0);
    assert_eq!(dogo.get_last_play_time(), initial_timestamp);
    assert_eq!(dogo.get_last_feed_time(), initial_timestamp);
    assert_eq!(dogo.get_salt(), 0);
    // the draw at this time with salt 0 is 191
    let current_timestamp = 1001;
    let released = dogo.throw_ball(&paid_call(current_timestamp, 100, 110));
    assert_eq!(dogo.get_last_play_time(), current_timestamp);
    assert_eq!(dogo.get_last_feed_time(), initial_timestamp);
    assert_eq!(dogo.get_salt(), 1);
    assert_eq!(released, None);
}

#[test]
fn known_draws() {
    assert_eq!(draw_byte(1000, 0, 254), 82);
    assert_eq!(draw_byte(1001, 0, 254), 191);
}

#[test]
fn draw_is_deterministic() {
    let first = draw_byte(123_456, 7, 254);
    let second = draw_byte(123_456, 7, 254);
    assert_eq!(first, second);
    let mut a = Metadogo::new(0, 0, 7);
    let mut b = Metadogo::new(5, 9, 7);
    assert_eq!(a.get_pseudo_random(123_456, 254), b.get_pseudo_random(123_456, 254));
    assert_eq!(make_draw_input(123_456, 7) == make_draw_input(123_456, 8), false);
}

#[test]
fn draw_in_range_and_salt_advances() {
    let mut dogo = Metadogo::new(1, 2, 0);
    for i in 0..300u64 {
        let n = dogo.get_pseudo_random(777, 254);
        assert!(n <= 254);
        assert_eq!(dogo.get_salt(), i + 1);
        assert_eq!(dogo.get_last_feed_time(), 1);
        assert_eq!(dogo.get_last_play_time(), 2);
    }
    let mut small = Metadogo::new(0, 0, 0);
    for _ in 0..50 {
        assert!(small.get_pseudo_random(9, 3) <= 3);
    }
}

#[test]
fn draw_input_bytes() {
    let input = make_draw_input(0x0102_0304_0506_0708, 1000);
    assert_eq!(input, vec![1, 2, 3, 4, 5, 6, 7, 8, 0, 0, 0, 0, 0, 0, 0x03, 0xe8]);
    let mut out = vec![9u8];
    push_be_bytes(&mut out, u64::MAX);
    assert_eq!(out, vec![9, 255, 255, 255, 255, 255, 255, 255, 255]);
}

#[test]
fn reduce_byte_wraps() {
    assert_eq!(reduce_byte(254, 254), 254);
    assert_eq!(reduce_byte(255, 254), 0);
    assert_eq!(reduce_byte(200, 99), 0);
    assert_eq!(reduce_byte(7, 0), 0);
}

#[test]
fn payout_formula() {
    assert_eq!(payout_for(100, 0), Some(10));
    assert_eq!(payout_for(100, 89), Some(1));
    assert_eq!(payout_for(1000, 82), Some(10));
    assert_eq!(payout_for(u128::MAX, 0), Some(u128::MAX / 10));
}

#[test]
fn payout_boundary() {
    assert_eq!(payout_for(100, 90), None);
    assert_eq!(payout_for(1_000_000, 90), None);
    assert_eq!(payout_for(100, 254), None);
    assert!(payout_for(100, 89).is_some());
    assert_eq!(payout_for(5, 89), Some(0));
}

#[test]
fn release_goes_to_caller() {
    let ctx = paid_call(3, 50, 100);
    assert_eq!(release_for(&ctx, 0), Some(Released { value: 10, to: EVE }));
    assert_eq!(release_for(&ctx, 90), None);
}

#[test]
fn low_balance_plays_without_draw() {
    let mut dogo = Metadogo::new(4, 4, 3);
    let released = dogo.throw_ball(&paid_call(50, 5, 9));
    assert_eq!(released, None);
    assert_eq!(dogo.get_last_play_time(), 50);
    assert_eq!(dogo.get_last_feed_time(), 4);
    assert_eq!(dogo.get_salt(), 3);
}

#[test]
fn zero_deposit_never_draws() {
    let mut dogo = Metadogo::new(4, 4, 3);
    let released = dogo.throw_ball(&paid_call(60, 0, 1_000_000));
    assert_eq!(released, None);
    assert_eq!(dogo.get_last_play_time(), 60);
    assert_eq!(dogo.get_salt(), 3);
}

#[test]
fn winning_play_settled() {
    let mut dogo = Metadogo::new(10, 10, 0);
    let before = dogo;
    let released = dogo.throw_ball(&paid_call(1000, 100, 110));
    assert!(released.is_some());
    assert_eq!(dogo.settle(before, true), Ok(()));
    assert_eq!(dogo.get_last_play_time(), 1000);
    assert_eq!(dogo.get_salt(), 1);
}

#[test]
fn failed_transfer_rolls_back() {
    let mut dogo = Metadogo::new(10, 10, 0);
    let before = dogo;
    let released = dogo.throw_ball(&paid_call(1000, 100, 110));
    assert!(released.is_some());
    assert_eq!(dogo.settle(before, false), Err(PlayError::TransferFailed));
    assert_eq!(dogo, before);
    assert_eq!(dogo.get_last_play_time(), 10);
    assert_eq!(dogo.get_salt(), 0);
}
