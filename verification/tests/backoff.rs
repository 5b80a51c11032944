use sn_client::backoff::{checked_delay_secs, delay_secs, BASE_DELAY_SECS, MAX_BACKOFF_ATTEMPTS};
use sn_client::SNClient;

#[test]
fn first_retry_waits_the_base_delay() {
    assert_eq!(BASE_DELAY_SECS, 1);
    assert_eq!(delay_secs(1), 1);
}

#[test]
fn a_count_of_zero_does_not_underflow() {
    assert_eq!(delay_secs(0), 1);
    assert_eq!(checked_delay_secs(0), Some(1));
}

#[test]
fn delay_doubles_with_every_retry() {
    assert_eq!(delay_secs(2), 2);
    assert_eq!(delay_secs(3), 4);
    assert_eq!(delay_secs(4), 8);
    assert_eq!(delay_secs(5), 16);
    assert_eq!(delay_secs(11), 1024);
    for attempts in 1..MAX_BACKOFF_ATTEMPTS {
        assert_eq!(delay_secs(attempts + 1), 2 * delay_secs(attempts));
    }
}

#[test]
fn delay_before_attempt_k_is_two_to_the_k_minus_two() {
    for k in 2u32..=65 {
        let retries_before = (k - 1) as usize;
        assert_eq!(delay_secs(retries_before), 2u64.pow(k - 2));
    }
}

#[test]
fn largest_delay_that_fits() {
    assert_eq!(MAX_BACKOFF_ATTEMPTS, 64);
    assert_eq!(delay_secs(64), 9_223_372_036_854_775_808);
    assert_eq!(checked_delay_secs(64), Some(9_223_372_036_854_775_808));
}

#[test]
fn delay_that_does_not_fit_is_none() {
    assert_eq!(checked_delay_secs(65), None);
    assert_eq!(checked_delay_secs(66), None);
    assert_eq!(checked_delay_secs(1000), None);
    assert_eq!(checked_delay_secs(usize::MAX), None);
}

#[test]
fn checked_delay_agrees_with_delay() {
    for attempts in 0..=MAX_BACKOFF_ATTEMPTS {
        assert_eq!(checked_delay_secs(attempts), Some(delay_secs(attempts)));
    }
}

#[test]
fn waits_add_up_to_one_less_than_the_next_power() {
    let mut total: u64 = 0;
    for retries in 1..=20u32 {
        total += delay_secs(retries as usize);
        assert_eq!(total, 2u64.pow(retries) - 1);
    }
}

#[test]
fn client_calculates_the_same_delay() {
    let client = SNClient::new("http://service", 3);
    assert_eq!(client.calculate_delay(0), 1);
    assert_eq!(client.calculate_delay(1), 1);
    assert_eq!(client.calculate_delay(2), 2);
    assert_eq!(client.calculate_delay(3), 4);
    assert_eq!(client.calculate_delay(10), 512);
    assert_eq!(client.calculate_delay(64), 1u64 << 63);
}
