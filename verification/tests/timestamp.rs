use fv_common::Timestamp;
use std::time::{SystemTime, UNIX_EPOCH};

fn micros_now() -> u64 {
    SystemTime::now()
        .duration_since(UNIX_EPOCH)
        .map(|d| d.as_micros() as u64)
        .unwrap_or(0)
}

#[test]
fn test_timestamp() {
    let ts = Timestamp::from(micros_now());
    println!("realtime: {:?}", ts);
    println!("realtime: {} ms", ts.as_millis());
    println!("realtime: {} us", ts.as_micros());
    println!("realtime: {} ns", ts.as_nanos());
    println!("realtime: {} s", ts.as_secs());

    let ts = Timestamp::from(micros_now());
    println!("monotonic: {:?}", ts);
    println!("monotonic: {} ms", ts.as_millis());
    println!("monotonic: {} us", ts.as_micros());
    println!("monotonic: {} ns", ts.as_nanos());
    println!("monotonic: {} s", ts.as_secs());
}

#[test]
fn timestamp_units() {
    let ts = Timestamp::from(3_456_789u64);
    assert_eq!(ts.as_micros(), 3_456_789);
    assert_eq!(ts.as_millis(), 3_456);
    assert_eq!(ts.as_secs(), 3);
    assert_eq!(ts.as_nanos(), 3_456_789_000u128);
    assert_eq!(u64::from(ts), 3_456_789);
}

#[test]
fn timestamp_difference_saturates() {
    let early = Timestamp::from(10u64);
    let late = Timestamp::from(25u64);
    assert_eq!(late.micros_since(early), 15);
    assert_eq!(early.micros_since(late), 0);
    assert!(early < late);
    assert_eq!(early, Timestamp::from(10u64));
}
