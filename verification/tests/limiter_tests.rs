use proxy_pool::limiter::{AcquireDecision, TokenBucket};

#[test]
fn three_per_second_allows_three_immediate_then_waits() {
    let mut bucket = TokenBucket::new(3_000, 0);
    assert_eq!(bucket.try_acquire(0), AcquireDecision::Granted);
    assert_eq!(bucket.try_acquire(0), AcquireDecision::Granted);
    assert_eq!(bucket.try_acquire(0), AcquireDecision::Granted);
    match bucket.try_acquire(0) {
        AcquireDecision::WaitNanos(w) => assert!(w > 0),
        other => panic!("expected a wait, got {:?}", other),
    }
}

#[test]
fn capacity_rounds_up_and_clamps_to_one() {
    // 2.5 requests/second round up to a capacity of 3 tokens.
    let bucket = TokenBucket::new(2_500, 0);
    assert_eq!(bucket.capacity, 3);
    // A zero setting still allows one request at a time.
    let bucket = TokenBucket::new(0, 0);
    assert_eq!(bucket.capacity, 1);
    let bucket = TokenBucket::new(1, 0);
    assert_eq!(bucket.capacity, 1);
}

#[test]
fn waiting_the_reported_time_refills_a_token() {
    let mut bucket = TokenBucket::new(1_000, 0);
    assert_eq!(bucket.try_acquire(0), AcquireDecision::Granted);
    let wait = match bucket.try_acquire(0) {
        AcquireDecision::WaitNanos(w) => w,
        other => panic!("expected a wait, got {:?}", other),
    };
    // One token per second: the shortfall is a full second.
    assert_eq!(wait, 1_000_000_000);
    assert_eq!(bucket.try_acquire(wait), AcquireDecision::Granted);
}

#[test]
fn refill_never_exceeds_capacity() {
    let mut bucket = TokenBucket::new(2_000, 0);
    // A long idle period refills at most the bucket's capacity.
    assert_eq!(bucket.try_acquire(1_000_000_000_000), AcquireDecision::Granted);
    assert_eq!(bucket.try_acquire(1_000_000_000_000), AcquireDecision::Granted);
    match bucket.try_acquire(1_000_000_000_000) {
        AcquireDecision::WaitNanos(w) => assert!(w > 0),
        other => panic!("expected a wait, got {:?}", other),
    }
}

#[test]
fn clock_moving_backwards_adds_nothing() {
    let mut bucket = TokenBucket::new(1_000, 1_000_000);
    assert_eq!(bucket.try_acquire(1_000_000), AcquireDecision::Granted);
    match bucket.try_acquire(0) {
        AcquireDecision::WaitNanos(w) => assert!(w > 0),
        other => panic!("expected a wait, got {:?}", other),
    }
}
