use hvertex::bucket::TokenBucket;
use hvertex::queue::QueueConfig;

fn small_config() -> QueueConfig {
    QueueConfig {
        max_tokens: 10,
        refill_tokens: 2,
        refill_interval: 100_000_000, // 100 ms
        max_concurrent_requests: 3,
        max_token_waits: 600,
        max_rate_limit_retries: 60,
    }
}

#[test]
fn test_token_bucket_refill() {
    let config = small_config();

    let mut bucket = TokenBucket::new(&config, 0);
    assert_eq!(bucket.tokens, 10);

    // Consume all tokens
    for _ in 0..10 {
        assert!(bucket.try_consume(0));
    }
    assert_eq!(bucket.tokens, 0);

    // Wait for refill: 200 ms is two whole intervals of 2 tokens each
    bucket.refill(200_000_000);
    assert_eq!(bucket.tokens, 4);
}

#[test]
fn test_eleventh_consume_fails() {
    let config = small_config();
    let mut bucket = TokenBucket::new(&config, 0);
    for _ in 0..10 {
        assert!(bucket.try_consume(0));
    }
    assert!(!bucket.try_consume(0));
    assert_eq!(bucket.tokens, 0);
}

#[test]
fn test_refill_caps_at_capacity() {
    let config = small_config();
    let mut bucket = TokenBucket::new(&config, 0);
    for _ in 0..3 {
        assert!(bucket.try_consume(0));
    }
    assert_eq!(bucket.tokens, 7);
    // A very long wait credits far more than the deficit; the count caps.
    bucket.refill(3_600_000_000_000);
    assert_eq!(bucket.tokens, 10);
}

#[test]
fn test_partial_interval_is_preserved() {
    let config = small_config();
    let mut bucket = TokenBucket::new(&config, 0);
    for _ in 0..10 {
        assert!(bucket.try_consume(0));
    }
    // 150 ms: one whole interval credited, the half interval kept.
    bucket.refill(150_000_000);
    assert_eq!(bucket.tokens, 2);
    assert_eq!(bucket.last_refill, 100_000_000);
    // 50 ms later the second interval completes: no budget lost to drift.
    bucket.refill(200_000_000);
    assert_eq!(bucket.tokens, 4);
    assert_eq!(bucket.last_refill, 200_000_000);
}

#[test]
fn test_no_refill_before_full_interval() {
    let config = small_config();
    let mut bucket = TokenBucket::new(&config, 0);
    for _ in 0..10 {
        assert!(bucket.try_consume(0));
    }
    bucket.refill(99_999_999);
    assert_eq!(bucket.tokens, 0);
    assert_eq!(bucket.last_refill, 0);
}

#[test]
fn test_zero_refill_tokens_never_replenishes() {
    let config = QueueConfig {
        max_tokens: 1,
        refill_tokens: 0,
        refill_interval: 1,
        max_concurrent_requests: 1,
        max_token_waits: 5,
        max_rate_limit_retries: 5,
    };
    let mut bucket = TokenBucket::new(&config, 0);
    assert!(bucket.try_consume(0));
    assert!(!bucket.try_consume(1_000_000_000));
    assert_eq!(bucket.tokens, 0);
}

#[test]
fn test_exact_intervals_formula() {
    // After exactly k whole intervals with no consumption,
    // tokens == min(capacity, before + k * refill_tokens).
    let config = small_config();
    let mut bucket = TokenBucket::new(&config, 0);
    for _ in 0..7 {
        assert!(bucket.try_consume(0));
    }
    assert_eq!(bucket.tokens, 3);
    bucket.refill(2 * 100_000_000);
    assert_eq!(bucket.tokens, 3 + 2 * 2);
}

#[test]
fn test_available_tokens_reports_count() {
    let config = small_config();
    let mut bucket = TokenBucket::new(&config, 0);
    assert_eq!(bucket.available_tokens(), 10);
    assert!(bucket.try_consume(0));
    assert_eq!(bucket.available_tokens(), 9);
}
