use queue_dashboard::sample::{sample, SampleResult, SourceError};

#[test]
fn live_sample_keeps_queried_count() {
    let s = sample(Ok(7), 1, 100);
    assert_eq!(s, SampleResult::Live(7));
    assert_eq!(s.value(), 7);
}

#[test]
fn connection_unavailable_becomes_fallback() {
    let s = sample(Err(SourceError::ConnectionUnavailable), 1, 100);
    match s {
        SampleResult::Fallback(x) => assert!((1..=100).contains(&x)),
        SampleResult::Live(_) => panic!("a failed query must not yield a live sample"),
    }
}

#[test]
fn query_failed_becomes_fallback() {
    let s = sample(Err(SourceError::QueryFailed), 1, 20);
    match s {
        SampleResult::Fallback(x) => assert!((1..=20).contains(&x)),
        SampleResult::Live(_) => panic!("a failed query must not yield a live sample"),
    }
}

#[test]
fn fast_fallbacks_stay_in_range() {
    for _ in 0..1000 {
        let s = sample(Err(SourceError::ConnectionUnavailable), 1, 100);
        match s {
            SampleResult::Fallback(x) => assert!((1..=100).contains(&x)),
            SampleResult::Live(_) => panic!("a failed query must not yield a live sample"),
        }
    }
}

#[test]
fn slow_fallbacks_stay_in_range() {
    for _ in 0..1000 {
        let s = sample(Err(SourceError::QueryFailed), 1, 20);
        match s {
            SampleResult::Fallback(x) => assert!((1..=20).contains(&x)),
            SampleResult::Live(_) => panic!("a failed query must not yield a live sample"),
        }
    }
}

#[test]
fn degenerate_fallback_range_is_exact() {
    for _ in 0..100 {
        let s = sample(Err(SourceError::QueryFailed), 5, 5);
        assert_eq!(s, SampleResult::Fallback(5));
        assert_eq!(s.value(), 5);
    }
}
