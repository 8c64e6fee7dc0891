use igra::{CircuitBreaker, CircuitBreakerParams, IgraError};
use std::time::{SystemTime, UNIX_EPOCH};

/// Absolute deviation of a peg price from the 1.0 target, in hundredths of a percent.
fn deviation_bps(price: f64) -> u64 {
    ((((price - 1.0) / 1.0) * 100.0).abs() * 100.0) as u64
}

fn now_seconds() -> u64 {
    SystemTime::now().duration_since(UNIX_EPOCH).map(|d| d.as_secs()).unwrap_or(0)
}

fn breaker() -> CircuitBreaker {
    CircuitBreaker::new(CircuitBreakerParams::default()).unwrap()
}

#[test]
fn test_circuit_breaker_creation() {
    let cb = breaker();
    assert!(cb.is_active());
}

#[test]
fn test_peg_deviation_within_threshold() {
    let mut cb = breaker();
    let result = cb.check_peg_deviation(deviation_bps(1.05));
    assert!(result.is_ok());
    assert!(cb.is_active());
}

#[test]
fn test_peg_deviation_exceeds_threshold() {
    let mut cb = breaker();
    let result = cb.check_peg_deviation(deviation_bps(1.15));
    assert!(result.is_err());
    assert!(!cb.is_active());
}

#[test]
fn test_peg_deviation_negative() {
    let mut cb = breaker();
    let result = cb.check_peg_deviation(deviation_bps(0.85));
    assert!(result.is_err());
    assert!(!cb.is_active());
}

#[test]
fn test_peg_deviation_at_boundary() {
    let mut cb = breaker();
    let result = cb.check_peg_deviation(deviation_bps(1.10));
    assert!(result.is_ok());
    assert!(cb.is_active());
}

#[test]
fn test_oracle_health_recent_update() {
    let mut cb = breaker();
    let last_update = now_seconds() - 3600;
    let result = cb.check_oracle_health(last_update);
    assert!(result.is_ok());
    assert!(cb.is_active());
}

#[test]
fn test_oracle_health_stale() {
    let mut cb = breaker();
    let last_update = now_seconds() - (7 * 3600);
    let result = cb.check_oracle_health(last_update);
    assert!(result.is_err());
    assert!(!cb.is_active());
}

#[test]
fn test_oracle_health_boundary() {
    let mut cb = breaker();
    let last_update = now_seconds() - (6 * 3600);
    let result = cb.check_oracle_health(last_update);
    assert!(result.is_ok());
    assert!(cb.is_active());
}

#[test]
fn test_require_active_when_paused() {
    let mut cb = breaker();
    cb.check_peg_deviation(deviation_bps(1.20)).ok();
    let result = cb.require_active();
    assert!(result.is_err());
    assert!(matches!(result, Err(IgraError::ProtocolPaused { .. })));
}

#[test]
fn test_require_active_when_normal() {
    let cb = breaker();
    let result = cb.require_active();
    assert!(result.is_ok());
}

#[test]
fn test_pause_details() {
    let mut cb = breaker();
    cb.check_peg_deviation(deviation_bps(1.20)).ok();
    let (paused, reason, _triggered) = cb.pause_details();
    assert!(paused);
    assert!(reason.contains("Peg deviation"));
}

#[test]
fn test_diagnostics() {
    let mut cb = breaker();
    cb.check_peg_deviation(deviation_bps(1.05)).ok();
    let diag = cb.diagnostics();
    assert!(diag.is_active);
    assert_eq!(diag.peg_threshold, 10);
}

#[test]
fn test_multiple_checks() {
    let mut cb = breaker();
    cb.check_peg_deviation(deviation_bps(1.05)).ok();
    assert!(cb.is_active());
    cb.check_peg_deviation(deviation_bps(1.08)).ok();
    assert!(cb.is_active());
    cb.check_peg_deviation(deviation_bps(1.15)).ok();
    assert!(!cb.is_active());
}

#[test]
fn peg_breach_reports_deviation_and_reason() {
    let mut cb = breaker();
    assert_eq!(
        cb.check_peg_deviation_at(2000, 5000),
        Err(IgraError::CircuitBreakerTriggered { deviation: 20, threshold: 10 })
    );
    let (paused, reason, triggered) = cb.pause_details();
    assert!(paused);
    assert_eq!(reason, "Peg deviation 20% exceeds threshold 10%");
    assert_eq!(triggered, 5000);
    assert_eq!(
        cb.require_active(),
        Err(IgraError::ProtocolPaused {
            reason: "Peg deviation 20% exceeds threshold 10%".to_string(),
            triggered_at_seconds: 5000,
        })
    );
}

#[test]
fn pause_survives_later_healthy_checks() {
    let mut cb = breaker();
    cb.check_peg_deviation_at(1100, 100).ok();
    assert!(!cb.is_active());
    assert_eq!(cb.check_peg_deviation_at(0, 200), Ok(()));
    assert_eq!(cb.check_oracle_health_at(200, 260), Ok(()));
    assert!(!cb.is_active());
    let diag = cb.diagnostics();
    assert_eq!(diag.pause_triggered_at, 100);
    assert_eq!(diag.last_peg_check, 200);
    assert_eq!(diag.last_oracle_health_check, 260);
}

#[test]
fn oracle_downtime_counts_whole_minutes() {
    let mut cb = breaker();
    // 361 minutes and 59 seconds of silence is 361 whole minutes: a breach.
    assert_eq!(
        cb.check_oracle_health_at(0, 361 * 60 + 59),
        Err(IgraError::OracleDowntime { minutes: 361, threshold: 360 })
    );
    let (_, reason, triggered) = cb.pause_details();
    assert_eq!(reason, "Oracle offline for 361 minutes (threshold: 360)");
    assert_eq!(triggered, 361 * 60 + 59);

    let mut fresh = breaker();
    assert_eq!(fresh.check_oracle_health_at(0, 360 * 60 + 59), Ok(()));
    assert!(fresh.is_active());
}

#[test]
fn oracle_update_in_the_future_is_refused() {
    let mut cb = breaker();
    let result = cb.check_oracle_health(now_seconds() + 100_000);
    assert!(matches!(result, Err(IgraError::InvalidParameters(_))));
    assert!(cb.is_active());
}

#[test]
fn invalid_thresholds_are_refused() {
    let params = CircuitBreakerParams { peg_deviation_threshold: 0, oracle_downtime_threshold_minutes: 10 };
    assert_eq!(
        CircuitBreaker::new(params).err(),
        Some(IgraError::InvalidParameters("Peg deviation threshold must be 0 < x <= 50%".to_string()))
    );
    let cb = breaker();
    assert_eq!(*cb.params(), CircuitBreakerParams::default());
}

#[test]
fn long_oracle_silence_trips_the_breaker() {
    let mut cb = breaker();
    // 65,636 minutes of silence: more than a u16 holds, still a breach.
    assert_eq!(
        cb.check_oracle_health_at(0, 3_938_160),
        Err(IgraError::OracleDowntime { minutes: u16::MAX, threshold: 360 })
    );
    assert!(!cb.is_active());
    let (_, reason, _) = cb.pause_details();
    assert_eq!(reason, "Oracle offline for 65535 minutes (threshold: 360)");
}

#[test]
fn fractional_breach_trips_the_breaker() {
    let mut cb = breaker();
    // 10.5% is beyond a 10% threshold, though it is 10 in whole percent.
    assert_eq!(
        cb.check_peg_deviation(deviation_bps(1.105)),
        Err(IgraError::CircuitBreakerTriggered { deviation: 10, threshold: 10 })
    );
    assert!(!cb.is_active());
    let mut fresh = breaker();
    assert_eq!(fresh.check_peg_deviation_at(1000, 7), Ok(()));
    assert_eq!(fresh.check_peg_deviation_at(1001, 8).is_err(), true);
    let mut wide = breaker();
    assert_eq!(
        wide.check_peg_deviation_at(u64::MAX, 9),
        Err(IgraError::CircuitBreakerTriggered { deviation: 255, threshold: 10 })
    );
}
