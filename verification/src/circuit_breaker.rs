//! Circuit breaker: the protocol's emergency pause.
//!
//! The protocol pauses when the peg deviates beyond its threshold or when the
//! oracle has been silent for too long. Nothing lifts a pause: no governance, no
//! admin key. Every operation that changes state must first pass `require_active`.
use vstd::prelude::*;
use vstd::string::*;
use crate::clock::unix_now_seconds;
use crate::decimal::{decimal, push_decimal};
use crate::errors::{IgraError, IgraResult, invalid_parameters};
use crate::types::CircuitBreakerParams;

verus! {

/// The circuit breaker's state.
#[derive(Debug, Clone, Copy, PartialEq, Eq, Structural)]
pub enum CircuitBreakerState {
    /// Normal operation.
    Active,
    /// Emergency pause triggered.
    Paused,
}

/// Message recorded when the peg deviates beyond the threshold.
pub open spec fn peg_pause_reason(deviation: u8, threshold: u8) -> Seq<char> {
    "Peg deviation "@ + decimal(deviation as nat) + "% exceeds threshold "@ + decimal(
        threshold as nat,
    ) + "%"@
}

/// A deviation of `abs_deviation_bps` hundredths of a percent exceeds a
/// threshold of `threshold` whole percent.
pub open spec fn peg_breached(abs_deviation_bps: u64, threshold: u8) -> bool {
    abs_deviation_bps > threshold * 100
}

/// A deviation in hundredths of a percent as the breaker reports it: whole
/// percent, truncated and saturated to `u8::MAX`.
pub open spec fn reported_deviation(abs_deviation_bps: u64) -> u8 {
    if abs_deviation_bps / 100 > 255 {
        255
    } else {
        (abs_deviation_bps / 100) as u8
    }
}

/// Message recorded when the oracle has been offline beyond the threshold.
pub open spec fn oracle_pause_reason(minutes: u16, threshold: u16) -> Seq<char> {
    "Oracle offline for "@ + decimal(minutes as nat) + " minutes (threshold: "@ + decimal(
        threshold as nat,
    ) + ")"@
}

/// Whole minutes between the last oracle update and `now`.
pub open spec fn downtime_minutes(last_update: u64, now: u64) -> int {
    (now - last_update) / 60
}

/// The downtime as the breaker reports it: whole minutes, saturated to
/// `u16::MAX`.
pub open spec fn reported_minutes(last_update: u64, now: u64) -> u16 {
    if downtime_minutes(last_update, now) > u16::MAX {
        u16::MAX
    } else {
        downtime_minutes(last_update, now) as u16
    }
}

/// The circuit breaker.
pub struct CircuitBreaker {
    state: CircuitBreakerState,
    params: CircuitBreakerParams,
    pause_reason: String,
    pause_triggered_at: u64,
    last_peg_check: u64,
    last_oracle_health_check: u64,
}

/// A snapshot of the breaker for monitoring.
#[derive(Debug)]
pub struct CircuitBreakerDiagnostics {
    pub is_active: bool,
    pub pause_reason: String,
    pub pause_triggered_at: u64,
    pub last_peg_check: u64,
    pub last_oracle_health_check: u64,
    pub peg_threshold: u8,
    pub oracle_downtime_threshold: u16,
}

impl CircuitBreaker {
    pub closed spec fn state_spec(&self) -> CircuitBreakerState {
        self.state
    }

    pub closed spec fn params_spec(&self) -> CircuitBreakerParams {
        self.params
    }

    pub closed spec fn reason(&self) -> Seq<char> {
        self.pause_reason@
    }

    pub closed spec fn triggered_at(&self) -> u64 {
        self.pause_triggered_at
    }

    pub closed spec fn last_peg_check_spec(&self) -> u64 {
        self.last_peg_check
    }

    pub closed spec fn last_oracle_check_spec(&self) -> u64 {
        self.last_oracle_health_check
    }

    pub open spec fn paused(&self) -> bool {
        self.state_spec() == CircuitBreakerState::Paused
    }

    /// What an oracle health check made at `now`, given the time of the last
    /// oracle update, does: it records `now` as the time of the check; when the
    /// whole minutes of downtime exceed the threshold it pauses with the
    /// downtime's reason at `now` and reports the downtime; otherwise it
    /// succeeds and leaves the pause state as it was.
    pub open spec fn oracle_checked(
        old: CircuitBreaker,
        new: CircuitBreaker,
        last_update: u64,
        now: u64,
        r: IgraResult<()>,
    ) -> bool {
        let minutes = reported_minutes(last_update, now);
        let threshold = old.params_spec().oracle_downtime_threshold_minutes;
        &&& new.last_oracle_check_spec() == now
        &&& new.params_spec() == old.params_spec()
        &&& new.last_peg_check_spec() == old.last_peg_check_spec()
        &&& downtime_minutes(last_update, now) > threshold ==> {
            &&& r == Err::<(), IgraError>(IgraError::OracleDowntime { minutes, threshold })
            &&& new.paused()
            &&& new.reason() == oracle_pause_reason(minutes, threshold)
            &&& new.triggered_at() == now
        }
        &&& downtime_minutes(last_update, now) <= threshold ==> {
            &&& r is Ok
            &&& new.state_spec() == old.state_spec()
            &&& new.reason() == old.reason()
            &&& new.triggered_at() == old.triggered_at()
        }
    }

    /// Creates an active breaker with the given thresholds, which must be valid.
    pub fn new(params: CircuitBreakerParams) -> (r: IgraResult<CircuitBreaker>)
        ensures
            !params.is_valid() ==> invalid_parameters(r, params.error_message()),
            params.is_valid() ==> (r matches Ok(cb) && !cb.paused() && cb.params_spec() == params
                && cb.reason() == Seq::<char>::empty() && cb.triggered_at() == 0
                && cb.last_peg_check_spec() == 0 && cb.last_oracle_check_spec() == 0),
    {
        match params.validate() {
            Err(e) => Err(IgraError::InvalidParameters(e)),
            Ok(()) => Ok(
                CircuitBreaker {
                    state: CircuitBreakerState::Active,
                    params,
                    pause_reason: String::new(),
                    pause_triggered_at: 0,
                    last_peg_check: 0,
                    last_oracle_health_check: 0,
                },
            ),
        }
    }

    /// Whether the protocol is running.
    pub fn is_active(&self) -> (r: bool)
        ensures
            r == !self.paused(),
    {
        match self.state {
            CircuitBreakerState::Active => true,
            CircuitBreakerState::Paused => false,
        }
    }

    /// (paused, reason, time the pause was triggered).
    pub fn pause_details(&self) -> (r: (bool, String, u64))
        ensures
            r.0 == self.paused(),
            r.1@ == self.reason(),
            r.2 == self.triggered_at(),
    {
        (!self.is_active(), self.pause_reason.clone(), self.pause_triggered_at)
    }

    /// Pauses the protocol. A later breach overwrites reason and time.
    fn trigger_pause(&mut self, reason: String, timestamp: u64)
        ensures
            final(self).paused(),
            final(self).reason() == reason@,
            final(self).triggered_at() == timestamp,
            final(self).params_spec() == old(self).params_spec(),
            final(self).last_peg_check_spec() == old(self).last_peg_check_spec(),
            final(self).last_oracle_check_spec() == old(self).last_oracle_check_spec(),
    {
        self.state = CircuitBreakerState::Paused;
        self.pause_reason = reason;
        self.pause_triggered_at = timestamp;
    }

    /// Records a peg check made at `now` with an absolute deviation from the
    /// 1.0 target of `abs_deviation_bps` hundredths of a percent. A deviation
    /// beyond the threshold pauses the protocol and the breach is reported in
    /// whole percent.
    pub fn check_peg_deviation_at(&mut self, abs_deviation_bps: u64, now: u64) -> (r:
        IgraResult<()>)
        ensures
            final(self).last_peg_check_spec() == now,
            final(self).params_spec() == old(self).params_spec(),
            final(self).last_oracle_check_spec() == old(self).last_oracle_check_spec(),
            old(self).paused() ==> final(self).paused(),
            peg_breached(abs_deviation_bps, old(self).params_spec().peg_deviation_threshold) ==> {
                &&& r == Err::<(), IgraError>(
                    IgraError::CircuitBreakerTriggered {
                        deviation: reported_deviation(abs_deviation_bps),
                        threshold: old(self).params_spec().peg_deviation_threshold,
                    },
                )
                &&& final(self).paused()
                &&& final(self).reason() == peg_pause_reason(
                    reported_deviation(abs_deviation_bps),
                    old(self).params_spec().peg_deviation_threshold,
                )
                &&& final(self).triggered_at() == now
            },
            !peg_breached(abs_deviation_bps, old(self).params_spec().peg_deviation_threshold) ==> {
                &&& r is Ok
                &&& final(self).state_spec() == old(self).state_spec()
                &&& final(self).reason() == old(self).reason()
                &&& final(self).triggered_at() == old(self).triggered_at()
            },
    {
        self.last_peg_check = now;
        let threshold = self.params.peg_deviation_threshold;
        if abs_deviation_bps > threshold as u64 * 100 {
            let deviation: u8 = if abs_deviation_bps / 100 > 255 {
                255
            } else {
                (abs_deviation_bps / 100) as u8
            };
            let mut reason = String::from_str("Peg deviation ");
            push_decimal(&mut reason, deviation as u128);
            reason.append("% exceeds threshold ");
            push_decimal(&mut reason, threshold as u128);
            reason.append("%");
            self.trigger_pause(reason, now);
            return Err(IgraError::CircuitBreakerTriggered { deviation, threshold });
        }
        Ok(())
    }

    /// Checks the peg deviation now, reading the clock; see
    /// `check_peg_deviation_at`. The deviation is `|price - 1.0| * 100` percent,
    /// given in hundredths of a percent.
    pub fn check_peg_deviation(&mut self, abs_deviation_bps: u64) -> (r: IgraResult<()>)
        ensures
            final(self).params_spec() == old(self).params_spec(),
            final(self).last_oracle_check_spec() == old(self).last_oracle_check_spec(),
            old(self).paused() ==> final(self).paused(),
            peg_breached(abs_deviation_bps, old(self).params_spec().peg_deviation_threshold) ==> {
                &&& r == Err::<(), IgraError>(
                    IgraError::CircuitBreakerTriggered {
                        deviation: reported_deviation(abs_deviation_bps),
                        threshold: old(self).params_spec().peg_deviation_threshold,
                    },
                )
                &&& final(self).paused()
                &&& final(self).reason() == peg_pause_reason(
                    reported_deviation(abs_deviation_bps),
                    old(self).params_spec().peg_deviation_threshold,
                )
                &&& final(self).triggered_at() == final(self).last_peg_check_spec()
            },
            !peg_breached(abs_deviation_bps, old(self).params_spec().peg_deviation_threshold) ==> {
                &&& r is Ok
                &&& final(self).state_spec() == old(self).state_spec()
                &&& final(self).reason() == old(self).reason()
                &&& final(self).triggered_at() == old(self).triggered_at()
            },
    {
        let now = unix_now_seconds();
        self.check_peg_deviation_at(abs_deviation_bps, now)
    }

    /// Records an oracle health check made at `now`, given the time of the last
    /// oracle update (not after `now`). When the whole minutes of downtime
    /// exceed the threshold, the protocol pauses and the downtime is reported
    /// (saturated to `u16::MAX` minutes).
    pub fn check_oracle_health_at(&mut self, last_oracle_update_seconds: u64, now: u64) -> (r:
        IgraResult<()>)
        requires
            last_oracle_update_seconds <= now,
        ensures
            final(self).last_oracle_check_spec() == now,
            final(self).params_spec() == old(self).params_spec(),
            final(self).last_peg_check_spec() == old(self).last_peg_check_spec(),
            old(self).paused() ==> final(self).paused(),
            ({
                let minutes = reported_minutes(last_oracle_update_seconds, now);
                let threshold = old(self).params_spec().oracle_downtime_threshold_minutes;
                &&& downtime_minutes(last_oracle_update_seconds, now) > threshold ==> {
                    &&& r == Err::<(), IgraError>(IgraError::OracleDowntime { minutes, threshold })
                    &&& final(self).paused()
                    &&& final(self).reason() == oracle_pause_reason(minutes, threshold)
                    &&& final(self).triggered_at() == now
                }
                &&& downtime_minutes(last_oracle_update_seconds, now) <= threshold ==> {
                    &&& r is Ok
                    &&& final(self).state_spec() == old(self).state_spec()
                    &&& final(self).reason() == old(self).reason()
                    &&& final(self).triggered_at() == old(self).triggered_at()
                }
            }),
    {
        self.last_oracle_health_check = now;
        let elapsed_minutes: u64 = (now - last_oracle_update_seconds) / 60;
        let minutes: u16 = if elapsed_minutes > u16::MAX as u64 {
            u16::MAX
        } else {
            elapsed_minutes as u16
        };
        let threshold = self.params.oracle_downtime_threshold_minutes;
        if elapsed_minutes > threshold as u64 {
            let mut reason = String::from_str("Oracle offline for ");
            push_decimal(&mut reason, minutes as u128);
            reason.append(" minutes (threshold: ");
            push_decimal(&mut reason, threshold as u128);
            reason.append(")");
            self.trigger_pause(reason, now);
            return Err(IgraError::OracleDowntime { minutes, threshold });
        }
        Ok(())
    }

    /// Checks oracle health now, reading the clock; see `check_oracle_health_at`.
    /// An update time later than the clock is refused as invalid and changes
    /// nothing.
    pub fn check_oracle_health(&mut self, last_oracle_update_seconds: u64) -> (r: IgraResult<()>)
        ensures
            final(self).params_spec() == old(self).params_spec(),
            final(self).last_peg_check_spec() == old(self).last_peg_check_spec(),
            old(self).paused() ==> final(self).paused(),
            r is Ok ==> final(self).state_spec() == old(self).state_spec(),
            r matches Err(IgraError::OracleDowntime { minutes, threshold }) ==> {
                &&& threshold == old(self).params_spec().oracle_downtime_threshold_minutes
                &&& minutes > threshold || minutes == u16::MAX
                &&& final(self).paused()
                &&& final(self).reason() == oracle_pause_reason(minutes, threshold)
                &&& final(self).triggered_at() == final(self).last_oracle_check_spec()
            },
            r is Err && !(r matches Err(IgraError::OracleDowntime { .. })) ==> {
                &&& invalid_parameters(r, "Oracle update time is later than the clock"@)
                &&& *final(self) == *old(self)
            },
            (invalid_parameters(r, "Oracle update time is later than the clock"@) && *final(self)
                == *old(self)) || (last_oracle_update_seconds <= final(self).last_oracle_check_spec()
                && Self::oracle_checked(
                *old(self),
                *final(self),
                last_oracle_update_seconds,
                final(self).last_oracle_check_spec(),
                r,
            )),
    {
        let now = unix_now_seconds();
        if last_oracle_update_seconds > now {
            return Err(
                IgraError::InvalidParameters(
                    String::from_str("Oracle update time is later than the clock"),
                ),
            );
        }
        self.check_oracle_health_at(last_oracle_update_seconds, now)
    }

    /// Must pass before any state-changing operation: refused with the pause's
    /// reason and time once the protocol is paused.
    pub fn require_active(&self) -> (r: IgraResult<()>)
        ensures
            !self.paused() ==> r is Ok,
            self.paused() ==> (r matches Err(IgraError::ProtocolPaused { reason, triggered_at_seconds })
                && reason@ == self.reason() && triggered_at_seconds == self.triggered_at()),
    {
        if !self.is_active() {
            return Err(
                IgraError::ProtocolPaused {
                    reason: self.pause_reason.clone(),
                    triggered_at_seconds: self.pause_triggered_at,
                },
            );
        }
        Ok(())
    }

    /// The frozen thresholds.
    pub fn params(&self) -> (r: &CircuitBreakerParams)
        ensures
            *r == self.params_spec(),
    {
        &self.params
    }

    /// A snapshot for monitoring.
    pub fn diagnostics(&self) -> (r: CircuitBreakerDiagnostics)
        ensures
            r.is_active == !self.paused(),
            r.pause_reason@ == self.reason(),
            r.pause_triggered_at == self.triggered_at(),
            r.last_peg_check == self.last_peg_check_spec(),
            r.last_oracle_health_check == self.last_oracle_check_spec(),
            r.peg_threshold == self.params_spec().peg_deviation_threshold,
            r.oracle_downtime_threshold == self.params_spec().oracle_downtime_threshold_minutes,
    {
        CircuitBreakerDiagnostics {
            is_active: self.is_active(),
            pause_reason: self.pause_reason.clone(),
            pause_triggered_at: self.pause_triggered_at,
            last_peg_check: self.last_peg_check,
            last_oracle_health_check: self.last_oracle_health_check,
            peg_threshold: self.params.peg_deviation_threshold,
            oracle_downtime_threshold: self.params.oracle_downtime_threshold_minutes,
        }
    }
}

/// An oracle health check pauses the protocol and reports the downtime
/// exactly when the oracle has been silent for more than the threshold's
/// minutes, counted whole: at least 60 * (threshold + 1) seconds. A shorter
/// silence succeeds and leaves the pause state as it was.
pub proof fn lemma_oracle_silence_in_seconds(
    old: CircuitBreaker,
    new: CircuitBreaker,
    last_update: u64,
    now: u64,
    r: IgraResult<()>,
)
    requires
        last_update <= now,
        CircuitBreaker::oracle_checked(old, new, last_update, now, r),
    ensures
        ({
            let threshold = old.params_spec().oracle_downtime_threshold_minutes;
            &&& now - last_update >= 60 * (threshold + 1) ==> (r matches Err(
                IgraError::OracleDowntime { .. },
            ) && new.paused())
            &&& now - last_update < 60 * (threshold + 1) ==> (r is Ok && new.paused() == old.paused())
        }),
{
    let t = now - last_update;
    let threshold = old.params_spec().oracle_downtime_threshold_minutes;
    vstd::arithmetic::div_mod::lemma_fundamental_div_mod(t, 60);
    vstd::arithmetic::div_mod::lemma_mod_pos_bound(t, 60);
    let q = t / 60;
    assert(q > threshold <==> t >= 60 * (threshold + 1)) by (nonlinear_arith)
        requires
            t == 60 * q + t % 60,
            0 <= t % 60 < 60,
    ;
}

} // verus!
