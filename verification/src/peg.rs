//! Peg: the frozen weights of the peg formula, the health rule on the peg's
//! deviation, and the selection of an oracle price among sources.
//!
//! The peg index is 0.40 H + 0.30 E + 0.20 F + 0.10 A over four normalised
//! indices; its target is 1.0 (one kWh). Prices are binary64 values; the
//! oracle manager carries them as bit patterns and never computes with them.
use vstd::prelude::*;
use vstd::string::*;
use crate::errors::{IgraError, IgraResult, invalid_parameters};
use crate::types::{OraclePrice, PegWeights};

verus! {

/// The peg calculator's frozen weights.
pub struct PegCalculator {
    weights: PegWeights,
}

impl PegCalculator {
    pub closed spec fn weights_spec(&self) -> PegWeights {
        self.weights
    }

    /// A calculator with the given weights, which must sum to 100.
    pub fn new(weights: PegWeights) -> (r: IgraResult<PegCalculator>)
        ensures
            !weights.is_valid() ==> invalid_parameters(r, weights.error_message()),
            weights.is_valid() ==> (r matches Ok(c) && c.weights_spec() == weights),
    {
        match weights.validate() {
            Err(e) => Err(IgraError::InvalidParameters(e)),
            Ok(()) => Ok(PegCalculator { weights }),
        }
    }

    /// The frozen weights.
    pub fn weights(&self) -> (r: &PegWeights)
        ensures
            *r == self.weights_spec(),
    {
        &self.weights
    }

    /// The peg is healthy when the magnitude of its deviation from 1.0, in
    /// whole percent (as the deviation is computed: truncated toward zero), is
    /// at most the threshold.
    pub fn is_peg_healthy(deviation_percent: i16, threshold_percent: u8) -> (r: bool)
        ensures
            r == (abs_deviation(deviation_percent) <= threshold_percent),
    {
        let d = deviation_percent as i32;
        let magnitude: i32 = if d < 0 { -d } else { d };
        magnitude <= threshold_percent as i32
    }
}

/// The magnitude of a signed deviation.
pub open spec fn abs_deviation(deviation: i16) -> int {
    if deviation < 0 {
        -deviation
    } else {
        deviation as int
    }
}

/// `now - then`, or zero when `then` is later.
pub open spec fn age_of(now: u64, then: u64) -> u64 {
    if now >= then {
        (now - then) as u64
    } else {
        0
    }
}

/// Price `p` comes from `source` and is at most `max_age` seconds old at `now`.
pub open spec fn fresh_from(p: OraclePrice, source: Seq<char>, now: u64, max_age: u64) -> bool {
    p.source@ == source && age_of(now, p.timestamp_seconds) <= max_age
}

/// Some price in `s` is fresh from `source`.
pub open spec fn has_fresh(s: Seq<OraclePrice>, source: Seq<char>, now: u64, max_age: u64) -> bool {
    exists|i: int| 0 <= i < s.len() && fresh_from(#[trigger] s[i], source, now, max_age)
}

/// Position of the first price in `s` fresh from `source`.
pub open spec fn first_fresh(s: Seq<OraclePrice>, source: Seq<char>, now: u64, max_age: u64) -> int {
    choose|i: int|
        0 <= i < s.len() && fresh_from(#[trigger] s[i], source, now, max_age) && forall|j: int|
            0 <= j < i ==> !fresh_from(#[trigger] s[j], source, now, max_age)
}

/// The latest timestamp in a non-empty `s`.
pub open spec fn latest_timestamp(s: Seq<OraclePrice>) -> u64
    decreases s.len(),
{
    if s.len() <= 1 {
        s[0].timestamp_seconds
    } else {
        let rest = latest_timestamp(s.drop_last());
        if s.last().timestamp_seconds >= rest {
            s.last().timestamp_seconds
        } else {
            rest
        }
    }
}

/// What `get_price` answers: the first fresh price of the first source, in the
/// order band, chainlink, fallback, that has one; when none does, the oracle is
/// down for the age of the latest price (whole minutes, narrowed to `u16`), or
/// no price was ever recorded.
pub open spec fn price_answer(s: Seq<OraclePrice>, now: u64, max_age: u64, r: IgraResult<(u64, String, u64)>) -> bool {
    let pick = |src: Seq<char>|
        {
            let i = first_fresh(s, src, now, max_age);
            r matches Ok((v, source, age)) && v == s[i].value_bits && source@ == s[i].source@ && age
                == age_of(now, s[i].timestamp_seconds)
        };
    if has_fresh(s, "band"@, now, max_age) {
        pick("band"@)
    } else if has_fresh(s, "chainlink"@, now, max_age) {
        pick("chainlink"@)
    } else if has_fresh(s, "fallback"@, now, max_age) {
        pick("fallback"@)
    } else if s.len() > 0 {
        r == Err::<(u64, String, u64), IgraError>(
            IgraError::OracleDowntime {
                minutes: ((age_of(now, latest_timestamp(s)) / 60) as u64) as u16,
                threshold: ((max_age / 60) as u64) as u16,
            },
        )
    } else {
        r == Err::<(u64, String, u64), IgraError>(IgraError::PegPriceUnavailable)
    }
}

/// The latest price of each oracle source, with a fixed order of preference:
/// band, then chainlink, then fallback.
pub struct OracleManager {
    last_prices: Vec<OraclePrice>,
}

fn age(now: u64, then: u64) -> (r: u64)
    ensures
        r == age_of(now, then),
{
    if now >= then {
        now - then
    } else {
        0
    }
}

impl OracleManager {
    /// The recorded prices, in recording order.
    pub closed spec fn prices(&self) -> Seq<OraclePrice> {
        self.last_prices@
    }

    /// No price recorded yet.
    pub fn new() -> (r: OracleManager)
        ensures
            r.prices() == Seq::<OraclePrice>::empty(),
    {
        OracleManager { last_prices: Vec::new() }
    }

    /// Records a price from `source`, replacing any earlier price from it. The
    /// value must be a positive finite binary64 number, given as its bits;
    /// callers check it before recording.
    pub fn record_price(&mut self, source: &str, value_bits: u64, timestamp_seconds: u64)
        ensures
            final(self).prices() == old(self).prices().filter(
                |p: OraclePrice| p.source@ != source@,
            ).push(OraclePrice { value_bits, timestamp_seconds, source: final(self).prices().last().source }),
            final(self).prices().last().source@ == source@,
    {
        let key = String::from_str(source);
        let n = self.last_prices.len();
        let mut kept: Vec<OraclePrice> = Vec::new();
        let mut i: usize = 0;
        let ghost keep = |p: OraclePrice| p.source@ != source@;
        while i < n
            invariant
                0 <= i <= n,
                n == self.last_prices@.len(),
                key@ == source@,
                keep == (|p: OraclePrice| p.source@ != source@),
                kept@ == self.last_prices@.take(i as int).filter(keep),
            decreases n - i,
        {
            proof {
                reveal_with_fuel(Seq::filter, 1);
                assert(self.last_prices@.take(i as int + 1).drop_last() =~= self.last_prices@.take(i as int));
            }
            if self.last_prices[i].source != key {
                kept.push(self.last_prices[i].clone());
            }
            i += 1;
        }
        assert(self.last_prices@.take(n as int) =~= self.last_prices@);
        kept.push(OraclePrice { value_bits, timestamp_seconds, source: key });
        self.last_prices = kept;
    }

    fn find_fresh(&self, source: &str, now: u64, max_age: u64) -> (r: Option<usize>)
        ensures
            match r {
                Some(i) => has_fresh(self.prices(), source@, now, max_age) && i == first_fresh(
                    self.prices(),
                    source@,
                    now,
                    max_age,
                ) && i < self.prices().len(),
                None => !has_fresh(self.prices(), source@, now, max_age),
            },
    {
        let key = String::from_str(source);
        let n = self.last_prices.len();
        let mut i: usize = 0;
        while i < n
            invariant
                0 <= i <= n,
                n == self.last_prices@.len(),
                key@ == source@,
                forall|j: int| 0 <= j < i ==> !fresh_from(#[trigger] self.last_prices@[j], source@, now, max_age),
            decreases n - i,
        {
            let p = &self.last_prices[i];
            if p.source == key && age(now, p.timestamp_seconds) <= max_age {
                proof {
                    let s = self.last_prices@;
                    assert(fresh_from(s[i as int], source@, now, max_age));
                    let c = first_fresh(s, source@, now, max_age);
                    assert(0 <= c < s.len() && fresh_from(s[c], source@, now, max_age) && forall|j: int|
                        0 <= j < c ==> !fresh_from(#[trigger] s[j], source@, now, max_age));
                    if c < i {
                        assert(!fresh_from(s[c], source@, now, max_age));
                    } else if c > i {
                        assert(!fresh_from(s[i as int], source@, now, max_age));
                    }
                }
                return Some(i);
            }
            i += 1;
        }
        None
    }

    fn latest(&self) -> (r: u64)
        requires
            self.prices().len() > 0,
        ensures
            r == latest_timestamp(self.prices()),
    {
        let n = self.last_prices.len();
        let mut best = self.last_prices[0].timestamp_seconds;
        let mut i: usize = 1;
        while i < n
            invariant
                1 <= i <= n,
                n == self.last_prices@.len(),
                best == latest_timestamp(self.last_prices@.take(i as int)),
            decreases n - i,
        {
            proof {
                let s = self.last_prices@;
                assert(s.take(i as int + 1).drop_last() =~= s.take(i as int));
                assert(s.take(i as int + 1).last() == s[i as int]);
            }
            let t = self.last_prices[i].timestamp_seconds;
            if t >= best {
                best = t;
            }
            i += 1;
        }
        assert(self.last_prices@.take(n as int) =~= self.last_prices@);
        best
    }

    /// The price of the most preferred source that is fresh (at most `max_age`
    /// seconds old at `now`): (value bits, source, age in seconds). When every
    /// source is stale the oracle is reported down for the age of the latest
    /// price; with no price at all, the peg price is unavailable.
    pub fn get_price(&self, now_seconds: u64, max_age_seconds: u64) -> (r: IgraResult<(u64, String, u64)>)
        ensures
            price_answer(self.prices(), now_seconds, max_age_seconds, r),
    {
        proof {
            reveal_strlit("band");
            reveal_strlit("chainlink");
            reveal_strlit("fallback");
        }
        if let Some(i) = self.find_fresh("band", now_seconds, max_age_seconds) {
            let p = &self.last_prices[i];
            return Ok((p.value_bits, p.source.clone(), age(now_seconds, p.timestamp_seconds)));
        }
        if let Some(i) = self.find_fresh("chainlink", now_seconds, max_age_seconds) {
            let p = &self.last_prices[i];
            return Ok((p.value_bits, p.source.clone(), age(now_seconds, p.timestamp_seconds)));
        }
        if let Some(i) = self.find_fresh("fallback", now_seconds, max_age_seconds) {
            let p = &self.last_prices[i];
            return Ok((p.value_bits, p.source.clone(), age(now_seconds, p.timestamp_seconds)));
        }
        if self.last_prices.len() > 0 {
            let latest_age = age(now_seconds, self.latest());
            #[verifier::truncate]
            let minutes = (latest_age / 60) as u16;
            #[verifier::truncate]
            let threshold = (max_age_seconds / 60) as u16;
            return Err(IgraError::OracleDowntime { minutes, threshold });
        }
        Err(IgraError::PegPriceUnavailable)
    }

    /// Whether every recorded price is at most `max_age` seconds old at `now`.
    pub fn all_sources_healthy(&self, now_seconds: u64, max_age_seconds: u64) -> (r: bool)
        ensures
            r == forall|i: int|
                0 <= i < self.prices().len() ==> age_of(now_seconds, #[trigger] self.prices()[i].timestamp_seconds)
                    <= max_age_seconds,
    {
        let n = self.last_prices.len();
        let mut i: usize = 0;
        while i < n
            invariant
                0 <= i <= n,
                n == self.last_prices@.len(),
                forall|j: int|
                    0 <= j < i ==> age_of(now_seconds, #[trigger] self.last_prices@[j].timestamp_seconds)
                        <= max_age_seconds,
            decreases n - i,
        {
            if age(now_seconds, self.last_prices[i].timestamp_seconds) > max_age_seconds {
                assert(age_of(now_seconds, self.prices()[i as int].timestamp_seconds) > max_age_seconds);
                return false;
            }
            i += 1;
        }
        true
    }
}

} // verus!
