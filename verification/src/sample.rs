//! Failure-tolerant sampling: every query outcome becomes a usable sample.

use rand::Rng;
use vstd::prelude::*;

verus! {

/// Failure of the external metric source. Both variants are treated alike:
/// the sampler absorbs them into a fallback sample and no error escapes.
#[derive(Clone, Copy, PartialEq, Eq, Structural, Debug)]
pub enum SourceError {
    ConnectionUnavailable,
    QueryFailed,
}

/// A sample together with its origin: `Live` holds a count the metric source
/// returned, `Fallback` holds a synthetic substitute drawn when the source
/// failed. Both are stored identically in the history, but the origin stays
/// recoverable here.
#[derive(Clone, Copy, PartialEq, Eq, Structural, Debug)]
pub enum SampleResult {
    Live(i64),
    Fallback(i64),
}

impl SampleResult {
    /// The numeric value carried by the sample, whatever its origin.
    pub open spec fn spec_value(self) -> i64 {
        match self {
            SampleResult::Live(v) => v,
            SampleResult::Fallback(v) => v,
        }
    }

    pub fn value(&self) -> (v: i64)
        ensures
            v == self.spec_value(),
    {
        match self {
            SampleResult::Live(v) => *v,
            SampleResult::Fallback(v) => *v,
        }
    }
}

/// Relies on rand::Rng::gen_range over the inclusive range low..=high: it
/// returns a value inside that range and panics only when the range is
/// empty, which the precondition rules out.
#[verifier::external_body]
fn random_in_range(low: i64, high: i64) -> (r: i64)
    requires
        low <= high,
    ensures
        low <= r <= high,
{
    rand::thread_rng().gen_range(low..=high)
}

/// Turns one query outcome into a guaranteed sample: a successful query
/// becomes `Live` with exactly the queried count; any failure is absorbed
/// into a `Fallback` drawn from the inclusive range
/// `[fallback_low, fallback_high]`.
pub fn sample(query: Result<i64, SourceError>, fallback_low: i64, fallback_high: i64) -> (r: SampleResult)
    requires
        fallback_low <= fallback_high,
    ensures
        query matches Ok(v) ==> r == SampleResult::Live(v),
        query matches Err(_) ==> (r matches SampleResult::Fallback(x) && fallback_low <= x <= fallback_high),
{
    match query {
        Ok(v) => SampleResult::Live(v),
        Err(_) => SampleResult::Fallback(random_in_range(fallback_low, fallback_high)),
    }
}

} // verus!
