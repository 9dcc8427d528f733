//! The request counter and its rendering in the text exposition format.

use prometheus::Encoder;
use vstd::prelude::*;
use crate::model::bytes_of;

verus! {

/// Name of the request counter in the exposition.
pub const METRIC_NAME: &'static str = "http_requests_total";

/// Help text of the request counter in the exposition.
pub const METRIC_HELP: &'static str = "Total HTTP requests";

/// The text exposition that the `prometheus` crate's `TextEncoder` writes
/// for a registry holding one integer counter of the given name, help text
/// and value; `None` where the crate rejects the counter or the encoding.
pub uninterp spec fn counter_exposition(name: Seq<char>, help: Seq<char>, value: u64) -> Option<
    Seq<u8>,
>;

/// The counter after one more request: one higher, and never lower. At the
/// top of its range it stays.
pub open spec fn bumped(n: nat) -> nat {
    if n < u64::MAX {
        n + 1
    } else {
        n
    }
}

/// The exposition of the request counter at `requests`.
pub open spec fn rendered(requests: nat) -> Option<Seq<u8>>
    recommends
        requests <= u64::MAX,
{
    counter_exposition(METRIC_NAME@, METRIC_HELP@, requests as u64)
}

/// Builds a `prometheus::IntCounter` with `IntCounter::new`, raises it by
/// `value` with `inc_by`, registers it in a new `Registry` and encodes what
/// `Registry::gather` returns with `TextEncoder::encode`. Trusted: the bytes
/// written are a function of name, help text and value alone, named
/// `counter_exposition`; every error of the crate becomes `None`.
#[verifier::external_body]
fn encode_counter(name: &str, help: &str, value: u64) -> (r: Option<Vec<u8>>)
    ensures
        bytes_of(r) == counter_exposition(name@, help@, value),
{
    let counter = prometheus::IntCounter::new(name, help).ok()?;
    counter.inc_by(value);
    let registry = prometheus::Registry::new();
    registry.register(Box::new(counter)).ok()?;
    let mut out = Vec::new();
    prometheus::TextEncoder::new().encode(&registry.gather(), &mut out).ok()?;
    Some(out)
}

/// Counts handled requests. The count only grows.
pub struct RequestCounter {
    total: u64,
}

impl View for RequestCounter {
    type V = nat;

    closed spec fn view(&self) -> nat {
        self.total as nat
    }
}

impl RequestCounter {
    /// A counter at zero.
    pub fn new() -> (c: RequestCounter)
        ensures
            c@ == 0,
    {
        RequestCounter { total: 0 }
    }

    /// The number of requests recorded.
    pub fn total(&self) -> (n: u64)
        ensures
            n == self@,
    {
        self.total
    }

    /// Records one request.
    pub fn record(&mut self)
        ensures
            final(self)@ == bumped(old(self)@),
            final(self)@ >= old(self)@,
    {
        if self.total < u64::MAX {
            self.total = self.total + 1;
        }
    }

    /// The counter in the text exposition format.
    pub fn render(&self) -> (r: Option<Vec<u8>>)
        ensures
            bytes_of(r) == rendered(self@),
    {
        encode_counter(METRIC_NAME, METRIC_HELP, self.total)
    }
}

} // verus!
