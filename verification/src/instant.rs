//! Points on the nanosecond timeline.

use vstd::prelude::*;
use crate::error::JsError;
use crate::error::ErrorKind;

verus! {

/// The latest representable instant, in nanoseconds after the epoch: one
/// hundred million days. The earliest is its negation.
pub const NS_MAX_INSTANT: i128 = 8_640_000_000_000_000_000_000;

/// Nanoseconds in a millisecond.
pub const NS_PER_MILLISECOND: i128 = 1_000_000;

/// Whether a nanosecond count names a representable instant.
pub open spec fn is_valid_epoch_nanoseconds(nanos: int) -> bool {
    -NS_MAX_INSTANT <= nanos <= NS_MAX_INSTANT
}

/// What asking for the instant at a nanosecond count gives.
pub open spec fn instant_at(nanos: int) -> Result<int, JsError> {
    if is_valid_epoch_nanoseconds(nanos) {
        Ok(nanos)
    } else {
        Err(JsError { kind: ErrorKind::Range })
    }
}

/// An outcome that may hold an instant, with the instant read as its count.
pub open spec fn instant_outcome(r: Result<Instant, JsError>) -> Result<int, JsError> {
    match r {
        Ok(i) => Ok(i@),
        Err(e) => Err(e),
    }
}

/// An exact point in time: nanoseconds since the epoch, always within the
/// representable range.
#[derive(Debug, Clone, Copy, PartialEq, Eq, Hash)]
pub struct Instant {
    nanos: i128,
}

impl View for Instant {
    type V = int;

    closed spec fn view(&self) -> int {
        self.nanos as int
    }
}

impl Instant {
    #[verifier::type_invariant]
    spec fn in_range(self) -> bool {
        is_valid_epoch_nanoseconds(self.nanos as int)
    }

    /// An instant is its nanosecond count and nothing more.
    pub proof fn lemma_view_injective(a: Instant, b: Instant)
        requires
            a@ == b@,
        ensures
            a == b,
    {
    }

    /// The instant a nanosecond count names; a count outside the range is a
    /// range error.
    pub fn from_nanoseconds(nanos: i128) -> (r: Result<Instant, JsError>)
        ensures
            instant_outcome(r) == instant_at(nanos as int),
    {
        if -NS_MAX_INSTANT <= nanos && nanos <= NS_MAX_INSTANT {
            Ok(Instant { nanos })
        } else {
            Err(JsError::range())
        }
    }

    /// Nanoseconds since the epoch.
    pub fn epoch_nanoseconds(&self) -> (r: i128)
        ensures
            r == self@,
            is_valid_epoch_nanoseconds(r as int),
    {
        proof {
            use_type_invariant(self);
        }
        self.nanos
    }

    /// Whole milliseconds since the epoch, rounded towards the past.
    pub fn epoch_milliseconds(&self) -> (r: i64)
        ensures
            r == self@ / (NS_PER_MILLISECOND as int),
    {
        proof {
            use_type_invariant(self);
        }
        let n = self.nanos;
        if n >= 0 {
            let q = n / NS_PER_MILLISECOND;
            q as i64
        } else {
            let m: i128 = -n;
            let q: i128 = (m + (NS_PER_MILLISECOND - 1)) / NS_PER_MILLISECOND;
            assert(-q == n as int / (NS_PER_MILLISECOND as int)) by (nonlinear_arith)
                requires
                    m == -n,
                    m > 0,
                    q == (m + 999_999) / 1_000_000,
                    NS_PER_MILLISECOND == 1_000_000,
            ;
            (-q) as i64
        }
    }

    /// The instant `delta` nanoseconds away; leaving the representable range
    /// is a range error, never a wrap.
    pub fn add_exact_nanoseconds(&self, delta: i128) -> (r: Result<Instant, JsError>)
        ensures
            instant_outcome(r) == instant_at(self@ + delta),
    {
        proof {
            use_type_invariant(self);
        }
        match self.nanos.checked_add(delta) {
            Some(sum) => Instant::from_nanoseconds(sum),
            None => Err(JsError::range()),
        }
    }
}

} // verus!
