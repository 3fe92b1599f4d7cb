//! Spans of time. `std::time::Duration` is carried through as it is; the
//! library only makes the few spans that its rules name.

use std::time::Duration;
use vstd::prelude::*;

verus! {

/// What `Duration::from_secs` returns: a span of `secs` whole seconds.
pub uninterp spec fn duration_from_secs(secs: u64) -> Duration;

/// What the `Debug` form of a span reads, such as `10s`.
pub uninterp spec fn duration_debug(d: Duration) -> Seq<char>;

/// `Duration::from_secs`.
#[verifier::external_body]
pub(crate) fn from_secs(secs: u64) -> (d: Duration)
    ensures
        d == duration_from_secs(secs),
{
    Duration::from_secs(secs)
}

/// `Debug::fmt` of a `Duration`, collected into a `String`.
#[verifier::external_body]
pub(crate) fn debug_text(d: &Duration) -> (s: String)
    ensures
        s@ == duration_debug(*d),
{
    format!("{:?}", d)
}

} // verus!
