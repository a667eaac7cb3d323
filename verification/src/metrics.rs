//! Metric descriptions. Metrics are recorded only in builds that enable
//! them; this library records none, so there is nothing to describe.

use vstd::prelude::*;

verus! {

/// Initialize metric descriptions: nothing to do, as no metrics are recorded.
pub fn describe_metrics() {
}

} // verus!
