//! Trade-count aggregation units for tick-based charts.

use vstd::prelude::*;

verus! {

/// A number of trades aggregated into one chart point.
#[derive(Debug, Clone, Copy, PartialEq, Eq, Structural)]
pub struct TickCount(pub u16);

impl TickCount {
    /// The standard counts offered in the interface.
    pub open spec fn standard_spec(self) -> bool {
        self.0 == 10 || self.0 == 20 || self.0 == 50 || self.0 == 100 || self.0 == 200
            || self.0 == 500 || self.0 == 1000
    }

    /// Whether the count is none of the standard choices.
    pub fn is_custom(&self) -> (r: bool)
        ensures
            r == !self.standard_spec(),
    {
        !(self.0 == 10 || self.0 == 20 || self.0 == 50 || self.0 == 100 || self.0 == 200
            || self.0 == 500 || self.0 == 1000)
    }
}

} // verus!
