//! The stacked buy/sell bar shown under the trade list.

use vstd::prelude::*;

verus! {

/// What the stacked bar's buy/sell split is computed from.
#[derive(Debug, Clone, Copy, PartialEq, Eq, Structural, Default)]
pub enum StackedBarRatio {
    Count,
    #[default]
    Volume,
    AverageSize,
}

/// The stacked bar's layout, each carrying its ratio basis.
#[derive(Debug, Clone, Copy, PartialEq, Eq, Structural)]
pub enum StackedBar {
    Compact(StackedBarRatio),
    Full(StackedBarRatio),
}

impl StackedBar {
    /// The ratio basis, whatever the layout.
    pub fn ratio(self) -> (r: StackedBarRatio)
        ensures
            self == StackedBar::Compact(r) || self == StackedBar::Full(r),
    {
        match self {
            StackedBar::Compact(r) | StackedBar::Full(r) => r,
        }
    }

    /// The same layout with another ratio basis.
    pub fn with_ratio(self, r: StackedBarRatio) -> (out: StackedBar)
        ensures
            self is Compact ==> out == StackedBar::Compact(r),
            self is Full ==> out == StackedBar::Full(r),
    {
        match self {
            StackedBar::Compact(_) => StackedBar::Compact(r),
            StackedBar::Full(_) => StackedBar::Full(r),
        }
    }
}

} // verus!
