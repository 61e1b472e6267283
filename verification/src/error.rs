//! The ways in which a layout can fail.

use vstd::prelude::*;
use vstd::string::*;

verus! {

/// Why a chart could not be laid out.
#[derive(Clone, Copy, Debug, PartialEq, Eq, Structural)]
pub enum LayoutError {
    /// The chart holds no bar, so there is no price range to scale by.
    NoData,
    /// The configuration cannot be laid out with: see
    /// [`ChartConfig::wf`](crate::config::ChartConfig::wf).
    InvalidConfig,
}

impl LayoutError {
    /// The error in words.
    pub fn message(&self) -> (text: String)
        ensures
            *self == LayoutError::NoData ==> text@ == "no data"@,
            *self == LayoutError::InvalidConfig ==> text@ == "invalid configuration"@,
    {
        match self {
            LayoutError::NoData => String::from_str("no data"),
            LayoutError::InvalidConfig => String::from_str("invalid configuration"),
        }
    }
}

} // verus!
