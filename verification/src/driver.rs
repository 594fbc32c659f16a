//! Types shared with the external USB driver, which is reached over a fixed
//! set of entry points and consumed as an opaque collaborator: only the
//! values that cross that boundary are modeled here.

use vstd::prelude::*;

verus! {

/// Handle the driver returns for an initialised host controller.
pub type XhcHandle = i32;

/// The driver's log threshold levels, carrying the syslog-style numeric
/// codes its interface uses.
#[allow(non_camel_case_types)]
#[derive(Debug, Clone, Copy, PartialEq, Eq, Structural)]
pub enum LogLevel {
    kError,
    kWarn,
    kInfo,
    kDebug,
}

impl LogLevel {
    /// The numeric code the driver interface gives this level.
    pub open spec fn spec_value(&self) -> i32 {
        match self {
            LogLevel::kError => 3,
            LogLevel::kWarn => 4,
            LogLevel::kInfo => 6,
            LogLevel::kDebug => 7,
        }
    }

    /// The numeric code the driver interface gives this level.
    pub fn value(&self) -> (r: i32)
        ensures
            r == self.spec_value(),
    {
        match self {
            LogLevel::kError => 3,
            LogLevel::kWarn => 4,
            LogLevel::kInfo => 6,
            LogLevel::kDebug => 7,
        }
    }
}

} // verus!
