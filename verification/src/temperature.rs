//! Temperature reporting. No sensor backend is wired up, so the monitor
//! reports a fixed status message; rendering it (with color) is an
//! outside concern.

use vstd::prelude::*;

verus! {

/// Reports the temperature-sensor status.
#[derive(Debug, Clone, PartialEq)]
pub struct TemperatureMonitor;

impl TemperatureMonitor {
    /// A temperature monitor.
    pub fn new() -> (r: TemperatureMonitor) {
        TemperatureMonitor
    }

    /// The status line shown in place of sensor readings.
    pub fn status_message(&self) -> (r: &'static str)
        ensures
            r@ == "Temperature sensors not available on this system"@,
    {
        "Temperature sensors not available on this system"
    }
}

impl Default for TemperatureMonitor {
    /// The same monitor `new` yields.
    fn default() -> (r: TemperatureMonitor) {
        TemperatureMonitor::new()
    }
}

} // verus!
