//! The machine's power state, as the platform reports it to applications.

use vstd::prelude::*;

verus! {

/// Platform-global power preference.
#[derive(Debug, Clone, Copy, PartialEq, Eq, Structural)]
pub enum PowerPreference {
    /// Balance power consumption with user experience.
    Balanced,
    /// Reduce power consumption without compromising user experience.
    LowPower,
    /// Reduce power consumption as much as possible, even at the cost of
    /// user experience.
    VeryLowPower,
    /// Performance without compromise.
    MaxPerformance,
}

/// The computer's power source.
#[derive(Debug, Clone, Copy, PartialEq, Eq, Structural)]
pub enum PowerSource {
    /// An external power source, of unknown capacity.
    External,
    /// The battery.
    Battery,
    /// An uninterruptible power supply.
    Backup,
}

/// The state of the computer's monitors.
#[derive(Debug, Clone, Copy, PartialEq, Eq, Structural)]
pub enum MonitorState {
    /// One or more monitors are on.
    On,
    /// All monitors are off.
    Off,
    /// The monitors are dimmed for inactivity.
    Dimmed,
}

} // verus!
