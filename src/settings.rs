use vstd::prelude::*;

verus! {

/// Hint for which GPU adapter to pick when several are available.
#[derive(Clone, Copy, Debug, PartialEq, Eq, Structural)]
pub enum PowerPreference {
    /// Power usage is not considered.
    NoPreference,
    /// Prefer the adapter that uses the least power.
    LowPower,
    /// Prefer the adapter with the highest performance.
    HighPerformance,
}

/// How presented frames are handed to the display.
#[derive(Clone, Copy, Debug, PartialEq, Eq, Structural)]
pub enum PresentMode {
    AutoVsync,
    AutoNoVsync,
    Fifo,
    FifoRelaxed,
    Immediate,
    Mailbox,
}

/// Static configuration of the render host.
#[derive(Clone, Copy, Debug, PartialEq, Eq, Structural)]
pub struct WindowSettings {
    pub power_preference: PowerPreference,
    pub present_mode: PresentMode,
    /// Desired number of frames buffered ahead of the display.
    pub desired_max_buffer: u32,
}

pub open spec fn default_window_settings() -> WindowSettings {
    WindowSettings {
        power_preference: PowerPreference::NoPreference,
        present_mode: PresentMode::Immediate,
        desired_max_buffer: 2,
    }
}

/// The settings the host is built with: no power preference, immediate
/// presentation, two frames of latency.
pub fn window_settings() -> (s: WindowSettings)
    ensures
        s == default_window_settings(),
{
    WindowSettings {
        power_preference: PowerPreference::NoPreference,
        present_mode: PresentMode::Immediate,
        desired_max_buffer: 2,
    }
}

} // verus!
