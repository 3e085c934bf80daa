//! The decisions of the `diag presenter` command: its arguments, the route
//! it accepts, and the line it prints on each press.

use vstd::prelude::*;

verus! {

/// How long the command listens when no duration is given, in seconds.
pub const DEFAULT_LISTEN_SECONDS: u64 = 60;

/// Arguments of `diag presenter`.
#[derive(Debug)]
pub struct PresenterArgs {
    /// Run against the device whose name contains this string
    /// (case-insensitive) instead of auto-selecting.
    pub device: Option<String>,
    /// Seconds to listen before stopping.
    pub seconds: u64,
}

impl Default for PresenterArgs {
    /// No device filter, listening for the default duration.
    fn default() -> (args: Self)
        ensures
            args.device is None,
            args.seconds == DEFAULT_LISTEN_SECONDS,
    {
        PresenterArgs { device: None, seconds: DEFAULT_LISTEN_SECONDS }
    }
}

/// The highlight as the command shows it: flipped on each press.
#[derive(Debug)]
pub struct DiagHighlight {
    /// Whether the highlight is shown.
    pub on: bool,
}

impl DiagHighlight {
    /// A hidden highlight.
    pub fn new() -> (highlight: Self)
        ensures
            !highlight.on,
    {
        DiagHighlight { on: false }
    }

    /// Flip the highlight on a press and return the label to print for its
    /// new state: `ON` when shown, `off` when hidden.
    pub fn press(&mut self) -> (label: &'static str)
        ensures
            final(self).on == !old(self).on,
            final(self).on ==> label@ == "ON"@,
            !final(self).on ==> label@ == "off"@,
    {
        self.on = !self.on;
        if self.on {
            "ON"
        } else {
            "off"
        }
    }
}

} // verus!
