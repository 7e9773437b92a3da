//! The relative elapsed wall-clock time since an epoch, as the CLI's log lines
//! show it.
use vstd::prelude::*;
use std::time::Instant;
use crate::clock::{instant_now, instant_elapsed, duration_secs, duration_subsec_millis};
use crate::text::{push_char, decimal, pad_left, decimal_padded};

verus! {

/// An uptime as the log shows it: the seconds right-aligned in four columns, a
/// dot, the milliseconds right-aligned in two, and `s`.
pub open spec fn uptime_text(secs: nat, millis: nat) -> Seq<char> {
    pad_left(decimal(secs), 4) + seq!['.'] + pad_left(decimal(millis), 2) + seq!['s']
}

/// Formats an uptime given as whole seconds and milliseconds.
pub fn format_uptime(secs: u64, millis: u32) -> (text: String)
    ensures
        text@ == uptime_text(secs as nat, millis as nat),
{
    let mut text = decimal_padded(secs, 4);
    push_char(&mut text, '.');
    let m = decimal_padded(millis as u64, 2);
    text.append(m.as_str());
    push_char(&mut text, 's');
    text
}

/// Retrieve and print the relative elapsed wall-clock time since an epoch.
///
/// The `Default` implementation makes the epoch the current time.
#[derive(Debug, Clone, Copy, PartialEq, Eq)]
pub struct PrettyUptime {
    epoch: Instant,
}

impl Default for PrettyUptime {
    fn default() -> Self {
        PrettyUptime { epoch: instant_now() }
    }
}

impl PrettyUptime {
    /// The time elapsed since the epoch, formatted as [`format_uptime`] does;
    /// the milliseconds part is below one thousand.
    pub fn format_time(&self) -> (text: String)
        ensures
            exists|secs: nat, millis: nat| millis < 1000 && text@ == uptime_text(secs, millis),
    {
        let elapsed = instant_elapsed(&self.epoch);
        let secs = duration_secs(&elapsed);
        let millis = duration_subsec_millis(&elapsed);
        let text = format_uptime(secs, millis);
        assert(text@ == uptime_text(secs as nat, millis as nat));
        text
    }
}

} // verus!
