use vstd::prelude::*;

verus! {

/// Longest wait for one pulse, in nanoseconds. A pulse that lasts this long
/// or longer counts as a timeout.
pub const PULSE_TIMEOUT_NS: u64 = 200_000;

/// Shortest acceptable acknowledgement pulse, in nanoseconds.
pub const ACK_MIN_NS: u64 = 70_000;

/// Longest acceptable acknowledgement pulse, in nanoseconds.
pub const ACK_MAX_NS: u64 = 90_000;

/// The logic level of the data line.
#[derive(Clone, Copy, Debug, PartialEq, Eq, Structural)]
pub enum Level {
    Low,
    High,
}

/// A pulse of this length reached the pulse timeout.
pub open spec fn timed_out(duration_ns: u64) -> bool {
    duration_ns >= PULSE_TIMEOUT_NS
}

/// An acknowledgement pulse of this length lies in the accepted window,
/// both ends included.
pub open spec fn ack_in_window(duration_ns: u64) -> bool {
    ACK_MIN_NS <= duration_ns <= ACK_MAX_NS
}

/// The pulse timer's decision: keep polling while the line still holds the
/// level being measured and the elapsed time has not passed the timeout.
pub fn pulse_continues(current: Level, target: Level, elapsed_ns: u64, timeout_ns: u64) -> (r:
    bool)
    ensures
        r == (current == target && elapsed_ns <= timeout_ns),
{
    current == target && elapsed_ns <= timeout_ns
}

/// Whether a measured pulse reached the pulse timeout.
pub fn pulse_timed_out(duration_ns: u64) -> (r: bool)
    ensures
        r == timed_out(duration_ns),
{
    duration_ns >= PULSE_TIMEOUT_NS
}

/// Whether an acknowledgement pulse lasted between the window's bounds.
pub fn ack_pulse_ok(duration_ns: u64) -> (r: bool)
    ensures
        r == ack_in_window(duration_ns),
{
    ACK_MIN_NS <= duration_ns && duration_ns <= ACK_MAX_NS
}

} // verus!
