use vstd::prelude::*;

use crate::decode::{decode_frame, frame_result, DATA_BITS};
use crate::frame::{RawFrame, ReadError};
use crate::pulse::{
    ack_in_window, ack_pulse_ok, pulse_timed_out, timed_out, Level, PULSE_TIMEOUT_NS,
};

verus! {

/// How long the line is held high to establish an idle bus, in microseconds.
pub const BUS_IDLE_MICROS: u64 = 1000;

/// How long the line is held low as the start signal, in microseconds.
pub const START_SIGNAL_MICROS: u64 = 1100;

/// Number of pin actions before the first pulse is measured.
pub const SETUP_STEPS: usize = 8;

/// Number of acknowledgement pulses the sensor sends before its data.
pub const ACK_PULSES: usize = 3;

/// The direction of the data pin.
#[derive(Clone, Copy, Debug, PartialEq, Eq, Structural)]
pub enum PinMode {
    Input,
    Output,
}

/// One thing for the caller to do to the pin, or the end of the transaction.
#[derive(Clone, Copy, Debug, PartialEq, Eq)]
pub enum Action {
    /// Enable the pin's pull-up resistor.
    EnablePullUp,
    /// Switch the pin to the given mode.
    SetMode(PinMode),
    /// Drive the pin (in output mode) to the given level.
    Drive(Level),
    /// Sleep for the given number of microseconds.
    SleepMicros(u64),
    /// Measure how long the line stays at `level`, giving up after
    /// `timeout_ns` nanoseconds, and report the elapsed nanoseconds.
    Measure { level: Level, timeout_ns: u64 },
    /// The transaction is over, with this outcome.
    Finish(Result<RawFrame, ReadError>),
}

/// The pin actions that open a transaction, in order: pull-up, output mode,
/// idle high for 1 ms, start signal low for 1.1 ms, release high, input mode.
pub open spec fn setup_action(k: int) -> Action {
    if k == 0 {
        Action::EnablePullUp
    } else if k == 1 {
        Action::SetMode(PinMode::Output)
    } else if k == 2 {
        Action::Drive(Level::High)
    } else if k == 3 {
        Action::SleepMicros(BUS_IDLE_MICROS)
    } else if k == 4 {
        Action::Drive(Level::Low)
    } else if k == 5 {
        Action::SleepMicros(START_SIGNAL_MICROS)
    } else if k == 6 {
        Action::Drive(Level::High)
    } else {
        Action::SetMode(PinMode::Input)
    }
}

/// The level of acknowledgement pulse `j`: high, low, high.
pub open spec fn ack_level(j: int) -> Level {
    if j == 1 {
        Level::Low
    } else {
        Level::High
    }
}

/// The acknowledgement pulses measured so far hold a failure: the first one
/// reached the timeout, or the second or third fell outside the window.
pub open spec fn ack_failed(ack: Seq<u64>) -> bool {
    ||| (ack.len() > 0 && timed_out(ack[0]))
    ||| (ack.len() > 1 && !ack_in_window(ack[1]))
    ||| (ack.len() > 2 && !ack_in_window(ack[2]))
}

/// Asks for a pulse measurement at `level` with the pulse timeout.
pub open spec fn measure(level: Level) -> Action {
    Action::Measure { level, timeout_ns: PULSE_TIMEOUT_NS }
}

/// One read transaction with the sensor, as a state machine.
///
/// The caller asks for the next action, performs it on the pin and reports
/// back with `complete`, passing the measured length for a measurement. The
/// transaction records the acknowledgement pulses and the forty low/high
/// pulse pairs of the data phase, and ends with a frame or an error.
pub struct ReadTransaction {
    setup_done: usize,
    ack: Vec<u64>,
    lows: Vec<u64>,
    highs: Vec<u64>,
}

impl ReadTransaction {
    /// How many of the setup actions have been performed.
    pub closed spec fn setup_done(&self) -> nat {
        self.setup_done as nat
    }

    /// The acknowledgement pulses measured so far, in nanoseconds.
    pub closed spec fn ack_pulses(&self) -> Seq<u64> {
        self.ack@
    }

    /// The low pulses that started the data bit slots so far, in nanoseconds.
    pub closed spec fn low_pulses(&self) -> Seq<u64> {
        self.lows@
    }

    /// The high pulses of the data bit slots so far, in nanoseconds.
    pub closed spec fn high_pulses(&self) -> Seq<u64> {
        self.highs@
    }

    /// The recorded state is one that the protocol's order can reach.
    pub open spec fn wf(&self) -> bool {
        &&& self.setup_done() <= SETUP_STEPS
        &&& self.setup_done() < SETUP_STEPS ==> self.ack_pulses().len() == 0
        &&& self.ack_pulses().len() <= ACK_PULSES
        &&& self.low_pulses().len() > 0 ==> self.ack_pulses().len() == ACK_PULSES && !ack_failed(
            self.ack_pulses(),
        )
        &&& self.high_pulses().len() <= self.low_pulses().len()
        &&& self.low_pulses().len() <= self.high_pulses().len() + 1
        &&& self.low_pulses().len() <= DATA_BITS
    }

    /// The transaction has an outcome: an acknowledgement pulse failed, or
    /// all forty bit slots are measured.
    pub open spec fn finished(&self) -> bool {
        &&& self.setup_done() == SETUP_STEPS
        &&& (ack_failed(self.ack_pulses()) || self.high_pulses().len() == DATA_BITS)
    }

    /// How many more completed actions a transaction needs at most: the
    /// setup actions, acknowledgement pulses and data pulses not yet done.
    pub open spec fn steps_left(&self) -> int {
        (SETUP_STEPS - self.setup_done()) + (ACK_PULSES - self.ack_pulses().len()) + (DATA_BITS
            - self.low_pulses().len()) + (DATA_BITS - self.high_pulses().len())
    }

    /// The action that the transaction asks for in its present state.
    pub open spec fn pending(&self) -> Action {
        if self.setup_done() < SETUP_STEPS {
            setup_action(self.setup_done() as int)
        } else if ack_failed(self.ack_pulses()) {
            Action::Finish(Err(ReadError::Timeout))
        } else if self.ack_pulses().len() < ACK_PULSES {
            measure(ack_level(self.ack_pulses().len() as int))
        } else if self.high_pulses().len() == DATA_BITS {
            Action::Finish(frame_result(self.low_pulses(), self.high_pulses()))
        } else if self.low_pulses().len() == self.high_pulses().len() {
            measure(Level::Low)
        } else {
            measure(Level::High)
        }
    }

    /// A transaction that has done nothing yet.
    pub fn new() -> (r: ReadTransaction)
        ensures
            r.wf(),
            r.setup_done() == 0,
            r.ack_pulses().len() == 0,
            r.low_pulses().len() == 0,
            r.high_pulses().len() == 0,
    {
        ReadTransaction { setup_done: 0, ack: Vec::new(), lows: Vec::new(), highs: Vec::new() }
    }

    /// The next action for the caller to perform.
    pub fn next_action(&self) -> (r: Action)
        requires
            self.wf(),
        ensures
            r == self.pending(),
    {
        if self.setup_done < SETUP_STEPS {
            setup_step(self.setup_done)
        } else if self.ack_has_failed() {
            Action::Finish(Err(ReadError::Timeout))
        } else if self.ack.len() < ACK_PULSES {
            let level = if self.ack.len() == 1 {
                Level::Low
            } else {
                Level::High
            };
            Action::Measure { level, timeout_ns: PULSE_TIMEOUT_NS }
        } else if self.highs.len() == DATA_BITS {
            Action::Finish(decode_frame(&self.lows, &self.highs))
        } else if self.lows.len() == self.highs.len() {
            Action::Measure { level: Level::Low, timeout_ns: PULSE_TIMEOUT_NS }
        } else {
            Action::Measure { level: Level::High, timeout_ns: PULSE_TIMEOUT_NS }
        }
    }

    fn ack_has_failed(&self) -> (r: bool)
        ensures
            r == ack_failed(self.ack@),
    {
        (self.ack.len() > 0 && pulse_timed_out(self.ack[0])) || (self.ack.len() > 1
            && !ack_pulse_ok(self.ack[1])) || (self.ack.len() > 2 && !ack_pulse_ok(self.ack[2]))
    }

    /// Reports that the pending action was performed. For a measurement,
    /// `elapsed_ns` is how long the line held the level; for any other
    /// action it is ignored. A finished transaction stays as it is.
    pub fn complete(&mut self, elapsed_ns: u64)
        requires
            old(self).wf(),
        ensures
            final(self).wf(),
            !old(self).finished() ==> 0 <= final(self).steps_left() < old(self).steps_left(),
            old(self).setup_done() < SETUP_STEPS ==> {
                &&& final(self).setup_done() == old(self).setup_done() + 1
                &&& final(self).ack_pulses() == old(self).ack_pulses()
                &&& final(self).low_pulses() == old(self).low_pulses()
                &&& final(self).high_pulses() == old(self).high_pulses()
            },
            old(self).setup_done() == SETUP_STEPS ==> final(self).setup_done() == SETUP_STEPS,
            old(self).finished() ==> {
                &&& final(self).ack_pulses() == old(self).ack_pulses()
                &&& final(self).low_pulses() == old(self).low_pulses()
                &&& final(self).high_pulses() == old(self).high_pulses()
            },
            old(self).setup_done() == SETUP_STEPS && !old(self).finished()
                && old(self).ack_pulses().len() < ACK_PULSES ==> {
                &&& final(self).ack_pulses() == old(self).ack_pulses().push(elapsed_ns)
                &&& final(self).low_pulses() == old(self).low_pulses()
                &&& final(self).high_pulses() == old(self).high_pulses()
            },
            old(self).setup_done() == SETUP_STEPS && !old(self).finished()
                && old(self).ack_pulses().len() == ACK_PULSES && old(self).low_pulses().len()
                == old(self).high_pulses().len() ==> {
                &&& final(self).ack_pulses() == old(self).ack_pulses()
                &&& final(self).low_pulses() == old(self).low_pulses().push(elapsed_ns)
                &&& final(self).high_pulses() == old(self).high_pulses()
            },
            old(self).setup_done() == SETUP_STEPS && !old(self).finished()
                && old(self).ack_pulses().len() == ACK_PULSES && old(self).low_pulses().len()
                != old(self).high_pulses().len() ==> {
                &&& final(self).ack_pulses() == old(self).ack_pulses()
                &&& final(self).low_pulses() == old(self).low_pulses()
                &&& final(self).high_pulses() == old(self).high_pulses().push(elapsed_ns)
            },
    {
        if self.setup_done < SETUP_STEPS {
            self.setup_done = self.setup_done + 1;
        } else if self.ack_has_failed() || self.highs.len() == DATA_BITS {
        } else if self.ack.len() < ACK_PULSES {
            self.ack.push(elapsed_ns);
        } else if self.lows.len() == self.highs.len() {
            self.lows.push(elapsed_ns);
        } else {
            self.highs.push(elapsed_ns);
        }
    }
}

/// A transaction cannot run on forever: once no steps are left it is
/// finished, and each completed step of an unfinished one uses one up.
pub proof fn out_of_steps_is_finished(t: ReadTransaction)
    requires
        t.wf(),
        t.steps_left() <= 0,
    ensures
        t.finished(),
        t.pending() is Finish,
{
}

/// The setup action with index `k`.
fn setup_step(k: usize) -> (r: Action)
    requires
        k < SETUP_STEPS,
    ensures
        r == setup_action(k as int),
{
    if k == 0 {
        Action::EnablePullUp
    } else if k == 1 {
        Action::SetMode(PinMode::Output)
    } else if k == 2 {
        Action::Drive(Level::High)
    } else if k == 3 {
        Action::SleepMicros(BUS_IDLE_MICROS)
    } else if k == 4 {
        Action::Drive(Level::Low)
    } else if k == 5 {
        Action::SleepMicros(START_SIGNAL_MICROS)
    } else if k == 6 {
        Action::Drive(Level::High)
    } else {
        Action::SetMode(PinMode::Input)
    }
}

} // verus!
