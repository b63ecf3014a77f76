//! Decoding of the single-wire, pulse-timed protocol of the DHT22
//! humidity/temperature sensor.
//!
//! The library holds the protocol's logic: the decisions of the pulse timer,
//! the read transaction as a state machine, the assembly of bits into bytes,
//! the checksum and the decoding of a frame into tenths of a unit. Driving the
//! pin, sleeping and timing are left to the caller, who performs the actions
//! that the state machine hands out.
pub mod cli;
pub mod decode;
pub mod frame;
pub mod pulse;
pub mod transaction;

pub use cli::{CommandType, DHT22Cli};
pub use decode::{bit_value, decode_frame, DATA_BITS};
pub use frame::{decode_humidity, decode_temperature, RawFrame, ReadError};
pub use pulse::{
    ack_pulse_ok, pulse_continues, pulse_timed_out, Level, ACK_MAX_NS, ACK_MIN_NS,
    PULSE_TIMEOUT_NS,
};
pub use transaction::{Action, PinMode, ReadTransaction, BUS_IDLE_MICROS, START_SIGNAL_MICROS};
