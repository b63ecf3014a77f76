use vstd::prelude::*;

verus! {

/// What the command line asks to read.
#[derive(Clone, Copy, Debug, PartialEq, Eq, Structural)]
pub enum CommandType {
    /// The temperature, in degrees Celsius.
    Temp,
    /// The relative air humidity, in percent.
    Humid,
}

/// The parsed command line of the sensor tool.
#[derive(Clone, Copy, Debug, PartialEq, Eq, Structural)]
pub struct DHT22Cli {
    pub command_type: CommandType,
}

} // verus!
