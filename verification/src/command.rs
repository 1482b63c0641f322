//! The sensor's command opcodes and the messages built from them.

use vstd::prelude::*;

verus! {

/// An opcode the sensor understands. Every message to the sensor starts with
/// one; the bytes that follow are opcodes too.
#[derive(Clone, Copy, Debug, PartialEq, Eq)]
pub enum Command {
    /// Load the calibration coefficients.
    Initialization,
    /// Start a measurement.
    TriggerMeasurement,
    /// Restart the sensor.
    SoftReset,
    /// Parameter of `Initialization`: switch calibration on.
    CalibrationEnable,
    /// Parameter of `TriggerMeasurement`: measure both quantities.
    HumidityAndTemperature,
    /// Padding byte that closes a three-byte message.
    Nop,
}

impl Command {
    /// The opcode as it appears on the wire.
    pub open spec fn wire(self) -> u8 {
        match self {
            Command::Initialization => 0xE1,
            Command::TriggerMeasurement => 0xAC,
            Command::SoftReset => 0xBA,
            Command::CalibrationEnable => 0x08,
            Command::HumidityAndTemperature => 0x33,
            Command::Nop => 0x00,
        }
    }

    /// Returns the byte to put on the bus.
    pub fn opcode(self) -> (b: u8)
        ensures
            b == self.wire(),
    {
        match self {
            Command::Initialization => 0xE1,
            Command::TriggerMeasurement => 0xAC,
            Command::SoftReset => 0xBA,
            Command::CalibrationEnable => 0x08,
            Command::HumidityAndTemperature => 0x33,
            Command::Nop => 0x00,
        }
    }
}

} // verus!
