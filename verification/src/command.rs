//! The command table: each logical operation of the sensor and its fixed
//! 2-byte command code.

use vstd::prelude::*;

verus! {

/// I²C commands sent to the sensor.
#[derive(Debug, Copy, Clone)]
pub enum Command {
    /// Return the serial number.
    GetSerial,
    /// Run an on-chip self-test.
    SelfTest,
    /// Initialize air quality measurements.
    InitAirQuality,
    /// Get a current air quality measurement.
    MeasureAirQuality,
    /// Measure raw signals.
    MeasureRawSignals,
    /// Return the baseline value.
    GetBaseline,
    /// Set the baseline value.
    SetBaseline,
    /// Set the current absolute humidity.
    SetHumidity,
    /// Get the feature set.
    GetFeatureSet,
}

/// The fixed 2-byte code of each command.
pub open spec fn command_bytes(command: Command) -> Seq<u8> {
    match command {
        Command::GetSerial => seq![0x36u8, 0x82u8],
        Command::SelfTest => seq![0x20u8, 0x32u8],
        Command::InitAirQuality => seq![0x20u8, 0x03u8],
        Command::MeasureAirQuality => seq![0x20u8, 0x08u8],
        Command::MeasureRawSignals => seq![0x20u8, 0x50u8],
        Command::GetBaseline => seq![0x20u8, 0x15u8],
        Command::SetBaseline => seq![0x20u8, 0x1Eu8],
        Command::SetHumidity => seq![0x20u8, 0x61u8],
        Command::GetFeatureSet => seq![0x20u8, 0x2Fu8],
    }
}

impl Command {
    /// The 2-byte code of this command.
    pub fn as_bytes(self) -> (code: [u8; 2])
        ensures
            code@ == command_bytes(self),
    {
        let code: [u8; 2] = match self {
            Command::GetSerial => [0x36, 0x82],
            Command::SelfTest => [0x20, 0x32],
            Command::InitAirQuality => [0x20, 0x03],
            Command::MeasureAirQuality => [0x20, 0x08],
            Command::MeasureRawSignals => [0x20, 0x50],
            Command::GetBaseline => [0x20, 0x15],
            Command::SetBaseline => [0x20, 0x1E],
            Command::SetHumidity => [0x20, 0x61],
            Command::GetFeatureSet => [0x20, 0x2F],
        };
        proof {
            assert(code@ =~= command_bytes(self));
        }
        code
    }
}

} // verus!
