//! A driver for the Sensirion SGP30 gas sensor, written as a verified
//! command/response protocol engine.
//!
//! The driver encodes logical operations into bus commands, frames outgoing
//! payloads with CRC-8 checksums, validates and decodes incoming byte
//! streams, and enforces the sensor's operational state machine: measurement
//! commands are rejected until the air quality algorithm was initialized.
//!
//! The bus transport and the timing source are external collaborators. They
//! are described by the [`I2cTransport`] and [`DelayTimer`] traits, whose
//! contracts model the history of bus transactions and blocking waits; the
//! driver's own contracts state exactly which transactions each operation
//! performs.

mod checksum;
mod command;
mod driver;
mod transport;
mod types;

pub use driver::Error;
pub use driver::Sgp30;
pub use driver::framed_payload;
pub use driver::humidity_wire_bytes;

pub use transport::BusOp;
pub use transport::DelayTimer;
pub use transport::I2cTransport;

pub use command::Command;
pub use command::command_bytes;
pub use types::Baseline;
pub use types::FeatureSet;
pub use types::Humidity;
pub use types::Measurement;
pub use types::ProductType;
pub use types::RawSignals;
pub use types::baseline_bytes;
pub use types::baseline_from;
pub use types::be_u16;
pub use types::be_u16_bytes;
pub use types::feature_set_from;
pub use types::measurement_from;
pub use types::product_type_from;
pub use types::raw_signals_from;

pub use checksum::CRC8_POLYNOMIAL;
pub use checksum::crc8;
pub use checksum::crc8_fold_byte;
pub use checksum::crc8_round;
pub use checksum::crc8_rounds;
pub use checksum::crc8_spec;
pub use checksum::frames_valid;
pub use checksum::group_valid;
pub use checksum::lemma_single_group_validation;
pub use checksum::lemma_short_buffer_valid;
pub use checksum::lemma_trailing_bytes_ignored;
