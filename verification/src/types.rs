//! The domain types carried over the protocol: measurements, raw signals,
//! baseline values, the fixed-point humidity value and the feature set,
//! together with the byte-level decoding rules for each of them.

use vstd::prelude::*;

verus! {

/// A 16-bit big-endian value read from two wire bytes.
pub open spec fn be_u16(hi: u8, lo: u8) -> u16 {
    (hi * 256 + lo) as u16
}

/// The two big-endian wire bytes of a 16-bit value.
pub open spec fn be_u16_bytes(value: u16) -> Seq<u8> {
    seq![(value / 256) as u8, (value % 256) as u8]
}

/// An air quality measurement: CO₂-equivalent and total volatile organic
/// compounds.
#[derive(Debug, Clone, Copy, PartialEq, Eq, Structural)]
pub struct Measurement {
    /// CO₂ equivalent (parts per million, ppm)
    pub co2eq_ppm: u16,
    /// Total Volatile Organic Compounds (parts per billion, ppb)
    pub tvoc_ppb: u16,
}

/// The measurement decoded from a checksum-validated 6-byte response:
/// group one carries the CO₂ equivalent, group two the TVOC value.
pub open spec fn measurement_from(response: Seq<u8>) -> Measurement {
    Measurement {
        co2eq_ppm: be_u16(response[0], response[1]),
        tvoc_ppb: be_u16(response[3], response[4]),
    }
}

/// The raw sensor signals used by the on-chip calibration algorithm.
#[derive(Debug, Clone, Copy, PartialEq, Eq, Structural)]
pub struct RawSignals {
    /// H2 signal
    pub h2: u16,
    /// Ethanol signal
    pub ethanol: u16,
}

/// The raw signals decoded from a checksum-validated 6-byte response:
/// group one carries the H2 signal, group two the ethanol signal.
pub open spec fn raw_signals_from(response: Seq<u8>) -> RawSignals {
    RawSignals {
        h2: be_u16(response[0], response[1]),
        ethanol: be_u16(response[3], response[4]),
    }
}

/// The baseline values of the baseline correction algorithm: an opaque
/// pair that round-trips through get/set without interpretation.
#[derive(Debug, Clone, Copy, PartialEq, Eq, Structural)]
pub struct Baseline {
    /// CO₂eq baseline
    pub co2eq: u16,
    /// TVOC baseline
    pub tvoc: u16,
}

/// The baseline decoded from a checksum-validated 6-byte response.
pub open spec fn baseline_from(response: Seq<u8>) -> Baseline {
    Baseline {
        co2eq: be_u16(response[0], response[1]),
        tvoc: be_u16(response[3], response[4]),
    }
}

/// The four data bytes that carry a baseline on the wire, both values
/// big-endian, CO₂eq first.
pub open spec fn baseline_bytes(baseline: Baseline) -> Seq<u8> {
    be_u16_bytes(baseline.co2eq) + be_u16_bytes(baseline.tvoc)
}

/// Absolute humidity in g/m³, as the sensor's unsigned 8.8 fixed-point
/// value: 8 bits integer part, 8 bits fractional part (1/256 g/m³ each).
/// Every representable value lies in the valid domain 0 ≤ h < 256 g/m³.
#[derive(Debug, Clone, Copy, PartialEq, Eq, Structural)]
pub struct Humidity {
    /// Integer part (g/m³)
    pub integer: u8,
    /// Fractional part (1/256 g/m³)
    pub fractional: u8,
}

impl Humidity {
    /// The two wire bytes of this value: integer part first, big-endian.
    pub open spec fn spec_bytes(self) -> Seq<u8> {
        seq![self.integer, self.fractional]
    }

    /// Create a new `Humidity` instance from an integer part (g/m³) and a
    /// fractional part (1/256 g/m³).
    pub fn new(integer: u8, fractional: u8) -> (humidity: Humidity)
        ensures
            humidity.integer == integer,
            humidity.fractional == fractional,
    {
        Humidity { integer, fractional }
    }

    /// Encode this value for the wire.
    pub fn as_bytes(&self) -> (bytes: [u8; 2])
        ensures
            bytes@ == self.spec_bytes(),
    {
        let bytes: [u8; 2] = [self.integer, self.fractional];
        proof {
            assert(bytes@ =~= self.spec_bytes());
        }
        bytes
    }
}

/// The product type of a feature set response.
#[derive(Debug, Clone, Copy, PartialEq, Eq, Structural)]
pub enum ProductType {
    /// SGP30 gas sensor
    Sgp30,
    /// Unknown product type, with its 4-bit code
    Unknown(u8),
}

/// The product type encoded in the high nibble of the first response
/// byte: 0 is the known sensor family, anything else is unknown.
pub open spec fn product_type_from(code: u8) -> ProductType {
    if code == 0 {
        ProductType::Sgp30
    } else {
        ProductType::Unknown(code)
    }
}

/// The feature set of the sensor: product type and product version.
#[derive(Debug, Clone, Copy, PartialEq, Eq, Structural)]
pub struct FeatureSet {
    /// The product type
    pub product_type: ProductType,
    /// The product version
    pub product_version: u8,
}

/// The feature set decoded from the two data bytes of a validated
/// response: high nibble of byte 0 names the product type, byte 1 is the
/// version verbatim.
pub open spec fn feature_set_from(byte0: u8, byte1: u8) -> FeatureSet {
    FeatureSet {
        product_type: product_type_from(byte0 >> 4),
        product_version: byte1,
    }
}

impl FeatureSet {
    /// Decode the feature set from the two data bytes of a validated
    /// response.
    pub fn parse(byte0: u8, byte1: u8) -> (feature_set: FeatureSet)
        ensures
            feature_set == feature_set_from(byte0, byte1),
    {
        let nibble = byte0 >> 4;
        let product_type = if nibble == 0 {
            ProductType::Sgp30
        } else {
            ProductType::Unknown(nibble)
        };
        FeatureSet { product_type, product_version: byte1 }
    }
}

} // verus!
