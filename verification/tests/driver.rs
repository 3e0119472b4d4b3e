//! Tests of the driver state machine against a mock bus transport that
//! records and checks every transaction.

use sgp30::{
    Baseline, Command, DelayTimer, Error, Humidity, I2cTransport, ProductType, Sgp30,
    crc8,
};

/// One expected bus transaction, or an injected failure.
#[derive(Debug, Clone, PartialEq)]
enum Transaction {
    /// Expect a write of these bytes to this address.
    Write(u8, Vec<u8>),
    /// Expect a read from this address, answered with these bytes.
    Read(u8, Vec<u8>),
    /// Expect a write of these bytes to this address, and fail it.
    WriteError(u8, Vec<u8>),
    /// Expect a read from this address, and fail it.
    ReadError(u8),
}

/// The bus error handed back by the mock transport.
#[derive(Debug, Clone, Copy, PartialEq)]
struct MockBusError;

/// A mock transport that checks each call against a fixed list of
/// expected transactions.
struct I2cMock {
    expected: Vec<Transaction>,
    position: usize,
}

impl I2cMock {
    fn new(expected: &[Transaction]) -> Self {
        I2cMock { expected: expected.to_vec(), position: 0 }
    }

    /// Assert that every expected transaction was performed.
    fn done(&self) {
        assert_eq!(
            self.position,
            self.expected.len(),
            "not all expected transactions were performed"
        );
    }
}

impl I2cTransport for I2cMock {
    type BusError = MockBusError;

    fn write(&mut self, address: u8, bytes: &[u8]) -> Result<(), MockBusError> {
        let transaction = self
            .expected
            .get(self.position)
            .expect("unexpected write: no transaction left")
            .clone();
        self.position += 1;
        match transaction {
            Transaction::Write(expected_address, expected_bytes) => {
                assert_eq!(expected_address, address);
                assert_eq!(expected_bytes.as_slice(), bytes);
                Ok(())
            }
            Transaction::WriteError(expected_address, expected_bytes) => {
                assert_eq!(expected_address, address);
                assert_eq!(expected_bytes.as_slice(), bytes);
                Err(MockBusError)
            }
            other => panic!("expected {:?}, got a write", other),
        }
    }

    fn read(&mut self, address: u8, buffer: &mut Vec<u8>) -> Result<(), MockBusError> {
        let transaction = self
            .expected
            .get(self.position)
            .expect("unexpected read: no transaction left")
            .clone();
        self.position += 1;
        match transaction {
            Transaction::Read(expected_address, data) => {
                assert_eq!(expected_address, address);
                assert_eq!(data.len(), buffer.len());
                buffer.clear();
                buffer.extend_from_slice(&data);
                Ok(())
            }
            Transaction::ReadError(expected_address) => {
                assert_eq!(expected_address, address);
                Err(MockBusError)
            }
            other => panic!("expected {:?}, got a read", other),
        }
    }
}

/// A timing source that does not actually wait.
struct DelayMock;

impl DelayTimer for DelayMock {
    fn delay_us(&mut self, _us: u16) {}

    fn delay_ms(&mut self, _ms: u16) {}
}

/// Test the `validate_crc` function.
#[test]
fn validate_crc() {
    let mock = I2cMock::new(&[]);
    let sgp = Sgp30::new(mock, 0x58, DelayMock);

    // Not enough data
    sgp.validate_crc(&[]).unwrap();
    sgp.validate_crc(&[0xbe]).unwrap();
    sgp.validate_crc(&[0xbe, 0xef]).unwrap();

    // Valid CRC
    sgp.validate_crc(&[0xbe, 0xef, 0x92]).unwrap();

    // Invalid CRC
    match sgp.validate_crc(&[0xbe, 0xef, 0x91]) {
        Err(Error::Crc) => {}
        Err(_) => panic!("Invalid error: Must be Crc"),
        Ok(_) => panic!("CRC check did not fail"),
    }

    // Valid CRC (8 bytes)
    sgp.validate_crc(&[0xbe, 0xef, 0x92, 0xbe, 0xef, 0x92, 0x00, 0x00])
        .unwrap();

    // Invalid CRC (8 bytes)
    match sgp.validate_crc(&[0xbe, 0xef, 0x91, 0xbe, 0xef, 0xff, 0x00, 0x00]) {
        Err(Error::Crc) => {}
        Err(_) => panic!("Invalid error: Must be Crc"),
        Ok(_) => panic!("CRC check did not fail"),
    }

    sgp.destroy().done();
}

/// Test the `read_with_crc` function.
#[test]
fn read_with_crc() {
    let mut buf: Vec<u8> = vec![0, 0, 0];

    // Valid CRC
    let expectations = [Transaction::Read(0x58, vec![0xBE, 0xEF, 0x92])];
    let mock = I2cMock::new(&expectations);
    let mut sgp = Sgp30::new(mock, 0x58, DelayMock);
    sgp.read_with_crc(&mut buf).unwrap();
    assert_eq!(buf, vec![0xbe, 0xef, 0x92]);
    sgp.destroy().done();

    // Invalid CRC
    let expectations = [Transaction::Read(0x58, vec![0xBE, 0xEF, 0x00])];
    let mock = I2cMock::new(&expectations);
    let mut sgp = Sgp30::new(mock, 0x58, DelayMock);
    match sgp.read_with_crc(&mut buf) {
        Err(Error::Crc) => {}
        Err(_) => panic!("Invalid error: Must be Crc"),
        Ok(_) => panic!("CRC check did not fail"),
    }
    assert_eq!(buf, vec![0xbe, 0xef, 0x00]); // Buf was changed
    sgp.destroy().done();
}

/// Test the `serial` function
#[test]
fn serial() {
    let expectations = [
        Transaction::Write(0x58, Command::GetSerial.as_bytes().to_vec()),
        Transaction::Read(0x58, vec![0, 0, 129, 0, 100, 254, 204, 130, 135]),
    ];
    let mock = I2cMock::new(&expectations);
    let mut sgp = Sgp30::new(mock, 0x58, DelayMock);
    let serial = sgp.serial().unwrap();
    assert_eq!(serial, [0, 0, 0, 100, 204, 130]);
    sgp.destroy().done();
}

/// Test the `selftest` function
#[test]
fn selftest_ok() {
    let expectations = [
        Transaction::Write(0x58, Command::SelfTest.as_bytes().to_vec()),
        Transaction::Read(0x58, vec![0xD4, 0x00, 0xC6]),
    ];
    let mock = I2cMock::new(&expectations);
    let mut sgp = Sgp30::new(mock, 0x58, DelayMock);
    assert!(sgp.selftest().unwrap());
}

/// Test the `selftest` function
#[test]
fn selftest_fail() {
    let expectations = [
        Transaction::Write(0x58, Command::SelfTest.as_bytes().to_vec()),
        Transaction::Read(0x58, vec![0x12, 0x34, 0x37]),
    ];
    let mock = I2cMock::new(&expectations);
    let mut sgp = Sgp30::new(mock, 0x58, DelayMock);
    assert!(!sgp.selftest().unwrap());
}

/// Test the `measure` function: Require initialization
#[test]
fn measure_initialization_required() {
    let mock = I2cMock::new(&[]);
    let mut sgp = Sgp30::new(mock, 0x58, DelayMock);
    match sgp.measure() {
        Err(Error::NotInitialized) => {}
        Ok(_) => panic!("Error::NotInitialized not returned"),
        Err(_) => panic!("Wrong error returned"),
    }
    sgp.destroy().done();
}

/// Test the `measure` function: Calculation of return values
#[test]
fn measure_success() {
    let expectations = [
        Transaction::Write(0x58, Command::InitAirQuality.as_bytes().to_vec()),
        Transaction::Write(0x58, Command::MeasureAirQuality.as_bytes().to_vec()),
        Transaction::Read(0x58, vec![0x12, 0x34, 0x37, 0xD4, 0x02, 0xA4]),
    ];
    let mock = I2cMock::new(&expectations);
    let mut sgp = Sgp30::new(mock, 0x58, DelayMock);
    sgp.init().unwrap();
    let measurements = sgp.measure().unwrap();
    assert_eq!(measurements.co2eq_ppm, 4_660);
    assert_eq!(measurements.tvoc_ppb, 54_274);
    sgp.destroy().done();
}

/// Test the `get_baseline` function
#[test]
fn get_baseline() {
    let expectations = [
        Transaction::Write(0x58, Command::InitAirQuality.as_bytes().to_vec()),
        Transaction::Write(0x58, Command::GetBaseline.as_bytes().to_vec()),
        Transaction::Read(0x58, vec![0x12, 0x34, 0x37, 0xD4, 0x02, 0xA4]),
    ];
    let mock = I2cMock::new(&expectations);
    let mut sgp = Sgp30::new(mock, 0x58, DelayMock);
    sgp.init().unwrap();
    let baseline = sgp.get_baseline().unwrap();
    assert_eq!(baseline.co2eq, 4_660);
    assert_eq!(baseline.tvoc, 54_274);
    sgp.destroy().done();
}

/// Test the `set_baseline` function
#[test]
fn set_baseline() {
    let expectations = [
        Transaction::Write(0x58, Command::InitAirQuality.as_bytes().to_vec()),
        Transaction::Write(
            0x58,
            vec![
                /* command: */ 0x20, 0x1E, /* data + crc8: */ 0x12, 0x34, 0x37, 0x56,
                0x78, 0x7D,
            ],
        ),
    ];
    let mock = I2cMock::new(&expectations);
    let mut sgp = Sgp30::new(mock, 0x58, DelayMock);
    sgp.init().unwrap();
    let baseline = Baseline {
        co2eq: 0x1234,
        tvoc: 0x5678,
    };
    sgp.set_baseline(&baseline).unwrap();
    sgp.destroy().done();
}

/// Test the `set_humidity` function
#[test]
fn set_humidity() {
    let expectations = [
        Transaction::Write(0x58, Command::InitAirQuality.as_bytes().to_vec()),
        Transaction::Write(
            0x58,
            vec![/* command: */ 0x20, 0x61, /* data + crc8: */ 0x0F, 0x80, 0x62],
        ),
    ];
    let mock = I2cMock::new(&expectations);
    let mut sgp = Sgp30::new(mock, 0x58, DelayMock);
    sgp.init().unwrap();
    // 15.5 g/m³ as unsigned 8.8 fixed-point: integer part 15, fractional
    // part 0.5 * 256 = 128
    let humidity = Humidity::new(15, 128);
    sgp.set_humidity(Some(&humidity)).unwrap();
    sgp.destroy().done();
}

/// Test the `set_humidity` function with a None value
#[test]
fn set_humidity_none() {
    let expectations = [
        Transaction::Write(0x58, Command::InitAirQuality.as_bytes().to_vec()),
        Transaction::Write(
            0x58,
            vec![/* command: */ 0x20, 0x61, /* data + crc8: */ 0x00, 0x00, 0x81],
        ),
    ];
    let mock = I2cMock::new(&expectations);
    let mut sgp = Sgp30::new(mock, 0x58, DelayMock);
    sgp.init().unwrap();
    sgp.set_humidity(None).unwrap();
    sgp.destroy().done();
}

/// Test the `get_feature_set` function.
#[test]
fn get_feature_set() {
    let expectations = [
        Transaction::Write(0x58, Command::InitAirQuality.as_bytes().to_vec()),
        Transaction::Write(0x58, Command::GetFeatureSet.as_bytes().to_vec()),
        Transaction::Read(0x58, vec![0x00, 0x42, 0xDE]),
    ];
    let mock = I2cMock::new(&expectations);
    let mut sgp = Sgp30::new(mock, 0x58, DelayMock);
    sgp.init().unwrap();
    let feature_set = sgp.get_feature_set().unwrap();
    assert_eq!(feature_set.product_type, ProductType::Sgp30);
    assert_eq!(feature_set.product_version, 0x42);
    sgp.destroy().done();
}

/// Test the `measure_raw_signals` function.
#[test]
fn measure_raw_signals() {
    let expectations = [
        Transaction::Write(0x58, Command::InitAirQuality.as_bytes().to_vec()),
        Transaction::Write(0x58, Command::MeasureRawSignals.as_bytes().to_vec()),
        Transaction::Read(0x58, vec![0x12, 0x34, 0x37, 0x56, 0x78, 0x7D]),
    ];
    let mock = I2cMock::new(&expectations);
    let mut sgp = Sgp30::new(mock, 0x58, DelayMock);
    sgp.init().unwrap();
    let signals = sgp.measure_raw_signals().unwrap();
    assert_eq!(signals.h2, (0x12 << 8) + 0x34);
    assert_eq!(signals.ethanol, (0x56 << 8) + 0x78);
    sgp.destroy().done();
}

/// A second `init` call is a no-op: exactly one InitAirQuality write is
/// issued.
#[test]
fn init_twice_single_write() {
    let expectations = [Transaction::Write(0x58, Command::InitAirQuality.as_bytes().to_vec())];
    let mock = I2cMock::new(&expectations);
    let mut sgp = Sgp30::new(mock, 0x58, DelayMock);
    sgp.init().unwrap();
    sgp.init().unwrap();
    sgp.destroy().done();
}

/// `force_init` reinitializes unconditionally: two calls issue two
/// InitAirQuality writes.
#[test]
fn force_init_twice_two_writes() {
    let expectations = [
        Transaction::Write(0x58, Command::InitAirQuality.as_bytes().to_vec()),
        Transaction::Write(0x58, Command::InitAirQuality.as_bytes().to_vec()),
    ];
    let mock = I2cMock::new(&expectations);
    let mut sgp = Sgp30::new(mock, 0x58, DelayMock);
    sgp.force_init().unwrap();
    sgp.force_init().unwrap();
    sgp.destroy().done();
}

/// Every measurement-class operation is rejected before initialization,
/// with zero bus activity.
#[test]
fn measurement_class_guarded() {
    let mock = I2cMock::new(&[]);
    let mut sgp = Sgp30::new(mock, 0x58, DelayMock);
    assert!(matches!(sgp.measure(), Err(Error::NotInitialized)));
    assert!(matches!(
        sgp.measure_raw_signals(),
        Err(Error::NotInitialized)
    ));
    let baseline = Baseline {
        co2eq: 0x1234,
        tvoc: 0x5678,
    };
    assert!(matches!(
        sgp.set_baseline(&baseline),
        Err(Error::NotInitialized)
    ));
    assert!(matches!(sgp.set_humidity(None), Err(Error::NotInitialized)));
    sgp.destroy().done();
}

/// A failing bus write surfaces as `Error::I2c` and leaves the driver
/// uninitialized.
#[test]
fn transport_write_error_propagates() {
    let expectations = [Transaction::WriteError(
        0x58,
        Command::InitAirQuality.as_bytes().to_vec(),
    )];
    let mock = I2cMock::new(&expectations);
    let mut sgp = Sgp30::new(mock, 0x58, DelayMock);
    assert!(matches!(sgp.init(), Err(Error::I2c(MockBusError))));
    // The driver is still uninitialized, so measuring is still rejected.
    assert!(matches!(sgp.measure(), Err(Error::NotInitialized)));
    sgp.destroy().done();
}

/// A failing bus read surfaces as `Error::I2c`.
#[test]
fn transport_read_error_propagates() {
    let expectations = [
        Transaction::Write(0x58, Command::GetFeatureSet.as_bytes().to_vec()),
        Transaction::ReadError(0x58),
    ];
    let mock = I2cMock::new(&expectations);
    let mut sgp = Sgp30::new(mock, 0x58, DelayMock);
    assert!(matches!(
        sgp.get_feature_set(),
        Err(Error::I2c(MockBusError))
    ));
    sgp.destroy().done();
}

/// A checksum mismatch in a measurement response surfaces as
/// `Error::Crc` and leaves the initialization state intact.
#[test]
fn measure_crc_error() {
    let expectations = [
        Transaction::Write(0x58, Command::InitAirQuality.as_bytes().to_vec()),
        Transaction::Write(0x58, Command::MeasureAirQuality.as_bytes().to_vec()),
        Transaction::Read(0x58, vec![0x12, 0x34, 0x00, 0xD4, 0x02, 0xA4]),
        Transaction::Write(0x58, Command::MeasureAirQuality.as_bytes().to_vec()),
        Transaction::Read(0x58, vec![0x12, 0x34, 0x37, 0xD4, 0x02, 0xA4]),
    ];
    let mock = I2cMock::new(&expectations);
    let mut sgp = Sgp30::new(mock, 0x58, DelayMock);
    sgp.init().unwrap();
    assert!(matches!(sgp.measure(), Err(Error::Crc)));
    // Still initialized: the next measurement proceeds.
    let measurement = sgp.measure().unwrap();
    assert_eq!(measurement.co2eq_ppm, 4_660);
    sgp.destroy().done();
}

/// An unknown product type code in the feature set response is reported
/// with its 4-bit code.
#[test]
fn get_feature_set_unknown_product() {
    let response_data = [0x13, 0x07];
    let checksum = crc8(&response_data);
    let expectations = [
        Transaction::Write(0x58, Command::GetFeatureSet.as_bytes().to_vec()),
        Transaction::Read(0x58, vec![response_data[0], response_data[1], checksum]),
    ];
    let mock = I2cMock::new(&expectations);
    let mut sgp = Sgp30::new(mock, 0x58, DelayMock);
    let feature_set = sgp.get_feature_set().unwrap();
    assert_eq!(feature_set.product_type, ProductType::Unknown(1));
    assert_eq!(feature_set.product_version, 0x07);
    sgp.destroy().done();
}
