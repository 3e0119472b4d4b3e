//! The driver state machine: the public handle that sequences
//! "send command → wait → read/decode", tracks the initialization state,
//! and rejects measurement-class operations before initialization.

use vstd::prelude::*;

use crate::checksum::crc8;
use crate::checksum::crc8_spec;
use crate::checksum::frames_valid;
use crate::checksum::group_valid;
use crate::command::Command;
use crate::command::command_bytes;
use crate::transport::BusOp;
use crate::transport::DelayTimer;
use crate::transport::I2cTransport;
use crate::types::Baseline;
use crate::types::FeatureSet;
use crate::types::Humidity;
use crate::types::Measurement;
use crate::types::RawSignals;
use crate::types::baseline_bytes;
use crate::types::baseline_from;
use crate::types::feature_set_from;
use crate::types::measurement_from;
use crate::types::raw_signals_from;

verus! {

/// All possible errors in this crate.
#[derive(Debug)]
pub enum Error<E> {
    /// I²C bus error
    I2c(E),
    /// CRC checksum validation failed
    Crc,
    /// User tried to measure the air quality without starting the
    /// initialization phase.
    NotInitialized,
}

/// A settle time: the fixed minimum wait after a command before its
/// result is valid, given in the unit the timing source is driven with.
enum SettleTime {
    /// A wait in microseconds.
    Us(u16),
    /// A wait in milliseconds.
    Ms(u16),
}

/// A settle time in microseconds, as it appears in the timing source's
/// history of waits.
spec fn settle_us(wait: SettleTime) -> nat {
    match wait {
        SettleTime::Us(us) => us as nat,
        SettleTime::Ms(ms) => (ms as nat) * 1000,
    }
}

/// The two data bytes that carry a humidity setting on the wire: the
/// value's fixed-point bytes, or zero to restore the default compensation.
pub open spec fn humidity_wire_bytes(humidity: Option<&Humidity>) -> Seq<u8> {
    match humidity {
        Some(h) => h.spec_bytes(),
        None => seq![0u8, 0u8],
    }
}

/// The outgoing buffer of a command that carries data words: the 2-byte
/// command code, followed by each 2-byte data word and its checksum byte.
pub open spec fn framed_payload(command: Command, data: Seq<u8>) -> Seq<u8>
    recommends
        data.len() == 2 || data.len() == 4,
{
    if data.len() <= 2 {
        command_bytes(command) + seq![data[0], data[1], crc8_spec(seq![data[0], data[1]])]
    } else {
        command_bytes(command) + seq![data[0], data[1], crc8_spec(seq![data[0], data[1]])]
            + seq![data[2], data[3], crc8_spec(seq![data[2], data[3]])]
    }
}

/// Driver for the SGP30. It exclusively owns the bus transport and the
/// timing source, plus the one persistent bit of state: whether the air
/// quality measurement was initialized.
#[derive(Debug)]
pub struct Sgp30<I2C, D> {
    /// The concrete I²C transport implementation.
    pub i2c: I2C,
    /// The I²C device address.
    pub address: u8,
    /// The concrete timing source implementation.
    pub delay: D,
    /// Whether the air quality measurement was initialized.
    pub initialized: bool,
}

impl<I2C: I2cTransport, D: DelayTimer> Sgp30<I2C, D> {
    /// The bus and the timing source performed nothing between the two
    /// driver states.
    pub open spec fn quiescent(self, pre: Self) -> bool {
        self.i2c.ops() == pre.i2c.ops() && self.delay.waits() == pre.delay.waits()
    }

    /// Exactly one buffer was written to the sensor, followed by the
    /// operation's settle wait of `wait_us` microseconds.
    pub open spec fn wrote_and_waited(self, pre: Self, payload: Seq<u8>, wait_us: nat) -> bool {
        self.i2c.ops() == pre.i2c.ops().push(
            BusOp::Write { address: pre.address, bytes: payload },
        ) && self.delay.waits() == pre.delay.waits().push(wait_us)
    }

    /// A full exchange: the command buffer was written, the settle wait of
    /// `wait_us` microseconds performed, and `response` read back.
    pub open spec fn exchanged(
        self,
        pre: Self,
        payload: Seq<u8>,
        wait_us: nat,
        response: Seq<u8>,
    ) -> bool {
        self.i2c.ops() == pre.i2c.ops().push(
            BusOp::Write { address: pre.address, bytes: payload },
        ).push(BusOp::Read { address: pre.address, bytes: response })
            && self.delay.waits() == pre.delay.waits().push(wait_us)
    }

    /// Create a new instance of the SGP30 driver.
    pub fn new(i2c: I2C, address: u8, delay: D) -> (sgp: Self)
        ensures
            sgp.i2c == i2c,
            sgp.address == address,
            sgp.delay == delay,
            !sgp.initialized,
    {
        Sgp30 { i2c, address, delay, initialized: false }
    }

    /// Destroy driver instance, return I²C bus instance.
    pub fn destroy(self) -> (i2c: I2C)
        ensures
            i2c == self.i2c,
    {
        self.i2c
    }

    /// Write an I²C command to the sensor.
    fn send_command(&mut self, command: Command) -> (result: Result<(), Error<I2C::BusError>>)
        ensures
            final(self).address == old(self).address,
            final(self).initialized == old(self).initialized,
            final(self).delay == old(self).delay,
            match result {
                Ok(()) => final(self).i2c.ops() == old(self).i2c.ops().push(
                    BusOp::Write { address: old(self).address, bytes: command_bytes(command) },
                ),
                Err(e) => e is I2c && final(self).i2c.ops() == old(self).i2c.ops(),
            },
    {
        let code = command.as_bytes();
        match self.i2c.write(self.address, code.as_slice()) {
            Ok(()) => Ok(()),
            Err(e) => Err(Error::I2c(e)),
        }
    }

    /// Write an I²C command and data words to the sensor.
    ///
    /// The data slice must have a length of 2 or 4; a checksum byte is
    /// framed after each 2-byte word.
    fn send_command_and_data(&mut self, command: Command, data: &[u8]) -> (result: Result<
        (),
        Error<I2C::BusError>,
    >)
        requires
            data@.len() == 2 || data@.len() == 4,
        ensures
            final(self).address == old(self).address,
            final(self).initialized == old(self).initialized,
            final(self).delay == old(self).delay,
            match result {
                Ok(()) => final(self).i2c.ops() == old(self).i2c.ops().push(
                    BusOp::Write {
                        address: old(self).address,
                        bytes: framed_payload(command, data@),
                    },
                ),
                Err(e) => e is I2c && final(self).i2c.ops() == old(self).i2c.ops(),
            },
    {
        let code = command.as_bytes();
        let mut payload: Vec<u8> = Vec::new();
        payload.push(code[0]);
        payload.push(code[1]);
        payload.push(data[0]);
        payload.push(data[1]);
        let first: [u8; 2] = [data[0], data[1]];
        payload.push(crc8(first.as_slice()));
        proof {
            assert(first@ =~= seq![data@[0], data@[1]]);
        }
        if data.len() > 2 {
            payload.push(data[2]);
            payload.push(data[3]);
            let second: [u8; 2] = [data[2], data[3]];
            payload.push(crc8(second.as_slice()));
            proof {
                assert(second@ =~= seq![data@[2], data@[3]]);
                assert(payload@ =~= framed_payload(command, data@));
            }
        } else {
            proof {
                assert(payload@ =~= framed_payload(command, data@));
            }
        }
        match self.i2c.write(self.address, payload.as_slice()) {
            Ok(()) => Ok(()),
            Err(e) => Err(Error::I2c(e)),
        }
    }

    /// Iterate over the provided buffer and validate the CRC8 checksums.
    ///
    /// Every third byte is taken as the checksum of the two data bytes
    /// before it. A trailing partial group, where the buffer size is not
    /// a multiple of 3, is left unvalidated.
    pub fn validate_crc(&self, buf: &[u8]) -> (result: Result<(), Error<I2C::BusError>>)
        ensures
            match result {
                Ok(()) => frames_valid(buf@),
                Err(e) => e is Crc && !frames_valid(buf@),
            },
    {
        let mut i: usize = 0;
        while buf.len() - i > 2
            invariant
                i <= buf@.len(),
                i % 3 == 0,
                forall|k: int| 0 <= k && 3 * k + 2 < i ==> #[trigger] group_valid(buf@, k),
            decreases buf@.len() - i,
        {
            let pair: [u8; 2] = [buf[i], buf[i + 1]];
            if crc8(pair.as_slice()) != buf[i + 2] {
                proof {
                    let bad = (i as int) / 3;
                    assert(3 * bad == i);
                    assert(pair@ =~= seq![buf@[3 * bad], buf@[3 * bad + 1]]);
                    assert(!group_valid(buf@, bad));
                }
                return Err(Error::Crc);
            }
            proof {
                let good = (i as int) / 3;
                assert(3 * good == i);
                assert(pair@ =~= seq![buf@[3 * good], buf@[3 * good + 1]]);
                assert(group_valid(buf@, good));
                assert forall|k: int| 0 <= k && 3 * k + 2 < i + 3 implies #[trigger] group_valid(buf@, k) by {
                    if k < good {
                        assert(3 * k + 2 < i);
                    } else {
                        assert(k == good);
                    }
                }
            }
            i = i + 3;
        }
        proof {
            assert forall|k: int| 0 <= k && 3 * k + 2 < buf@.len() implies #[trigger] group_valid(buf@, k) by {
                assert(3 * k + 2 < i + 3);
                assert(3 * (k - (i as int) / 3) < 3);
                assert(3 * k + 2 < i);
            }
        }
        Ok(())
    }

    /// Read data into the provided buffer and validate the CRC8 checksums,
    /// as `validate_crc` does.
    pub fn read_with_crc(&mut self, buf: &mut Vec<u8>) -> (result: Result<
        (),
        Error<I2C::BusError>,
    >)
        ensures
            final(self).address == old(self).address,
            final(self).initialized == old(self).initialized,
            final(self).delay == old(self).delay,
            final(buf)@.len() == old(buf)@.len(),
            match result {
                Ok(()) => frames_valid(final(buf)@) && final(self).i2c.ops() == old(self).i2c.ops().push(
                    BusOp::Read { address: old(self).address, bytes: final(buf)@ },
                ),
                Err(e) => match e {
                    Error::I2c(_) => final(buf)@ == old(buf)@ && final(self).i2c.ops() == old(self).i2c.ops(),
                    Error::Crc => !frames_valid(final(buf)@) && final(self).i2c.ops() == old(self).i2c.ops().push(
                        BusOp::Read { address: old(self).address, bytes: final(buf)@ },
                    ),
                    Error::NotInitialized => false,
                },
            },
    {
        match self.i2c.read(self.address, buf) {
            Ok(()) => (),
            Err(e) => {
                return Err(Error::I2c(e));
            },
        }
        self.validate_crc(buf.as_slice())
    }

    /// The shared execution path of every read operation: send the
    /// command, block for its settle time, then read and validate the
    /// fixed-size response.
    fn run_command(&mut self, command: Command, wait: SettleTime, response_len: usize) -> (result:
        Result<Vec<u8>, Error<I2C::BusError>>)
        ensures
            final(self).address == old(self).address,
            final(self).initialized == old(self).initialized,
            match result {
                Ok(response) => response@.len() == response_len && frames_valid(response@)
                    && final(self).exchanged(
                    *old(self),
                    command_bytes(command),
                    settle_us(wait),
                    response@,
                ),
                Err(e) => match e {
                    Error::I2c(_) => final(self).quiescent(*old(self)) || final(self).wrote_and_waited(*old(self), command_bytes(command), settle_us(wait)),
                    Error::Crc => exists|response: Seq<u8>|
                        #[trigger] final(self).exchanged(
                            *old(self),
                            command_bytes(command),
                            settle_us(wait),
                            response,
                        ) && response.len() == response_len && !frames_valid(response),
                    Error::NotInitialized => false,
                },
            },
    {
        self.send_command(command)?;
        match wait {
            SettleTime::Us(us) => self.delay.delay_us(us),
            SettleTime::Ms(ms) => self.delay.delay_ms(ms),
        }
        let mut buf = zero_buffer(response_len);
        match self.read_with_crc(&mut buf) {
            Ok(()) => (),
            Err(e) => {
                proof {
                    if e is Crc {
                        assert((*self).exchanged(
                            *old(self),
                            command_bytes(command),
                            settle_us(wait),
                            buf@,
                        ));
                    }
                }
                return Err(e);
            },
        }
        Ok(buf)
    }

    /// Return the 48 bit serial number of the SGP30.
    pub fn serial(&mut self) -> (result: Result<[u8; 6], Error<I2C::BusError>>)
        ensures
            final(self).address == old(self).address,
            final(self).initialized == old(self).initialized,
            match result {
                Ok(serial) => exists|response: Seq<u8>|
                    #[trigger] final(self).exchanged(
                        *old(self),
                        command_bytes(Command::GetSerial),
                        500,
                        response,
                    ) && response.len() == 9 && frames_valid(response) && serial@ == seq![
                        response[0],
                        response[1],
                        response[3],
                        response[4],
                        response[6],
                        response[7],
                    ],
                Err(e) => match e {
                    Error::I2c(_) => final(self).quiescent(*old(self)) || final(self).wrote_and_waited(*old(self), command_bytes(Command::GetSerial), 500),
                    Error::Crc => exists|response: Seq<u8>|
                        #[trigger] final(self).exchanged(
                            *old(self),
                            command_bytes(Command::GetSerial),
                            500,
                            response,
                        ) && response.len() == 9 && !frames_valid(response),
                    Error::NotInitialized => false,
                },
            },
    {
        // Recommended wait time according to the datasheet
        let buf = self.run_command(Command::GetSerial, SettleTime::Us(500), 9)?;
        let serial: [u8; 6] = [buf[0], buf[1], buf[3], buf[4], buf[6], buf[7]];
        proof {
            assert(serial@ =~= seq![buf@[0], buf@[1], buf@[3], buf@[4], buf@[6], buf@[7]]);
        }
        Ok(serial)
    }

    /// Run an on-chip self-test. Return a boolean indicating whether the
    /// test succeeded: the sensor answers with the fixed pattern
    /// `[0xD4, 0x00]` exactly when it passed.
    pub fn selftest(&mut self) -> (result: Result<bool, Error<I2C::BusError>>)
        ensures
            final(self).address == old(self).address,
            final(self).initialized == old(self).initialized,
            match result {
                Ok(passed) => exists|response: Seq<u8>|
                    #[trigger] final(self).exchanged(
                        *old(self),
                        command_bytes(Command::SelfTest),
                        220000,
                        response,
                    ) && response.len() == 3 && frames_valid(response) && passed == (response[0]
                        == 0xd4 && response[1] == 0x00),
                Err(e) => match e {
                    Error::I2c(_) => final(self).quiescent(*old(self)) || final(self).wrote_and_waited(*old(self), command_bytes(Command::SelfTest), 220000),
                    Error::Crc => exists|response: Seq<u8>|
                        #[trigger] final(self).exchanged(
                            *old(self),
                            command_bytes(Command::SelfTest),
                            220000,
                            response,
                        ) && response.len() == 3 && !frames_valid(response),
                    Error::NotInitialized => false,
                },
            },
    {
        // Max duration according to the datasheet
        let buf = self.run_command(Command::SelfTest, SettleTime::Ms(220), 3)?;
        Ok(buf[0] == 0xd4 && buf[1] == 0x00)
    }

    /// Initialize the air quality measurement.
    ///
    /// A no-op when the driver is already initialized; otherwise exactly
    /// [`force_init`](Self::force_init). After initializing, `measure()`
    /// must be called in regular intervals of 1 s for the dynamic baseline
    /// compensation algorithm to operate properly; a new init command has
    /// to be sent after every power-up or soft reset.
    pub fn init(&mut self) -> (result: Result<(), Error<I2C::BusError>>)
        ensures
            final(self).address == old(self).address,
            old(self).initialized ==> (result matches Ok(()) && *final(self) == *old(self)),
            !old(self).initialized ==> match result {
                Ok(()) => final(self).initialized && final(self).wrote_and_waited(
                    *old(self),
                    command_bytes(Command::InitAirQuality),
                    10000,
                ),
                Err(e) => e is I2c && !final(self).initialized && final(self).quiescent(
                    *old(self),
                ),
            },
    {
        if self.initialized {
            // Already initialized
            return Ok(());
        }
        self.force_init()
    }

    /// Like [`init`](Self::init), but without checking whether the sensor
    /// is already initialized.
    ///
    /// This might be necessary after a sensor soft or hard reset.
    pub fn force_init(&mut self) -> (result: Result<(), Error<I2C::BusError>>)
        ensures
            final(self).address == old(self).address,
            match result {
                Ok(()) => final(self).initialized && final(self).wrote_and_waited(
                    *old(self),
                    command_bytes(Command::InitAirQuality),
                    10000,
                ),
                Err(e) => e is I2c && final(self).initialized == old(self).initialized && final(self).quiescent(*old(self)),
            },
    {
        // Send command to sensor
        self.send_command(Command::InitAirQuality)?;

        // Max duration according to the datasheet
        self.delay.delay_ms(10);

        self.initialized = true;
        Ok(())
    }

    /// Get an air quality measurement.
    ///
    /// Before calling this method, the air quality measurements must have
    /// been initialized using [`init`](Self::init); otherwise
    /// [`Error::NotInitialized`] is returned and no bus activity takes
    /// place.
    pub fn measure(&mut self) -> (result: Result<Measurement, Error<I2C::BusError>>)
        ensures
            final(self).address == old(self).address,
            final(self).initialized == old(self).initialized,
            !old(self).initialized ==> (result matches Err(Error::NotInitialized) && *final(self)
                == *old(self)),
            old(self).initialized ==> match result {
                Ok(measurement) => exists|response: Seq<u8>|
                    #[trigger] final(self).exchanged(
                        *old(self),
                        command_bytes(Command::MeasureAirQuality),
                        12000,
                        response,
                    ) && response.len() == 6 && frames_valid(response) && measurement
                        == measurement_from(response),
                Err(e) => match e {
                    Error::I2c(_) => final(self).quiescent(*old(self)) || final(self).wrote_and_waited(
                        *old(self),
                        command_bytes(Command::MeasureAirQuality),
                        12000,
                    ),
                    Error::Crc => exists|response: Seq<u8>|
                        #[trigger] final(self).exchanged(
                            *old(self),
                            command_bytes(Command::MeasureAirQuality),
                            12000,
                            response,
                        ) && response.len() == 6 && !frames_valid(response),
                    Error::NotInitialized => false,
                },
            },
    {
        if !self.initialized {
            // Measurements weren't initialized
            return Err(Error::NotInitialized);
        }

        // Max duration according to the datasheet
        let buf = self.run_command(Command::MeasureAirQuality, SettleTime::Ms(12), 6)?;
        let co2eq_ppm: u16 = (buf[0] as u16) * 256 + (buf[1] as u16);
        let tvoc_ppb: u16 = (buf[3] as u16) * 256 + (buf[4] as u16);
        Ok(Measurement { co2eq_ppm, tvoc_ppb })
    }

    /// Return sensor raw signals.
    ///
    /// This command is intended for part verification and testing
    /// purposes. It returns the raw H2 and Ethanol signals used as inputs
    /// for the on-chip calibration and baseline compensation algorithm.
    /// Requires initialization, as `measure` does.
    pub fn measure_raw_signals(&mut self) -> (result: Result<RawSignals, Error<I2C::BusError>>)
        ensures
            final(self).address == old(self).address,
            final(self).initialized == old(self).initialized,
            !old(self).initialized ==> (result matches Err(Error::NotInitialized) && *final(self)
                == *old(self)),
            old(self).initialized ==> match result {
                Ok(signals) => exists|response: Seq<u8>|
                    #[trigger] final(self).exchanged(
                        *old(self),
                        command_bytes(Command::MeasureRawSignals),
                        25000,
                        response,
                    ) && response.len() == 6 && frames_valid(response) && signals
                        == raw_signals_from(response),
                Err(e) => match e {
                    Error::I2c(_) => final(self).quiescent(*old(self)) || final(self).wrote_and_waited(
                        *old(self),
                        command_bytes(Command::MeasureRawSignals),
                        25000,
                    ),
                    Error::Crc => exists|response: Seq<u8>|
                        #[trigger] final(self).exchanged(
                            *old(self),
                            command_bytes(Command::MeasureRawSignals),
                            25000,
                            response,
                        ) && response.len() == 6 && !frames_valid(response),
                    Error::NotInitialized => false,
                },
            },
    {
        if !self.initialized {
            // Measurements weren't initialized
            return Err(Error::NotInitialized);
        }

        // Max duration according to the datasheet
        let buf = self.run_command(Command::MeasureRawSignals, SettleTime::Ms(25), 6)?;
        let h2: u16 = (buf[0] as u16) * 256 + (buf[1] as u16);
        let ethanol: u16 = (buf[3] as u16) * 256 + (buf[4] as u16);
        Ok(RawSignals { h2, ethanol })
    }

    /// Return the baseline values of the baseline correction algorithm.
    ///
    /// The returned pair can be stored on external memory and restored
    /// after a power-up or soft reset by calling [`init`](Self::init)
    /// followed by [`set_baseline`](Self::set_baseline).
    pub fn get_baseline(&mut self) -> (result: Result<Baseline, Error<I2C::BusError>>)
        ensures
            final(self).address == old(self).address,
            final(self).initialized == old(self).initialized,
            match result {
                Ok(baseline) => exists|response: Seq<u8>|
                    #[trigger] final(self).exchanged(
                        *old(self),
                        command_bytes(Command::GetBaseline),
                        10000,
                        response,
                    ) && response.len() == 6 && frames_valid(response) && baseline
                        == baseline_from(response),
                Err(e) => match e {
                    Error::I2c(_) => final(self).quiescent(*old(self)) || final(self).wrote_and_waited(*old(self), command_bytes(Command::GetBaseline), 10000),
                    Error::Crc => exists|response: Seq<u8>|
                        #[trigger] final(self).exchanged(
                            *old(self),
                            command_bytes(Command::GetBaseline),
                            10000,
                            response,
                        ) && response.len() == 6 && !frames_valid(response),
                    Error::NotInitialized => false,
                },
            },
    {
        // Max duration according to the datasheet
        let buf = self.run_command(Command::GetBaseline, SettleTime::Ms(10), 6)?;
        let co2eq: u16 = (buf[0] as u16) * 256 + (buf[1] as u16);
        let tvoc: u16 = (buf[3] as u16) * 256 + (buf[4] as u16);
        Ok(Baseline { co2eq, tvoc })
    }

    /// Set the baseline values for the baseline correction algorithm.
    ///
    /// Requires initialization; otherwise [`Error::NotInitialized`] is
    /// returned and no bus activity takes place.
    pub fn set_baseline(&mut self, baseline: &Baseline) -> (result: Result<
        (),
        Error<I2C::BusError>,
    >)
        ensures
            final(self).address == old(self).address,
            final(self).initialized == old(self).initialized,
            !old(self).initialized ==> (result matches Err(Error::NotInitialized) && *final(self)
                == *old(self)),
            old(self).initialized ==> match result {
                Ok(()) => final(self).wrote_and_waited(
                    *old(self),
                    framed_payload(Command::SetBaseline, baseline_bytes(*baseline)),
                    10000,
                ),
                Err(e) => e is I2c && final(self).quiescent(*old(self)),
            },
    {
        if !self.initialized {
            // Measurements weren't initialized
            return Err(Error::NotInitialized);
        }

        // Send command and data to sensor, both values big-endian
        let data: [u8; 4] = [
            (baseline.co2eq / 256) as u8,
            (baseline.co2eq % 256) as u8,
            (baseline.tvoc / 256) as u8,
            (baseline.tvoc % 256) as u8,
        ];
        proof {
            assert(data@ =~= baseline_bytes(*baseline));
        }
        self.send_command_and_data(Command::SetBaseline, data.as_slice())?;

        // Max duration according to the datasheet
        self.delay.delay_ms(10);

        Ok(())
    }

    /// Set the humidity value for the on-chip humidity compensation.
    ///
    /// The value is used by the compensation algorithm until a new one is
    /// set; passing `None` (or restarting the sensor) restores the default
    /// compensation value. Requires initialization; otherwise
    /// [`Error::NotInitialized`] is returned and no bus activity takes
    /// place.
    pub fn set_humidity(&mut self, humidity: Option<&Humidity>) -> (result: Result<
        (),
        Error<I2C::BusError>,
    >)
        ensures
            final(self).address == old(self).address,
            final(self).initialized == old(self).initialized,
            !old(self).initialized ==> (result matches Err(Error::NotInitialized) && *final(self)
                == *old(self)),
            old(self).initialized ==> match result {
                Ok(()) => final(self).wrote_and_waited(
                    *old(self),
                    framed_payload(Command::SetHumidity, humidity_wire_bytes(humidity)),
                    10000,
                ),
                Err(e) => e is I2c && final(self).quiescent(*old(self)),
            },
    {
        if !self.initialized {
            // Measurements weren't initialized
            return Err(Error::NotInitialized);
        }

        // Send command and data to sensor
        let data: [u8; 2] = match humidity {
            Some(humi) => humi.as_bytes(),
            None => [0, 0],
        };
        proof {
            assert(data@ =~= humidity_wire_bytes(humidity));
        }
        self.send_command_and_data(Command::SetHumidity, data.as_slice())?;

        // Max duration according to the datasheet
        self.delay.delay_ms(10);

        Ok(())
    }

    /// Get the feature set: the product type and the version number of the
    /// available set of measurement commands and on-chip algorithms.
    pub fn get_feature_set(&mut self) -> (result: Result<FeatureSet, Error<I2C::BusError>>)
        ensures
            final(self).address == old(self).address,
            final(self).initialized == old(self).initialized,
            match result {
                Ok(feature_set) => exists|response: Seq<u8>|
                    #[trigger] final(self).exchanged(
                        *old(self),
                        command_bytes(Command::GetFeatureSet),
                        2000,
                        response,
                    ) && response.len() == 3 && frames_valid(response) && feature_set
                        == feature_set_from(response[0], response[1]),
                Err(e) => match e {
                    Error::I2c(_) => final(self).quiescent(*old(self)) || final(self).wrote_and_waited(*old(self), command_bytes(Command::GetFeatureSet), 2000),
                    Error::Crc => exists|response: Seq<u8>|
                        #[trigger] final(self).exchanged(
                            *old(self),
                            command_bytes(Command::GetFeatureSet),
                            2000,
                            response,
                        ) && response.len() == 3 && !frames_valid(response),
                    Error::NotInitialized => false,
                },
            },
    {
        // Max duration according to the datasheet
        let buf = self.run_command(Command::GetFeatureSet, SettleTime::Ms(2), 3)?;
        Ok(FeatureSet::parse(buf[0], buf[1]))
    }
}

/// A zero-filled buffer of the given length, ready to receive a
/// fixed-size response.
fn zero_buffer(len: usize) -> (buf: Vec<u8>)
    ensures
        buf@.len() == len,
{
    let mut buf: Vec<u8> = Vec::new();
    while buf.len() < len
        invariant
            buf@.len() <= len,
        decreases len - buf@.len(),
    {
        buf.push(0);
    }
    buf
}

} // verus!
