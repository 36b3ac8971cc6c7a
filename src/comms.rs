//! Decoding of the temperature register word, and the driver handle.
//!
//! Refer to the datasheet: <https://www.ti.com/lit/ds/symlink/tmp121.pdf>
use vstd::prelude::*;

use crate::error::Error;

verus! {

/// LED current level indication of the OSENSA FTX 101 sensor.
///
/// The FTX 101 reports it through bits D1 and D0 of the temperature data
/// packet.
#[derive(Debug, Clone, Copy, PartialEq, Eq, Structural)]
pub enum LedCurrentLevel {
    /// LED current under 500 (0b00)
    Under500,
    /// LED current is greater than or equal to 500 but less than 1000 (0b01)
    Range500To1000,
    /// LED current is greater than or equal to 1000 but less than 2000 (0b10)
    Range1000To2000,
    /// LED current is greater than or equal to 2000 (0b11)
    Over2000,
    /// Unknown LED current level (does not occur with valid data)
    Unknown,
}

/// Temperature reading with diagnostics from the OSENSA FTX 101 sensor.
#[derive(Debug, Clone, Copy, PartialEq, Eq, Structural)]
pub struct OsensaReading {
    /// Temperature measurement, in sixteenths of a degree Celsius
    pub temperature: i16,
    /// LED current level indicator
    pub led_current: LedCurrentLevel,
}

/// Word that the FTX 101 returns when no probe is detected.
pub const NO_PROBE_WORD: u16 = 0x0000;

/// Word that the FTX 101 returns on a device error: the top of the
/// temperature range, read as a TMP121 word.
pub const DEVICE_ERROR_WORD: u16 = 0x7FF8;

/// The register word that the two bytes `hi`, `lo` form, most significant
/// byte first.
pub open spec fn word_of(hi: u8, lo: u8) -> int {
    hi as int * 256 + lo as int
}

/// The temperature that a register word `w` holds, in sixteenths of a
/// degree Celsius: bits 15..3 read as a 13-bit two's-complement number.
/// Bits 2..0 take no part.
pub open spec fn plain_temperature(w: int) -> int {
    let field = w / 8;
    if field >= 4096 {
        field - 8192
    } else {
        field
    }
}

/// Reads two bytes as a big-endian 16-bit word.
fn be_word(words: &[u8; 2]) -> (w: u16)
    ensures
        w as int == word_of(words@[0], words@[1]),
{
    (words[0] as u16) * 256 + (words[1] as u16)
}

/// Converts a temperature register word of the TMP121/TMP123, as read from
/// the bus, to a temperature in sixteenths of a degree Celsius.
///
/// The Temperature Register is a 16-bit, signed read-only register that
/// stores the output of the most recent conversion. The first 13 bits
/// indicate the temperature; D2 is 0 and D1, D0 are in a high-impedance
/// state. After power-up or reset the register reads 0 °C until the first
/// conversion is complete, so an all-zero word decodes to 0.
pub fn convert_words(words: &[u8; 2]) -> (t: i16)
    ensures
        t as int == plain_temperature(word_of(words@[0], words@[1])),
        -4096 <= t <= 4095,
{
    let all_bits = be_word(words);
    // Bits 14..3: the twelve bits of the magnitude field, below the sign.
    let magnitude: u16 = (all_bits & 0x7FFF) >> 3;
    let is_negative = (all_bits & 0x8000) != 0;
    proof {
        assert((all_bits & 0x7FFF) >> 3 == (all_bits / 8) % 4096) by (bit_vector);
        assert(((all_bits & 0x8000) != 0) == (all_bits >= 0x8000)) by (bit_vector);
        assert((all_bits & 0x7FFF) >> 3 <= 4095) by (bit_vector);
    }
    if is_negative {
        // Sign extension of the 13-bit field: it stands for field - 8192.
        magnitude as i16 - 4096
    } else {
        magnitude as i16
    }
}

/// The LED current band that the two-bit code `code` (bits D1, D0) selects.
pub open spec fn led_level_of(code: int) -> LedCurrentLevel {
    if code == 0 {
        LedCurrentLevel::Under500
    } else if code == 1 {
        LedCurrentLevel::Range500To1000
    } else if code == 2 {
        LedCurrentLevel::Range1000To2000
    } else if code == 3 {
        LedCurrentLevel::Over2000
    } else {
        LedCurrentLevel::Unknown
    }
}

/// Whether the confirmation bit (D2) of the word `w` is set.
pub open spec fn confirmed(w: int) -> bool {
    (w / 4) % 2 == 1
}

/// What the FTX 101 word `w` stands for: the first of these that applies
/// decides. An all-zero word means that no probe is detected; 0x7FF8 is a
/// device error; a clear confirmation bit is an invalid measurement; any
/// other word holds a temperature, read as the TMP121 reads it, and the LED
/// current band of bits D1, D0.
pub open spec fn osensa_result<E>(w: int) -> Result<(i16, LedCurrentLevel), Error<E>> {
    if w == NO_PROBE_WORD {
        Err(Error::NoProbe)
    } else if w == DEVICE_ERROR_WORD {
        Err(Error::DeviceError)
    } else if !confirmed(w) {
        Err(Error::InvalidMeasurement)
    } else {
        Ok((plain_temperature(w) as i16, led_level_of(w % 4)))
    }
}

/// Decodes a temperature data packet of the OSENSA FTX 101.
///
/// The FTX 101 uses the temperature format of the TMP123, with more bits:
/// D2 is the confirmation bit (high when the measurement is valid), and D1,
/// D0 give the LED current level. Two words carry a fault instead of a
/// temperature: 0x0000 (no probe) and 0x7FF8 (device error).
pub fn convert_words_osensa<E>(words: &[u8; 2]) -> (r: Result<(i16, LedCurrentLevel), Error<E>>)
    ensures
        r == osensa_result::<E>(word_of(words@[0], words@[1])),
{
    let all_bits = be_word(words);
    if all_bits == NO_PROBE_WORD {
        return Err(Error::NoProbe);
    }
    if all_bits == DEVICE_ERROR_WORD {
        return Err(Error::DeviceError);
    }
    proof {
        assert(((all_bits & 0x0004) != 0) == ((all_bits / 4) % 2 == 1)) by (bit_vector);
        assert(all_bits & 0x0003 == all_bits % 4) by (bit_vector);
    }
    if (all_bits & 0x0004) == 0 {
        return Err(Error::InvalidMeasurement);
    }
    let led_bits = (all_bits & 0x0003) as u8;
    let led_current = match led_bits {
        0 => LedCurrentLevel::Under500,
        1 => LedCurrentLevel::Range500To1000,
        2 => LedCurrentLevel::Range1000To2000,
        3 => LedCurrentLevel::Over2000,
        _ => LedCurrentLevel::Unknown,
    };
    let temperature = convert_words(words);
    Ok((temperature, led_current))
}

/// Decoding a TMP121/TMP123 word is total and deterministic: equal words
/// give equal temperatures, and every word gives one within the sensor's
/// range, -256 °C to +255.9375 °C.
pub proof fn lemma_plain_decode_deterministic(a: [u8; 2], b: [u8; 2])
    requires
        a@ == b@,
    ensures
        plain_temperature(word_of(a@[0], a@[1])) == plain_temperature(word_of(b@[0], b@[1])),
        -4096 <= plain_temperature(word_of(a@[0], a@[1])) <= 4095,
{
}

/// Whenever the FTX 101 decode of a word succeeds, its temperature is the
/// TMP121/TMP123 decode of the same word.
pub proof fn lemma_osensa_temperature_is_plain<E>(words: [u8; 2])
    ensures
        osensa_result::<E>(word_of(words@[0], words@[1])) is Ok ==> osensa_result::<E>(
            word_of(words@[0], words@[1]),
        )->Ok_0.0 as int == plain_temperature(word_of(words@[0], words@[1])),
{
}

/// The three low bits of a word (the FTX 101's confirmation bit and LED
/// current code) never change the temperature that it decodes to.
pub proof fn lemma_status_bits_leave_temperature(words: [u8; 2])
    ensures
        plain_temperature(word_of(words@[0], words@[1])) == plain_temperature(
            word_of(words@[0], (words@[1] - words@[1] % 8) as u8),
        ),
{
}

/// How a driver handle reads the register word: chosen once, when the
/// handle is built.
#[derive(Debug, Clone, Copy, PartialEq, Eq, Structural)]
pub enum DecodeMode {
    /// TMP121/TMP123: every word is a temperature.
    Plain,
    /// OSENSA FTX 101: the word is validated, and faults are reported.
    Osensa,
}

/// What `get_reading` yields for the outcome `transfer` of the bus read, on
/// a handle built with `mode`. A failed transfer is passed on as
/// `Error::Spi` and nothing is decoded; in the FTX 101 mode the LED current
/// level is dropped.
pub open spec fn reading_result<E>(mode: DecodeMode, transfer: Result<[u8; 2], E>) -> Result<
    i16,
    Error<E>,
> {
    match transfer {
        Err(e) => Err(Error::Spi(e)),
        Ok(words) => {
            let w = word_of(words@[0], words@[1]);
            match mode {
                DecodeMode::Plain => Ok(plain_temperature(w) as i16),
                DecodeMode::Osensa => match osensa_result::<E>(w) {
                    Ok((t, _)) => Ok(t),
                    Err(e) => Err(e),
                },
            }
        },
    }
}

/// What `get_osensa_reading` yields for the outcome `transfer` of the bus
/// read. A failed transfer is passed on as `Error::Spi` and nothing is
/// decoded.
pub open spec fn osensa_reading_result<E>(transfer: Result<[u8; 2], E>) -> Result<
    OsensaReading,
    Error<E>,
> {
    match transfer {
        Err(e) => Err(Error::Spi(e)),
        Ok(words) => match osensa_result::<E>(word_of(words@[0], words@[1])) {
            Ok((t, led)) => Ok(OsensaReading { temperature: t, led_current: led }),
            Err(e) => Err(e),
        },
    }
}

/// Driver handle: owns the SPI device for its whole lifetime.
///
/// The bus transaction itself (one read of two bytes) is made by the caller
/// on `device_mut()`; the handle turns its outcome into a reading.
pub struct Tmp12x<SPI> {
    spi: SPI,
    mode: DecodeMode,
}

impl<SPI> Tmp12x<SPI> {
    /// The SPI device that the handle owns.
    pub closed spec fn device(&self) -> SPI {
        self.spi
    }

    /// How the handle reads the register word.
    pub closed spec fn decode_mode(&self) -> DecodeMode {
        self.mode
    }

    /// A handle for a TMP121/TMP123 on `spi`.
    pub fn new(spi: SPI) -> (r: Self)
        ensures
            r.device() == spi,
            r.decode_mode() == DecodeMode::Plain,
    {
        Self { spi, mode: DecodeMode::Plain }
    }

    /// A handle for an OSENSA FTX 101 on `spi`.
    pub fn new_osensa(spi: SPI) -> (r: Self)
        ensures
            r.device() == spi,
            r.decode_mode() == DecodeMode::Osensa,
    {
        Self { spi, mode: DecodeMode::Osensa }
    }

    /// How the handle reads the register word.
    pub fn mode(&self) -> (m: DecodeMode)
        ensures
            m == self.decode_mode(),
    {
        self.mode
    }

    /// The SPI device, for the bus transaction.
    pub fn device_mut(&mut self) -> (d: &mut SPI)
        ensures
            *d == old(self).device(),
            final(self).device() == *final(d),
            final(self).decode_mode() == old(self).decode_mode(),
    {
        &mut self.spi
    }

    /// Gives the SPI device back, ending the handle.
    pub fn release(self) -> (d: SPI)
        ensures
            d == self.device(),
    {
        self.spi
    }

    /// The temperature reading, in sixteenths of a degree Celsius, for the
    /// outcome `transfer` of one two-byte bus read.
    ///
    /// A failed transfer is returned as `Error::Spi` and is not decoded.
    /// For a TMP121/TMP123 every word is a temperature (an all-zero word is
    /// 0 °C: the sensor may not be connected, or may not have completed its
    /// first conversion). For an FTX 101 the word is validated: a clear
    /// confirmation bit gives `Error::InvalidMeasurement`, 0x0000 gives
    /// `Error::NoProbe`, 0x7FF8 gives `Error::DeviceError`, and the LED
    /// current level is read but dropped (see `osensa_reading_from_transfer`).
    pub fn reading_from_transfer<E>(&self, transfer: Result<[u8; 2], E>) -> (r: Result<
        i16,
        Error<E>,
    >)
        ensures
            r == reading_result(self.decode_mode(), transfer),
            transfer is Err ==> r == Err::<i16, Error<E>>(Error::Spi(transfer->Err_0)),
    {
        let words = match transfer {
            Ok(words) => words,
            Err(e) => return Err(Error::Spi(e)),
        };
        match self.mode {
            DecodeMode::Plain => Ok(convert_words(&words)),
            DecodeMode::Osensa => match convert_words_osensa::<E>(&words) {
                Ok((temperature, _led_current)) => Ok(temperature),
                Err(e) => Err(e),
            },
        }
    }

    /// The FTX 101 reading, temperature and LED current level, for the
    /// outcome `transfer` of one two-byte bus read. The word is read as an
    /// FTX 101 packet whatever mode the handle was built with.
    ///
    /// A failed transfer is returned as `Error::Spi` and is not decoded; a
    /// clear confirmation bit gives `Error::InvalidMeasurement`, 0x0000
    /// gives `Error::NoProbe` and 0x7FF8 gives `Error::DeviceError`.
    pub fn osensa_reading_from_transfer<E>(&self, transfer: Result<[u8; 2], E>) -> (r: Result<
        OsensaReading,
        Error<E>,
    >)
        ensures
            r == osensa_reading_result(transfer),
            transfer is Err ==> r == Err::<OsensaReading, Error<E>>(Error::Spi(transfer->Err_0)),
    {
        let words = match transfer {
            Ok(words) => words,
            Err(e) => return Err(Error::Spi(e)),
        };
        match convert_words_osensa::<E>(&words) {
            Ok((temperature, led_current)) => Ok(OsensaReading { temperature, led_current }),
            Err(e) => Err(e),
        }
    }
}

} // verus!
