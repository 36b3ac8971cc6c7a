use std::convert::Infallible;

use ti_tmp12x::comms::{
    convert_words, convert_words_osensa, DecodeMode, LedCurrentLevel, OsensaReading, Tmp12x,
};
use ti_tmp12x::error::Error;

fn celsius(sixteenths: i16) -> f64 {
    sixteenths as f64 * 0.0625
}

#[test]
fn test_word_conversion() {
    // Values from datasheet: https://www.ti.com/lit/ds/symlink/tmp121.pdf
    // table 2
    assert_eq!(celsius(convert_words(&[0x4B, 0x00])), 150.0);
    assert_eq!(celsius(convert_words(&[0x3E, 0x80])), 125.0);
    assert_eq!(celsius(convert_words(&[0x0C, 0x80])), 25.0);
    assert_eq!(celsius(convert_words(&[0x00, 0x08])), 0.0625);
    assert_eq!(celsius(convert_words(&[0x00, 0x00])), 0.0);
    assert_eq!(celsius(convert_words(&[0xFF, 0xF8])), -0.0625);
    assert_eq!(celsius(convert_words(&[0xF3, 0x80])), -25.0);
    assert_eq!(celsius(convert_words(&[0xE4, 0x80])), -55.0);
}

#[test]
fn test_osensa_word_conversion() {
    // 25 °C with CFM=1, LED current = Under500 (0b00)
    let result = convert_words_osensa::<Infallible>(&[0x0C, 0x84]).unwrap();
    assert_eq!(celsius(result.0), 25.0);
    assert_eq!(result.1, LedCurrentLevel::Under500);

    // CFM bit clear: invalid measurement
    assert!(matches!(
        convert_words_osensa::<Infallible>(&[0x0C, 0x80]),
        Err(Error::InvalidMeasurement)
    ));

    let result = convert_words_osensa::<Infallible>(&[0x0C, 0x85]).unwrap();
    assert_eq!(result.1, LedCurrentLevel::Range500To1000);

    let result = convert_words_osensa::<Infallible>(&[0x0C, 0x86]).unwrap();
    assert_eq!(result.1, LedCurrentLevel::Range1000To2000);

    let result = convert_words_osensa::<Infallible>(&[0x0C, 0x87]).unwrap();
    assert_eq!(result.1, LedCurrentLevel::Over2000);

    assert!(matches!(
        convert_words_osensa::<Infallible>(&[0x00, 0x00]),
        Err(Error::NoProbe)
    ));

    assert!(matches!(
        convert_words_osensa::<Infallible>(&[0x7F, 0xF8]),
        Err(Error::DeviceError)
    ));

    // -25 °C = 0xF380, with CFM=1, LED=10
    let result = convert_words_osensa::<Infallible>(&[0xF3, 0x86]).unwrap();
    assert_eq!(celsius(result.0), -25.0);
    assert_eq!(result.1, LedCurrentLevel::Range1000To2000);
}

#[test]
fn plain_decode_is_deterministic() {
    for hi in 0..=255u8 {
        for lo in 0..=255u8 {
            let t = convert_words(&[hi, lo]);
            assert_eq!(t, convert_words(&[hi, lo]));
            assert!((-4096..=4095).contains(&t));
        }
    }
}

#[test]
fn plain_decode_range_ends() {
    assert_eq!(convert_words(&[0x7F, 0xFF]), 4095);
    assert_eq!(celsius(convert_words(&[0x7F, 0xF8])), 255.9375);
    assert_eq!(convert_words(&[0x80, 0x00]), -4096);
    assert_eq!(celsius(convert_words(&[0x80, 0x00])), -256.0);
    assert_eq!(convert_words(&[0xFF, 0xFF]), -1);
}

#[test]
fn plain_decode_ignores_low_bits() {
    assert_eq!(convert_words(&[0x0C, 0x87]), 400);
    assert_eq!(convert_words(&[0x0C, 0x80]), 400);
    assert_eq!(convert_words(&[0x00, 0x07]), 0);
}

#[test]
fn osensa_temperature_matches_plain_decode() {
    for hi in 0..=255u8 {
        for lo in 0..=255u8 {
            if let Ok((t, _)) = convert_words_osensa::<Infallible>(&[hi, lo]) {
                assert_eq!(t, convert_words(&[hi, lo]));
            }
        }
    }
    let (t, led) = convert_words_osensa::<Infallible>(&[0xE4, 0x87]).unwrap();
    assert_eq!(celsius(t), -55.0);
    assert_eq!(led, LedCurrentLevel::Over2000);
}

#[test]
fn osensa_faults_come_before_confirmation() {
    // 0x7FF8 has its confirmation bit clear, yet reads as a device error.
    assert!(matches!(
        convert_words_osensa::<u32>(&[0x7F, 0xF8]),
        Err(Error::DeviceError)
    ));
    // 0x7FFC is confirmed and decodes to the top of the range.
    let (t, led) = convert_words_osensa::<u32>(&[0x7F, 0xFC]).unwrap();
    assert_eq!(celsius(t), 255.9375);
    assert_eq!(led, LedCurrentLevel::Under500);
}

#[test]
fn transport_failure_is_passed_on() {
    let plain = Tmp12x::new(0u8);
    assert_eq!(plain.reading_from_transfer::<u32>(Err(7)), Err(Error::Spi(7)));
    let osensa = Tmp12x::new_osensa(0u8);
    assert_eq!(osensa.reading_from_transfer::<u32>(Err(9)), Err(Error::Spi(9)));
    assert_eq!(osensa.osensa_reading_from_transfer::<u32>(Err(11)), Err(Error::Spi(11)));
}

#[test]
fn plain_handle_reads_every_word() {
    let plain = Tmp12x::new(());
    assert_eq!(plain.mode(), DecodeMode::Plain);
    assert_eq!(plain.reading_from_transfer::<u32>(Ok([0x00, 0x00])), Ok(0));
    assert_eq!(plain.reading_from_transfer::<u32>(Ok([0x7F, 0xF8])), Ok(4095));
    assert_eq!(plain.reading_from_transfer::<u32>(Ok([0x0C, 0x80])), Ok(400));
}

#[test]
fn osensa_handle_validates_words() {
    let sensor = Tmp12x::new_osensa(());
    assert_eq!(sensor.mode(), DecodeMode::Osensa);
    assert_eq!(sensor.reading_from_transfer::<u32>(Ok([0x00, 0x00])), Err(Error::NoProbe));
    assert_eq!(sensor.reading_from_transfer::<u32>(Ok([0x7F, 0xF8])), Err(Error::DeviceError));
    assert_eq!(
        sensor.reading_from_transfer::<u32>(Ok([0x0C, 0x80])),
        Err(Error::InvalidMeasurement)
    );
    assert_eq!(sensor.reading_from_transfer::<u32>(Ok([0xF3, 0x86])), Ok(-400));
}

#[test]
fn osensa_reading_carries_led_level() {
    let sensor = Tmp12x::new(());
    assert_eq!(
        sensor.osensa_reading_from_transfer::<u32>(Ok([0x0C, 0x85])),
        Ok(OsensaReading { temperature: 400, led_current: LedCurrentLevel::Range500To1000 })
    );
    assert_eq!(
        sensor.osensa_reading_from_transfer::<u32>(Ok([0x00, 0x00])),
        Err(Error::NoProbe)
    );
}

#[test]
fn device_is_owned_and_given_back() {
    let mut sensor = Tmp12x::new_osensa(vec![1u8, 2]);
    sensor.device_mut().push(3);
    assert_eq!(sensor.mode(), DecodeMode::Osensa);
    assert_eq!(sensor.release(), vec![1u8, 2, 3]);
}
