//! Driver core for the TI TMP121/TMP123 family of SPI temperature sensors and
//! the OSENSA FTX 101 fibre-optic variant.
//!
//! The library decodes the 16-bit temperature register word that the sensor
//! shifts out, and, for the FTX 101, validates the reading and extracts the
//! LED-current diagnostic. Temperatures are carried as whole multiples of the
//! sensor's resolution, 0.0625 °C (one sixteenth of a degree).
pub mod comms;
pub mod error;
