//! Recognition and decoding of Tilt hydrometer advertisements.
//!
//! A Tilt hydrometer broadcasts its readings as iBeacon-shaped Bluetooth Low
//! Energy manufacturer data. This crate recognises those payloads among
//! unrelated traffic, decodes colour, temperature and specific gravity from
//! them, and decides, event by event, what an ingest loop fed by any number
//! of radio adapters has to do next.

pub mod color;
pub mod signature;
pub mod reading;
pub mod decode;
mod clock;
pub mod ingest;
pub mod fan_in;
