//! What one advertisement yields: a timestamped reading.

use vstd::prelude::*;
use crate::color::TiltColor;

verus! {

/// An instant in UTC: whole seconds since the Unix epoch, and the nanoseconds
/// past that second.
#[derive(Clone, Copy, Debug, PartialEq, Eq, Structural)]
pub struct Timestamp {
    pub secs: i64,
    pub nanos: u32,
}

impl Timestamp {
    /// The instant in nanoseconds since the Unix epoch.
    pub open spec fn total_nanos(self) -> int {
        self.secs * 1_000_000_000 + self.nanos
    }

    /// The instant in nanoseconds since the Unix epoch, for a store that
    /// counts time from there. An instant before the epoch has no such count.
    pub fn unix_nanos(&self) -> (count: Option<u128>)
        ensures
            self.total_nanos() >= 0 ==> count == Some(self.total_nanos() as u128),
            self.total_nanos() < 0 ==> count is None,
    {
        let total: i128 = (self.secs as i128) * 1_000_000_000 + (self.nanos as i128);
        if total >= 0 {
            Some(total as u128)
        } else {
            None
        }
    }
}

/// One reading of one device. The temperature is the device's own two-byte
/// value, unconverted. The specific gravity is kept as the device sends it,
/// in thousandths: 1052 stands for 1.052.
#[derive(Clone, Copy, Debug, PartialEq, Eq, Structural)]
pub struct Reading {
    pub time: Timestamp,
    pub color: TiltColor,
    pub temp: u16,
    pub sg_milli: u16,
}

impl Reading {
    /// Whether two readings differ in nothing but their timestamps.
    pub open spec fn same_measurement_spec(self, other: Reading) -> bool {
        &&& self.color == other.color
        &&& self.temp == other.temp
        &&& self.sg_milli == other.sg_milli
    }

    /// Whether two readings report the same device state, whenever taken.
    #[verifier::when_used_as_spec(same_measurement_spec)]
    pub fn same_measurement(self, other: Reading) -> (same: bool)
        ensures
            same == self.same_measurement_spec(other),
    {
        self.color == other.color && self.temp == other.temp && self.sg_milli == other.sg_milli
    }
}

} // verus!
