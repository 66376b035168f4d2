//! What the ingest loop makes of one event from a radio adapter.

use vstd::prelude::*;
use std::collections::HashMap;
use crate::clock::utc_now;
use crate::color::color_of_code;
use crate::decode::{read_advertisement, reading_of};
use crate::reading::{Reading, Timestamp};
use crate::signature::is_tilt_payload;

verus! {

/// The company identifier under which Tilt devices advertise.
pub const TILT_MFG_ID: u16 = 0x4C;

/// An event from a radio adapter, as far as the ingest loop tells events
/// apart.
#[derive(Debug)]
pub enum Event {
    /// An advertisement with manufacturer data: one payload for each company
    /// identifier it names.
    ManufacturerData(HashMap<u16, Vec<u8>>),
    /// Any other event.
    Other,
}

impl View for Event {
    type V = Option<Map<u16, Seq<u8>>>;

    /// The manufacturer data of an advertisement, payload by company
    /// identifier; `None` for any other event.
    open spec fn view(&self) -> Option<Map<u16, Seq<u8>>> {
        match self {
            Event::ManufacturerData(data) => Some(data@.map_values(|payload: Vec<u8>| payload@)),
            Event::Other => None,
        }
    }
}

/// The reading that an event gives at `time`: that of the payload under the
/// Tilt company identifier, if the event is an advertisement that has one and
/// the payload is a Tilt advertisement of a known colour.
pub open spec fn reading_in(event: Option<Map<u16, Seq<u8>>>, time: Timestamp) -> Option<Reading> {
    match event {
        Some(data) => if data.contains_key(TILT_MFG_ID) {
            reading_of(data[TILT_MFG_ID], time)
        } else {
            None
        },
        None => None,
    }
}

/// Handles one event received at `time`. An advertisement whose manufacturer
/// data holds a Tilt payload of a known colour under the Tilt company
/// identifier gives a reading; every other event gives none.
pub fn on_event_at(event: &Event, time: Timestamp) -> (reading: Option<Reading>)
    ensures
        reading == reading_in(event@, time),
{
    broadcast use vstd::std_specs::hash::group_hash_axioms;

    match event {
        Event::ManufacturerData(data) => match data.get(&TILT_MFG_ID) {
            Some(payload) => read_advertisement(payload.as_slice(), time),
            None => None,
        },
        Event::Other => None,
    }
}

/// Whether an event gives a reading: it is an advertisement, its manufacturer
/// data has a payload under the Tilt company identifier, and that payload
/// carries the Tilt signature and the code of a colour.
pub open spec fn gives_reading(event: Option<Map<u16, Seq<u8>>>) -> bool {
    &&& event matches Some(data)
    &&& data.contains_key(TILT_MFG_ID)
    &&& is_tilt_payload(data[TILT_MFG_ID])
    &&& color_of_code(data[TILT_MFG_ID][5]) is Some
}

/// Handles one event at the time the clock shows when it is received. Whether
/// there is a reading depends on the event alone. The reading is the one that
/// `on_event_at` gives for the time it is stamped with. Whatever the clock
/// shows is taken as it is: a clock set before the Unix epoch stamps the
/// reading with negative seconds.
pub fn on_event(event: &Event) -> (reading: Option<Reading>)
    ensures
        reading is Some <==> gives_reading(event@),
        reading matches Some(r) ==> reading_in(event@, r.time) == reading,
{
    let now = utc_now();
    proof {
        lemma_reading_in_repeatable(event@, now, now);
    }
    on_event_at(event, now)
}

/// Whether an event gives a reading does not depend on when it is received,
/// and neither does what the reading measures: only its timestamp does.
pub proof fn lemma_reading_in_repeatable(
    event: Option<Map<u16, Seq<u8>>>,
    first: Timestamp,
    second: Timestamp,
)
    ensures
        reading_in(event, first) is Some <==> gives_reading(event),
        reading_in(event, first) is Some <==> reading_in(event, second) is Some,
        reading_in(event, first) matches Some(a) ==> reading_in(event, second) matches Some(b)
            && a.same_measurement_spec(b) && a.time == first && b.time == second,
{
}

} // verus!
