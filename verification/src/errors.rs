//! Errors raised while classifying inbound bus messages.

use vstd::prelude::*;

verus! {

/// Why an inbound message could not be turned into an action.
///
/// Every variant is non-fatal: the ingestion loop logs the failure,
/// drops the message and keeps polling.
#[derive(Clone, Copy, Debug, PartialEq, Eq, Structural)]
pub enum ParseError {
    /// A payload that should have held a decimal number did not.
    InvalidNumber,
    /// A `measurement/…` topic that names neither `inside` nor `outside`.
    UnknownPlace,
    /// A measurement payload that did not deserialize into a
    /// `{"temperature":…,"humidity":…}` object.
    InvalidMeasurement,
    /// A `shellies/…` topic that does not name a heater relay.
    UnknownHeater,
    /// A relay payload that is neither `on` nor `off`.
    InvalidHeaterState,
}

impl ParseError {
    /// A fixed description of the failure, for the ingestion loop's log.
    pub fn describe(&self) -> (r: &'static str)
        ensures
            self is InvalidNumber ==> r@ == "failed to parse payload as a decimal number"@,
            self is UnknownPlace ==> r@ == "received measurement from unknown place"@,
            self is InvalidMeasurement ==> r@ == "failed to parse measurement payload"@,
            self is UnknownHeater ==> r@ == "received state from unknown heater"@,
            self is InvalidHeaterState ==> r@ == "payload is not a valid heater state"@,
    {
        match self {
            ParseError::InvalidNumber => "failed to parse payload as a decimal number",
            ParseError::UnknownPlace => "received measurement from unknown place",
            ParseError::InvalidMeasurement => "failed to parse measurement payload",
            ParseError::UnknownHeater => "received state from unknown heater",
            ParseError::InvalidHeaterState => "payload is not a valid heater state",
        }
    }
}

} // verus!
