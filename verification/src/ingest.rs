//! Classification of inbound bus messages into actions.
//!
//! The ingestion loop hands every publish event's topic and payload to
//! [`Controller::handle_incoming_message`], which turns the subset that
//! matches the known topic shapes into [`Action`]s:
//!
//! * `temperature/set`, `temperature/inside` — decimal payload;
//! * `temperature/auto` — literal `true` / `false` payload;
//! * `measurement/inside`, `measurement/outside` — a structured
//!   `{"temperature":…,"humidity":…}` object; the loop deserializes it
//!   (binary floating point cannot cross into verified code) and hands
//!   the reading in as fixed-point values;
//! * `shellies/shelly1-XXXXXX/relay/0` (six upper-case hex digits) —
//!   literal `on` / `off` payload.
//!
//! Anything else yields no action; a matching topic with a bad payload
//! yields a [`ParseError`] that the loop logs and drops.

use vstd::prelude::*;
use vstd::string::*;

use crate::errors::ParseError;
use crate::models::{Action, HeaterState, Measurement, State};
use crate::numbers::{dec_thousandths, dec_valid, is_digit, parse_decimal};
use crate::text::{has_prefix, str_eq, str_has_prefix};

verus! {

/// `c` is an upper-case hexadecimal digit.
pub open spec fn is_hex_upper(c: char) -> bool {
    is_digit(c) || (65 <= c as int && c as int <= 70)
}

/// `t` names a heater relay: `shellies/shelly1-` + six upper-case hex
/// digits + `/relay/0`.
pub open spec fn heater_topic_valid(t: Seq<char>) -> bool {
    &&& t.len() == 31
    &&& has_prefix(t, "shellies/shelly1-"@)
    &&& t.skip(23) == "/relay/0"@
    &&& forall|i: int| 17 <= i < 23 ==> is_hex_upper(t[i])
}

/// The six hex digits of a heater topic.
pub open spec fn heater_topic_id(t: Seq<char>) -> Seq<char> {
    t.subrange(17, 23)
}

/// The place a measurement topic names.
pub open spec fn measurement_place(t: Seq<char>) -> Seq<char> {
    if t == "measurement/inside"@ {
        "inside"@
    } else {
        "outside"@
    }
}

/// Listens to the bus and turns inbound publish events into actions
/// for the executor; also mirrors the enabled flag for its log lines.
pub struct Controller {
    pub state: State,
}

impl Controller {
    /// A controller that has seen no message yet.
    pub fn new() -> (r: Self)
        ensures
            !r.state.enabled,
            r.state.desired_temperature is None,
            r.state.current_temperature is None,
    {
        Controller { state: State::default() }
    }

    /// Accept a measurement topic together with the reading the caller
    /// decoded from the structured payload (`None` when the payload
    /// did not deserialize): the place name and the reading.
    pub fn parse_measurement(&self, topic: &str, measurement: Option<Measurement>) -> (r: Result<
        (String, Measurement),
        ParseError,
    >)
        ensures
            r is Ok <==> ((topic@ == "measurement/inside"@ || topic@ == "measurement/outside"@)
                && measurement is Some),
            r matches Ok(p) ==> p.0@ == measurement_place(topic@) && measurement == Some(p.1),
            topic@ != "measurement/inside"@ && topic@ != "measurement/outside"@ ==> r == Err::<
                (String, Measurement),
                ParseError,
            >(ParseError::UnknownPlace),
            (topic@ == "measurement/inside"@ || topic@ == "measurement/outside"@)
                && measurement is None ==> r == Err::<(String, Measurement), ParseError>(
                ParseError::InvalidMeasurement,
            ),
    {
        proof {
            reveal_strlit("measurement/inside");
            reveal_strlit("measurement/outside");
            assert("measurement/inside"@.len() == 18);
            assert("measurement/outside"@.len() == 19);
        }
        let place: &str = if str_eq(topic, "measurement/inside") {
            "inside"
        } else if str_eq(topic, "measurement/outside") {
            "outside"
        } else {
            return Err(ParseError::UnknownPlace);
        };
        match measurement {
            Some(m) => Ok((String::from_str(place), m)),
            None => Err(ParseError::InvalidMeasurement),
        }
    }

    /// Parse a heater relay topic and its `on`/`off` payload into the
    /// heater id and the acknowledged state.
    pub fn parse_heater_state_change_message(&self, topic: &str, payload: &str) -> (r: Result<
        (String, HeaterState),
        ParseError,
    >)
        ensures
            r is Ok <==> (heater_topic_valid(topic@) && (payload@ == "on"@ || payload@
                == "off"@)),
            r matches Ok(p) ==> p.0@ == heater_topic_id(topic@) && p.1 == (if payload@ == "on"@ {
                HeaterState::On
            } else {
                HeaterState::Off
            }),
            !heater_topic_valid(topic@) ==> r == Err::<(String, HeaterState), ParseError>(
                ParseError::UnknownHeater,
            ),
            heater_topic_valid(topic@) && payload@ != "on"@ && payload@ != "off"@ ==> r == Err::<
                (String, HeaterState),
                ParseError,
            >(ParseError::InvalidHeaterState),
    {
        proof {
            reveal_strlit("shellies/shelly1-");
            reveal_strlit("/relay/0");
            assert("shellies/shelly1-"@.len() == 17);
            assert("/relay/0"@.len() == 8);
        }
        let n = topic.unicode_len();
        if n != 31 {
            return Err(ParseError::UnknownHeater);
        }
        if !str_has_prefix(topic, "shellies/shelly1-") {
            return Err(ParseError::UnknownHeater);
        }
        let tail = topic.substring_char(23, 31);
        proof {
            assert(topic@.skip(23) =~= topic@.subrange(23, 31));
        }
        if !str_eq(tail, "/relay/0") {
            return Err(ParseError::UnknownHeater);
        }
        let mut i: usize = 17;
        while i < 23
            invariant
                topic@.len() == 31,
                17 <= i <= 23,
                forall|j: int| 17 <= j < i ==> is_hex_upper(topic@[j]),
            decreases 23 - i,
        {
            let cv = topic.get_char(i) as u32;
            if !((48 <= cv && cv <= 57) || (65 <= cv && cv <= 70)) {
                return Err(ParseError::UnknownHeater);
            }
            i += 1;
        }
        let id_part = topic.substring_char(17, 23);
        let id = String::from_str(id_part);
        proof {
            assert(id@ =~= heater_topic_id(topic@));
        }
        match HeaterState::from_str(payload) {
            Ok(hs) => Ok((id, hs)),
            Err(e) => Err(e),
        }
    }

    /// Dispatch one inbound publish event on its topic.
    ///
    /// `measurement` is the reading the caller decoded from the
    /// payload of a `measurement/…` topic, `None` when it did not
    /// deserialize; other topics ignore it. Known topics with a good
    /// payload yield an action; known topics with a bad payload yield
    /// the error the payload deserves; any other topic yields no
    /// action and no error. A `temperature/auto` literal also flips
    /// this controller's own enabled mirror.
    pub fn handle_incoming_message(
        &mut self,
        topic: &str,
        payload: &str,
        measurement: Option<Measurement>,
    ) -> (r: Result<Option<Action>, ParseError>)
        requires
            measurement matches Some(m) ==> m.wf(),
        ensures
            ({
                let t = topic@;
                let p = payload@;
                let c_set = t == "temperature/set"@;
                let c_inside = t == "temperature/inside"@;
                let c_on = t == "temperature/auto"@ && p == "true"@;
                let c_off = t == "temperature/auto"@ && p == "false"@;
                let c_meas = !c_set && !c_inside && !c_on && !c_off && has_prefix(
                    t,
                    "measurement/"@,
                );
                let c_heat = !c_set && !c_inside && !c_on && !c_off && !c_meas && has_prefix(
                    t,
                    "shellies/"@,
                );
                &&& c_set && dec_valid(p) ==> (r matches Ok(a) && a matches Some(act)
                    && act matches Action::SetDesiredTemperature(d) && d.thousandths as int
                    == dec_thousandths(p))
                &&& c_set && !dec_valid(p) ==> r == Err::<Option<Action>, ParseError>(
                    ParseError::InvalidNumber,
                )
                &&& c_inside && dec_valid(p) ==> (r matches Ok(a) && a matches Some(act)
                    && act matches Action::SetInsideTemperature(d) && d.thousandths as int
                    == dec_thousandths(p))
                &&& c_inside && !dec_valid(p) ==> r == Err::<Option<Action>, ParseError>(
                    ParseError::InvalidNumber,
                )
                &&& c_on ==> r == Ok::<Option<Action>, ParseError>(
                    Some(Action::EnableController(true)),
                )
                &&& c_off ==> r == Ok::<Option<Action>, ParseError>(
                    Some(Action::EnableController(false)),
                )
                &&& c_meas && (t == "measurement/inside"@ || t == "measurement/outside"@) ==> (
                measurement matches Some(m) ==> (r matches Ok(a) && a matches Some(act)
                    && act matches Action::RegisterMeasurement(place, mm) && place@
                    == measurement_place(t) && mm == m))
                &&& c_meas && t != "measurement/inside"@ && t != "measurement/outside"@ ==> r
                    == Err::<Option<Action>, ParseError>(ParseError::UnknownPlace)
                &&& c_meas && (t == "measurement/inside"@ || t == "measurement/outside"@)
                    && measurement is None ==> r == Err::<Option<Action>, ParseError>(
                    ParseError::InvalidMeasurement,
                )
                &&& c_heat && heater_topic_valid(t) && (p == "on"@ || p == "off"@) ==> (
                r matches Ok(a) && a matches Some(act)
                    && act matches Action::RegisterHeaterStateChange(id, hs) && id@
                    == heater_topic_id(t) && hs == (if p == "on"@ {
                    HeaterState::On
                } else {
                    HeaterState::Off
                }))
                &&& c_heat && !heater_topic_valid(t) ==> r == Err::<Option<Action>, ParseError>(
                    ParseError::UnknownHeater,
                )
                &&& c_heat && heater_topic_valid(t) && p != "on"@ && p != "off"@ ==> r == Err::<
                    Option<Action>,
                    ParseError,
                >(ParseError::InvalidHeaterState)
                &&& !c_set && !c_inside && !c_on && !c_off && !c_meas && !c_heat ==> r == Ok::<
                    Option<Action>,
                    ParseError,
                >(None)
                &&& final(self).state.enabled == (if c_on {
                    true
                } else if c_off {
                    false
                } else {
                    old(self).state.enabled
                })
                &&& final(self).state.desired_temperature
                    == old(self).state.desired_temperature
                &&& final(self).state.current_temperature
                    == old(self).state.current_temperature
                &&& (r matches Ok(a) ==> (a matches Some(act) ==> act.wf()))
            }),
    {
        proof {
            reveal_strlit("temperature/set");
            reveal_strlit("temperature/inside");
            reveal_strlit("temperature/auto");
            reveal_strlit("true");
            reveal_strlit("false");
            assert("temperature/set"@.len() == 15);
            assert("temperature/inside"@.len() == 18);
            assert("temperature/auto"@.len() == 16);
            assert("true"@.len() == 4);
            assert("false"@.len() == 5);
        }
        if str_eq(topic, "temperature/set") {
            match parse_decimal(payload) {
                Ok(d) => Ok(Some(Action::SetDesiredTemperature(d))),
                Err(e) => Err(e),
            }
        } else if str_eq(topic, "temperature/inside") {
            match parse_decimal(payload) {
                Ok(d) => Ok(Some(Action::SetInsideTemperature(d))),
                Err(e) => Err(e),
            }
        } else if str_eq(topic, "temperature/auto") && str_eq(payload, "true") {
            self.state.enabled = true;
            Ok(Some(Action::EnableController(true)))
        } else if str_eq(topic, "temperature/auto") && str_eq(payload, "false") {
            self.state.enabled = false;
            Ok(Some(Action::EnableController(false)))
        } else if str_has_prefix(topic, "measurement/") {
            match self.parse_measurement(topic, measurement) {
                Ok(p) => Ok(Some(Action::RegisterMeasurement(p.0, p.1))),
                Err(e) => Err(e),
            }
        } else if str_has_prefix(topic, "shellies/") {
            match self.parse_heater_state_change_message(topic, payload) {
                Ok(p) => Ok(Some(Action::RegisterHeaterStateChange(p.0, p.1))),
                Err(e) => Err(e),
            }
        } else {
            Ok(None)
        }
    }
}

} // verus!
