//! Data model of the heating hub: heater states, fixed-point decimals,
//! measurements, the heater registry entry and the control state.

use vstd::prelude::*;
use vstd::string::*;

use crate::errors::ParseError;
use crate::text::str_eq;

verus! {

/// The two states a heater relay can be in, with the stable string
/// (`"off"`/`"on"`) and integer (0/1) encodings used on the wire and
/// in storage.
#[derive(Clone, Copy, Debug, PartialEq, Eq, Structural)]
pub enum HeaterState {
    Off,
    On,
}

impl HeaterState {
    /// The wire encoding of this state.
    pub open spec fn spec_str(self) -> Seq<char> {
        match self {
            HeaterState::Off => "off"@,
            HeaterState::On => "on"@,
        }
    }

    /// The storage encoding of this state.
    pub open spec fn spec_int(self) -> int {
        match self {
            HeaterState::Off => 0,
            HeaterState::On => 1,
        }
    }

    /// The wire encoding, `"off"` or `"on"`.
    pub fn as_str(&self) -> (r: &'static str)
        ensures
            r@ == self.spec_str(),
    {
        match self {
            HeaterState::Off => "off",
            HeaterState::On => "on",
        }
    }

    /// The storage encoding, 0 for off and 1 for on.
    pub fn as_u8(&self) -> (r: u8)
        ensures
            r as int == self.spec_int(),
    {
        match self {
            HeaterState::Off => 0,
            HeaterState::On => 1,
        }
    }

    /// Parse the wire encoding: exactly `"on"` or `"off"`, nothing else.
    pub fn from_str(s: &str) -> (r: Result<HeaterState, ParseError>)
        ensures
            s@ == "on"@ ==> r == Ok::<HeaterState, ParseError>(HeaterState::On),
            s@ == "off"@ ==> r == Ok::<HeaterState, ParseError>(HeaterState::Off),
            s@ != "on"@ && s@ != "off"@ ==> r == Err::<HeaterState, ParseError>(
                ParseError::InvalidHeaterState,
            ),
    {
        proof {
            reveal_strlit("on");
            reveal_strlit("off");
            assert("on"@.len() == 2);
            assert("off"@.len() == 3);
        }
        if str_eq(s, "on") {
            Ok(HeaterState::On)
        } else if str_eq(s, "off") {
            Ok(HeaterState::Off)
        } else {
            Err(ParseError::InvalidHeaterState)
        }
    }
}

/// A decimal number held in thousandths of a unit.
///
/// Temperatures and humidities travel on the bus as decimal text; the
/// hub resolves them to thousandths, which is finer than any producer
/// on the bus actually sends. Values that agree to the thousandth are
/// equal here, so the control decision treats them as equal.
#[derive(Clone, Copy, Debug, PartialEq, Eq, Structural)]
pub struct Decimal {
    pub thousandths: i64,
}

/// `t` thousandths rounded to the nearest whole unit, halves away
/// from zero.
pub open spec fn spec_round(t: int) -> int {
    if t >= 0 {
        (t + 500) / 1000
    } else {
        -(((-t) + 500) / 1000)
    }
}

impl Decimal {
    /// This value rounded to the nearest whole unit, halves away from
    /// zero (the storage rounding for measurement history rows).
    pub fn round(&self) -> (r: i64)
        requires
            self.thousandths > i64::MIN,
        ensures
            r as int == spec_round(self.thousandths as int),
    {
        if self.thousandths >= 0 {
            let q: u64 = ((self.thousandths as u64) + 500) / 1000;
            q as i64
        } else {
            let m: u64 = (-self.thousandths) as u64;
            let q: u64 = (m + 500) / 1000;
            -(q as i64)
        }
    }
}

/// A reading decoded from a structured measurement payload.
#[derive(Clone, Copy, Debug, PartialEq, Eq, Structural)]
pub struct Measurement {
    pub temperature: Decimal,
    pub humidity: Decimal,
}

impl Measurement {
    /// Both decimals sit strictly above `i64::MIN` thousandths, so
    /// rounding them to whole units cannot overflow. Every value the
    /// hub reads off the bus satisfies this.
    pub open spec fn wf(self) -> bool {
        self.temperature.thousandths > i64::MIN && self.humidity.thousandths > i64::MIN
    }

    /// The temperature part of the reading.
    pub fn temperature(&self) -> (r: Decimal)
        ensures
            r == self.temperature,
    {
        self.temperature
    }

    /// The humidity part of the reading.
    pub fn humidity(&self) -> (r: Decimal)
        ensures
            r == self.humidity,
    {
        self.humidity
    }
}

/// One entry of the fixed heater registry: a relay identified by a
/// six-character hexadecimal id, plus a human-readable name.
#[derive(Clone, Debug)]
pub struct Heater {
    name: String,
    id: String,
}

impl Heater {
    /// The id, as a spec-level character sequence.
    pub closed spec fn spec_id(self) -> Seq<char> {
        self.id@
    }

    /// The name, as a spec-level character sequence.
    pub closed spec fn spec_name(self) -> Seq<char> {
        self.name@
    }

    /// A registry entry with the given id and name.
    pub fn new(id: String, name: String) -> (r: Self)
        ensures
            r.spec_id() == id@,
            r.spec_name() == name@,
    {
        Heater { id, name }
    }

    /// The relay's hexadecimal id.
    pub fn id(&self) -> (r: &String)
        ensures
            r@ == self.spec_id(),
    {
        &self.id
    }

    /// The human-readable name of the room the relay heats.
    pub fn name(&self) -> (r: &String)
        ensures
            r@ == self.spec_name(),
    {
        &self.name
    }
}

/// An action derived from one inbound bus message.
#[derive(Clone, Debug)]
pub enum Action {
    SetDesiredTemperature(Decimal),
    SetInsideTemperature(Decimal),
    EnableController(bool),
    RegisterMeasurement(String, Measurement),
    RegisterHeaterStateChange(String, HeaterState),
}

impl Action {
    /// The decimals an action carries are strictly above `i64::MIN`
    /// thousandths, so rounding them to whole units cannot overflow.
    /// Every action built by the message classifier satisfies this.
    pub open spec fn wf(self) -> bool {
        match self {
            Action::RegisterMeasurement(_, m) => m.wf(),
            _ => true,
        }
    }
}

/// The state of the heating system: whether automated control is
/// enabled, and the latest desired and inside temperatures.
#[derive(Clone, Copy, Debug)]
pub struct State {
    pub enabled: bool,
    pub desired_temperature: Option<Decimal>,
    pub current_temperature: Option<Decimal>,
}

impl State {
    /// The heater state the temperatures alone call for: on exactly when
    /// the desired temperature strictly exceeds the current one, and
    /// nothing while either temperature is still unknown.
    pub open spec fn spec_heater_state(self) -> Option<HeaterState> {
        match (self.desired_temperature, self.current_temperature) {
            (Some(d), Some(c)) => Some(
                if d.thousandths > c.thousandths {
                    HeaterState::On
                } else {
                    HeaterState::Off
                },
            ),
            _ => None,
        }
    }

    /// Compare the desired and current temperature; `None` while either
    /// is missing, `On` exactly when desired is strictly above current.
    pub fn get_heater_state(&self) -> (r: Option<HeaterState>)
        ensures
            r == self.spec_heater_state(),
    {
        match (self.desired_temperature, self.current_temperature) {
            (Some(d), Some(c)) => Some(
                if d.thousandths > c.thousandths {
                    HeaterState::On
                } else {
                    HeaterState::Off
                },
            ),
            _ => None,
        }
    }
}

impl Default for State {
    /// Control disabled, no temperature known yet.
    fn default() -> (r: Self)
        ensures
            !r.enabled,
            r.desired_temperature is None,
            r.current_temperature is None,
    {
        State { enabled: false, desired_temperature: None, current_temperature: None }
    }
}

} // verus!
