//! Serial application of actions to the control state.
//!
//! The execution loop feeds every queued [`Action`] to
//! [`Executor::handle_action`], which mutates the control state and
//! says which side effect its collaborators must perform: append a
//! history row, or broadcast a heater command. The loop performs the
//! effect; everything decided here is plain computation.

use vstd::prelude::*;
use vstd::string::*;

use crate::models::{spec_round, Action, Heater, HeaterState, State};

verus! {

/// A side effect the executor asks its collaborators to perform.
#[derive(Debug, Clone)]
pub enum Effect {
    /// Append a measurement history row.
    InsertReading { location: String, temperature: i64, humidity: i64 },
    /// Append a heater acknowledgment row.
    InsertHeaterState { heater_id: String, state: HeaterState },
    /// Broadcast the target state to every registered heater.
    SetHeaters(HeaterState),
}

/// One publish call of a broadcast: topic, payload, retained flag and
/// quality-of-service level (1, at-least-once).
#[derive(Debug, Clone)]
pub struct Command {
    pub topic: String,
    pub payload: String,
    pub retain: bool,
    pub qos: u8,
}

/// The topic a heater's commands go to.
pub open spec fn heater_command_topic(id: Seq<char>) -> Seq<char> {
    "shellies/shelly1-"@ + id + "/relay/0/command"@
}

/// `c` commands heater `h` into `target`: right topic, right payload,
/// retained, at-least-once.
pub open spec fn cmd_matches(c: Command, h: Heater, target: HeaterState) -> bool {
    &&& c.topic@ == heater_command_topic(h.spec_id())
    &&& c.payload@ == target.spec_str()
    &&& c.retain
    &&& c.qos == 1
}

/// The fixed heater registry compiled into the process: exactly three
/// relays, identified by their six-hex-digit ids.
pub fn heaters() -> (r: Vec<Heater>)
    ensures
        r@.len() == 3,
        r@[0].spec_id() == "C4402D"@,
        r@[1].spec_id() == "C431FB"@,
        r@[2].spec_id() == "10DB9C"@,
        r@[0].spec_name() == "Spisebord"@,
        r@[1].spec_name() == "Sofa"@,
        r@[2].spec_name() == "Soveværelse"@,
{
    let mut v: Vec<Heater> = Vec::new();
    v.push(Heater::new(String::from_str("C4402D"), String::from_str("Spisebord")));
    v.push(Heater::new(String::from_str("C431FB"), String::from_str("Sofa")));
    v.push(Heater::new(String::from_str("10DB9C"), String::from_str("Soveværelse")));
    v
}

/// The actuation decision the control state calls for: none while
/// control is disabled or either temperature is unknown; otherwise on
/// exactly when desired strictly exceeds current.
pub open spec fn spec_decision(s: State) -> Option<HeaterState> {
    if !s.enabled {
        None
    } else {
        s.spec_heater_state()
    }
}

/// The broadcast effect a decision turns into, if any.
pub open spec fn decision_effect(s: State) -> Option<Effect> {
    match spec_decision(s) {
        Some(target) => Some(Effect::SetHeaters(target)),
        None => None,
    }
}

/// Decision law: there is a decision exactly when control is enabled
/// and both temperatures are set; it is `On` exactly when the desired
/// temperature strictly exceeds the current one, and `Off` otherwise
/// (equality gives `Off`).
pub proof fn lemma_decision_cases(s: State)
    ensures
        spec_decision(s) is Some <==> (s.enabled && s.desired_temperature is Some
            && s.current_temperature is Some),
        s.enabled ==> (s.desired_temperature matches Some(d) ==> (
        s.current_temperature matches Some(c) ==> spec_decision(s) == Some(
            if d.thousandths > c.thousandths {
                HeaterState::On
            } else {
                HeaterState::Off
            },
        ))),
{
}

/// Consumes actions in order, owns the control state, and derives the
/// side effects for the persistence and actuator collaborators.
pub struct Executor {
    pub state: State,
    pub heaters: Vec<Heater>,
}

impl Executor {
    /// An executor over the given heater registry, with control
    /// disabled and no temperature known yet.
    pub fn new(heaters: Vec<Heater>) -> (r: Self)
        ensures
            !r.state.enabled,
            r.state.desired_temperature is None,
            r.state.current_temperature is None,
            r.heaters == heaters,
    {
        Executor { state: State::default(), heaters }
    }

    /// The control-decision step: nothing while disabled or while a
    /// temperature is missing, else compare the two temperatures.
    pub fn check_temperature(&self) -> (r: Option<HeaterState>)
        ensures
            r == spec_decision(self.state),
    {
        if !self.state.enabled {
            None
        } else {
            self.state.get_heater_state()
        }
    }

    /// The publish calls of one broadcast: one retained at-least-once
    /// command per registered heater, in registry order.
    pub fn set_heaters_state(&self, target: HeaterState) -> (r: Vec<Command>)
        ensures
            r@.len() == self.heaters@.len(),
            forall|i: int| 0 <= i < r@.len() ==> #[trigger] cmd_matches(
                r@[i],
                self.heaters@[i],
                target,
            ),
    {
        let mut out: Vec<Command> = Vec::new();
        let mut i: usize = 0;
        while i < self.heaters.len()
            invariant
                i <= self.heaters@.len(),
                out@.len() == i,
                forall|j: int| 0 <= j < i ==> #[trigger] cmd_matches(
                    out@[j],
                    self.heaters@[j],
                    target,
                ),
            decreases self.heaters@.len() - i,
        {
            let mut topic = String::from_str("shellies/shelly1-");
            topic.append(self.heaters[i].id().as_str());
            topic.append("/relay/0/command");
            let payload = String::from_str(target.as_str());
            out.push(Command { topic, payload, retain: true, qos: 1 });
            i += 1;
        }
        out
    }

    /// Apply one action: store what it carries, then say which side
    /// effect follows — a history row for the register actions (the
    /// measurement values rounded to the nearest whole unit), and for
    /// the control inputs whatever the decision step now calls for (a
    /// full broadcast on every qualifying action, even when the
    /// decision is unchanged).
    pub fn handle_action(&mut self, action: &Action) -> (r: Option<Effect>)
        requires
            action.wf(),
        ensures
            final(self).heaters == old(self).heaters,
            ({
                let s0 = old(self).state;
                let s1 = final(self).state;
                &&& (*action matches Action::SetDesiredTemperature(t) ==> s1 == (State {
                    desired_temperature: Some(t),
                    ..s0
                }) && r == decision_effect(s1))
                &&& (*action matches Action::SetInsideTemperature(t) ==> s1 == (State {
                    current_temperature: Some(t),
                    ..s0
                }) && r == decision_effect(s1))
                &&& (*action matches Action::EnableController(b) ==> s1 == (State {
                    enabled: b,
                    ..s0
                }) && r == decision_effect(s1))
                &&& (*action matches Action::RegisterMeasurement(place, m) ==> s1 == s0 && (
                r matches Some(e) && e matches Effect::InsertReading {
                    location,
                    temperature,
                    humidity,
                } && location@ == place@ && temperature as int == spec_round(
                    m.temperature.thousandths as int,
                ) && humidity as int == spec_round(m.humidity.thousandths as int)))
                &&& (*action matches Action::RegisterHeaterStateChange(id, hs) ==> s1 == s0 && (
                r matches Some(e) && e matches Effect::InsertHeaterState { heater_id, state }
                    && heater_id@ == id@ && state == hs))
            }),
    {
        match action {
            Action::SetDesiredTemperature(t) => {
                self.state.desired_temperature = Some(*t);
                match self.check_temperature() {
                    Some(target) => Some(Effect::SetHeaters(target)),
                    None => None,
                }
            },
            Action::SetInsideTemperature(t) => {
                self.state.current_temperature = Some(*t);
                match self.check_temperature() {
                    Some(target) => Some(Effect::SetHeaters(target)),
                    None => None,
                }
            },
            Action::EnableController(b) => {
                self.state.enabled = *b;
                match self.check_temperature() {
                    Some(target) => Some(Effect::SetHeaters(target)),
                    None => None,
                }
            },
            Action::RegisterMeasurement(place, m) => Some(
                Effect::InsertReading {
                    location: place.clone(),
                    temperature: m.temperature.round(),
                    humidity: m.humidity.round(),
                },
            ),
            Action::RegisterHeaterStateChange(id, hs) => Some(
                Effect::InsertHeaterState { heater_id: id.clone(), state: *hs },
            ),
        }
    }
}

} // verus!
