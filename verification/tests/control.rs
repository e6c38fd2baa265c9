//! Tests for the control pipeline: classification, queueing, state
//! transitions and derived side effects.

use paletten_cloud_hub::executor::{heaters, Effect, Executor};
use paletten_cloud_hub::ingest::Controller;
use paletten_cloud_hub::models::{Action, Decimal, HeaterState, Measurement, State};
use paletten_cloud_hub::queue::ActionQueue;

fn classify(controller: &mut Controller, topic: &str, payload: &str) -> Option<Action> {
    controller
        .handle_incoming_message(topic, payload, None)
        .expect("message should parse")
}

fn classify_measurement(
    controller: &mut Controller,
    topic: &str,
    reading: Option<Measurement>,
) -> Result<Option<Action>, paletten_cloud_hub::errors::ParseError> {
    controller.handle_incoming_message(topic, "", reading)
}

fn reading(temperature: i64, humidity: i64) -> Measurement {
    Measurement {
        temperature: Decimal { thousandths: temperature },
        humidity: Decimal { thousandths: humidity },
    }
}

#[test]
fn decision_table() {
    let mut exec = Executor::new(heaters());

    // Disabled, no temperatures: no decision.
    assert_eq!(exec.check_temperature(), None);

    // Temperatures alone do not decide while disabled.
    exec.state.desired_temperature = Some(Decimal { thousandths: 21_500 });
    exec.state.current_temperature = Some(Decimal { thousandths: 19_000 });
    assert_eq!(exec.check_temperature(), None);

    // Enabled with both set: strict comparison.
    exec.state.enabled = true;
    assert_eq!(exec.check_temperature(), Some(HeaterState::On));
    exec.state.current_temperature = Some(Decimal { thousandths: 21_500 });
    assert_eq!(exec.check_temperature(), Some(HeaterState::Off));
    exec.state.current_temperature = Some(Decimal { thousandths: 30_000 });
    assert_eq!(exec.check_temperature(), Some(HeaterState::Off));

    // Enabled but a temperature missing: no decision.
    exec.state.current_temperature = None;
    assert_eq!(exec.check_temperature(), None);
    exec.state.current_temperature = Some(Decimal { thousandths: 19_000 });
    exec.state.desired_temperature = None;
    assert_eq!(exec.check_temperature(), None);
}

#[test]
fn get_heater_state_ignores_enabled() {
    let state = State {
        enabled: false,
        desired_temperature: Some(Decimal { thousandths: 21_500 }),
        current_temperature: Some(Decimal { thousandths: 19_000 }),
    };
    assert_eq!(state.get_heater_state(), Some(HeaterState::On));
}

#[test]
fn enable_sequence_broadcasts_on_to_every_heater() {
    let mut controller = Controller::new();
    let mut queue = ActionQueue::new(10);
    let mut exec = Executor::new(heaters());

    for (topic, payload) in [
        ("temperature/set", "21.5"),
        ("temperature/inside", "19.0"),
        ("temperature/auto", "true"),
    ] {
        let action = classify(&mut controller, topic, payload).expect("should yield an action");
        queue.try_send(action).expect("queue has room");
    }

    let mut publishes = Vec::new();
    while let Some(action) = queue.try_recv() {
        if let Some(Effect::SetHeaters(target)) = exec.handle_action(&action) {
            publishes.extend(exec.set_heaters_state(target));
        }
    }

    // Exactly one broadcast — from the enable — of three retained "on"
    // commands, one per registered heater.
    assert_eq!(publishes.len(), 3);
    for c in &publishes {
        assert_eq!(c.payload, "on");
        assert!(c.retain);
        assert_eq!(c.qos, 1);
    }
    assert_eq!(publishes[0].topic, "shellies/shelly1-C4402D/relay/0/command");
    assert_eq!(publishes[1].topic, "shellies/shelly1-C431FB/relay/0/command");
    assert_eq!(publishes[2].topic, "shellies/shelly1-10DB9C/relay/0/command");
}

#[test]
fn measurement_inserts_one_reading_and_leaves_state_alone() {
    let mut controller = Controller::new();
    let mut exec = Executor::new(heaters());
    exec.state.enabled = true;
    exec.state.desired_temperature = Some(Decimal { thousandths: 21_500 });

    // The payload `{"temperature":22.1,"humidity":40.0}`, as the
    // deserializing loop hands it in.
    let action = classify_measurement(&mut controller, "measurement/inside", Some(reading(22_100, 40_000)))
        .expect("message should parse")
        .expect("should yield an action");

    let effect = exec.handle_action(&action);
    match effect {
        Some(Effect::InsertReading { location, temperature, humidity }) => {
            assert_eq!(location, "inside");
            assert_eq!(temperature, 22);
            assert_eq!(humidity, 40);
        }
        other => panic!("expected an insert-reading effect, got {other:?}"),
    }

    // The control state is untouched: measurement logging and the
    // temperature/inside control input are distinct data paths.
    assert!(exec.state.enabled);
    assert_eq!(exec.state.desired_temperature, Some(Decimal { thousandths: 21_500 }));
    assert_eq!(exec.state.current_temperature, None);
}

#[test]
fn measurement_values_are_rounded_to_nearest_unit() {
    let mut controller = Controller::new();
    let mut exec = Executor::new(heaters());

    // The payload `{"temperature":22.9,"humidity":40.6}` rounds up.
    let action = classify_measurement(&mut controller, "measurement/inside", Some(reading(22_900, 40_600)))
        .expect("message should parse")
        .expect("should yield an action");

    match exec.handle_action(&action) {
        Some(Effect::InsertReading { location, temperature, humidity }) => {
            assert_eq!(location, "inside");
            assert_eq!(temperature, 23);
            assert_eq!(humidity, 41);
        }
        other => panic!("expected an insert-reading effect, got {other:?}"),
    }
}

#[test]
fn malformed_measurement_yields_no_effect_and_ingestion_continues() {
    let mut controller = Controller::new();
    let mut exec = Executor::new(heaters());

    // A payload that does not deserialize reaches the classifier as
    // `None` and is refused.
    let result = classify_measurement(&mut controller, "measurement/inside", None);
    assert!(result.is_err());

    // No action reached the executor, so no persistence call happened
    // and the next valid message is processed normally.
    let action = classify_measurement(&mut controller, "measurement/inside", Some(reading(22_100, 40_000)))
        .expect("message should parse")
        .expect("should yield an action");
    assert!(matches!(
        exec.handle_action(&action),
        Some(Effect::InsertReading { .. })
    ));
}

#[test]
fn relay_acknowledgment_inserts_heater_state() {
    let mut controller = Controller::new();
    let mut exec = Executor::new(heaters());

    let action = classify(&mut controller, "shellies/shelly1-C4402D/relay/0", "on")
        .expect("should yield an action");

    match exec.handle_action(&action) {
        Some(Effect::InsertHeaterState { heater_id, state }) => {
            assert_eq!(heater_id, "C4402D");
            assert_eq!(state, HeaterState::On);
        }
        other => panic!("expected an insert-heater-state effect, got {other:?}"),
    }
}

#[test]
fn unknown_topic_yields_no_action_and_no_error() {
    let mut controller = Controller::new();
    let result = controller.handle_incoming_message("foo/bar", "anything", None);
    assert!(matches!(result, Ok(None)));
}

#[test]
fn auto_topic_with_other_payload_yields_no_action() {
    let mut controller = Controller::new();
    let result = controller.handle_incoming_message("temperature/auto", "maybe", None);
    assert!(matches!(result, Ok(None)));
}

#[test]
fn controller_mirrors_enabled_flag() {
    let mut controller = Controller::new();
    assert!(!controller.state.enabled);
    classify(&mut controller, "temperature/auto", "true");
    assert!(controller.state.enabled);
    classify(&mut controller, "temperature/auto", "false");
    assert!(!controller.state.enabled);
}

#[test]
fn disabling_broadcasts_nothing() {
    let mut exec = Executor::new(heaters());
    exec.state.desired_temperature = Some(Decimal { thousandths: 25_000 });
    exec.state.current_temperature = Some(Decimal { thousandths: 19_000 });

    assert!(exec.handle_action(&Action::EnableController(false)).is_none());

    // Enabling with stale temperatures alone triggers actuation.
    assert!(matches!(
        exec.handle_action(&Action::EnableController(true)),
        Some(Effect::SetHeaters(HeaterState::On))
    ));
}

#[test]
fn every_qualifying_action_rebroadcasts_even_unchanged() {
    let mut exec = Executor::new(heaters());
    exec.state.enabled = true;
    exec.state.desired_temperature = Some(Decimal { thousandths: 25_000 });
    exec.state.current_temperature = Some(Decimal { thousandths: 19_000 });

    let first = exec.handle_action(&Action::SetInsideTemperature(Decimal {
        thousandths: 20_000,
    }));
    let second = exec.handle_action(&Action::SetInsideTemperature(Decimal {
        thousandths: 21_000,
    }));
    assert!(matches!(first, Some(Effect::SetHeaters(HeaterState::On))));
    assert!(matches!(second, Some(Effect::SetHeaters(HeaterState::On))));
}

#[test]
fn registry_holds_the_three_heaters() {
    let registry = heaters();
    assert_eq!(registry.len(), 3);
    assert_eq!(registry[0].id().as_str(), "C4402D");
    assert_eq!(registry[1].id().as_str(), "C431FB");
    assert_eq!(registry[2].id().as_str(), "10DB9C");
    assert_eq!(registry[0].name().as_str(), "Spisebord");
}

#[test]
fn full_queue_refuses_without_dropping() {
    let mut queue = ActionQueue::new(2);
    assert!(queue.try_send(Action::EnableController(true)).is_ok());
    assert!(queue.try_send(Action::EnableController(false)).is_ok());

    // The queue is at capacity: the action comes back untouched.
    let refused = queue.try_send(Action::SetDesiredTemperature(Decimal {
        thousandths: 21_500,
    }));
    match refused {
        Err(action) => assert!(matches!(
            action,
            Action::SetDesiredTemperature(Decimal { thousandths: 21_500 })
        )),
        Ok(()) => panic!("a full queue must refuse the action"),
    }

    // Draining one slot makes room again, and order is kept.
    assert!(matches!(queue.try_recv(), Some(Action::EnableController(true))));
    assert!(queue
        .try_send(Action::SetDesiredTemperature(Decimal { thousandths: 21_500 }))
        .is_ok());
    assert!(matches!(queue.try_recv(), Some(Action::EnableController(false))));
    assert!(matches!(
        queue.try_recv(),
        Some(Action::SetDesiredTemperature(Decimal { thousandths: 21_500 }))
    ));
    assert!(queue.try_recv().is_none());
}
