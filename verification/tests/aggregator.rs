use space_status::debounce::{
    escalates, LoopAction, LoopEvent, RenderLoop, NOTIFICATION_CAPACITY, UPDATE_TIMEOUT_SECS,
};
use space_status::document::{SensorReading, Sensors, State, StatusDocument};
use space_status::makerspace::{
    add_humidity_sensor, add_mutators, add_temperature_sensor, base_status, build_status,
};
use space_status::metrics::{Endpoint, RequestLabels};
use space_status::mutator::{Mutator, MutatorKind, Stored};
use space_status::status::{Delivery, RenderOutcome, SensorKind, SpaceStatus, StateKind};

fn value_of(doc: &StatusDocument, name: &str) -> Option<f64> {
    let sensors = doc.sensors.as_ref().unwrap();
    for s in sensors.temperature.iter().chain(sensors.humidity.iter()) {
        if s.name.as_deref() == Some(name) {
            return s.value.map(f64::from_bits);
        }
    }
    panic!("no sensor named {}", name);
}

fn two_sensors() -> SpaceStatus {
    let mut status = SpaceStatus::new(base_status());
    status.register_sensor("Main", "Floor", "desc", "t/1", SensorKind::Temperature);
    status.register_sensor("Damp", "Cellar", "wet", "h/1", SensorKind::Humidity);
    status
}

#[test]
fn new_aggregator_serves_the_base_document() {
    let status = SpaceStatus::new(base_status());
    assert_eq!(status.get(), base_status());
    assert_eq!(status.base(), base_status());
    assert_eq!(status.mutator_count(), 0);
    assert_eq!(status.mutator(0), None);
}

#[test]
fn register_sensor_appends_placeholder_and_mutator() {
    let status = two_sensors();
    assert_eq!(status.get(), base_status());
    let base = status.base();
    let sensors = base.sensors.unwrap();
    assert_eq!(
        sensors.temperature,
        vec![SensorReading {
            name: Some("Main".to_string()),
            location: "Floor".to_string(),
            description: Some("desc".to_string()),
            unit: "\u{b0}C".to_string(),
            value: None,
        }]
    );
    assert_eq!(
        sensors.humidity,
        vec![SensorReading {
            name: Some("Damp".to_string()),
            location: "Cellar".to_string(),
            description: Some("wet".to_string()),
            unit: "%".to_string(),
            value: None,
        }]
    );
    assert_eq!(status.mutator_count(), 2);
    assert_eq!(status.mutator(0), Some(Mutator::new("t/1", MutatorKind::Temperature, 0)));
    assert_eq!(status.mutator(1), Some(Mutator::new("h/1", MutatorKind::Humidity, 0)));
    assert_eq!(status.mutator(2), None);
}

#[test]
fn sensor_units() {
    assert_eq!(SensorKind::Temperature.unit(), "\u{b0}C");
    assert_eq!(SensorKind::Humidity.unit(), "%");
    assert_eq!(SensorKind::Temperature.to_mutator_kind(), MutatorKind::Temperature);
    assert_eq!(SensorKind::Humidity.to_mutator_kind(), MutatorKind::Humidity);
    assert_eq!(StateKind::Open.to_mutator_kind(), MutatorKind::StateOpen);
    assert_eq!(StateKind::Message.to_mutator_kind(), MutatorKind::StateMessage);
}

#[test]
fn round_trip_temperature() {
    let mut status = SpaceStatus::new(base_status());
    status.register_sensor("Main", "Floor", "desc", "t/1", SensorKind::Temperature);
    assert_eq!(
        status.deliver("t/1", "21.5"),
        Delivery { accepted: true, rejected: false }
    );
    let outcome = status.update_from_mutators();
    assert_eq!(outcome, RenderOutcome { state_changed: false, document_changed: true });
    let doc = status.get();
    let sensors = doc.sensors.as_ref().unwrap();
    assert_eq!(sensors.temperature.len(), 1);
    assert_eq!(sensors.temperature[0].name, Some("Main".to_string()));
    assert_eq!(sensors.temperature[0].unit, "\u{b0}C");
    assert_eq!(f64::from_bits(sensors.temperature[0].value.unwrap()), 21.5);
    assert_eq!(value_of(&doc, "Main"), Some(21.5));
}

#[test]
fn last_delivered_value_wins_and_others_stay() {
    let mut status = two_sensors();
    status.deliver("h/1", "40");
    status.update_from_mutators();
    for payload in ["18.0", "18.5", "19.25", "20"] {
        assert!(status.deliver("t/1", payload).accepted);
    }
    status.update_from_mutators();
    let doc = status.get();
    assert_eq!(value_of(&doc, "Main"), Some(20.0));
    assert_eq!(value_of(&doc, "Damp"), Some(40.0));
    let sensors = doc.sensors.unwrap();
    assert_eq!(sensors.temperature[0].location, "Floor");
    assert_eq!(sensors.humidity[0].location, "Cellar");
    assert_eq!(doc.space, "Maker Space");
    assert_eq!(doc.state, base_status().state);
}

#[test]
fn rendering_twice_changes_nothing_the_second_time() {
    let mut status = two_sensors();
    status.deliver("t/1", "21.5");
    let first = status.update_from_mutators();
    let after_first = status.get();
    let second = status.update_from_mutators();
    assert!(first.document_changed);
    assert_eq!(second, RenderOutcome { state_changed: false, document_changed: false });
    assert_eq!(status.get(), after_first);
    assert_eq!(status.render(), after_first);
}

#[test]
fn applying_the_set_to_its_own_result_is_idempotent() {
    let mut status = two_sensors();
    status.register_state_mutator("s/open", StateKind::Open);
    status.deliver("t/1", "21.5");
    status.deliver("h/1", "60");
    status.deliver("s/open", "true");
    let once = status.render();
    let mut twice = once.clone();
    for i in 0..status.mutator_count() {
        status.mutator(i).unwrap().apply(&mut twice);
    }
    assert_eq!(once, twice);
}

#[test]
fn malformed_payload_leaves_rendered_value() {
    let mut status = two_sensors();
    status.deliver("t/1", "21.5");
    status.update_from_mutators();
    let before = status.get();
    assert_eq!(
        status.deliver("t/1", "not-a-number"),
        Delivery { accepted: false, rejected: true }
    );
    let outcome = status.update_from_mutators();
    assert_eq!(outcome, RenderOutcome { state_changed: false, document_changed: false });
    assert_eq!(status.get(), before);
    assert_eq!(value_of(&status.get(), "Main"), Some(21.5));
}

#[test]
fn unknown_topic_is_ignored() {
    let mut status = two_sensors();
    assert_eq!(
        status.deliver("t/10", "21.5"),
        Delivery { accepted: false, rejected: false }
    );
    assert_eq!(status.deliver("t", "21.5"), Delivery { accepted: false, rejected: false });
    status.update_from_mutators();
    assert_eq!(value_of(&status.get(), "Main"), None);
}

#[test]
fn delivery_does_not_render() {
    let mut status = two_sensors();
    status.deliver("t/1", "21.5");
    assert_eq!(status.get(), base_status());
    assert_eq!(status.mutator(0).unwrap().stored, Stored::Number(21.5f64.to_bits()));
}

#[test]
fn state_mutators_publish_state() {
    let mut status = two_sensors();
    assert!(status.register_state_mutator("s/open", StateKind::Open));
    assert!(status.register_state_mutator("s/msg", StateKind::Message));
    assert!(!status.register_state_mutator("s/open2", StateKind::Open));
    assert!(!status.register_state_mutator("s/msg2", StateKind::Message));
    assert_eq!(status.mutator_count(), 4);
    status.deliver("s/open", "true");
    status.deliver("s/msg", "members only");
    let outcome = status.update_from_mutators();
    assert_eq!(outcome, RenderOutcome { state_changed: true, document_changed: true });
    assert_eq!(
        status.get().state,
        Some(State { open: Some(true), message: Some("members only".to_string()) })
    );
    assert_eq!(
        status.deliver("s/open", "open"),
        Delivery { accepted: false, rejected: true }
    );
    status.deliver("t/1", "5");
    let outcome = status.update_from_mutators();
    assert_eq!(outcome, RenderOutcome { state_changed: false, document_changed: true });
}

#[test]
fn add_mutator_refuses_taken_field_and_missing_entry() {
    let mut status = two_sensors();
    assert!(!status.add_mutator(Mutator::new("t/other", MutatorKind::Temperature, 0)));
    assert!(!status.add_mutator(Mutator::new("t/other", MutatorKind::Temperature, 1)));
    assert!(!status.add_mutator(Mutator::new("h/other", MutatorKind::Humidity, 0)));
    assert_eq!(status.mutator_count(), 2);
    assert!(status.add_mutator(Mutator::new("s/open", MutatorKind::StateOpen, 0)));
    assert!(!status.add_mutator(Mutator::new("s/open", MutatorKind::StateOpen, 5)));
    assert!(status.add_mutator(Mutator::new("s/msg", MutatorKind::StateMessage, 0)));
    assert_eq!(status.mutator_count(), 4);
    let mut bare = SpaceStatus::new(base_status());
    assert!(!bare.add_mutator(Mutator::new("t/1", MutatorKind::Temperature, 0)));
    let mut doc = base_status();
    doc.sensors = Some(Sensors {
        temperature: vec![SensorReading {
            name: None,
            location: "x".to_string(),
            description: None,
            unit: "C".to_string(),
            value: None,
        }],
        humidity: Vec::new(),
    });
    let mut with_entry = SpaceStatus::new(doc);
    assert!(with_entry.add_mutator(Mutator::new("t/1", MutatorKind::Temperature, 0)));
    assert!(!with_entry.add_mutator(Mutator::new("h/1", MutatorKind::Humidity, 0)));
}

#[test]
fn two_mutators_on_one_topic_both_take_the_payload() {
    let mut status = SpaceStatus::new(base_status());
    status.register_sensor("A", "x", "d", "shared", SensorKind::Temperature);
    status.register_sensor("B", "y", "d", "shared", SensorKind::Humidity);
    assert!(status.deliver("shared", "7.5").accepted);
    status.update_from_mutators();
    let doc = status.get();
    assert_eq!(value_of(&doc, "A"), Some(7.5));
    assert_eq!(value_of(&doc, "B"), Some(7.5));
}

#[test]
fn ensure_sensors_struct_exists_creates_once() {
    let mut doc = base_status();
    assert_eq!(doc.sensors, None);
    doc.ensure_sensors_struct_exists();
    assert_eq!(doc.sensors, Some(Sensors { temperature: Vec::new(), humidity: Vec::new() }));
    doc.sensors.as_mut().unwrap().humidity.push(SensorReading {
        name: None,
        location: "x".to_string(),
        description: None,
        unit: "%".to_string(),
        value: Some(1),
    });
    let before = doc.clone();
    doc.ensure_sensors_struct_exists();
    assert_eq!(doc, before);
}

#[test]
fn loop_step_table() {
    let cases = [
        (RenderLoop::Quiet, LoopEvent::Notified, RenderLoop::Pending, LoopAction::Wait),
        (RenderLoop::Quiet, LoopEvent::TimedOut, RenderLoop::Quiet, LoopAction::Wait),
        (RenderLoop::Quiet, LoopEvent::Shutdown, RenderLoop::Stopped, LoopAction::Stop),
        (RenderLoop::Pending, LoopEvent::Notified, RenderLoop::Pending, LoopAction::Wait),
        (RenderLoop::Pending, LoopEvent::TimedOut, RenderLoop::Quiet, LoopAction::Render),
        (RenderLoop::Pending, LoopEvent::Shutdown, RenderLoop::Stopped, LoopAction::Stop),
        (RenderLoop::Stopped, LoopEvent::Notified, RenderLoop::Stopped, LoopAction::Stop),
        (RenderLoop::Stopped, LoopEvent::TimedOut, RenderLoop::Stopped, LoopAction::Stop),
        (RenderLoop::Stopped, LoopEvent::Shutdown, RenderLoop::Stopped, LoopAction::Stop),
    ];
    for (state, event, next, action) in cases {
        let mut machine = state;
        assert_eq!(machine.step(event), action);
        assert_eq!(machine, next);
    }
    assert_eq!(RenderLoop::new(), RenderLoop::Quiet);
    assert_eq!(UPDATE_TIMEOUT_SECS, 2);
    assert_eq!(NOTIFICATION_CAPACITY, 32);
}

#[test]
fn fifty_messages_render_once_with_the_final_value() {
    let mut status = two_sensors();
    let mut machine = RenderLoop::new();
    let mut renders = 0;
    let mut publishes = 0;
    for i in 0..50 {
        let payload = format!("{}.5", i);
        if status.deliver("t/1", &payload).accepted {
            let (action, outcome) = machine.drive(&mut status, LoopEvent::Notified);
            assert_eq!(action, LoopAction::Wait);
            assert_eq!(outcome, None);
        }
    }
    assert_eq!(status.get(), base_status());
    for _ in 0..3 {
        let (action, outcome) = machine.drive(&mut status, LoopEvent::TimedOut);
        if action == LoopAction::Render {
            renders += 1;
            if outcome.unwrap().document_changed {
                publishes += 1;
            }
        } else {
            assert_eq!(outcome, None);
        }
    }
    assert_eq!(renders, 1);
    assert_eq!(publishes, 1);
    assert_eq!(machine, RenderLoop::Quiet);
    assert_eq!(value_of(&status.get(), "Main"), Some(49.5));
}

#[test]
fn no_render_after_shutdown() {
    let mut status = two_sensors();
    let mut machine = RenderLoop::new();
    status.deliver("t/1", "21.5");
    machine.drive(&mut status, LoopEvent::Notified);
    machine.drive(&mut status, LoopEvent::TimedOut);
    let served = status.get();
    assert_eq!(value_of(&served, "Main"), Some(21.5));
    status.deliver("t/1", "30");
    machine.drive(&mut status, LoopEvent::Notified);
    assert_eq!(machine.drive(&mut status, LoopEvent::Shutdown), (LoopAction::Stop, None));
    assert_eq!(machine, RenderLoop::Stopped);
    status.deliver("t/1", "31");
    for event in [LoopEvent::Notified, LoopEvent::TimedOut, LoopEvent::Notified, LoopEvent::TimedOut] {
        assert_eq!(machine.drive(&mut status, event), (LoopAction::Stop, None));
    }
    assert_eq!(status.get(), served);
}

#[test]
fn task_failure_escalates_only_without_shutdown() {
    assert!(escalates(true, false));
    assert!(!escalates(true, true));
    assert!(!escalates(false, false));
    assert!(!escalates(false, true));
}

#[test]
fn makerspace_base_document() {
    let doc = base_status();
    assert_eq!(doc.space, "Maker Space");
    assert_eq!(
        doc.logo,
        "http://makerspace.pbworks.com/w/file/fetch/43988924/makerspace_logo.png"
    );
    assert_eq!(doc.url, "https://www.makerspace.org.uk/");
    assert_eq!(doc.location.lat_microdeg, 54965200);
    assert_eq!(doc.location.lon_microdeg, -1602330);
    assert_eq!(doc.location.lat_microdeg as f64 / 1e6, 54.9652);
    assert_eq!(doc.location.lon_microdeg as f64 / 1e6, -1.60233);
    assert_eq!(doc.location.timezone, Some("Europe/London".to_string()));
    assert_eq!(doc.contact.twitter, Some("@maker_space".to_string()));
    assert_eq!(doc.links.len(), 2);
    assert_eq!(doc.links[1].url, "https://groups.google.com/g/north-east-makers");
    assert_eq!(doc.projects, vec!["https://github.com/MakerSpaceNewcastle".to_string()]);
    assert_eq!(doc.state, Some(State { open: Some(false), message: None }));
    assert_eq!(doc.sensors, None);
}

#[test]
fn makerspace_registers_twelve_sensors() {
    let status = build_status();
    assert_eq!(status.get(), base_status());
    assert_eq!(status.mutator_count(), 12);
    let places = [
        "Ground Floor - Main Space",
        "Basement - Near Workbee CNC",
        "Basement - Opposite wall to Workbee CNC",
        "Basement - Near Bandsaw",
        "Basement - Near Wood Store",
        "Basement - Inside Old Barrel Drop",
    ];
    let sensors = status.base().sensors.unwrap();
    assert_eq!(sensors.temperature.len(), 6);
    assert_eq!(sensors.humidity.len(), 6);
    for i in 0..6 {
        let t = status.mutator(2 * i).unwrap();
        let h = status.mutator(2 * i + 1).unwrap();
        assert_eq!(t, Mutator::new(&format!("makerspace/sensors/{}/temperature", 10 + i), MutatorKind::Temperature, i));
        assert_eq!(h, Mutator::new(&format!("makerspace/sensors/{}/humidity", 10 + i), MutatorKind::Humidity, i));
        assert_eq!(sensors.temperature[i].location, places[i]);
        assert_eq!(sensors.temperature[i].unit, "\u{b0}C");
        assert_eq!(sensors.temperature[i].name, None);
        assert_eq!(sensors.humidity[i].location, places[i]);
        assert_eq!(sensors.humidity[i].unit, "%");
        assert_eq!(sensors.humidity[i].value, None);
    }
}

#[test]
fn add_mutators_extends_an_aggregator() {
    let mut status = SpaceStatus::new(base_status());
    add_temperature_sensor(&mut status, "t/0", "Yard");
    add_humidity_sensor(&mut status, "h/0", "Yard");
    add_mutators(&mut status);
    assert_eq!(status.mutator_count(), 14);
    assert_eq!(
        status.mutator(2).unwrap(),
        Mutator::new("makerspace/sensors/10/temperature", MutatorKind::Temperature, 1)
    );
    status.deliver("makerspace/sensors/12/humidity", "51");
    status.update_from_mutators();
    let sensors = status.get().sensors.unwrap();
    assert_eq!(sensors.humidity[3].value, Some(51.0f64.to_bits()));
    assert_eq!(sensors.humidity[3].location, "Basement - Opposite wall to Workbee CNC");
    assert_eq!(sensors.humidity[0].location, "Yard");
    assert_eq!(sensors.humidity[0].value, None);
}

#[test]
fn request_labels_keep_their_endpoint() {
    assert_eq!(RequestLabels::new(Endpoint::SpaceApi).endpoint(), Endpoint::SpaceApi);
    assert_eq!(
        RequestLabels::new(Endpoint::OpenBadgeSimple).endpoint(),
        Endpoint::OpenBadgeSimple
    );
    assert_eq!(RequestLabels::new(Endpoint::OpenBadgeFull).endpoint(), Endpoint::OpenBadgeFull);
    assert_ne!(RequestLabels::new(Endpoint::SpaceApi), RequestLabels::new(Endpoint::OpenBadgeFull));
}

#[test]
fn topics_in_registration_order() {
    let mut status = two_sensors();
    status.register_state_mutator("s/open", StateKind::Open);
    assert_eq!(
        status.topics(),
        vec!["t/1".to_string(), "h/1".to_string(), "s/open".to_string()]
    );
    assert_eq!(SpaceStatus::new(base_status()).topics(), Vec::<String>::new());
    assert_eq!(build_status().topics().len(), 12);
    assert_eq!(build_status().topics()[11], "makerspace/sensors/15/humidity");
}

#[test]
fn rejected_delivery_changes_no_mutator() {
    let mut status = two_sensors();
    status.deliver("t/1", "3.5");
    let before: Vec<Option<Mutator>> = (0..3).map(|i| status.mutator(i)).collect();
    let delivery = status.deliver("t/1", "three and a half");
    assert_eq!(delivery, Delivery { accepted: false, rejected: true });
    let after: Vec<Option<Mutator>> = (0..3).map(|i| status.mutator(i)).collect();
    assert_eq!(before, after);
}
