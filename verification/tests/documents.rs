use space_status::document::{
    links_copy, links_eq, opt_state_copy, opt_state_eq, readings_copy, readings_eq, Contact, Link,
    Location, SensorReading, Sensors, State, StatusDocument,
};
use space_status::makerspace::base_status;

fn reading(value: Option<u64>) -> SensorReading {
    SensorReading {
        name: Some("n".to_string()),
        location: "l".to_string(),
        description: Some("d".to_string()),
        unit: "u".to_string(),
        value,
    }
}

fn full_document() -> StatusDocument {
    let mut doc = base_status();
    doc.sensors = Some(Sensors {
        temperature: vec![reading(Some(21.5f64.to_bits())), reading(None)],
        humidity: vec![reading(Some(50.0f64.to_bits()))],
    });
    doc
}

#[test]
fn duplicate_is_equal_to_its_source() {
    let doc = full_document();
    let copy = doc.duplicate();
    assert_eq!(copy, doc);
    assert!(copy.same_as(&doc));
    assert!(doc.same_as(&copy));
    assert!(base_status().same_as(&base_status().duplicate()));
}

#[test]
fn same_as_sees_every_field() {
    let doc = full_document();
    let mut changed: Vec<StatusDocument> = Vec::new();
    let mut d = doc.clone();
    d.space.push('x');
    changed.push(d);
    let mut d = doc.clone();
    d.logo.push('x');
    changed.push(d);
    let mut d = doc.clone();
    d.url.push('x');
    changed.push(d);
    let mut d = doc.clone();
    d.location.address = None;
    changed.push(d);
    let mut d = doc.clone();
    d.location.lat_microdeg += 1;
    changed.push(d);
    let mut d = doc.clone();
    d.location.lon_microdeg -= 1;
    changed.push(d);
    let mut d = doc.clone();
    d.location.timezone = Some("UTC".to_string());
    changed.push(d);
    let mut d = doc.clone();
    d.contact.matrix = None;
    changed.push(d);
    let mut d = doc.clone();
    d.contact.ml = None;
    changed.push(d);
    let mut d = doc.clone();
    d.contact.twitter = Some("@other".to_string());
    changed.push(d);
    let mut d = doc.clone();
    d.links[0].name.push('x');
    changed.push(d);
    let mut d = doc.clone();
    d.links[1].url.push('x');
    changed.push(d);
    let mut d = doc.clone();
    d.links.pop();
    changed.push(d);
    let mut d = doc.clone();
    d.projects.push("p".to_string());
    changed.push(d);
    let mut d = doc.clone();
    d.state = None;
    changed.push(d);
    let mut d = doc.clone();
    d.state.as_mut().unwrap().open = Some(true);
    changed.push(d);
    let mut d = doc.clone();
    d.state.as_mut().unwrap().message = Some("m".to_string());
    changed.push(d);
    let mut d = doc.clone();
    d.sensors = None;
    changed.push(d);
    let mut d = doc.clone();
    d.sensors.as_mut().unwrap().temperature[0].value = Some(22.0f64.to_bits());
    changed.push(d);
    let mut d = doc.clone();
    d.sensors.as_mut().unwrap().temperature[1].value = Some(0);
    changed.push(d);
    let mut d = doc.clone();
    d.sensors.as_mut().unwrap().humidity[0].unit.push('x');
    changed.push(d);
    let mut d = doc.clone();
    d.sensors.as_mut().unwrap().humidity[0].name = None;
    changed.push(d);
    let mut d = doc.clone();
    d.sensors.as_mut().unwrap().humidity[0].location.push('x');
    changed.push(d);
    let mut d = doc.clone();
    d.sensors.as_mut().unwrap().humidity[0].description = None;
    changed.push(d);
    let mut d = doc.clone();
    d.sensors.as_mut().unwrap().humidity.pop();
    changed.push(d);
    for other in changed.iter() {
        assert!(!doc.same_as(other));
        assert!(!other.same_as(&doc));
        assert_ne!(&doc, other);
    }
}

#[test]
fn parts_copy_and_compare() {
    let location = Location {
        address: Some("a".to_string()),
        lat_microdeg: 1,
        lon_microdeg: -2,
        timezone: None,
    };
    assert_eq!(location.duplicate(), location);
    assert!(location.same_as(&location.duplicate()));
    let contact = Contact { matrix: None, ml: Some("m".to_string()), twitter: None };
    assert_eq!(contact.duplicate(), contact);
    assert!(contact.same_as(&contact.duplicate()));
    let state = State { open: Some(true), message: Some("m".to_string()) };
    assert_eq!(state.duplicate(), state);
    assert!(state.same_as(&state.duplicate()));
    assert!(!state.same_as(&State { open: None, message: Some("m".to_string()) }));
    assert!(!state.same_as(&State { open: Some(false), message: Some("m".to_string()) }));
    assert_eq!(opt_state_copy(&Some(state.clone())), Some(state.clone()));
    assert_eq!(opt_state_copy(&None), None);
    assert!(opt_state_eq(&None, &None));
    assert!(!opt_state_eq(&Some(state.clone()), &None));
    assert!(!opt_state_eq(&None, &Some(state.clone())));
    assert!(opt_state_eq(&Some(state.clone()), &Some(state.clone())));
    let r = reading(Some(3));
    assert_eq!(r.duplicate(), r);
    assert!(r.same_as(&r.duplicate()));
    assert!(!r.same_as(&reading(None)));
    assert!(!reading(None).same_as(&r));
    assert!(!r.same_as(&reading(Some(4))));
    let sensors = Sensors { temperature: vec![r.clone()], humidity: Vec::new() };
    assert_eq!(sensors.duplicate(), sensors);
    assert!(sensors.same_as(&sensors.duplicate()));
    assert!(!sensors.same_as(&Sensors::new()));
    assert_eq!(Sensors::new(), Sensors { temperature: Vec::new(), humidity: Vec::new() });
}

#[test]
fn lists_copy_and_compare() {
    let a = vec![
        Link { name: "n".to_string(), url: "u".to_string() },
        Link { name: "m".to_string(), url: "v".to_string() },
    ];
    let mut b = a.clone();
    b[1].url = "w".to_string();
    assert_eq!(links_copy(&a), a);
    assert!(links_eq(&a, &a.clone()));
    assert!(!links_eq(&a, &b));
    assert!(!links_eq(&a, &a[..1].to_vec()));
    let r = vec![reading(Some(1)), reading(None)];
    let mut s = r.clone();
    s[0].value = Some(2);
    assert_eq!(readings_copy(&r), r);
    assert!(readings_eq(&r, &r.clone()));
    assert!(!readings_eq(&r, &s));
    assert!(!readings_eq(&r, &r[..1].to_vec()));
}
