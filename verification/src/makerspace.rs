//! The Maker Space: its base document and the sensors it registers.

use vstd::prelude::*;
use crate::document::{
    Contact, ContactView, DocumentView, Link, LinkView, Location, LocationView, ReadingView,
    SensorReading, State, StateView, StatusDocument, links,
};
use crate::mutator::{MutatorView, StoredView};
use crate::status::{SensorKind, SpaceStatus, sensor_count, with_sensor};
use crate::text::texts;

verus! {

/// The base document of the Maker Space: closed, and without sensors.
pub open spec fn makerspace_base() -> DocumentView {
    DocumentView {
        space: "Maker Space"@,
        logo: "http://makerspace.pbworks.com/w/file/fetch/43988924/makerspace_logo.png"@,
        url: "https://www.makerspace.org.uk/"@,
        location: LocationView {
            address: Some(
                "Maker Space, c/o Orbis Community, Ground Floor, 65 High Street, Gateshead, NE8 2AP"@,
            ),
            lat_microdeg: 54965200,
            lon_microdeg: -1602330,
            timezone: Some("Europe/London"@),
        },
        contact: ContactView {
            matrix: Some("#makerspace-ncl:matrix.org"@),
            ml: Some("north-east-makers@googlegroups.com"@),
            twitter: Some("@maker_space"@),
        },
        links: seq![
            LinkView { name: "Maker Space Wiki"@, url: "http://makerspace.pbworks.com"@ },
            LinkView {
                name: "North East Makers mailing list"@,
                url: "https://groups.google.com/g/north-east-makers"@,
            },
        ],
        projects: seq!["https://github.com/MakerSpaceNewcastle"@],
        state: Some(StateView { open: Some(false), message: None }),
        sensors: None,
    }
}

/// The entry of a sensor as it is registered: a location and a unit, no
/// name, no description and no value yet.
pub open spec fn placeholder(location: Seq<char>, kind: SensorKind) -> ReadingView {
    ReadingView {
        name: None,
        location: location,
        description: None,
        unit: kind.unit_spec(),
        value: None,
    }
}

/// A base document and its mutators after one more sensor was registered.
pub open spec fn with_registered(
    s: (DocumentView, Seq<MutatorView>),
    kind: SensorKind,
    topic: Seq<char>,
    location: Seq<char>,
) -> (DocumentView, Seq<MutatorView>) {
    (
        with_sensor(s.0, kind, placeholder(location, kind)),
        s.1.push(
            MutatorView {
                topic: topic,
                kind: kind.mutator_kind(),
                index: sensor_count(s.0, kind),
                stored: StoredView::Nothing,
            },
        ),
    )
}

/// A base document and its mutators after the temperature sensor and the
/// humidity sensor of one place were registered, in that order.
pub open spec fn with_site(
    s: (DocumentView, Seq<MutatorView>),
    temperature_topic: Seq<char>,
    humidity_topic: Seq<char>,
    location: Seq<char>,
) -> (DocumentView, Seq<MutatorView>) {
    with_registered(
        with_registered(s, SensorKind::Temperature, temperature_topic, location),
        SensorKind::Humidity,
        humidity_topic,
        location,
    )
}

/// A base document and its mutators after the six places of the Maker
/// Space were registered, each with its two topics.
pub open spec fn with_makerspace_sensors(s: (DocumentView, Seq<MutatorView>)) -> (
    DocumentView,
    Seq<MutatorView>,
) {
    let s10 = with_site(
        s,
        "makerspace/sensors/10/temperature"@,
        "makerspace/sensors/10/humidity"@,
        "Ground Floor - Main Space"@,
    );
    let s11 = with_site(
        s10,
        "makerspace/sensors/11/temperature"@,
        "makerspace/sensors/11/humidity"@,
        "Basement - Near Workbee CNC"@,
    );
    let s12 = with_site(
        s11,
        "makerspace/sensors/12/temperature"@,
        "makerspace/sensors/12/humidity"@,
        "Basement - Opposite wall to Workbee CNC"@,
    );
    let s13 = with_site(
        s12,
        "makerspace/sensors/13/temperature"@,
        "makerspace/sensors/13/humidity"@,
        "Basement - Near Bandsaw"@,
    );
    let s14 = with_site(
        s13,
        "makerspace/sensors/14/temperature"@,
        "makerspace/sensors/14/humidity"@,
        "Basement - Near Wood Store"@,
    );
    with_site(
        s14,
        "makerspace/sensors/15/temperature"@,
        "makerspace/sensors/15/humidity"@,
        "Basement - Inside Old Barrel Drop"@,
    )
}

/// The base document of the Maker Space.
pub fn base_status() -> (doc: StatusDocument)
    ensures
        doc@ == makerspace_base(),
{
    let mut all_links: Vec<Link> = Vec::new();
    all_links.push(
        Link {
            name: "Maker Space Wiki".to_owned(),
            url: "http://makerspace.pbworks.com".to_owned(),
        },
    );
    all_links.push(
        Link {
            name: "North East Makers mailing list".to_owned(),
            url: "https://groups.google.com/g/north-east-makers".to_owned(),
        },
    );
    let mut projects: Vec<String> = Vec::new();
    projects.push("https://github.com/MakerSpaceNewcastle".to_owned());
    let doc = StatusDocument {
        space: "Maker Space".to_owned(),
        logo: "http://makerspace.pbworks.com/w/file/fetch/43988924/makerspace_logo.png".to_owned(),
        url: "https://www.makerspace.org.uk/".to_owned(),
        location: Location {
            address: Some(
                "Maker Space, c/o Orbis Community, Ground Floor, 65 High Street, Gateshead, NE8 2AP".to_owned(),
            ),
            lat_microdeg: 54965200,
            lon_microdeg: -1602330,
            timezone: Some("Europe/London".to_owned()),
        },
        contact: Contact {
            matrix: Some("#makerspace-ncl:matrix.org".to_owned()),
            ml: Some("north-east-makers@googlegroups.com".to_owned()),
            twitter: Some("@maker_space".to_owned()),
        },
        links: all_links,
        projects,
        state: Some(State { open: Some(false), message: None }),
        sensors: None,
    };
    proof {
        assert(links(doc.links@) =~= makerspace_base().links);
        assert(texts(doc.projects@) =~= makerspace_base().projects);
    }
    doc
}

/// Registers the temperature sensor of a place: its entry, in degrees
/// Celsius and without a value, and the mutator of its topic.
pub fn add_temperature_sensor(status: &mut SpaceStatus, topic: &str, location: &str)
    ensures
        old(status).wf() ==> final(status).wf(),
        final(status).rendered_view() == old(status).rendered_view(),
        (final(status).base_view(), final(status).mutator_views()) == with_registered(
            (old(status).base_view(), old(status).mutator_views()),
            SensorKind::Temperature,
            topic@,
            location@,
        ),
{
    let entry = SensorReading {
        name: None,
        location: location.to_owned(),
        description: None,
        unit: SensorKind::Temperature.unit(),
        value: None,
    };
    status.register_sensor_entry(entry, topic, SensorKind::Temperature);
}

/// Registers the humidity sensor of a place: its entry, in per cent and
/// without a value, and the mutator of its topic.
pub fn add_humidity_sensor(status: &mut SpaceStatus, topic: &str, location: &str)
    ensures
        old(status).wf() ==> final(status).wf(),
        final(status).rendered_view() == old(status).rendered_view(),
        (final(status).base_view(), final(status).mutator_views()) == with_registered(
            (old(status).base_view(), old(status).mutator_views()),
            SensorKind::Humidity,
            topic@,
            location@,
        ),
{
    let entry = SensorReading {
        name: None,
        location: location.to_owned(),
        description: None,
        unit: SensorKind::Humidity.unit(),
        value: None,
    };
    status.register_sensor_entry(entry, topic, SensorKind::Humidity);
}

/// Registers the two sensors of a place, temperature first.
fn add_site(status: &mut SpaceStatus, temperature_topic: &str, humidity_topic: &str, location: &str)
    ensures
        old(status).wf() ==> final(status).wf(),
        final(status).rendered_view() == old(status).rendered_view(),
        (final(status).base_view(), final(status).mutator_views()) == with_site(
            (old(status).base_view(), old(status).mutator_views()),
            temperature_topic@,
            humidity_topic@,
            location@,
        ),
{
    add_temperature_sensor(status, temperature_topic, location);
    add_humidity_sensor(status, humidity_topic, location);
}

/// Registers every sensor of the Maker Space: a temperature and a humidity
/// sensor in each of its six places.
pub fn add_mutators(status: &mut SpaceStatus)
    ensures
        old(status).wf() ==> final(status).wf(),
        final(status).rendered_view() == old(status).rendered_view(),
        (final(status).base_view(), final(status).mutator_views()) == with_makerspace_sensors(
            (old(status).base_view(), old(status).mutator_views()),
        ),
{
    add_site(
        status,
        "makerspace/sensors/10/temperature",
        "makerspace/sensors/10/humidity",
        "Ground Floor - Main Space",
    );
    add_site(
        status,
        "makerspace/sensors/11/temperature",
        "makerspace/sensors/11/humidity",
        "Basement - Near Workbee CNC",
    );
    add_site(
        status,
        "makerspace/sensors/12/temperature",
        "makerspace/sensors/12/humidity",
        "Basement - Opposite wall to Workbee CNC",
    );
    add_site(
        status,
        "makerspace/sensors/13/temperature",
        "makerspace/sensors/13/humidity",
        "Basement - Near Bandsaw",
    );
    add_site(
        status,
        "makerspace/sensors/14/temperature",
        "makerspace/sensors/14/humidity",
        "Basement - Near Wood Store",
    );
    add_site(
        status,
        "makerspace/sensors/15/temperature",
        "makerspace/sensors/15/humidity",
        "Basement - Inside Old Barrel Drop",
    );
}

/// The aggregator of the Maker Space: its base document is served until
/// the first render, and all its sensors are registered.
pub fn build_status() -> (status: SpaceStatus)
    ensures
        status.wf(),
        status.rendered_view() == makerspace_base(),
        (status.base_view(), status.mutator_views()) == with_makerspace_sensors(
            (makerspace_base(), Seq::<MutatorView>::empty()),
        ),
{
    let mut status = SpaceStatus::new(base_status());
    add_mutators(&mut status);
    status
}

} // verus!
