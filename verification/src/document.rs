//! The status document: identifying metadata, the open/closed state and the
//! sensor readings, each with a mathematical view over which the contracts of
//! the rest of the crate are stated.
//!
//! A reading's value is carried as the bit pattern of an IEEE 754 binary64
//! number, so that two documents are equal exactly when all their fields are.
//! Coordinates are carried in millionths of a degree.

use vstd::prelude::*;
use crate::text::{opt_text, opt_text_copy, opt_text_eq, texts, texts_copy, texts_eq};

verus! {

/// Where the space is.
#[derive(Clone, Debug, PartialEq, Eq)]
pub struct Location {
    pub address: Option<String>,
    pub lat_microdeg: i64,
    pub lon_microdeg: i64,
    pub timezone: Option<String>,
}

pub ghost struct LocationView {
    pub address: Option<Seq<char>>,
    pub lat_microdeg: int,
    pub lon_microdeg: int,
    pub timezone: Option<Seq<char>>,
}

impl View for Location {
    type V = LocationView;

    open spec fn view(&self) -> LocationView {
        LocationView {
            address: opt_text(self.address),
            lat_microdeg: self.lat_microdeg as int,
            lon_microdeg: self.lon_microdeg as int,
            timezone: opt_text(self.timezone),
        }
    }
}

impl Location {
    /// A copy with the same view.
    pub fn duplicate(&self) -> (r: Location)
        ensures
            r@ == self@,
    {
        Location {
            address: opt_text_copy(&self.address),
            lat_microdeg: self.lat_microdeg,
            lon_microdeg: self.lon_microdeg,
            timezone: opt_text_copy(&self.timezone),
        }
    }

    /// Structural equality.
    pub fn same_as(&self, other: &Location) -> (r: bool)
        ensures
            r == (self@ == other@),
    {
        opt_text_eq(&self.address, &other.address) && self.lat_microdeg == other.lat_microdeg
            && self.lon_microdeg == other.lon_microdeg && opt_text_eq(
            &self.timezone,
            &other.timezone,
        )
    }
}

/// How to reach the space.
#[derive(Clone, Debug, PartialEq, Eq)]
pub struct Contact {
    pub matrix: Option<String>,
    pub ml: Option<String>,
    pub twitter: Option<String>,
}

pub ghost struct ContactView {
    pub matrix: Option<Seq<char>>,
    pub ml: Option<Seq<char>>,
    pub twitter: Option<Seq<char>>,
}

impl View for Contact {
    type V = ContactView;

    open spec fn view(&self) -> ContactView {
        ContactView {
            matrix: opt_text(self.matrix),
            ml: opt_text(self.ml),
            twitter: opt_text(self.twitter),
        }
    }
}

impl Contact {
    /// A copy with the same view.
    pub fn duplicate(&self) -> (r: Contact)
        ensures
            r@ == self@,
    {
        Contact {
            matrix: opt_text_copy(&self.matrix),
            ml: opt_text_copy(&self.ml),
            twitter: opt_text_copy(&self.twitter),
        }
    }

    /// Structural equality.
    pub fn same_as(&self, other: &Contact) -> (r: bool)
        ensures
            r == (self@ == other@),
    {
        opt_text_eq(&self.matrix, &other.matrix) && opt_text_eq(&self.ml, &other.ml)
            && opt_text_eq(&self.twitter, &other.twitter)
    }
}

/// A named link.
#[derive(Clone, Debug, PartialEq, Eq)]
pub struct Link {
    pub name: String,
    pub url: String,
}

pub ghost struct LinkView {
    pub name: Seq<char>,
    pub url: Seq<char>,
}

impl View for Link {
    type V = LinkView;

    open spec fn view(&self) -> LinkView {
        LinkView { name: self.name@, url: self.url@ }
    }
}

/// Views of a sequence of links, element by element.
pub open spec fn links(v: Seq<Link>) -> Seq<LinkView> {
    Seq::new(v.len(), |i: int| v[i]@)
}

/// Copies a list of links.
pub fn links_copy(v: &Vec<Link>) -> (r: Vec<Link>)
    ensures
        links(r@) == links(v@),
{
    let mut r: Vec<Link> = Vec::new();
    let mut i: usize = 0;
    while i < v.len()
        invariant
            i <= v.len(),
            r@.len() == i,
            forall|j: int| 0 <= j < i ==> r@[j]@ == v@[j]@,
        decreases v.len() - i,
    {
        r.push(Link { name: v[i].name.clone(), url: v[i].url.clone() });
        i = i + 1;
    }
    assert(links(r@) =~= links(v@));
    r
}

/// Whether two lists of links are equal, element by element.
pub fn links_eq(a: &Vec<Link>, b: &Vec<Link>) -> (r: bool)
    ensures
        r == (links(a@) == links(b@)),
{
    if a.len() != b.len() {
        assert(links(a@).len() != links(b@).len());
        return false;
    }
    let mut i: usize = 0;
    while i < a.len()
        invariant
            i <= a.len(),
            a.len() == b.len(),
            forall|j: int| 0 <= j < i ==> a@[j]@ == b@[j]@,
        decreases a.len() - i,
    {
        if a[i].name != b[i].name || a[i].url != b[i].url {
            assert(links(a@)[i as int] != links(b@)[i as int]);
            return false;
        }
        i = i + 1;
    }
    assert(links(a@) =~= links(b@));
    true
}

/// Whether the space is open, and an optional message about it.
#[derive(Clone, Debug, PartialEq, Eq)]
pub struct State {
    pub open: Option<bool>,
    pub message: Option<String>,
}

pub ghost struct StateView {
    pub open: Option<bool>,
    pub message: Option<Seq<char>>,
}

impl View for State {
    type V = StateView;

    open spec fn view(&self) -> StateView {
        StateView { open: self.open, message: opt_text(self.message) }
    }
}

/// View of an optional state.
pub open spec fn opt_state(o: Option<State>) -> Option<StateView> {
    match o {
        Some(s) => Some(s@),
        None => None,
    }
}

impl State {
    /// A copy with the same view.
    pub fn duplicate(&self) -> (r: State)
        ensures
            r@ == self@,
    {
        State { open: self.open, message: opt_text_copy(&self.message) }
    }

    /// Structural equality.
    pub fn same_as(&self, other: &State) -> (r: bool)
        ensures
            r == (self@ == other@),
    {
        let open_eq = match self.open {
            Some(x) => match other.open {
                Some(y) => x == y,
                None => false,
            },
            None => other.open.is_none(),
        };
        open_eq && opt_text_eq(&self.message, &other.message)
    }
}

/// Copies an optional state.
pub fn opt_state_copy(o: &Option<State>) -> (r: Option<State>)
    ensures
        opt_state(r) == opt_state(*o),
{
    match o {
        Some(s) => Some(s.duplicate()),
        None => None,
    }
}

/// Whether two optional states are equal.
pub fn opt_state_eq(a: &Option<State>, b: &Option<State>) -> (r: bool)
    ensures
        r == (opt_state(*a) == opt_state(*b)),
{
    match a {
        Some(x) => match b {
            Some(y) => x.same_as(y),
            None => false,
        },
        None => b.is_none(),
    }
}

/// One sensor of the space: who and where it is, its unit, and its latest
/// value as the bits of a binary64 number (`None` until a value arrived).
#[derive(Clone, Debug, PartialEq, Eq)]
pub struct SensorReading {
    pub name: Option<String>,
    pub location: String,
    pub description: Option<String>,
    pub unit: String,
    pub value: Option<u64>,
}

pub ghost struct ReadingView {
    pub name: Option<Seq<char>>,
    pub location: Seq<char>,
    pub description: Option<Seq<char>>,
    pub unit: Seq<char>,
    pub value: Option<u64>,
}

impl View for SensorReading {
    type V = ReadingView;

    open spec fn view(&self) -> ReadingView {
        ReadingView {
            name: opt_text(self.name),
            location: self.location@,
            description: opt_text(self.description),
            unit: self.unit@,
            value: self.value,
        }
    }
}

impl SensorReading {
    /// A copy with the same view.
    pub fn duplicate(&self) -> (r: SensorReading)
        ensures
            r@ == self@,
    {
        SensorReading {
            name: opt_text_copy(&self.name),
            location: self.location.clone(),
            description: opt_text_copy(&self.description),
            unit: self.unit.clone(),
            value: self.value,
        }
    }

    /// Structural equality.
    pub fn same_as(&self, other: &SensorReading) -> (r: bool)
        ensures
            r == (self@ == other@),
    {
        let value_eq = match self.value {
            Some(x) => match other.value {
                Some(y) => x == y,
                None => false,
            },
            None => other.value.is_none(),
        };
        value_eq && opt_text_eq(&self.name, &other.name) && self.location == other.location
            && opt_text_eq(&self.description, &other.description) && self.unit == other.unit
    }
}

/// Views of a sequence of readings, element by element.
pub open spec fn readings(v: Seq<SensorReading>) -> Seq<ReadingView> {
    Seq::new(v.len(), |i: int| v[i]@)
}

/// Copies a list of readings.
pub fn readings_copy(v: &Vec<SensorReading>) -> (r: Vec<SensorReading>)
    ensures
        readings(r@) == readings(v@),
{
    let mut r: Vec<SensorReading> = Vec::new();
    let mut i: usize = 0;
    while i < v.len()
        invariant
            i <= v.len(),
            r@.len() == i,
            forall|j: int| 0 <= j < i ==> r@[j]@ == v@[j]@,
        decreases v.len() - i,
    {
        r.push(v[i].duplicate());
        i = i + 1;
    }
    assert(readings(r@) =~= readings(v@));
    r
}

/// Whether two lists of readings are equal, element by element.
pub fn readings_eq(a: &Vec<SensorReading>, b: &Vec<SensorReading>) -> (r: bool)
    ensures
        r == (readings(a@) == readings(b@)),
{
    if a.len() != b.len() {
        assert(readings(a@).len() != readings(b@).len());
        return false;
    }
    let mut i: usize = 0;
    while i < a.len()
        invariant
            i <= a.len(),
            a.len() == b.len(),
            forall|j: int| 0 <= j < i ==> a@[j]@ == b@[j]@,
        decreases a.len() - i,
    {
        if !a[i].same_as(&b[i]) {
            assert(readings(a@)[i as int] != readings(b@)[i as int]);
            return false;
        }
        i = i + 1;
    }
    assert(readings(a@) =~= readings(b@));
    true
}

/// The sensors of the space, by kind, each list in registration order.
#[derive(Clone, Debug, PartialEq, Eq)]
pub struct Sensors {
    pub temperature: Vec<SensorReading>,
    pub humidity: Vec<SensorReading>,
}

pub ghost struct SensorsView {
    pub temperature: Seq<ReadingView>,
    pub humidity: Seq<ReadingView>,
}

impl View for Sensors {
    type V = SensorsView;

    open spec fn view(&self) -> SensorsView {
        SensorsView {
            temperature: readings(self.temperature@),
            humidity: readings(self.humidity@),
        }
    }
}

/// View of an optional sensor collection.
pub open spec fn opt_sensors(o: Option<Sensors>) -> Option<SensorsView> {
    match o {
        Some(s) => Some(s@),
        None => None,
    }
}

impl Sensors {
    /// A collection without any sensor.
    pub fn new() -> (r: Sensors)
        ensures
            r@ == (SensorsView { temperature: Seq::empty(), humidity: Seq::empty() }),
    {
        let r = Sensors { temperature: Vec::new(), humidity: Vec::new() };
        assert(r@.temperature =~= Seq::empty());
        assert(r@.humidity =~= Seq::empty());
        r
    }

    /// A copy with the same view.
    pub fn duplicate(&self) -> (r: Sensors)
        ensures
            r@ == self@,
    {
        Sensors {
            temperature: readings_copy(&self.temperature),
            humidity: readings_copy(&self.humidity),
        }
    }

    /// Structural equality.
    pub fn same_as(&self, other: &Sensors) -> (r: bool)
        ensures
            r == (self@ == other@),
    {
        readings_eq(&self.temperature, &other.temperature) && readings_eq(
            &self.humidity,
            &other.humidity,
        )
    }
}

/// The status of the space as it is served and published.
#[derive(Clone, Debug, PartialEq, Eq)]
pub struct StatusDocument {
    pub space: String,
    pub logo: String,
    pub url: String,
    pub location: Location,
    pub contact: Contact,
    pub links: Vec<Link>,
    pub projects: Vec<String>,
    pub state: Option<State>,
    pub sensors: Option<Sensors>,
}

pub ghost struct DocumentView {
    pub space: Seq<char>,
    pub logo: Seq<char>,
    pub url: Seq<char>,
    pub location: LocationView,
    pub contact: ContactView,
    pub links: Seq<LinkView>,
    pub projects: Seq<Seq<char>>,
    pub state: Option<StateView>,
    pub sensors: Option<SensorsView>,
}

impl View for StatusDocument {
    type V = DocumentView;

    open spec fn view(&self) -> DocumentView {
        DocumentView {
            space: self.space@,
            logo: self.logo@,
            url: self.url@,
            location: self.location@,
            contact: self.contact@,
            links: links(self.links@),
            projects: texts(self.projects@),
            state: opt_state(self.state),
            sensors: opt_sensors(self.sensors),
        }
    }
}

impl StatusDocument {
    /// A deep copy: a document with the same view.
    pub fn duplicate(&self) -> (r: StatusDocument)
        ensures
            r@ == self@,
    {
        let sensors = match &self.sensors {
            Some(s) => Some(s.duplicate()),
            None => None,
        };
        StatusDocument {
            space: self.space.clone(),
            logo: self.logo.clone(),
            url: self.url.clone(),
            location: self.location.duplicate(),
            contact: self.contact.duplicate(),
            links: links_copy(&self.links),
            projects: texts_copy(&self.projects),
            state: opt_state_copy(&self.state),
            sensors,
        }
    }

    /// Structural equality: true exactly when every field of the two
    /// documents is equal.
    pub fn same_as(&self, other: &StatusDocument) -> (r: bool)
        ensures
            r == (self@ == other@),
    {
        let sensors_eq = match &self.sensors {
            Some(x) => match &other.sensors {
                Some(y) => x.same_as(y),
                None => false,
            },
            None => other.sensors.is_none(),
        };
        sensors_eq && opt_state_eq(&self.state, &other.state) && self.space == other.space
            && self.logo == other.logo && self.url == other.url && self.location.same_as(
            &other.location,
        ) && self.contact.same_as(&other.contact) && links_eq(&self.links, &other.links)
            && texts_eq(&self.projects, &other.projects)
    }
}

} // verus!
