//! Mutators: each binds one transport topic to one field of the status
//! document. A message on the topic is parsed and stored when it arrives;
//! the stored value is written into a working document during a render pass.

use vstd::prelude::*;
use vstd::string::*;
use spaceapi::sensors::SensorTemplate;
use crate::document::{
    DocumentView, ReadingView, SensorReading, SensorsView, State, StateView, StatusDocument,
    readings,
};
use crate::text::{opt_text, opt_text_copy};

verus! {

/// The field a mutator writes.
#[derive(Clone, Copy, Debug, PartialEq, Eq, Structural)]
pub enum MutatorKind {
    /// The value of a temperature sensor.
    Temperature,
    /// The value of a humidity sensor.
    Humidity,
    /// Whether the space is open.
    StateOpen,
    /// The free-text message of the state.
    StateMessage,
}

impl MutatorKind {
    /// Whether the kind writes a sensor value, so that its index matters.
    pub open spec fn is_sensor(self) -> bool {
        self == MutatorKind::Temperature || self == MutatorKind::Humidity
    }
}

/// Why a payload was not stored.
#[derive(Clone, Copy, Debug, PartialEq, Eq, Structural)]
pub enum ParseError {
    /// The payload of a numeric sensor is no number.
    NotANumber,
    /// The payload of the open flag is neither `true` nor `false`.
    NotABoolean,
}

/// The last value a mutator has seen.
#[derive(Clone, Debug, PartialEq, Eq)]
pub enum Stored {
    /// No message has been stored yet.
    Nothing,
    /// A number, as the bits of a binary64 value.
    Number(u64),
    /// An open flag.
    Flag(bool),
    /// A state message; `None` says that there is no message.
    Message(Option<String>),
}

pub ghost enum StoredView {
    Nothing,
    Number(u64),
    Flag(bool),
    Message(Option<Seq<char>>),
}

impl View for Stored {
    type V = StoredView;

    open spec fn view(&self) -> StoredView {
        match *self {
            Stored::Nothing => StoredView::Nothing,
            Stored::Number(b) => StoredView::Number(b),
            Stored::Flag(b) => StoredView::Flag(b),
            Stored::Message(m) => StoredView::Message(opt_text(m)),
        }
    }
}

/// A mutator: the topic it listens to, the field it owns (for a sensor, the
/// position of its entry in the list of its kind) and the last value stored.
#[derive(Clone, Debug, PartialEq, Eq)]
pub struct Mutator {
    pub topic: String,
    pub kind: MutatorKind,
    pub index: usize,
    pub stored: Stored,
}

pub ghost struct MutatorView {
    pub topic: Seq<char>,
    pub kind: MutatorKind,
    pub index: int,
    pub stored: StoredView,
}

impl View for Mutator {
    type V = MutatorView;

    open spec fn view(&self) -> MutatorView {
        MutatorView {
            topic: self.topic@,
            kind: self.kind,
            index: self.index as int,
            stored: self.stored@,
        }
    }
}

/// Views of a sequence of mutators, element by element.
pub open spec fn mutators(v: Seq<Mutator>) -> Seq<MutatorView> {
    Seq::new(v.len(), |i: int| v[i]@)
}

/// The bits of the value that a temperature sensor template of `spaceapi`
/// reads from a payload, or `None` where it rejects the payload.
pub uninterp spec fn temperature_bits(payload: Seq<char>) -> Option<u64>;

/// The bits of the value that a humidity sensor template of `spaceapi`
/// reads from a payload, or `None` where it rejects the payload.
pub uninterp spec fn humidity_bits(payload: Seq<char>) -> Option<u64>;

/// The text `true`.
pub open spec fn text_true() -> Seq<char> {
    seq!['t', 'r', 'u', 'e']
}

/// The text `false`.
pub open spec fn text_false() -> Seq<char> {
    seq!['f', 'a', 'l', 's', 'e']
}

/// The open flag that a payload spells: exactly `true` or `false`.
pub open spec fn flag_of(payload: Seq<char>) -> Option<bool> {
    if payload == text_true() {
        Some(true)
    } else if payload == text_false() {
        Some(false)
    } else {
        None
    }
}

/// The state message that a payload carries: none for the empty payload,
/// the payload itself otherwise.
pub open spec fn message_of(payload: Seq<char>) -> Option<Seq<char>> {
    if payload.len() == 0 {
        None
    } else {
        Some(payload)
    }
}

/// The number that a sensor of the given kind reads from a payload, as the
/// bits of a binary64 value; `None` where it rejects the payload, and for
/// a kind that is no sensor.
pub open spec fn reading_of(kind: MutatorKind, payload: Seq<char>) -> Option<u64> {
    match kind {
        MutatorKind::Temperature => temperature_bits(payload),
        MutatorKind::Humidity => humidity_bits(payload),
        _ => None,
    }
}

/// What a mutator of the given kind makes of a payload; `None` where the
/// payload is malformed for that kind.
pub open spec fn parsed(kind: MutatorKind, payload: Seq<char>) -> Option<StoredView> {
    match kind {
        MutatorKind::Temperature | MutatorKind::Humidity => match reading_of(kind, payload) {
            Some(b) => Some(StoredView::Number(b)),
            None => None,
        },
        MutatorKind::StateOpen => match flag_of(payload) {
            Some(b) => Some(StoredView::Flag(b)),
            None => None,
        },
        MutatorKind::StateMessage => Some(StoredView::Message(message_of(payload))),
    }
}

/// The mutator after a payload arrived on its topic: a well-formed payload
/// replaces the stored value, a malformed one leaves it as it was.
pub open spec fn store_spec(m: MutatorView, payload: Seq<char>) -> MutatorView {
    match parsed(m.kind, payload) {
        Some(s) => MutatorView { stored: s, ..m },
        None => m,
    }
}

/// The error that a malformed payload gives for a kind.
pub open spec fn error_of(kind: MutatorKind) -> ParseError {
    if kind == MutatorKind::StateOpen {
        ParseError::NotABoolean
    } else {
        ParseError::NotANumber
    }
}

/// A list of readings with the value of entry `k` replaced.
pub open spec fn with_value(list: Seq<ReadingView>, k: int, bits: u64) -> Seq<ReadingView> {
    if 0 <= k < list.len() {
        list.update(k, ReadingView { value: Some(bits), ..list[k] })
    } else {
        list
    }
}

/// The state with its open flag replaced; an absent state is created.
pub open spec fn with_open(state: Option<StateView>, open: bool) -> Option<StateView> {
    match state {
        Some(s) => Some(StateView { open: Some(open), ..s }),
        None => Some(StateView { open: Some(open), message: None }),
    }
}

/// The state with its message replaced; an absent state is created.
pub open spec fn with_message(state: Option<StateView>, message: Option<Seq<char>>) -> Option<
    StateView,
> {
    match state {
        Some(s) => Some(StateView { message: message, ..s }),
        None => Some(StateView { open: None, message: message }),
    }
}

/// The document after a mutator wrote its stored value into it. A mutator
/// that has stored nothing, or whose sensor entry the document lacks, leaves
/// the document as it is.
pub open spec fn apply_spec(m: MutatorView, d: DocumentView) -> DocumentView {
    match (m.kind, m.stored) {
        (MutatorKind::Temperature, StoredView::Number(b)) => match d.sensors {
            Some(s) => DocumentView {
                sensors: Some(
                    SensorsView { temperature: with_value(s.temperature, m.index, b), ..s },
                ),
                ..d
            },
            None => d,
        },
        (MutatorKind::Humidity, StoredView::Number(b)) => match d.sensors {
            Some(s) => DocumentView {
                sensors: Some(SensorsView { humidity: with_value(s.humidity, m.index, b), ..s }),
                ..d
            },
            None => d,
        },
        (MutatorKind::StateOpen, StoredView::Flag(b)) => DocumentView {
            state: with_open(d.state, b),
            ..d
        },
        (MutatorKind::StateMessage, StoredView::Message(msg)) => DocumentView {
            state: with_message(d.state, msg),
            ..d
        },
        _ => d,
    }
}

/// Calls `try_to_sensor` of `spaceapi`'s temperature sensor template on a
/// fresh sensor collection and hands back the bits of the value it pushed,
/// or `None` where it reported an error. The template reads the payload as
/// a binary64 number; the contract only names the outcome.
#[verifier::external_body]
fn read_temperature(payload: &str) -> (r: Option<u64>)
    ensures
        r == temperature_bits(payload@),
{
    let template = spaceapi::sensors::TemperatureSensorTemplate {
        metadata: Default::default(),
        unit: String::new(),
    };
    let mut sensors = spaceapi::sensors::Sensors::default();
    match template.try_to_sensor(payload, &mut sensors) {
        Ok(()) => sensors.temperature.pop().map(|s| s.value.to_bits()),
        Err(_) => None,
    }
}

/// Calls `try_to_sensor` of `spaceapi`'s humidity sensor template on a
/// fresh sensor collection and hands back the bits of the value it pushed,
/// or `None` where it reported an error. The template reads the payload as
/// a binary64 number; the contract only names the outcome.
#[verifier::external_body]
fn read_humidity(payload: &str) -> (r: Option<u64>)
    ensures
        r == humidity_bits(payload@),
{
    let template = spaceapi::sensors::HumiditySensorTemplate {
        metadata: Default::default(),
        unit: String::new(),
    };
    let mut sensors = spaceapi::sensors::Sensors::default();
    match template.try_to_sensor(payload, &mut sensors) {
        Ok(()) => sensors.humidity.pop().map(|s| s.value.to_bits()),
        Err(_) => None,
    }
}

/// Reads an open flag: `true` or `false`, spelled exactly so.
pub fn parse_flag(payload: &str) -> (r: Option<bool>)
    ensures
        r == flag_of(payload@),
{
    let n: usize = payload.unicode_len();
    if n == 4 {
        if payload.get_char(0) == 't' && payload.get_char(1) == 'r' && payload.get_char(2) == 'u'
            && payload.get_char(3) == 'e' {
            assert(payload@ =~= text_true());
            return Some(true);
        }
        return None;
    }
    if n == 5 {
        if payload.get_char(0) == 'f' && payload.get_char(1) == 'a' && payload.get_char(2) == 'l'
            && payload.get_char(3) == 's' && payload.get_char(4) == 'e' {
            assert(payload@ =~= text_false());
            return Some(false);
        }
        return None;
    }
    None
}

/// Reads a state message: none for the empty payload, else the payload.
pub fn parse_message(payload: &str) -> (r: Option<String>)
    ensures
        opt_text(r) == message_of(payload@),
{
    if payload.unicode_len() == 0 {
        None
    } else {
        Some(payload.to_owned())
    }
}

impl Mutator {
    /// A mutator for a topic and a field, with nothing stored yet.
    pub fn new(topic: &str, kind: MutatorKind, index: usize) -> (m: Mutator)
        ensures
            m@ == (MutatorView {
                topic: topic@,
                kind: kind,
                index: index as int,
                stored: StoredView::Nothing,
            }),
    {
        Mutator { topic: topic.to_owned(), kind, index, stored: Stored::Nothing }
    }

    /// A copy with the same view.
    pub fn duplicate(&self) -> (r: Mutator)
        ensures
            r@ == self@,
    {
        let stored = match &self.stored {
            Stored::Nothing => Stored::Nothing,
            Stored::Number(b) => Stored::Number(*b),
            Stored::Flag(b) => Stored::Flag(*b),
            Stored::Message(m) => Stored::Message(opt_text_copy(m)),
        };
        Mutator { topic: self.topic.clone(), kind: self.kind, index: self.index, stored }
    }

    /// Whether the mutator listens to exactly this topic.
    pub fn listens_to(&self, topic: &str) -> (r: bool)
        ensures
            r == (self.topic@ == topic@),
    {
        let other = topic.to_owned();
        self.topic == other
    }

    /// Stores what a numeric sensor read from a payload: a value replaces
    /// the stored one, a rejected payload leaves it and is reported.
    pub fn record_reading(&mut self, reading: Option<u64>) -> (r: Result<(), ParseError>)
        ensures
            match reading {
                Some(b) => r is Ok && final(self)@ == (MutatorView {
                    stored: StoredView::Number(b),
                    ..old(self)@
                }),
                None => r == Err::<(), ParseError>(ParseError::NotANumber) && final(self)@ == old(
                    self,
                )@,
            },
    {
        match reading {
            Some(b) => {
                self.stored = Stored::Number(b);
                Ok(())
            },
            None => Err(ParseError::NotANumber),
        }
    }

    /// Stores what an open flag mutator read from a payload: a flag
    /// replaces the stored one, a rejected payload leaves it and is reported.
    pub fn record_flag(&mut self, flag: Option<bool>) -> (r: Result<(), ParseError>)
        ensures
            match flag {
                Some(b) => r is Ok && final(self)@ == (MutatorView {
                    stored: StoredView::Flag(b),
                    ..old(self)@
                }),
                None => r == Err::<(), ParseError>(ParseError::NotABoolean) && final(self)@ == old(
                    self,
                )@,
            },
    {
        match flag {
            Some(b) => {
                self.stored = Stored::Flag(b);
                Ok(())
            },
            None => Err(ParseError::NotABoolean),
        }
    }

    /// Takes a payload that arrived on the mutator's topic. A well-formed
    /// payload replaces the stored value; a malformed one is reported and
    /// the value stored before stays.
    pub fn store(&mut self, payload: &str) -> (r: Result<(), ParseError>)
        ensures
            final(self)@ == store_spec(old(self)@, payload@),
            r is Ok <==> parsed(old(self).kind, payload@) is Some,
            r is Err ==> r == Err::<(), ParseError>(error_of(old(self).kind)),
    {
        match self.kind {
            MutatorKind::Temperature => {
                let reading = read_temperature(payload);
                self.record_reading(reading)
            },
            MutatorKind::Humidity => {
                let reading = read_humidity(payload);
                self.record_reading(reading)
            },
            MutatorKind::StateOpen => {
                let flag = parse_flag(payload);
                self.record_flag(flag)
            },
            MutatorKind::StateMessage => {
                self.stored = Stored::Message(parse_message(payload));
                Ok(())
            },
        }
    }

    /// Writes the stored value into the field that the mutator owns. Never
    /// fails: with nothing stored, or without the sensor entry, the
    /// document stays as it is.
    pub fn apply(&self, doc: &mut StatusDocument)
        ensures
            final(doc)@ == apply_spec(self@, old(doc)@),
    {
        match &self.stored {
            Stored::Nothing => {},
            Stored::Number(b) => {
                match &mut doc.sensors {
                    Some(s) => {
                        if self.kind == MutatorKind::Temperature {
                            set_value(&mut s.temperature, self.index, *b);
                        } else if self.kind == MutatorKind::Humidity {
                            set_value(&mut s.humidity, self.index, *b);
                        }
                    },
                    None => {},
                }
            },
            Stored::Flag(b) => {
                if self.kind == MutatorKind::StateOpen {
                    match &mut doc.state {
                        Some(s) => {
                            s.open = Some(*b);
                        },
                        None => {
                            doc.state = Some(State { open: Some(*b), message: None });
                        },
                    }
                }
            },
            Stored::Message(m) => {
                if self.kind == MutatorKind::StateMessage {
                    let message = opt_text_copy(m);
                    match &mut doc.state {
                        Some(s) => {
                            s.message = message;
                        },
                        None => {
                            doc.state = Some(State { open: None, message });
                        },
                    }
                }
            },
        }
    }
}

/// Replaces the value of entry `k` of a list of readings, if there is one.
pub fn set_value(list: &mut Vec<SensorReading>, k: usize, bits: u64)
    ensures
        readings(final(list)@) == with_value(readings(old(list)@), k as int, bits),
{
    if k < list.len() {
        list[k].value = Some(bits);
        assert(readings(list@) =~= with_value(readings(old(list)@), k as int, bits));
    }
}

} // verus!
