//! The status aggregator: the base document, the document last rendered and
//! the mutators in registration order. A render pass applies every mutator
//! to a fresh copy of the base document and says what has to be published.

use vstd::prelude::*;
use crate::document::{
    DocumentView, ReadingView, SensorReading, Sensors, SensorsView, StatusDocument, opt_state_eq,
};
use crate::text::texts;
use crate::mutator::{
    Mutator, MutatorKind, MutatorView, StoredView, apply_spec, mutators, parsed, store_spec,
};

verus! {

/// The kinds of sensor that can be registered.
#[derive(Clone, Copy, Debug, PartialEq, Eq, Structural)]
pub enum SensorKind {
    Temperature,
    Humidity,
}

/// The parts of the state that a topic can feed.
#[derive(Clone, Copy, Debug, PartialEq, Eq, Structural)]
pub enum StateKind {
    Open,
    Message,
}

impl SensorKind {
    /// The mutator kind that writes a sensor of this kind.
    pub open spec fn mutator_kind(self) -> MutatorKind {
        match self {
            SensorKind::Temperature => MutatorKind::Temperature,
            SensorKind::Humidity => MutatorKind::Humidity,
        }
    }

    /// The unit in which sensors of this kind report.
    pub open spec fn unit_spec(self) -> Seq<char> {
        match self {
            SensorKind::Temperature => seq!['\u{b0}', 'C'],
            SensorKind::Humidity => seq!['%'],
        }
    }

    /// The unit in which sensors of this kind report: degrees Celsius for a
    /// temperature, per cent for a humidity.
    pub fn unit(self) -> (r: String)
        ensures
            r@ == self.unit_spec(),
    {
        let mut r = String::new();
        match self {
            SensorKind::Temperature => {
                r.push('\u{b0}');
                r.push('C');
            },
            SensorKind::Humidity => {
                r.push('%');
            },
        }
        assert(r@ =~= self.unit_spec());
        r
    }

    /// The mutator kind that writes a sensor of this kind.
    pub fn to_mutator_kind(self) -> (r: MutatorKind)
        ensures
            r == self.mutator_kind(),
    {
        match self {
            SensorKind::Temperature => MutatorKind::Temperature,
            SensorKind::Humidity => MutatorKind::Humidity,
        }
    }
}

impl StateKind {
    /// The mutator kind that writes this part of the state.
    pub open spec fn mutator_kind(self) -> MutatorKind {
        match self {
            StateKind::Open => MutatorKind::StateOpen,
            StateKind::Message => MutatorKind::StateMessage,
        }
    }

    /// The mutator kind that writes this part of the state.
    pub fn to_mutator_kind(self) -> (r: MutatorKind)
        ensures
            r == self.mutator_kind(),
    {
        match self {
            StateKind::Open => MutatorKind::StateOpen,
            StateKind::Message => MutatorKind::StateMessage,
        }
    }
}

/// Whether two mutators own the same field of the document.
pub open spec fn same_target(a: MutatorView, b: MutatorView) -> bool {
    a.kind == b.kind && (a.kind.is_sensor() ==> a.index == b.index)
}

/// Whether the document holds the field that the mutator owns.
pub open spec fn has_entry(d: DocumentView, m: MutatorView) -> bool {
    match m.kind {
        MutatorKind::Temperature => d.sensors is Some && 0 <= m.index
            < d.sensors.unwrap().temperature.len(),
        MutatorKind::Humidity => d.sensors is Some && 0 <= m.index
            < d.sensors.unwrap().humidity.len(),
        _ => true,
    }
}

/// No two mutators own the same field.
pub open spec fn distinct_targets(ms: Seq<MutatorView>) -> bool {
    forall|i: int, j: int| 0 <= i < j < ms.len() ==> !same_target(#[trigger] ms[i], #[trigger] ms[j])
}

/// Validity of an aggregator: every mutator owns a field of its own, and
/// the base document holds the entry of every sensor mutator.
pub open spec fn well_formed(base: DocumentView, ms: Seq<MutatorView>) -> bool {
    &&& distinct_targets(ms)
    &&& forall|i: int| 0 <= i < ms.len() ==> has_entry(base, #[trigger] ms[i])
}

/// The document after the mutators were applied to it, first to last.
pub open spec fn apply_all(ms: Seq<MutatorView>, d: DocumentView) -> DocumentView
    decreases ms.len(),
{
    if ms.len() == 0 {
        d
    } else {
        apply_spec(ms.last(), apply_all(ms.drop_last(), d))
    }
}

/// The mutators after one message: those that listen to exactly its topic
/// have taken the payload, the others are as before.
pub open spec fn deliver_spec(ms: Seq<MutatorView>, topic: Seq<char>, payload: Seq<char>) -> Seq<
    MutatorView,
> {
    Seq::new(
        ms.len(),
        |i: int|
            if ms[i].topic == topic {
                store_spec(ms[i], payload)
            } else {
                ms[i]
            },
    )
}

/// The topics of the mutators, in order.
pub open spec fn topics_of(ms: Seq<MutatorView>) -> Seq<Seq<char>> {
    Seq::new(ms.len(), |i: int| ms[i].topic)
}

/// Whether some mutator listens to the topic and takes the payload.
pub open spec fn accepts(ms: Seq<MutatorView>, topic: Seq<char>, payload: Seq<char>) -> bool {
    exists|i: int|
        0 <= i < ms.len() && (#[trigger] ms[i]).topic == topic && parsed(ms[i].kind, payload)
            is Some
}

/// Whether some mutator listens to the topic and finds the payload malformed.
pub open spec fn rejects(ms: Seq<MutatorView>, topic: Seq<char>, payload: Seq<char>) -> bool {
    exists|i: int|
        0 <= i < ms.len() && (#[trigger] ms[i]).topic == topic && parsed(ms[i].kind, payload)
            is None
}

/// A document with one more sensor entry at the end of the list of its
/// kind; an absent sensor collection is created first.
pub open spec fn with_sensor(d: DocumentView, kind: SensorKind, entry: ReadingView) -> DocumentView {
    let s = match d.sensors {
        Some(s) => s,
        None => SensorsView { temperature: Seq::empty(), humidity: Seq::empty() },
    };
    match kind {
        SensorKind::Temperature => DocumentView {
            sensors: Some(SensorsView { temperature: s.temperature.push(entry), ..s }),
            ..d
        },
        SensorKind::Humidity => DocumentView {
            sensors: Some(SensorsView { humidity: s.humidity.push(entry), ..s }),
            ..d
        },
    }
}

/// How many sensors of a kind the document holds.
pub open spec fn sensor_count(d: DocumentView, kind: SensorKind) -> int {
    match d.sensors {
        Some(s) => match kind {
            SensorKind::Temperature => s.temperature.len() as int,
            SensorKind::Humidity => s.humidity.len() as int,
        },
        None => 0,
    }
}

/// What one message did to the mutators.
#[derive(Clone, Copy, Debug, PartialEq, Eq, Structural)]
pub struct Delivery {
    /// Some mutator stored the payload: a notification is due.
    pub accepted: bool,
    /// Some mutator found the payload malformed and kept its old value.
    pub rejected: bool,
}

/// What a render pass found: what has to be published.
#[derive(Clone, Copy, Debug, PartialEq, Eq, Structural)]
pub struct RenderOutcome {
    /// The state differs from the one last rendered: publish the state.
    pub state_changed: bool,
    /// The document differs from the one last rendered: publish it.
    pub document_changed: bool,
}

impl StatusDocument {
    /// Makes sure that the document has a sensor collection, creating an
    /// empty one where it has none.
    pub fn ensure_sensors_struct_exists(&mut self)
        ensures
            final(self)@ == (DocumentView {
                sensors: Some(
                    match old(self)@.sensors {
                        Some(s) => s,
                        None => SensorsView { temperature: Seq::empty(), humidity: Seq::empty() },
                    },
                ),
                ..old(self)@
            }),
    {
        if self.sensors.is_none() {
            self.sensors = Some(Sensors::new());
        }
    }
}

/// The aggregator.
pub struct SpaceStatus {
    base: StatusDocument,
    rendered: StatusDocument,
    mutators: Vec<Mutator>,
}

impl SpaceStatus {
    /// The base document: the status before any mutator has run.
    pub closed spec fn base_view(&self) -> DocumentView {
        self.base@
    }

    /// The document last rendered: what readers are served.
    pub closed spec fn rendered_view(&self) -> DocumentView {
        self.rendered@
    }

    /// The mutators, in registration order.
    pub closed spec fn mutator_views(&self) -> Seq<MutatorView> {
        mutators(self.mutators@)
    }

    /// Validity: see [`well_formed`].
    pub open spec fn wf(&self) -> bool {
        well_formed(self.base_view(), self.mutator_views())
    }

    /// An aggregator over a base document, without mutators. The base
    /// document is what readers are served until the first render pass.
    pub fn new(base_status: StatusDocument) -> (s: SpaceStatus)
        ensures
            s.wf(),
            s.base_view() == base_status@,
            s.rendered_view() == base_status@,
            s.mutator_views() == Seq::<MutatorView>::empty(),
    {
        let rendered = base_status.duplicate();
        let s = SpaceStatus { base: base_status, rendered, mutators: Vec::new() };
        assert(s.mutator_views() =~= Seq::<MutatorView>::empty());
        s
    }

    /// A deep copy of the document last rendered. Renders nothing.
    pub fn get(&self) -> (r: StatusDocument)
        ensures
            r@ == self.rendered_view(),
    {
        self.rendered.duplicate()
    }

    /// A deep copy of the base document.
    pub fn base(&self) -> (r: StatusDocument)
        ensures
            r@ == self.base_view(),
    {
        self.base.duplicate()
    }

    /// How many mutators are registered.
    pub fn mutator_count(&self) -> (n: usize)
        ensures
            n == self.mutator_views().len(),
    {
        self.mutators.len()
    }

    /// The topics to subscribe to: that of each mutator, in registration
    /// order.
    pub fn topics(&self) -> (r: Vec<String>)
        ensures
            texts(r@) == topics_of(self.mutator_views()),
    {
        let mut r: Vec<String> = Vec::new();
        let mut i: usize = 0;
        while i < self.mutators.len()
            invariant
                i <= self.mutators.len(),
                r@.len() == i,
                forall|j: int| 0 <= j < i ==> r@[j]@ == self.mutators@[j].topic@,
            decreases self.mutators.len() - i,
        {
            r.push(self.mutators[i].topic.clone());
            i = i + 1;
        }
        assert(texts(r@) =~= topics_of(self.mutator_views()));
        r
    }

    /// A copy of the mutator registered at position `i`, if there is one.
    pub fn mutator(&self, i: usize) -> (r: Option<Mutator>)
        ensures
            match r {
                Some(m) => i < self.mutator_views().len() && m@ == self.mutator_views()[i as int],
                None => i >= self.mutator_views().len(),
            },
    {
        if i < self.mutators.len() {
            Some(self.mutators[i].duplicate())
        } else {
            None
        }
    }

    /// Whether the base document holds the field that the mutator owns.
    fn base_has_entry(&self, mutator: &Mutator) -> (r: bool)
        ensures
            r == has_entry(self.base_view(), mutator@),
    {
        match mutator.kind {
            MutatorKind::Temperature => match &self.base.sensors {
                Some(s) => mutator.index < s.temperature.len(),
                None => false,
            },
            MutatorKind::Humidity => match &self.base.sensors {
                Some(s) => mutator.index < s.humidity.len(),
                None => false,
            },
            _ => true,
        }
    }

    /// Whether no registered mutator owns the field of this one.
    fn field_is_free(&self, mutator: &Mutator) -> (r: bool)
        ensures
            r == (forall|i: int|
                0 <= i < self.mutator_views().len() ==> !same_target(
                    #[trigger] self.mutator_views()[i],
                    mutator@,
                )),
    {
        let mut i: usize = 0;
        while i < self.mutators.len()
            invariant
                i <= self.mutators.len(),
                forall|j: int|
                    0 <= j < i ==> !same_target(#[trigger] self.mutator_views()[j], mutator@),
            decreases self.mutators.len() - i,
        {
            let m = &self.mutators[i];
            let clash = match m.kind {
                MutatorKind::Temperature => mutator.kind == MutatorKind::Temperature && m.index
                    == mutator.index,
                MutatorKind::Humidity => mutator.kind == MutatorKind::Humidity && m.index
                    == mutator.index,
                MutatorKind::StateOpen => mutator.kind == MutatorKind::StateOpen,
                MutatorKind::StateMessage => mutator.kind == MutatorKind::StateMessage,
            };
            if clash {
                assert(same_target(self.mutator_views()[i as int], mutator@));
                return false;
            }
            i = i + 1;
        }
        true
    }

    /// Appends a mutator, unless a registered mutator already owns its
    /// field or the base document lacks its sensor entry; then nothing
    /// changes and the result is `false`.
    pub fn add_mutator(&mut self, mutator: Mutator) -> (added: bool)
        ensures
            old(self).wf() ==> final(self).wf(),
            final(self).base_view() == old(self).base_view(),
            final(self).rendered_view() == old(self).rendered_view(),
            added == (has_entry(old(self).base_view(), mutator@) && forall|i: int|
                0 <= i < old(self).mutator_views().len() ==> !same_target(
                    #[trigger] old(self).mutator_views()[i],
                    mutator@,
                )),
            added ==> final(self).mutator_views() == old(self).mutator_views().push(mutator@),
            !added ==> final(self).mutator_views() == old(self).mutator_views(),
    {
        if !self.base_has_entry(&mutator) || !self.field_is_free(&mutator) {
            return false;
        }
        self.mutators.push(mutator);
        assert(self.mutator_views() =~= old(self).mutator_views().push(mutator@));
        true
    }

    /// Registers a mutator for a part of the state. The result is `false`,
    /// and nothing changes, where that part already has a mutator.
    pub fn register_state_mutator(&mut self, topic: &str, kind: StateKind) -> (added: bool)
        ensures
            old(self).wf() ==> final(self).wf(),
            final(self).base_view() == old(self).base_view(),
            final(self).rendered_view() == old(self).rendered_view(),
            added == (forall|i: int|
                0 <= i < old(self).mutator_views().len() ==> (
                #[trigger] old(self).mutator_views()[i]).kind != kind.mutator_kind()),
            added ==> final(self).mutator_views() == old(self).mutator_views().push(
                MutatorView {
                    topic: topic@,
                    kind: kind.mutator_kind(),
                    index: 0,
                    stored: StoredView::Nothing,
                },
            ),
            !added ==> final(self).mutator_views() == old(self).mutator_views(),
    {
        let m = Mutator::new(topic, kind.to_mutator_kind(), 0);
        self.add_mutator(m)
    }

    /// Registers a sensor whose entry is already made up: appends the entry
    /// to the base document, and a mutator that listens to `topic` and owns
    /// the value of that entry. The document last rendered is untouched.
    pub fn register_sensor_entry(&mut self, entry: SensorReading, topic: &str, kind: SensorKind)
        ensures
            old(self).wf() ==> final(self).wf(),
            final(self).rendered_view() == old(self).rendered_view(),
            final(self).base_view() == with_sensor(old(self).base_view(), kind, entry@),
            final(self).mutator_views() == old(self).mutator_views().push(
                MutatorView {
                    topic: topic@,
                    kind: kind.mutator_kind(),
                    index: sensor_count(old(self).base_view(), kind),
                    stored: StoredView::Nothing,
                },
            ),
    {
        let ghost entry_view = entry@;
        self.base.ensure_sensors_struct_exists();
        let mut index: usize = 0;
        match &mut self.base.sensors {
            Some(s) => {
                match kind {
                    SensorKind::Temperature => {
                        index = s.temperature.len();
                        s.temperature.push(entry);
                    },
                    SensorKind::Humidity => {
                        index = s.humidity.len();
                        s.humidity.push(entry);
                    },
                }
            },
            None => {},
        }
        let m = Mutator::new(topic, kind.to_mutator_kind(), index);
        self.mutators.push(m);
        proof {
            let old_base = old(self).base_view();
            let new_base = with_sensor(old_base, kind, entry_view);
            assert(self.base@.sensors.unwrap().temperature =~= new_base.sensors.unwrap().temperature);
            assert(self.base@.sensors.unwrap().humidity =~= new_base.sensors.unwrap().humidity);
            assert(self.base@ == new_base);
            assert(self.mutator_views() =~= old(self).mutator_views().push(m@));
            let ms = self.mutator_views();
            let old_ms = old(self).mutator_views();
            if old(self).wf() {
                assert forall|i: int| 0 <= i < ms.len() implies has_entry(
                    new_base,
                    #[trigger] ms[i],
                ) by {
                    if i < old_ms.len() {
                        assert(has_entry(old_base, old_ms[i]));
                    }
                }
                assert forall|i: int, j: int| 0 <= i < j < ms.len() implies !same_target(
                    #[trigger] ms[i],
                    #[trigger] ms[j],
                ) by {
                    if j < old_ms.len() {
                        assert(!same_target(old_ms[i], old_ms[j]));
                    } else {
                        assert(has_entry(old_base, old_ms[i]));
                    }
                }
            }
        }
    }

    /// Registers a sensor: appends its entry, with the unit of its kind and
    /// without a value, to the base document, and a mutator that listens to
    /// `topic` and owns the value of that entry. The document last rendered
    /// is untouched.
    pub fn register_sensor(
        &mut self,
        name: &str,
        location: &str,
        description: &str,
        topic: &str,
        kind: SensorKind,
    )
        ensures
            old(self).wf() ==> final(self).wf(),
            final(self).rendered_view() == old(self).rendered_view(),
            final(self).base_view() == with_sensor(
                old(self).base_view(),
                kind,
                ReadingView {
                    name: Some(name@),
                    location: location@,
                    description: Some(description@),
                    unit: kind.unit_spec(),
                    value: None,
                },
            ),
            final(self).mutator_views() == old(self).mutator_views().push(
                MutatorView {
                    topic: topic@,
                    kind: kind.mutator_kind(),
                    index: sensor_count(old(self).base_view(), kind),
                    stored: StoredView::Nothing,
                },
            ),
    {
        let entry = SensorReading {
            name: Some(name.to_owned()),
            location: location.to_owned(),
            description: Some(description.to_owned()),
            unit: kind.unit(),
            value: None,
        };
        self.register_sensor_entry(entry, topic, kind);
    }

    /// Hands a message to every mutator that listens to exactly its topic.
    /// A well-formed payload replaces the value stored there; a malformed
    /// one leaves it. Neither document changes.
    pub fn deliver(&mut self, topic: &str, payload: &str) -> (out: Delivery)
        ensures
            old(self).wf() ==> final(self).wf(),
            final(self).base_view() == old(self).base_view(),
            final(self).rendered_view() == old(self).rendered_view(),
            final(self).mutator_views() == deliver_spec(
                old(self).mutator_views(),
                topic@,
                payload@,
            ),
            out.accepted == accepts(old(self).mutator_views(), topic@, payload@),
            out.rejected == rejects(old(self).mutator_views(), topic@, payload@),
            !out.accepted ==> final(self).mutator_views() == old(self).mutator_views(),
    {
        let ghost old_ms = self.mutator_views();
        let wanted = topic.to_owned();
        let mut accepted = false;
        let mut rejected = false;
        let mut i: usize = 0;
        while i < self.mutators.len()
            invariant
                i <= self.mutators.len(),
                self.mutators.len() == old_ms.len(),
                wanted@ == topic@,
                self.base == old(self).base,
                self.rendered == old(self).rendered,
                forall|j: int|
                    0 <= j < i ==> (#[trigger] self.mutator_views()[j]) == deliver_spec(
                        old_ms,
                        topic@,
                        payload@,
                    )[j],
                forall|j: int| i <= j < old_ms.len() ==> (#[trigger] self.mutator_views()[j]) == old_ms[j],
                accepted == accepts(old_ms.take(i as int), topic@, payload@),
                rejected == rejects(old_ms.take(i as int), topic@, payload@),
            decreases self.mutators.len() - i,
        {
            let ghost before = self.mutator_views();
            let ghost prefix = old_ms.take(i as int);
            let ghost longer = old_ms.take(i + 1);
            let mut stored = false;
            let mut failed = false;
            assert(before[i as int] == old_ms[i as int]);
            if self.mutators[i].topic == wanted {
                match self.mutators[i].store(payload) {
                    Ok(()) => {
                        stored = true;
                    },
                    Err(_) => {
                        failed = true;
                    },
                }
            }
            proof {
                assert(self.mutator_views()[i as int] == deliver_spec(old_ms, topic@, payload@)[i as int]);
                assert forall|j: int| 0 <= j < i implies (#[trigger] self.mutator_views()[j])
                    == deliver_spec(old_ms, topic@, payload@)[j] by {
                    assert(self.mutator_views()[j] == before[j]);
                }
                assert forall|j: int| i + 1 <= j < old_ms.len() implies (
                #[trigger] self.mutator_views()[j]) == old_ms[j] by {
                    assert(self.mutator_views()[j] == before[j]);
                }
                assert(longer.drop_last() =~= prefix);
                if accepts(prefix, topic@, payload@) {
                    let w = choose|w: int|
                        0 <= w < prefix.len() && (#[trigger] prefix[w]).topic == topic@ && parsed(
                            prefix[w].kind,
                            payload@,
                        ) is Some;
                    assert(longer[w] == prefix[w]);
                }
                if rejects(prefix, topic@, payload@) {
                    let w = choose|w: int|
                        0 <= w < prefix.len() && (#[trigger] prefix[w]).topic == topic@ && parsed(
                            prefix[w].kind,
                            payload@,
                        ) is None;
                    assert(longer[w] == prefix[w]);
                }
                if stored {
                    assert(longer[i as int].topic == topic@);
                }
                if failed {
                    assert(longer[i as int].topic == topic@);
                }
                if accepts(longer, topic@, payload@) && !stored {
                    let w = choose|w: int|
                        0 <= w < longer.len() && (#[trigger] longer[w]).topic == topic@ && parsed(
                            longer[w].kind,
                            payload@,
                        ) is Some;
                    assert(w < i);
                    assert(prefix[w] == longer[w]);
                }
                if rejects(longer, topic@, payload@) && !failed {
                    let w = choose|w: int|
                        0 <= w < longer.len() && (#[trigger] longer[w]).topic == topic@ && parsed(
                            longer[w].kind,
                            payload@,
                        ) is None;
                    assert(w < i);
                    assert(prefix[w] == longer[w]);
                }
            }
            accepted = accepted || stored;
            rejected = rejected || failed;
            i = i + 1;
        }
        proof {
            assert(old_ms.take(i as int) =~= old_ms);
            assert(self.mutator_views() =~= deliver_spec(old_ms, topic@, payload@));
            lemma_deliver_keeps_targets(old_ms, topic@, payload@);
            if !accepted {
                assert forall|j: int| 0 <= j < old_ms.len() implies deliver_spec(
                    old_ms,
                    topic@,
                    payload@,
                )[j] == old_ms[j] by {
                    if old_ms[j].topic == topic@ {
                        assert(parsed(old_ms[j].kind, payload@) is None);
                    }
                }
                assert(deliver_spec(old_ms, topic@, payload@) =~= old_ms);
            }
        }
        Delivery { accepted, rejected }
    }

    /// The base document with every mutator applied, in registration order.
    pub fn render(&self) -> (doc: StatusDocument)
        ensures
            doc@ == apply_all(self.mutator_views(), self.base_view()),
    {
        let mut doc = self.base.duplicate();
        let mut i: usize = 0;
        while i < self.mutators.len()
            invariant
                i <= self.mutators.len(),
                doc@ == apply_all(self.mutator_views().take(i as int), self.base@),
            decreases self.mutators.len() - i,
        {
            self.mutators[i].apply(&mut doc);
            proof {
                let longer = self.mutator_views().take(i + 1);
                assert(longer.drop_last() =~= self.mutator_views().take(i as int));
                assert(longer.last() == self.mutators@[i as int]@);
            }
            i = i + 1;
        }
        assert(self.mutator_views().take(i as int) =~= self.mutator_views());
        doc
    }

    /// A render pass: renders the base document with every mutator, and
    /// compares the result with the document last rendered. Where the state
    /// differs the state has to be published; where anything differs the
    /// document has to be published and becomes the one that is served.
    pub fn update_from_mutators(&mut self) -> (out: RenderOutcome)
        ensures
            final(self).base_view() == old(self).base_view(),
            final(self).mutator_views() == old(self).mutator_views(),
            final(self).rendered_view() == apply_all(
                old(self).mutator_views(),
                old(self).base_view(),
            ),
            out.state_changed == (final(self).rendered_view().state != old(
                self,
            ).rendered_view().state),
            out.document_changed == (final(self).rendered_view() != old(self).rendered_view()),
            old(self).wf() ==> final(self).wf(),
    {
        let doc = self.render();
        let state_changed = !opt_state_eq(&doc.state, &self.rendered.state);
        let document_changed = !doc.same_as(&self.rendered);
        if document_changed {
            self.rendered = doc;
        }
        RenderOutcome { state_changed, document_changed }
    }
}

/// A message changes what mutators have stored, never which fields they own.
pub proof fn lemma_deliver_keeps_targets(ms: Seq<MutatorView>, topic: Seq<char>, payload: Seq<char>)
    ensures
        deliver_spec(ms, topic, payload).len() == ms.len(),
        forall|i: int|
            0 <= i < ms.len() ==> {
                let after = #[trigger] deliver_spec(ms, topic, payload)[i];
                after.topic == ms[i].topic && after.kind == ms[i].kind && after.index
                    == ms[i].index
            },
        forall|base: DocumentView|
            well_formed(base, ms) ==> #[trigger] well_formed(base, deliver_spec(ms, topic, payload)),
{
    let after = deliver_spec(ms, topic, payload);
    assert forall|base: DocumentView| well_formed(base, ms) implies #[trigger] well_formed(
        base,
        after,
    ) by {
        assert forall|i: int, j: int| 0 <= i < j < after.len() implies !same_target(
            #[trigger] after[i],
            #[trigger] after[j],
        ) by {
            assert(!same_target(ms[i], ms[j]));
        }
        assert forall|i: int| 0 <= i < after.len() implies has_entry(base, #[trigger] after[i]) by {
            assert(has_entry(base, ms[i]));
        }
    }
}

} // verus!
