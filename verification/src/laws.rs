//! What holds of delivery and rendering, for every base document and every
//! set of mutators, stated over the spec functions of the aggregator.

use vstd::prelude::*;
use crate::document::{DocumentView, ReadingView};
use crate::mutator::{MutatorKind, MutatorView, StoredView, apply_spec, parsed, reading_of};
use crate::status::{
    apply_all, deliver_spec, distinct_targets, has_entry, same_target, well_formed,
};

verus! {

/// The readings of one kind that a document holds; none for a kind that
/// is no sensor.
pub open spec fn readings_of(d: DocumentView, kind: MutatorKind) -> Seq<ReadingView> {
    match d.sensors {
        Some(s) => match kind {
            MutatorKind::Temperature => s.temperature,
            MutatorKind::Humidity => s.humidity,
            _ => Seq::empty(),
        },
        None => Seq::empty(),
    }
}

/// Whether the mutator owns the value of entry `k` of the sensors of `kind`.
pub open spec fn owns(m: MutatorView, kind: MutatorKind, k: int) -> bool {
    m.kind == kind && m.index == k
}

/// A reading after a mutator that owns it wrote what it has stored.
pub open spec fn written(m: MutatorView, e: ReadingView) -> ReadingView {
    match m.stored {
        StoredView::Number(b) => ReadingView { value: Some(b), ..e },
        _ => e,
    }
}

/// A reading after every mutator that owns it wrote, first to last.
pub open spec fn entry_after(ms: Seq<MutatorView>, kind: MutatorKind, k: int, e: ReadingView) -> ReadingView
    decreases ms.len(),
{
    if ms.len() == 0 {
        e
    } else {
        let prev = entry_after(ms.drop_last(), kind, k, e);
        if owns(ms.last(), kind, k) {
            written(ms.last(), prev)
        } else {
            prev
        }
    }
}

/// The mutators after a run of messages on one topic, first to last.
pub open spec fn deliver_all(ms: Seq<MutatorView>, topic: Seq<char>, payloads: Seq<Seq<char>>) -> Seq<
    MutatorView,
>
    decreases payloads.len(),
{
    if payloads.len() == 0 {
        ms
    } else {
        deliver_spec(deliver_all(ms, topic, payloads.drop_last()), topic, payloads.last())
    }
}

/// Applying a mutator a second time changes nothing.
pub proof fn lemma_apply_twice(m: MutatorView, d: DocumentView)
    ensures
        apply_spec(m, apply_spec(m, d)) == apply_spec(m, d),
{
    let once = apply_spec(m, d);
    let twice = apply_spec(m, once);
    if d.sensors is Some {
        assert(twice.sensors.unwrap().temperature =~= once.sensors.unwrap().temperature);
        assert(twice.sensors.unwrap().humidity =~= once.sensors.unwrap().humidity);
    }
}

/// A mutator whose value a document already shows still finds it there
/// after a mutator that owns another field wrote.
pub proof fn lemma_settled_survives(m1: MutatorView, m2: MutatorView, d: DocumentView)
    requires
        !same_target(m1, m2),
        apply_spec(m1, d) == d,
    ensures
        apply_spec(m1, apply_spec(m2, d)) == apply_spec(m2, d),
{
    let mid = apply_spec(m2, d);
    let end = apply_spec(m1, mid);
    if d.sensors is Some {
        let s = d.sensors.unwrap();
        let a = apply_spec(m1, d).sensors.unwrap();
        assert(a.temperature == s.temperature);
        assert(a.humidity == s.humidity);
        assert(end.sensors.unwrap().temperature =~= mid.sensors.unwrap().temperature);
        assert(end.sensors.unwrap().humidity =~= mid.sensors.unwrap().humidity);
    }
}

/// After a render pass over mutators with fields of their own, the
/// document shows the value of each of them.
pub proof fn lemma_all_settled(ms: Seq<MutatorView>, d: DocumentView, i: int)
    requires
        distinct_targets(ms),
        0 <= i < ms.len(),
    ensures
        apply_spec(ms[i], apply_all(ms, d)) == apply_all(ms, d),
    decreases ms.len(),
{
    let init = ms.drop_last();
    let r0 = apply_all(init, d);
    if i == ms.len() - 1 {
        lemma_apply_twice(ms.last(), r0);
    } else {
        assert(init[i] == ms[i]);
        assert forall|a: int, b: int| 0 <= a < b < init.len() implies !same_target(
            #[trigger] init[a],
            #[trigger] init[b],
        ) by {
            assert(!same_target(ms[a], ms[b]));
        }
        lemma_all_settled(init, d, i);
        assert(!same_target(ms[i], ms[ms.len() - 1]));
        lemma_settled_survives(ms[i], ms.last(), r0);
    }
}

/// Applying mutators to a document that shows the value of each of them
/// changes nothing.
pub proof fn lemma_settled_render(ms: Seq<MutatorView>, d: DocumentView)
    requires
        forall|i: int| 0 <= i < ms.len() ==> apply_spec(#[trigger] ms[i], d) == d,
    ensures
        apply_all(ms, d) == d,
    decreases ms.len(),
{
    if ms.len() > 0 {
        let init = ms.drop_last();
        assert forall|i: int| 0 <= i < init.len() implies apply_spec(#[trigger] init[i], d) == d by {
            assert(init[i] == ms[i]);
        }
        lemma_settled_render(init, d);
        assert(apply_spec(ms[ms.len() - 1], d) == d);
    }
}

/// Rendering is idempotent: where every mutator owns a field of its own,
/// applying the whole set to a document a second time, with no message in
/// between, gives the document that the first application gave.
pub proof fn lemma_render_idempotent(ms: Seq<MutatorView>, d: DocumentView)
    requires
        distinct_targets(ms),
    ensures
        apply_all(ms, apply_all(ms, d)) == apply_all(ms, d),
{
    let r = apply_all(ms, d);
    assert forall|i: int| 0 <= i < ms.len() implies apply_spec(#[trigger] ms[i], r) == r by {
        lemma_all_settled(ms, d, i);
    }
    lemma_settled_render(ms, r);
}

/// A payload that every listening mutator finds malformed changes nothing:
/// the mutators, and so the next rendered document, are as before.
pub proof fn lemma_malformed_changes_nothing(
    ms: Seq<MutatorView>,
    topic: Seq<char>,
    payload: Seq<char>,
)
    requires
        forall|i: int|
            0 <= i < ms.len() && (#[trigger] ms[i]).topic == topic ==> parsed(ms[i].kind, payload)
                is None,
    ensures
        deliver_spec(ms, topic, payload) == ms,
{
    assert(deliver_spec(ms, topic, payload) =~= ms);
}

/// A render pass keeps every sensor entry in its place and changes at most
/// its value: entry `k` of a kind is what the mutators that own it wrote.
pub proof fn lemma_rendered_entries(ms: Seq<MutatorView>, d: DocumentView, kind: MutatorKind)
    requires
        kind.is_sensor(),
    ensures
        readings_of(apply_all(ms, d), kind).len() == readings_of(d, kind).len(),
        forall|k: int|
            0 <= k < readings_of(d, kind).len() ==> #[trigger] readings_of(apply_all(ms, d), kind)[k]
                == entry_after(ms, kind, k, readings_of(d, kind)[k]),
    decreases ms.len(),
{
    if ms.len() > 0 {
        lemma_rendered_entries(ms.drop_last(), d, kind);
    }
}

/// Whatever the mutators write, a reading keeps its name, its location, its
/// description and its unit.
pub proof fn lemma_entry_keeps_identity(ms: Seq<MutatorView>, kind: MutatorKind, k: int, e: ReadingView)
    ensures
        entry_after(ms, kind, k, e) == (ReadingView {
            value: entry_after(ms, kind, k, e).value,
            ..e
        }),
    decreases ms.len(),
{
    if ms.len() > 0 {
        lemma_entry_keeps_identity(ms.drop_last(), kind, k, e);
    }
}

/// A render pass touches nothing but the state and the values of sensors:
/// the identifying fields of the document are those of the base document,
/// no sensor comes or goes, and every sensor keeps its name, its location,
/// its description and its unit.
pub proof fn lemma_render_keeps_identity(ms: Seq<MutatorView>, d: DocumentView)
    ensures
        ({
            let r = apply_all(ms, d);
            &&& r.space == d.space
            &&& r.logo == d.logo
            &&& r.url == d.url
            &&& r.location == d.location
            &&& r.contact == d.contact
            &&& r.links == d.links
            &&& r.projects == d.projects
            &&& r.sensors is Some <==> d.sensors is Some
            &&& forall|kind: MutatorKind|
                kind.is_sensor() ==> (#[trigger] readings_of(r, kind)).len() == readings_of(
                    d,
                    kind,
                ).len()
            &&& forall|kind: MutatorKind, k: int|
                kind.is_sensor() && 0 <= k < readings_of(d, kind).len() ==> #[trigger] readings_of(
                    r,
                    kind,
                )[k] == (ReadingView { value: readings_of(r, kind)[k].value, ..readings_of(d, kind)[k] })
        }),
    decreases ms.len(),
{
    let r = apply_all(ms, d);
    if ms.len() > 0 {
        lemma_render_keeps_identity(ms.drop_last(), d);
    }
    lemma_rendered_entries(ms, d, MutatorKind::Temperature);
    lemma_rendered_entries(ms, d, MutatorKind::Humidity);
    assert forall|kind: MutatorKind, k: int|
        kind.is_sensor() && 0 <= k < readings_of(d, kind).len() implies #[trigger] readings_of(
            r,
            kind,
        )[k] == (ReadingView { value: readings_of(r, kind)[k].value, ..readings_of(d, kind)[k] }) by {
        lemma_entry_keeps_identity(ms, kind, k, readings_of(d, kind)[k]);
    }
}

/// A reading that no mutator owns is never written.
pub proof fn lemma_unowned_entry(ms: Seq<MutatorView>, kind: MutatorKind, k: int, e: ReadingView)
    requires
        forall|j: int| 0 <= j < ms.len() ==> !owns(#[trigger] ms[j], kind, k),
    ensures
        entry_after(ms, kind, k, e) == e,
    decreases ms.len(),
{
    if ms.len() > 0 {
        let init = ms.drop_last();
        assert forall|j: int| 0 <= j < init.len() implies !owns(#[trigger] init[j], kind, k) by {
            assert(init[j] == ms[j]);
        }
        lemma_unowned_entry(init, kind, k, e);
        assert(!owns(ms[ms.len() - 1], kind, k));
    }
}

/// A reading with a single owner shows what that owner has stored.
pub proof fn lemma_owned_entry(ms: Seq<MutatorView>, i: int, kind: MutatorKind, k: int, e: ReadingView)
    requires
        distinct_targets(ms),
        kind.is_sensor(),
        0 <= i < ms.len(),
        owns(ms[i], kind, k),
    ensures
        entry_after(ms, kind, k, e) == written(ms[i], e),
    decreases ms.len(),
{
    let init = ms.drop_last();
    let n = ms.len() - 1;
    if i == n {
        assert forall|j: int| 0 <= j < init.len() implies !owns(#[trigger] init[j], kind, k) by {
            assert(init[j] == ms[j]);
            assert(!same_target(ms[j], ms[n]));
        }
        lemma_unowned_entry(init, kind, k, e);
    } else {
        assert(!same_target(ms[i], ms[n]));
        assert(init[i] == ms[i]);
        assert forall|a: int, b: int| 0 <= a < b < init.len() implies !same_target(
            #[trigger] init[a],
            #[trigger] init[b],
        ) by {
            assert(!same_target(ms[a], ms[b]));
        }
        lemma_owned_entry(init, i, kind, k, e);
    }
}

/// Two sets of mutators that agree on the owners of a reading write the
/// same into it.
pub proof fn lemma_entry_agrees(
    a: Seq<MutatorView>,
    b: Seq<MutatorView>,
    kind: MutatorKind,
    k: int,
    e: ReadingView,
)
    requires
        a.len() == b.len(),
        forall|j: int| 0 <= j < a.len() ==> (owns(#[trigger] a[j], kind, k) <==> owns(b[j], kind, k)),
        forall|j: int| 0 <= j < a.len() && owns(#[trigger] a[j], kind, k) ==> a[j] == b[j],
    ensures
        entry_after(a, kind, k, e) == entry_after(b, kind, k, e),
    decreases a.len(),
{
    if a.len() > 0 {
        let a0 = a.drop_last();
        let b0 = b.drop_last();
        assert forall|j: int| 0 <= j < a0.len() implies (owns(#[trigger] a0[j], kind, k) <==> owns(
            b0[j],
            kind,
            k,
        )) by {
            assert(a0[j] == a[j] && b0[j] == b[j]);
        }
        assert forall|j: int| 0 <= j < a0.len() && owns(#[trigger] a0[j], kind, k) implies a0[j]
            == b0[j] by {
            assert(a0[j] == a[j] && b0[j] == b[j]);
        }
        lemma_entry_agrees(a0, b0, kind, k, e);
        let n = a.len() - 1;
        assert(owns(a[n], kind, k) <==> owns(b[n], kind, k));
    }
}

/// A run of messages on one topic leaves every mutator its topic and its
/// field, leaves the mutators of other topics what they have stored, and
/// leaves in a listening mutator the last payload, where that is well-formed.
pub proof fn lemma_deliver_all(ms: Seq<MutatorView>, topic: Seq<char>, payloads: Seq<Seq<char>>)
    ensures
        deliver_all(ms, topic, payloads).len() == ms.len(),
        forall|j: int|
            0 <= j < ms.len() ==> {
                let after = #[trigger] deliver_all(ms, topic, payloads)[j];
                &&& after.topic == ms[j].topic
                &&& after.kind == ms[j].kind
                &&& after.index == ms[j].index
                &&& ms[j].topic != topic ==> after == ms[j]
                &&& (ms[j].topic == topic && payloads.len() > 0 && parsed(
                    ms[j].kind,
                    payloads.last(),
                ) is Some) ==> after.stored == parsed(ms[j].kind, payloads.last()).unwrap()
            },
    decreases payloads.len(),
{
    if payloads.len() > 0 {
        lemma_deliver_all(ms, topic, payloads.drop_last());
        let mid = deliver_all(ms, topic, payloads.drop_last());
        let end = deliver_all(ms, topic, payloads);
        assert forall|j: int| 0 <= j < ms.len() implies {
            let after = #[trigger] deliver_all(ms, topic, payloads)[j];
            &&& after.topic == ms[j].topic
            &&& after.kind == ms[j].kind
            &&& after.index == ms[j].index
            &&& ms[j].topic != topic ==> after == ms[j]
            &&& (ms[j].topic == topic && payloads.len() > 0 && parsed(ms[j].kind, payloads.last())
                is Some) ==> after.stored == parsed(ms[j].kind, payloads.last()).unwrap()
        } by {
            let m = mid[j];
            assert(m.topic == ms[j].topic);
        }
    }
}

/// After any run of well-formed payloads on the topic of a sensor, the
/// rendered document shows the last of them as that sensor's value, the
/// rest of its entry is as registered, and every sensor that no mutator
/// listening to that topic owns is as it would be without the messages.
pub proof fn lemma_last_reading_is_served(
    base: DocumentView,
    ms: Seq<MutatorView>,
    i: int,
    payloads: Seq<Seq<char>>,
)
    requires
        well_formed(base, ms),
        0 <= i < ms.len(),
        ms[i].kind.is_sensor(),
        payloads.len() > 0,
        forall|p: int|
            0 <= p < payloads.len() ==> reading_of(ms[i].kind, #[trigger] payloads[p]) is Some,
    ensures
        ({
            let topic = ms[i].topic;
            let before = apply_all(ms, base);
            let after = apply_all(deliver_all(ms, topic, payloads), base);
            &&& readings_of(after, MutatorKind::Temperature).len() == readings_of(
                base,
                MutatorKind::Temperature,
            ).len()
            &&& readings_of(after, MutatorKind::Humidity).len() == readings_of(
                base,
                MutatorKind::Humidity,
            ).len()
            &&& 0 <= ms[i].index < readings_of(base, ms[i].kind).len()
            &&& readings_of(after, ms[i].kind)[ms[i].index] == (ReadingView {
                value: reading_of(ms[i].kind, payloads.last()),
                ..readings_of(base, ms[i].kind)[ms[i].index]
            })
            &&& forall|kind: MutatorKind, k: int|
                #![trigger readings_of(after, kind)[k]]
                kind.is_sensor() && 0 <= k < readings_of(base, kind).len() && (forall|j: int|
                    0 <= j < ms.len() && (#[trigger] ms[j]).topic == topic ==> !owns(ms[j], kind, k))
                    ==> readings_of(after, kind)[k] == readings_of(before, kind)[k]
        }),
{
    let topic = ms[i].topic;
    let ms2 = deliver_all(ms, topic, payloads);
    let before = apply_all(ms, base);
    let after = apply_all(ms2, base);
    let kind_i = ms[i].kind;
    let k_i = ms[i].index;
    lemma_deliver_all(ms, topic, payloads);
    lemma_rendered_entries(ms2, base, MutatorKind::Temperature);
    lemma_rendered_entries(ms2, base, MutatorKind::Humidity);
    lemma_rendered_entries(ms, base, MutatorKind::Temperature);
    lemma_rendered_entries(ms, base, MutatorKind::Humidity);
    assert(has_entry(base, ms[i]));
    assert(payloads.last() == payloads[payloads.len() - 1]);
    assert forall|a: int, b: int| 0 <= a < b < ms2.len() implies !same_target(
        #[trigger] ms2[a],
        #[trigger] ms2[b],
    ) by {
        assert(!same_target(ms[a], ms[b]));
    }
    assert(owns(ms2[i], kind_i, k_i));
    lemma_owned_entry(ms2, i, kind_i, k_i, readings_of(base, kind_i)[k_i]);
    assert(readings_of(after, kind_i)[k_i] == written(ms2[i], readings_of(base, kind_i)[k_i]));
    assert forall|kind: MutatorKind, k: int|
        #![trigger readings_of(after, kind)[k]]
        kind.is_sensor() && 0 <= k < readings_of(base, kind).len() && (forall|j: int|
            0 <= j < ms.len() && (#[trigger] ms[j]).topic == topic ==> !owns(
                ms[j],
                kind,
                k,
            )) implies readings_of(after, kind)[k] == readings_of(before, kind)[k] by {
        assert forall|j: int| 0 <= j < ms2.len() implies (owns(#[trigger] ms2[j], kind, k) <==> owns(
            ms[j],
            kind,
            k,
        )) by {}
        assert forall|j: int| 0 <= j < ms2.len() && owns(#[trigger] ms2[j], kind, k) implies ms2[j]
            == ms[j] by {
            assert(owns(ms[j], kind, k));
        }
        lemma_entry_agrees(ms2, ms, kind, k, readings_of(base, kind)[k]);
    }
}

} // verus!
