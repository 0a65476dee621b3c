//! Notifications waiting to be shown, in arrival order. A newer event for a
//! source already waiting supersedes the older one.
use crate::events::{belongs_to, event_source, source_of, MediaEvent};
use vstd::prelude::*;

verus! {

/// Upper bound on the waiting notifications.
pub const PENDING_CAP: usize = 4;

/// The first position holding an event of the given source; the length where
/// none does.
pub open spec fn waiting_at(q: Seq<MediaEvent>, source: Seq<char>) -> nat
    decreases q.len(),
{
    if q.len() == 0 || source_of(q[0]) == Some(source) {
        0
    } else {
        1 + waiting_at(q.skip(1), source)
    }
}

/// What a waiting event becomes when a newer one of its source arrives: late
/// metadata of the same media merges into it, anything else replaces it.
pub open spec fn superseded(waiting: MediaEvent, newer: MediaEvent) -> MediaEvent {
    match (waiting, newer) {
        (MediaEvent::TrackChanged(a), MediaEvent::TrackChanged(b)) => if a.is_same_media(b) {
            MediaEvent::TrackChanged(a.merged(b))
        } else {
            newer
        },
        _ => newer,
    }
}

/// The queue after an event arrived: the waiting event of its source is
/// superseded in place; otherwise the event joins at the back, and at the cap
/// the oldest waiting event is dropped.
pub open spec fn enqueued(q: Seq<MediaEvent>, event: MediaEvent) -> Seq<MediaEvent> {
    let at = match source_of(event) {
        Some(source) => waiting_at(q, source),
        None => q.len(),
    };
    if at < q.len() {
        q.update(at as int, superseded(q[at as int], event))
    } else if q.len() >= PENDING_CAP {
        q.skip(1).push(event)
    } else {
        q.push(event)
    }
}

/// The waiting events of other sources, in order.
pub open spec fn others_waiting(q: Seq<MediaEvent>, source: Seq<char>) -> Seq<MediaEvent>
    decreases q.len(),
{
    if q.len() == 0 {
        q
    } else {
        let rest = others_waiting(q.drop_last(), source);
        if source_of(q.last()) == Some(source) {
            rest
        } else {
            rest.push(q.last())
        }
    }
}

/// A queue in order: only showable events, at most one per source, and no
/// more than the cap.
pub open spec fn queue_ok(q: Seq<MediaEvent>) -> bool {
    &&& q.len() <= PENDING_CAP
    &&& forall|i: int| 0 <= i < q.len() ==> source_of(#[trigger] q[i]) is Some
    &&& forall|i: int, j: int|
        0 <= i < j < q.len() ==> source_of(#[trigger] q[i]) != source_of(#[trigger] q[j])
}

proof fn lemma_waiting_at(q: Seq<MediaEvent>, source: Seq<char>)
    ensures
        waiting_at(q, source) <= q.len(),
        waiting_at(q, source) < q.len() ==> source_of(q[waiting_at(q, source) as int]) == Some(source),
        forall|k: int| 0 <= k < waiting_at(q, source) ==> source_of(#[trigger] q[k]) != Some(source),
    decreases q.len(),
{
    if q.len() > 0 && source_of(q[0]) != Some(source) {
        let tail = q.skip(1);
        lemma_waiting_at(tail, source);
        assert forall|k: int| 0 <= k < waiting_at(q, source) implies source_of(#[trigger] q[k]) != Some(source) by {
            if k > 0 {
                assert(tail[k - 1] == q[k]);
            }
        }
    }
}

proof fn lemma_waiting_at_is(q: Seq<MediaEvent>, source: Seq<char>, i: int)
    requires
        0 <= i <= q.len(),
        forall|k: int| 0 <= k < i ==> source_of(#[trigger] q[k]) != Some(source),
        i == q.len() || source_of(q[i]) == Some(source),
    ensures
        waiting_at(q, source) == i,
{
    lemma_waiting_at(q, source);
    let w = waiting_at(q, source) as int;
    if w < i {
        assert(source_of(q[w]) != Some(source));
    } else if i < w {
        assert(source_of(q[i]) != Some(source));
    }
}

fn find(q: &Vec<MediaEvent>, source: &String) -> (r: usize)
    ensures
        r == waiting_at(q@, source@),
        r <= q@.len(),
{
    let mut i: usize = 0;
    while i < q.len() && !belongs_to(&q[i], source)
        invariant
            i <= q@.len(),
            forall|k: int| 0 <= k < i ==> source_of(#[trigger] q@[k]) != Some(source@),
        decreases q@.len() - i,
    {
        i = i + 1;
    }
    proof {
        lemma_waiting_at_is(q@, source@, i as int);
    }
    i
}

fn supersede(waiting: &MediaEvent, newer: MediaEvent) -> (r: MediaEvent)
    ensures
        r == superseded(*waiting, newer),
{
    if let MediaEvent::TrackChanged(queued) = waiting {
        if let MediaEvent::TrackChanged(incoming) = &newer {
            if queued.same_media(incoming) {
                let mut merged = queued.clone();
                merged.merge_late_metadata(incoming);
                return MediaEvent::TrackChanged(merged);
            }
        }
    }
    newer
}

/// Adds a notification to the queue.
pub fn enqueue(q: &mut Vec<MediaEvent>, event: MediaEvent)
    ensures
        final(q)@ == enqueued(old(q)@, event),
{
    let at: usize = match event_source(&event) {
        Some(source) => find(q, source),
        None => q.len(),
    };
    if at < q.len() {
        let next = supersede(&q[at], event);
        q.set(at, next);
        return;
    }
    if q.len() >= PENDING_CAP {
        let _ = q.remove(0);
        assert(q@ =~= old(q)@.skip(1));
    }
    q.push(event);
}

/// Drops the waiting events of a source.
pub fn drop_source(q: &mut Vec<MediaEvent>, source: &String)
    ensures
        final(q)@ == others_waiting(old(q)@, source@),
{
    let mut kept: Vec<MediaEvent> = Vec::new();
    let mut i: usize = 0;
    proof {
        assert(q@.take(0) =~= Seq::<MediaEvent>::empty());
    }
    while i < q.len()
        invariant
            i <= q@.len(),
            q@ == old(q)@,
            kept@ == others_waiting(q@.take(i as int), source@),
        decreases q@.len() - i,
    {
        proof {
            assert(q@.take(i + 1).drop_last() =~= q@.take(i as int));
            assert(q@.take(i + 1).last() == q@[i as int]);
        }
        if !belongs_to(&q[i], source) {
            kept.push(q[i].clone());
        }
        i = i + 1;
    }
    proof {
        assert(q@.take(i as int) =~= q@);
    }
    *q = kept;
}

/// Whether a track of the given source is waiting.
pub open spec fn track_waiting(q: Seq<MediaEvent>, source: Seq<char>) -> bool {
    exists|i: int| 0 <= i < q.len() && (#[trigger] q[i] matches MediaEvent::TrackChanged(t) && t.source_app@ == source)
}

/// Whether a track of the given source is among the events.
pub fn has_track(q: &Vec<MediaEvent>, source: &String) -> (r: bool)
    ensures
        r == track_waiting(q@, source@),
{
    let mut i: usize = 0;
    while i < q.len()
        invariant
            i <= q@.len(),
            forall|k: int|
                0 <= k < i ==> !(#[trigger] q@[k] matches MediaEvent::TrackChanged(t) && t.source_app@ == source@),
        decreases q@.len() - i,
    {
        if let MediaEvent::TrackChanged(t) = &q[i] {
            if t.source_app == *source {
                assert(q@[i as int] matches MediaEvent::TrackChanged(t) && t.source_app@ == source@);
                return true;
            }
        }
        i = i + 1;
    }
    false
}

/// Enqueueing a showable event keeps the queue in order: it never grows past
/// the cap and never holds two events of one source.
pub proof fn law_queue_holds_one_event_per_source(q: Seq<MediaEvent>, event: MediaEvent)
    requires
        queue_ok(q),
        source_of(event) is Some,
    ensures
        queue_ok(enqueued(q, event)),
{
    let source = source_of(event)->0;
    lemma_waiting_at(q, source);
    let at = waiting_at(q, source) as int;
    let out = enqueued(q, event);
    if at < q.len() {
        assert(source_of(superseded(q[at], event)) == Some(source));
        assert forall|i: int, j: int| 0 <= i < j < out.len() implies source_of(#[trigger] out[i]) != source_of(
            #[trigger] out[j],
        ) by {
            assert(source_of(q[i]) != source_of(q[j]));
        }
    } else {
        let base = if q.len() >= PENDING_CAP {
            q.skip(1)
        } else {
            q
        };
        let d = q.len() - base.len();
        assert forall|i: int| 0 <= i < out.len() implies source_of(#[trigger] out[i]) is Some by {
            if i < base.len() {
                assert(out[i] == q[i + d]);
            }
        }
        assert forall|i: int, j: int| 0 <= i < j < out.len() implies source_of(#[trigger] out[i]) != source_of(
            #[trigger] out[j],
        ) by {
            assert(out[i] == q[i + d]);
            if j < base.len() {
                assert(out[j] == q[j + d]);
            }
        }
    }
}

/// An event that arrives for a source that waits nowhere is the last to be
/// shown, and a full queue gives up only its oldest event for it.
pub proof fn law_newcomer_waits_at_the_back(q: Seq<MediaEvent>, event: MediaEvent)
    requires
        source_of(event) is Some,
        waiting_at(q, source_of(event)->0) == q.len(),
    ensures
        enqueued(q, event).last() == event,
        q.len() < PENDING_CAP ==> enqueued(q, event).drop_last() == q,
        q.len() >= PENDING_CAP ==> enqueued(q, event).drop_last() == q.skip(1),
{
    if q.len() >= PENDING_CAP {
        assert(enqueued(q, event).drop_last() =~= q.skip(1));
    } else {
        assert(enqueued(q, event).drop_last() =~= q);
    }
}

/// Dropping a source leaves no event of it behind.
pub proof fn law_dropped_source_waits_nowhere(q: Seq<MediaEvent>, source: Seq<char>)
    ensures
        forall|i: int|
            0 <= i < others_waiting(q, source).len() ==> source_of(#[trigger] others_waiting(q, source)[i]) != Some(
                source,
            ),
    decreases q.len(),
{
    if q.len() > 0 {
        law_dropped_source_waits_nowhere(q.drop_last(), source);
    }
}

/// Dropping a source keeps the queue in order, and leaves only events that
/// waited before.
pub proof fn law_dropping_keeps_the_order(q: Seq<MediaEvent>, source: Seq<char>)
    ensures
        queue_ok(q) ==> queue_ok(others_waiting(q, source)),
        others_waiting(q, source).len() <= q.len(),
        forall|i: int|
            0 <= i < others_waiting(q, source).len() ==> q.contains(#[trigger] others_waiting(q, source)[i]),
    decreases q.len(),
{
    if q.len() > 0 {
        let init = q.drop_last();
        law_dropping_keeps_the_order(init, source);
        let rest = others_waiting(init, source);
        let out = others_waiting(q, source);
        assert forall|i: int| 0 <= i < out.len() implies q.contains(#[trigger] out[i]) by {
            if i < rest.len() {
                assert(init.contains(rest[i]));
                let k = choose|k: int| 0 <= k < init.len() && init[k] == rest[i];
                assert(q[k] == rest[i]);
            } else {
                assert(q[q.len() - 1] == q.last());
            }
        }
        if queue_ok(q) {
            assert forall|i: int, j: int| 0 <= i < j < init.len() implies source_of(#[trigger] init[i]) != source_of(
                #[trigger] init[j],
            ) by {
                assert(source_of(q[i]) != source_of(q[j]));
            }
            assert forall|i: int| 0 <= i < init.len() implies source_of(#[trigger] init[i]) is Some by {
                assert(source_of(q[i]) is Some);
            }
            assert forall|i: int| 0 <= i < out.len() implies source_of(#[trigger] out[i]) is Some by {
                let k = choose|k: int| 0 <= k < q.len() && q[k] == out[i];
                assert(source_of(q[k]) is Some);
            }
            assert forall|i: int, j: int| 0 <= i < j < out.len() implies source_of(#[trigger] out[i]) != source_of(
                #[trigger] out[j],
            ) by {
                if j == rest.len() {
                    assert(init.contains(rest[i]));
                    let k = choose|k: int| 0 <= k < init.len() && init[k] == rest[i];
                    assert(source_of(q[k]) != source_of(q[q.len() - 1]));
                } else {
                    assert(source_of(rest[i]) != source_of(rest[j]));
                }
            }
        }
    }
}

/// Dropping a source that waits nowhere changes nothing.
pub proof fn law_dropping_an_absent_source_is_a_no_op(q: Seq<MediaEvent>, source: Seq<char>)
    requires
        forall|i: int| 0 <= i < q.len() ==> source_of(#[trigger] q[i]) != Some(source),
    ensures
        others_waiting(q, source) == q,
    decreases q.len(),
{
    if q.len() > 0 {
        assert(source_of(q[q.len() - 1]) != Some(source));
        assert forall|i: int| 0 <= i < q.drop_last().len() implies source_of(#[trigger] q.drop_last()[i]) != Some(
            source,
        ) by {
            assert(source_of(q[i]) != Some(source));
        }
        law_dropping_an_absent_source_is_a_no_op(q.drop_last(), source);
        assert(q.drop_last().push(q.last()) =~= q);
    }
}

/// A newer event of a source that waits takes over that source's place in the
/// queue and leaves every other waiting event as it was. It replaces the
/// waiting event whole, unless both are tracks of the same media: then it
/// merges into it.
pub proof fn law_newer_event_takes_its_sources_place(q: Seq<MediaEvent>, event: MediaEvent, i: int)
    requires
        queue_ok(q),
        0 <= i < q.len(),
        source_of(event) is Some,
        source_of(q[i]) == source_of(event),
    ensures
        enqueued(q, event).len() == q.len(),
        forall|k: int| 0 <= k < q.len() && k != i ==> #[trigger] enqueued(q, event)[k] == q[k],
        source_of(enqueued(q, event)[i]) == source_of(event),
        event is PlaybackStateChanged || q[i] is PlaybackStateChanged ==> enqueued(q, event)[i] == event,
        event matches MediaEvent::TrackChanged(b) ==> q[i] matches MediaEvent::TrackChanged(a) ==> {
            &&& !a.is_same_media(b) ==> enqueued(q, event)[i] == event
            &&& a.is_same_media(b) ==> {
                &&& enqueued(q, event)[i] is TrackChanged
                &&& enqueued(q, event)[i]->TrackChanged_0 == a.merged(b)
            }
        },
{
    let source = source_of(event)->0;
    lemma_waiting_at(q, source);
    let at = waiting_at(q, source) as int;
    if at < i {
        assert(source_of(q[at]) != source_of(q[i]));
    } else if i < at {
        assert(source_of(q[i]) != Some(source));
    }
}

/// An event of a source that does not wait joins behind all others. At four
/// waiting events the one that waited longest is dropped for it, and no other.
pub proof fn law_new_source_joins_behind_the_others(q: Seq<MediaEvent>, event: MediaEvent)
    requires
        q.len() <= 4,
        forall|i: int| 0 <= i < q.len() ==> source_of(#[trigger] q[i]) != source_of(event),
    ensures
        q.len() < 4 ==> enqueued(q, event) == q.push(event),
        q.len() == 4 ==> enqueued(q, event) == q.skip(1).push(event),
{
    if let Some(source) = source_of(event) {
        lemma_waiting_at(q, source);
        let at = waiting_at(q, source) as int;
        if at < q.len() {
            assert(source_of(q[at]) != source_of(event));
        }
    }
}

/// Dropping a source looks at each waiting event on its own: two runs are
/// dropped run by run, an event of another source stays, one of the source
/// goes.
pub proof fn law_dropping_goes_event_by_event(
    a: Seq<MediaEvent>,
    b: Seq<MediaEvent>,
    event: MediaEvent,
    source: Seq<char>,
)
    ensures
        others_waiting(a + b, source) == others_waiting(a, source) + others_waiting(b, source),
        source_of(event) == Some(source) ==> others_waiting(seq![event], source) == Seq::<MediaEvent>::empty(),
        source_of(event) != Some(source) ==> others_waiting(seq![event], source) == seq![event],
    decreases b.len(),
{
    let one = seq![event];
    assert(one.drop_last() =~= Seq::<MediaEvent>::empty());
    assert(one.last() == event);
    assert(others_waiting(one.drop_last(), source) =~= Seq::<MediaEvent>::empty());
    assert(Seq::<MediaEvent>::empty().push(event) =~= one);
    if b.len() == 0 {
        assert(a + b =~= a);
        assert(others_waiting(a, source) + others_waiting(b, source) =~= others_waiting(a, source));
    } else {
        assert((a + b).drop_last() =~= a + b.drop_last());
        assert((a + b).last() == b.last());
        law_dropping_goes_event_by_event(a, b.drop_last(), event, source);
        assert(others_waiting(a + b, source) =~= others_waiting(a, source) + others_waiting(b, source));
    }
}

/// A track waits exactly where some event is a track of that source; a state
/// of the source is none.
pub proof fn law_only_a_track_counts_as_a_waiting_track(q: Seq<MediaEvent>, i: int, source: Seq<char>)
    ensures
        0 <= i < q.len() && (q[i] matches MediaEvent::TrackChanged(t) && t.source_app@ == source) ==> track_waiting(
            q,
            source,
        ),
        (forall|k: int| 0 <= k < q.len() ==> !(#[trigger] q[k] is TrackChanged)) ==> !track_waiting(q, source),
        (forall|k: int| 0 <= k < q.len() ==> source_of(#[trigger] q[k]) != Some(source)) ==> !track_waiting(q, source),
{
    if track_waiting(q, source) {
        let k = choose|k: int|
            0 <= k < q.len() && (#[trigger] q[k] matches MediaEvent::TrackChanged(t) && t.source_app@ == source);
        assert(source_of(q[k]) == Some(source));
        assert(q[k] is TrackChanged);
    }
}

} // verus!
