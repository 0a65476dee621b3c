//! What the overlay remembers of its sources: the last track shown for each
//! recent one, and the last known playback state of every one.
use crate::events::{PlaybackState, TrackInfo};
use crate::text::{optional_text, pin_matches, same_text, source_matches_pin};
use vstd::prelude::*;

verus! {

/// Upper bound on the remembered tracks.
pub const TRACK_CACHE_CAP: usize = 3;

/// Upper bound on the remembered playback states.
pub const LEDGER_STATE_CAP: usize = 64;

/// The last known playback state of one source.
#[derive(Debug)]
pub struct LedgerEntry {
    pub source: String,
    pub state: PlaybackState,
}

/// The entries of other sources, in order.
pub open spec fn other_sources(s: Seq<TrackInfo>, source: Seq<char>) -> Seq<TrackInfo>
    decreases s.len(),
{
    if s.len() == 0 {
        s
    } else {
        let rest = other_sources(s.drop_last(), source);
        if s.last().source_app@ == source {
            rest
        } else {
            rest.push(s.last())
        }
    }
}

/// The newest `n` entries.
pub open spec fn newest(s: Seq<TrackInfo>, n: nat) -> Seq<TrackInfo> {
    if s.len() > n {
        s.skip(s.len() - n)
    } else {
        s
    }
}

/// The cache after `track` was shown: its source becomes the most recent
/// one, the raw cover bytes are not kept, and the oldest entries beyond the
/// cap are gone.
pub open spec fn cached(s: Seq<TrackInfo>, track: TrackInfo) -> Seq<TrackInfo> {
    newest(other_sources(s, track.source_app@).push(track.without_artwork()), TRACK_CACHE_CAP as nat)
}

/// The remembered track of a source.
pub open spec fn track_for(s: Seq<TrackInfo>, source: Seq<char>) -> Option<TrackInfo>
    decreases s.len(),
{
    if s.len() == 0 {
        None
    } else if s.last().source_app@ == source {
        Some(s.last())
    } else {
        track_for(s.drop_last(), source)
    }
}

/// No source has two entries.
pub open spec fn distinct_sources(s: Seq<TrackInfo>) -> bool {
    forall|i: int, j: int| 0 <= i < j < s.len() ==> (#[trigger] s[i]).source_app@ != (#[trigger] s[j]).source_app@
}

/// A cache in order: at most one entry per source, and no more than the cap.
pub open spec fn cache_ok(s: Seq<TrackInfo>) -> bool {
    distinct_sources(s) && s.len() <= TRACK_CACHE_CAP
}

/// The tracks last shown, oldest first.
#[derive(Debug)]
pub struct TrackCache {
    pub entries: Vec<TrackInfo>,
}

impl View for TrackCache {
    type V = Seq<TrackInfo>;

    open spec fn view(&self) -> Seq<TrackInfo> {
        self.entries@
    }
}

impl TrackCache {
    /// An empty cache.
    pub fn new() -> (r: Self)
        ensures
            r@ == Seq::<TrackInfo>::empty(),
    {
        TrackCache { entries: Vec::new() }
    }

    /// Forgets the track of a source.
    pub fn remove(&mut self, source: &String)
        ensures
            final(self)@ == other_sources(old(self)@, source@),
    {
        let mut kept: Vec<TrackInfo> = Vec::new();
        let mut i: usize = 0;
        proof {
            assert(self@.take(0) =~= Seq::<TrackInfo>::empty());
        }
        while i < self.entries.len()
            invariant
                i <= self@.len(),
                self@ == old(self)@,
                kept@ == other_sources(self@.take(i as int), source@),
            decreases self@.len() - i,
        {
            proof {
                assert(self@.take(i + 1).drop_last() =~= self@.take(i as int));
                assert(self@.take(i + 1).last() == self@[i as int]);
            }
            if self.entries[i].source_app != *source {
                kept.push(self.entries[i].clone());
            }
            i = i + 1;
        }
        proof {
            assert(self@.take(i as int) =~= self@);
        }
        self.entries = kept;
    }

    /// Remembers a shown track as the most recent one.
    pub fn cache_track(&mut self, track: &TrackInfo)
        ensures
            final(self)@ == cached(old(self)@, *track),
    {
        self.remove(&track.source_app);
        let mut entry = track.clone();
        entry.artwork = None;
        self.entries.push(entry);
        let ghost all = self@;
        while self.entries.len() > TRACK_CACHE_CAP
            invariant
                self@.len() <= all.len(),
                self@ == all.skip(all.len() - self@.len()),
                self@.len() >= TRACK_CACHE_CAP || self@.len() == all.len(),
            decreases self@.len(),
        {
            let _ = self.entries.remove(0);
            assert(self@ =~= all.skip(all.len() - self@.len()));
        }
        assert(all.skip(0) =~= all);
    }

    /// The remembered track of a source.
    pub fn get(&self, source: &String) -> (r: Option<&TrackInfo>)
        ensures
            match r {
                Some(t) => track_for(self@, source@) == Some(*t),
                None => track_for(self@, source@) is None,
            },
    {
        let mut i: usize = self.entries.len();
        proof {
            assert(self@.take(i as int) =~= self@);
        }
        while i > 0
            invariant
                i <= self@.len(),
                track_for(self@, source@) == track_for(self@.take(i as int), source@),
            decreases i,
        {
            proof {
                assert(self@.take(i as int).drop_last() =~= self@.take(i - 1));
                assert(self@.take(i as int).last() == self@[i - 1]);
            }
            i = i - 1;
            if self.entries[i].source_app == *source {
                return Some(&self.entries[i]);
            }
        }
        None
    }
}

/// Removing a source leaves only entries of other sources, each of them an
/// entry from before, and still at most one per source.
pub proof fn law_removal_leaves_the_other_sources(s: Seq<TrackInfo>, source: Seq<char>)
    ensures
        other_sources(s, source).len() <= s.len(),
        forall|i: int|
            0 <= i < other_sources(s, source).len() ==> {
                &&& (#[trigger] other_sources(s, source)[i]).source_app@ != source
                &&& s.contains(other_sources(s, source)[i])
            },
        distinct_sources(s) ==> distinct_sources(other_sources(s, source)),
    decreases s.len(),
{
    if s.len() > 0 {
        let init = s.drop_last();
        law_removal_leaves_the_other_sources(init, source);
        let rest = other_sources(init, source);
        assert forall|i: int| 0 <= i < other_sources(s, source).len() implies s.contains(
            #[trigger] other_sources(s, source)[i],
        ) by {
            if i < rest.len() {
                assert(init.contains(rest[i]));
                let k = choose|k: int| 0 <= k < init.len() && init[k] == rest[i];
                assert(s[k] == rest[i]);
            } else {
                assert(s[s.len() - 1] == s.last());
            }
        }
        if distinct_sources(s) {
            assert forall|i: int, j: int| 0 <= i < j < init.len() implies (#[trigger] init[i]).source_app@ != (
            #[trigger] init[j]).source_app@ by {
                assert(s[i].source_app@ != s[j].source_app@);
            }
            let out = other_sources(s, source);
            assert forall|i: int, j: int| 0 <= i < j < out.len() implies (#[trigger] out[i]).source_app@ != (
            #[trigger] out[j]).source_app@ by {
                if j == rest.len() {
                    assert(init.contains(rest[i]));
                    let k = choose|k: int| 0 <= k < init.len() && init[k] == rest[i];
                    assert(s[k].source_app@ != s[s.len() - 1].source_app@);
                } else {
                    assert(rest[i].source_app@ != rest[j].source_app@);
                }
            }
        }
    }
}

/// Caching keeps the cache in order, and the track just cached is its newest
/// entry, found under its source without its raw cover.
pub proof fn law_cache_holds_the_newest_track(s: Seq<TrackInfo>, track: TrackInfo)
    requires
        cache_ok(s),
    ensures
        cache_ok(cached(s, track)),
        cached(s, track).last() == track.without_artwork(),
        track_for(cached(s, track), track.source_app@) == Some(track.without_artwork()),
{
    law_removal_leaves_the_other_sources(s, track.source_app@);
    let rest = other_sources(s, track.source_app@);
    let all = rest.push(track.without_artwork());
    assert(distinct_sources(all)) by {
        assert forall|i: int, j: int| 0 <= i < j < all.len() implies (#[trigger] all[i]).source_app@ != (
        #[trigger] all[j]).source_app@ by {
            if j == rest.len() {
                assert(rest[i].source_app@ != track.source_app@);
            } else {
                assert(rest[i].source_app@ != rest[j].source_app@);
            }
        }
    }
    let out = cached(s, track);
    assert forall|i: int, j: int| 0 <= i < j < out.len() implies (#[trigger] out[i]).source_app@ != (
    #[trigger] out[j]).source_app@ by {
        let d = all.len() - out.len();
        assert(all[i + d].source_app@ != all[j + d].source_app@);
    }
}

/// Below the cap nothing is evicted: every other source keeps its track.
pub proof fn law_cache_retains_below_the_cap(s: Seq<TrackInfo>, track: TrackInfo, source: Seq<char>)
    requires
        cache_ok(s),
        source != track.source_app@,
        s.len() < TRACK_CACHE_CAP || track_for(s, track.source_app@) is Some,
    ensures
        track_for(cached(s, track), source) == track_for(s, source),
{
    law_removal_leaves_the_other_sources(s, track.source_app@);
    lemma_other_sources_lookup(s, track.source_app@, source);
    let rest = other_sources(s, track.source_app@);
    let all = rest.push(track.without_artwork());
    assert(rest.len() < TRACK_CACHE_CAP) by {
        if track_for(s, track.source_app@) is Some {
            lemma_other_sources_shrinks(s, track.source_app@);
        }
    }
    assert(cached(s, track) == all);
    assert(all.drop_last() =~= rest);
}

proof fn lemma_other_sources_shrinks(s: Seq<TrackInfo>, source: Seq<char>)
    requires
        track_for(s, source) is Some,
    ensures
        other_sources(s, source).len() < s.len(),
    decreases s.len(),
{
    law_removal_leaves_the_other_sources(s.drop_last(), source);
    if s.last().source_app@ != source {
        lemma_other_sources_shrinks(s.drop_last(), source);
    }
}

proof fn lemma_other_sources_lookup(s: Seq<TrackInfo>, removed: Seq<char>, source: Seq<char>)
    requires
        removed != source,
    ensures
        track_for(other_sources(s, removed), source) == track_for(s, source),
    decreases s.len(),
{
    if s.len() > 0 {
        lemma_other_sources_lookup(s.drop_last(), removed, source);
        if s.last().source_app@ != removed {
            let out = other_sources(s, removed);
            assert(out.drop_last() =~= other_sources(s.drop_last(), removed));
        }
    }
}

/// A source that was removed has no track left.
pub proof fn law_removed_source_has_no_track(s: Seq<TrackInfo>, source: Seq<char>)
    ensures
        track_for(other_sources(s, source), source) is None,
    decreases s.len(),
{
    law_removal_leaves_the_other_sources(s, source);
    lemma_absent(other_sources(s, source), source);
}

proof fn lemma_absent(s: Seq<TrackInfo>, source: Seq<char>)
    requires
        forall|i: int| 0 <= i < s.len() ==> (#[trigger] s[i]).source_app@ != source,
    ensures
        track_for(s, source) is None,
    decreases s.len(),
{
    if s.len() > 0 {
        assert(s[s.len() - 1].source_app@ != source);
        assert forall|i: int| 0 <= i < s.drop_last().len() implies (#[trigger] s.drop_last()[i]).source_app@
            != source by {
            assert(s[i].source_app@ != source);
        }
        lemma_absent(s.drop_last(), source);
    }
}

/// The first position whose entry satisfies `p`; the length where none does.
pub open spec fn first_where(l: Seq<LedgerEntry>, p: spec_fn(LedgerEntry) -> bool) -> nat
    decreases l.len(),
{
    if l.len() == 0 || p(l[0]) {
        0
    } else {
        1 + first_where(l.skip(1), p)
    }
}

proof fn lemma_first_where(l: Seq<LedgerEntry>, p: spec_fn(LedgerEntry) -> bool)
    ensures
        first_where(l, p) <= l.len(),
        first_where(l, p) < l.len() ==> p(l[first_where(l, p) as int]),
        forall|k: int| 0 <= k < first_where(l, p) ==> !p(#[trigger] l[k]),
    decreases l.len(),
{
    if l.len() > 0 && !p(l[0]) {
        let tail = l.skip(1);
        lemma_first_where(tail, p);
        assert forall|k: int| 0 <= k < first_where(l, p) implies !p(#[trigger] l[k]) by {
            if k > 0 {
                assert(tail[k - 1] == l[k]);
            }
        }
    }
}

proof fn lemma_first_where_is(l: Seq<LedgerEntry>, p: spec_fn(LedgerEntry) -> bool, i: int)
    requires
        0 <= i <= l.len(),
        forall|k: int| 0 <= k < i ==> !p(#[trigger] l[k]),
        i == l.len() || p(l[i]),
    ensures
        first_where(l, p) == i,
{
    lemma_first_where(l, p);
    let f = first_where(l, p) as int;
    if f < i {
        assert(!p(l[f]));
    } else if i < f {
        assert(!p(l[i]));
    }
}

/// Entries of the given source.
pub open spec fn of_source(source: Seq<char>) -> spec_fn(LedgerEntry) -> bool {
    |e: LedgerEntry| e.source@ == source
}

/// Stopped entries.
pub open spec fn stopped_entry() -> spec_fn(LedgerEntry) -> bool {
    |e: LedgerEntry| e.state == PlaybackState::Stopped
}

/// The position of a source's entry.
pub open spec fn entry_of(l: Seq<LedgerEntry>, source: Seq<char>) -> nat {
    first_where(l, of_source(source))
}

/// The position of the first Stopped entry.
pub open spec fn first_stopped(l: Seq<LedgerEntry>) -> nat {
    first_where(l, stopped_entry())
}

/// The last known state of a source.
pub open spec fn known_state(l: Seq<LedgerEntry>, source: Seq<char>) -> Option<PlaybackState> {
    let i = entry_of(l, source);
    if i < l.len() {
        Some(l[i as int].state)
    } else {
        None
    }
}

/// The ledger with a source's state recorded, before the cap is applied.
pub open spec fn recorded(l: Seq<LedgerEntry>, source: String, state: PlaybackState) -> Seq<LedgerEntry> {
    let i = entry_of(l, source@);
    if i < l.len() {
        l.update(i as int, LedgerEntry { source: l[i as int].source, state })
    } else {
        l.push(LedgerEntry { source, state })
    }
}

/// The entry that leaves an overfull ledger: the first Stopped one, else the
/// oldest.
pub open spec fn evicted_at(l: Seq<LedgerEntry>) -> nat {
    if first_stopped(l) < l.len() {
        first_stopped(l)
    } else {
        0
    }
}

/// The ledger after a state was recorded.
pub open spec fn remembered(l: Seq<LedgerEntry>, source: String, state: PlaybackState) -> Seq<LedgerEntry> {
    let all = recorded(l, source, state);
    if all.len() > LEDGER_STATE_CAP {
        all.remove(evicted_at(all) as int)
    } else {
        all
    }
}

/// No source has two entries.
pub open spec fn distinct_entries(l: Seq<LedgerEntry>) -> bool {
    forall|i: int, j: int| 0 <= i < j < l.len() ==> (#[trigger] l[i]).source@ != (#[trigger] l[j]).source@
}

/// A ledger in order: at most one entry per source, and no more than the cap.
pub open spec fn ledger_ok(l: Seq<LedgerEntry>) -> bool {
    distinct_entries(l) && l.len() <= LEDGER_STATE_CAP
}

/// The last known playback state per source, oldest entry first.
#[derive(Debug)]
pub struct SourceLedger {
    pub entries: Vec<LedgerEntry>,
}

impl View for SourceLedger {
    type V = Seq<LedgerEntry>;

    open spec fn view(&self) -> Seq<LedgerEntry> {
        self.entries@
    }
}

impl SourceLedger {
    /// An empty ledger.
    pub fn new() -> (r: Self)
        ensures
            r@ == Seq::<LedgerEntry>::empty(),
    {
        SourceLedger { entries: Vec::new() }
    }

    fn find(&self, source: &String) -> (r: usize)
        ensures
            r == entry_of(self@, source@),
            r <= self@.len(),
    {
        let ghost p = of_source(source@);
        let mut i: usize = 0;
        while i < self.entries.len() && self.entries[i].source != *source
            invariant
                i <= self@.len(),
                p == of_source(source@),
                forall|k: int| 0 <= k < i ==> !p(#[trigger] self@[k]),
            decreases self@.len() - i,
        {
            i = i + 1;
        }
        proof {
            lemma_first_where_is(self@, p, i as int);
        }
        i
    }

    fn find_stopped(&self) -> (r: usize)
        ensures
            r == first_stopped(self@),
            r <= self@.len(),
    {
        let ghost p = stopped_entry();
        let mut i: usize = 0;
        while i < self.entries.len() && self.entries[i].state != PlaybackState::Stopped
            invariant
                i <= self@.len(),
                p == stopped_entry(),
                forall|k: int| 0 <= k < i ==> !p(#[trigger] self@[k]),
            decreases self@.len() - i,
        {
            i = i + 1;
        }
        proof {
            lemma_first_where_is(self@, p, i as int);
        }
        i
    }

    /// The last known state of a source.
    pub fn get(&self, source: &String) -> (r: Option<PlaybackState>)
        ensures
            r == known_state(self@, source@),
    {
        let i: usize = self.find(source);
        if i < self.entries.len() {
            Some(self.entries[i].state)
        } else {
            None
        }
    }

    /// Records a source's state. Past the cap a Stopped entry leaves, or the
    /// oldest one where none is Stopped.
    pub fn remember(&mut self, source: &String, state: PlaybackState)
        ensures
            final(self)@ == remembered(old(self)@, *source, state),
    {
        let i: usize = self.find(source);
        if i < self.entries.len() {
            let key = self.entries[i].source.clone();
            self.entries.set(i, LedgerEntry { source: key, state });
        } else {
            self.entries.push(LedgerEntry { source: source.clone(), state });
        }
        assert(self@ == recorded(old(self)@, *source, state));
        if self.entries.len() > LEDGER_STATE_CAP {
            let stopped: usize = self.find_stopped();
            let at: usize = if stopped < self.entries.len() {
                stopped
            } else {
                0
            };
            let _ = self.entries.remove(at);
        }
    }
}

/// Recording keeps the ledger in order.
pub proof fn law_ledger_stays_bounded(l: Seq<LedgerEntry>, source: String, state: PlaybackState)
    requires
        ledger_ok(l),
    ensures
        ledger_ok(remembered(l, source, state)),
{
    let p = of_source(source@);
    lemma_first_where(l, p);
    let all = recorded(l, source, state);
    assert(distinct_entries(all)) by {
        assert forall|i: int, j: int| 0 <= i < j < all.len() implies (#[trigger] all[i]).source@ != (
        #[trigger] all[j]).source@ by {
            if j < l.len() {
                assert(l[i].source@ != l[j].source@);
            } else {
                assert(!p(l[i]));
            }
        }
    }
    if all.len() > LEDGER_STATE_CAP {
        lemma_first_where(all, stopped_entry());
        let at = evicted_at(all) as int;
        let out = all.remove(at);
        assert forall|i: int, j: int| 0 <= i < j < out.len() implies (#[trigger] out[i]).source@ != (
        #[trigger] out[j]).source@ by {
            let a = if i < at {
                i
            } else {
                i + 1
            };
            let b = if j < at {
                j
            } else {
                j + 1
            };
            assert(all[a].source@ != all[b].source@);
        }
    }
}

/// A state that is not Stopped is known right after it was recorded, as long
/// as the ledger held a Stopped entry or had room.
pub proof fn law_recorded_live_state_is_known(l: Seq<LedgerEntry>, source: String, state: PlaybackState)
    requires
        ledger_ok(l),
        state != PlaybackState::Stopped,
        l.len() < LEDGER_STATE_CAP || known_state(l, source@) is Some || exists|k: int|
            0 <= k < l.len() && (#[trigger] l[k]).state == PlaybackState::Stopped,
    ensures
        known_state(remembered(l, source, state), source@) == Some(state),
{
    let p = of_source(source@);
    let q = stopped_entry();
    lemma_first_where(l, p);
    let all = recorded(l, source, state);
    let i = entry_of(l, source@) as int;
    assert(all[i].source@ == source@ && all[i].state == state);
    assert forall|k: int| 0 <= k < i implies !p(#[trigger] all[k]) by {
        assert(all[k] == l[k]);
    }
    lemma_first_where_is(all, p, i);
    if all.len() > LEDGER_STATE_CAP {
        let k0 = choose|k: int| 0 <= k < l.len() && (#[trigger] l[k]).state == PlaybackState::Stopped;
        assert(all[k0] == l[k0]);
        lemma_first_where(all, q);
        let at = first_stopped(all) as int;
        if at > k0 {
            assert(!q(all[k0]));
        }
        let out = all.remove(at);
        assert(i == l.len());
        assert(out[i - 1] == all[i]);
        assert forall|k: int| 0 <= k < i - 1 implies !p(#[trigger] out[k]) by {
            if k < at {
                assert(out[k] == all[k]);
            } else {
                assert(out[k] == all[k + 1]);
            }
        }
        lemma_first_where_is(out, p, i - 1);
    }
}

/// While a Stopped entry exists, recording never evicts an entry that is not
/// Stopped: every other live source keeps its state.
pub proof fn law_live_states_outlive_stopped_ones(
    l: Seq<LedgerEntry>,
    source: String,
    state: PlaybackState,
    other: Seq<char>,
)
    requires
        ledger_ok(l),
        other != source@,
        known_state(l, other) is Some,
        known_state(l, other) != Some(PlaybackState::Stopped),
        l.len() < LEDGER_STATE_CAP || known_state(l, source@) is Some || exists|k: int|
            0 <= k < l.len() && (#[trigger] l[k]).state == PlaybackState::Stopped,
    ensures
        known_state(remembered(l, source, state), other) == known_state(l, other),
{
    let p = of_source(source@);
    let o = of_source(other);
    let q = stopped_entry();
    lemma_first_where(l, p);
    lemma_first_where(l, o);
    let all = recorded(l, source, state);
    let i = entry_of(l, other) as int;
    let j = entry_of(l, source@) as int;
    assert(first_where(l, p) == j);
    assert(first_where(l, o) == i);
    assert(o(l[i]));
    assert(j < l.len() ==> p(l[j]));
    assert(all[i].source@ == other && all[i].state == l[i].state);
    assert forall|k: int| 0 <= k < i implies !o(#[trigger] all[k]) by {
        assert(!o(l[k]));
    }
    lemma_first_where_is(all, o, i);
    if all.len() > LEDGER_STATE_CAP {
        let k0 = choose|k: int| 0 <= k < l.len() && (#[trigger] l[k]).state == PlaybackState::Stopped;
        assert(all[k0] == l[k0]);
        lemma_first_where(all, q);
        let at = first_stopped(all) as int;
        if at > k0 {
            assert(!q(all[k0]));
        }
        assert(q(all[at]));
        assert(at != i);
        let out = all.remove(at);
        let ni = if i < at {
            i
        } else {
            i - 1
        };
        assert(out[ni] == all[i]);
        assert forall|k: int| 0 <= k < ni implies !o(#[trigger] out[k]) by {
            if k < at {
                assert(out[k] == all[k]);
            } else {
                assert(out[k] == all[k + 1]);
            }
        }
        lemma_first_where_is(out, o, ni);
    }
}

/// A source recorded as Stopped is known as Stopped, or no longer known: it
/// never counts as playing.
pub proof fn law_stopped_source_is_inert(l: Seq<LedgerEntry>, source: String)
    requires
        ledger_ok(l),
    ensures
        known_state(remembered(l, source, PlaybackState::Stopped), source@) is None || known_state(
            remembered(l, source, PlaybackState::Stopped),
            source@,
        ) == Some(PlaybackState::Stopped),
{
    let p = of_source(source@);
    lemma_first_where(l, p);
    let all = recorded(l, source, PlaybackState::Stopped);
    let i = entry_of(l, source@) as int;
    let out = remembered(l, source, PlaybackState::Stopped);
    lemma_first_where(all, stopped_entry());
    lemma_first_where(out, p);
    let j = entry_of(out, source@) as int;
    if j < out.len() {
        assert(p(out[j]));
        let k = if all.len() > LEDGER_STATE_CAP && j >= evicted_at(all) {
            j + 1
        } else {
            j
        };
        assert(out[j] == all[k]);
        if k != i {
            assert(all[k] == l[k]);
            if i < l.len() {
                assert(p(l[i]));
                assert(l[i].source@ == l[k].source@);
                if k < i {
                    assert(l[k].source@ != l[i].source@);
                } else {
                    assert(l[i].source@ != l[k].source@);
                }
            } else {
                assert(!p(l[k]));
            }
        }
    }
}

/// The most recent remembered track of a source other than `excluded` that
/// is actually playing.
pub open spec fn successor(
    cache: Seq<TrackInfo>,
    ledger: Seq<LedgerEntry>,
    excluded: Seq<char>,
) -> Option<TrackInfo>
    decreases cache.len(),
{
    if cache.len() == 0 {
        None
    } else if cache.last().source_app@ != excluded && known_state(ledger, cache.last().source_app@) == Some(
        PlaybackState::Playing,
    ) {
        Some(cache.last())
    } else {
        successor(cache.drop_last(), ledger, excluded)
    }
}

/// The most recent remembered track of a source that matches the pin and is
/// actually playing.
pub open spec fn pinned(cache: Seq<TrackInfo>, ledger: Seq<LedgerEntry>, pin: Option<Seq<char>>) -> Option<TrackInfo>
    decreases cache.len(),
{
    if cache.len() == 0 || pin is None {
        None
    } else if pin_matches(cache.last().source_app@, pin->0) && known_state(ledger, cache.last().source_app@) == Some(
        PlaybackState::Playing,
    ) {
        Some(cache.last())
    } else {
        pinned(cache.drop_last(), ledger, pin)
    }
}

/// The successor for `excluded`: the most recent playing source's track.
pub fn best_successor(cache: &TrackCache, ledger: &SourceLedger, excluded: &str) -> (r: Option<TrackInfo>)
    ensures
        r == successor(cache@, ledger@, excluded@),
{
    let mut i: usize = cache.entries.len();
    proof {
        assert(cache@.take(i as int) =~= cache@);
    }
    while i > 0
        invariant
            i <= cache@.len(),
            successor(cache@, ledger@, excluded@) == successor(cache@.take(i as int), ledger@, excluded@),
        decreases i,
    {
        proof {
            assert(cache@.take(i as int).drop_last() =~= cache@.take(i - 1));
            assert(cache@.take(i as int).last() == cache@[i - 1]);
        }
        i = i - 1;
        let entry = &cache.entries[i];
        if !same_text(entry.source_app.as_str(), excluded) {
            if let Some(state) = ledger.get(&entry.source_app) {
                if state == PlaybackState::Playing {
                    return Some(entry.clone());
                }
            }
        }
    }
    None
}

/// The pinned source's most recent track, while the pin is playing.
pub fn pinned_track(cache: &TrackCache, ledger: &SourceLedger, pin: &Option<String>) -> (r: Option<TrackInfo>)
    ensures
        r == pinned(cache@, ledger@, optional_text(*pin)),
{
    let pattern: &String = match pin {
        Some(p) => p,
        None => {
            return None;
        },
    };
    let mut i: usize = cache.entries.len();
    proof {
        assert(cache@.take(i as int) =~= cache@);
    }
    while i > 0
        invariant
            i <= cache@.len(),
            optional_text(*pin) == Some(pattern@),
            pinned(cache@, ledger@, optional_text(*pin)) == pinned(cache@.take(i as int), ledger@, optional_text(*pin)),
        decreases i,
    {
        proof {
            assert(cache@.take(i as int).drop_last() =~= cache@.take(i - 1));
            assert(cache@.take(i as int).last() == cache@[i - 1]);
        }
        i = i - 1;
        let entry = &cache.entries[i];
        if source_matches_pin(entry.source_app.as_str(), pattern.as_str()) {
            if let Some(state) = ledger.get(&entry.source_app) {
                if state == PlaybackState::Playing {
                    return Some(entry.clone());
                }
            }
        }
    }
    None
}

/// A successor is playing, remembered, and never the excluded source.
pub proof fn law_successor_is_playing(cache: Seq<TrackInfo>, ledger: Seq<LedgerEntry>, excluded: Seq<char>)
    ensures
        successor(cache, ledger, excluded) matches Some(t) ==> {
            &&& t.source_app@ != excluded
            &&& known_state(ledger, t.source_app@) == Some(PlaybackState::Playing)
            &&& cache.contains(t)
        },
    decreases cache.len(),
{
    if cache.len() > 0 {
        law_successor_is_playing(cache.drop_last(), ledger, excluded);
        assert(cache[cache.len() - 1] == cache.last());
        if let Some(t) = successor(cache.drop_last(), ledger, excluded) {
            let k = choose|k: int| 0 <= k < cache.drop_last().len() && cache.drop_last()[k] == t;
            assert(cache[k] == t);
        }
    }
}

/// Where some other remembered source is playing there is a successor.
pub proof fn law_playing_source_has_a_successor(
    cache: Seq<TrackInfo>,
    ledger: Seq<LedgerEntry>,
    excluded: Seq<char>,
    i: int,
)
    requires
        0 <= i < cache.len(),
        cache[i].source_app@ != excluded,
        known_state(ledger, cache[i].source_app@) == Some(PlaybackState::Playing),
    ensures
        successor(cache, ledger, excluded) is Some,
    decreases cache.len(),
{
    if i < cache.len() - 1 {
        law_playing_source_has_a_successor(cache.drop_last(), ledger, excluded, i);
    }
}

/// A pinned track is of a playing source that matches the pin: a paused or
/// stopped pin is never resurrected.
pub proof fn law_pinned_track_is_playing(cache: Seq<TrackInfo>, ledger: Seq<LedgerEntry>, pin: Option<Seq<char>>)
    ensures
        pinned(cache, ledger, pin) matches Some(t) ==> {
            &&& pin is Some
            &&& pin_matches(t.source_app@, pin->0)
            &&& known_state(ledger, t.source_app@) == Some(PlaybackState::Playing)
            &&& cache.contains(t)
        },
    decreases cache.len(),
{
    if cache.len() > 0 {
        law_pinned_track_is_playing(cache.drop_last(), ledger, pin);
        assert(cache[cache.len() - 1] == cache.last());
        if let Some(t) = pinned(cache.drop_last(), ledger, pin) {
            let k = choose|k: int| 0 <= k < cache.drop_last().len() && cache.drop_last()[k] == t;
            assert(cache[k] == t);
        }
    }
}

/// The ledger answers for a source with the state of its entry, wherever that
/// stands, and knows nothing of a source without one.
pub proof fn law_known_state_is_the_entry_of_the_source(l: Seq<LedgerEntry>, source: Seq<char>)
    ensures
        forall|i: int|
            0 <= i < l.len() && (#[trigger] l[i]).source@ == source && distinct_entries(l) ==> known_state(l, source)
                == Some(l[i].state),
        (forall|i: int| 0 <= i < l.len() ==> (#[trigger] l[i]).source@ != source) <==> known_state(l, source) is None,
{
    let p = of_source(source);
    lemma_first_where(l, p);
    let f = entry_of(l, source) as int;
    assert forall|i: int| 0 <= i < l.len() && (#[trigger] l[i]).source@ == source && distinct_entries(l) implies
        known_state(l, source) == Some(l[i].state) by {
        assert(p(l[i]));
        assert(f <= i);
        if f < i {
            assert(l[f].source@ != l[i].source@);
        }
    }
    if f == l.len() {
        assert forall|i: int| 0 <= i < l.len() implies (#[trigger] l[i]).source@ != source by {
            assert(!p(l[i]));
        }
    }
}

/// Recording a state for a source that has an entry changes that entry's
/// state, in its place, and nothing else.
pub proof fn law_recording_again_changes_one_state(l: Seq<LedgerEntry>, source: String, state: PlaybackState, i: int)
    requires
        ledger_ok(l),
        0 <= i < l.len(),
        l[i].source@ == source@,
    ensures
        remembered(l, source, state).len() == l.len(),
        remembered(l, source, state)[i].source@ == source@,
        remembered(l, source, state)[i].state == state,
        forall|k: int| 0 <= k < l.len() && k != i ==> #[trigger] remembered(l, source, state)[k] == l[k],
{
    let p = of_source(source@);
    lemma_first_where(l, p);
    let f = entry_of(l, source@) as int;
    assert(p(l[i]));
    if f < i {
        assert(l[f].source@ != l[i].source@);
    }
}

/// A source recorded for the first time joins at the end. A full ledger gives
/// up one entry for it: the first Stopped one, else the oldest.
pub proof fn law_new_entry_evicts_a_stopped_one_first(
    l: Seq<LedgerEntry>,
    source: String,
    state: PlaybackState,
    first_stopped_at: int,
)
    requires
        ledger_ok(l),
        forall|i: int| 0 <= i < l.len() ==> (#[trigger] l[i]).source@ != source@,
        0 <= first_stopped_at <= l.len(),
        first_stopped_at < l.len() ==> l[first_stopped_at].state == PlaybackState::Stopped,
        forall|i: int| 0 <= i < first_stopped_at ==> (#[trigger] l[i]).state != PlaybackState::Stopped,
    ensures
        ({
            let out = remembered(l, source, state);
            let entry = LedgerEntry { source, state };
            &&& l.len() < 64 ==> out == l.push(entry)
            &&& l.len() == 64 && first_stopped_at < 64 ==> out == l.remove(first_stopped_at).push(entry)
            &&& l.len() == 64 && first_stopped_at == 64 && state != PlaybackState::Stopped ==> out == l.skip(1).push(
                entry,
            )
            &&& l.len() == 64 && first_stopped_at == 64 && state == PlaybackState::Stopped ==> out == l
        }),
{
    let p = of_source(source@);
    let q = stopped_entry();
    assert forall|k: int| 0 <= k < l.len() implies !p(#[trigger] l[k]) by {
        assert(l[k].source@ != source@);
    }
    lemma_first_where_is(l, p, l.len() as int);
    let entry = LedgerEntry { source, state };
    let all = l.push(entry);
    assert(recorded(l, source, state) == all);
    assert forall|k: int| 0 <= k < first_stopped_at implies !q(#[trigger] all[k]) by {
        assert(all[k] == l[k]);
        assert(l[k].state != PlaybackState::Stopped);
    }
    let out = remembered(l, source, state);
    if l.len() == 64 {
        if first_stopped_at < l.len() {
            assert(all[first_stopped_at] == l[first_stopped_at]);
            lemma_first_where_is(all, q, first_stopped_at);
            assert(out =~= l.remove(first_stopped_at).push(entry));
        } else if state == PlaybackState::Stopped {
            assert(all[64] == entry);
            lemma_first_where_is(all, q, 64);
            assert(out =~= l);
        } else {
            assert forall|k: int| 0 <= k < 65 implies !q(#[trigger] all[k]) by {
                if k < 64 {
                    assert(all[k] == l[k]);
                    assert(l[k].state != PlaybackState::Stopped);
                }
            }
            lemma_first_where_is(all, q, 65);
            assert(out =~= l.skip(1).push(entry));
        }
    }
}

/// Removing a source looks at each entry on its own: the entries of two runs
/// are removed run by run, one of another source stays, one of the source
/// goes.
pub proof fn law_removal_goes_entry_by_entry(a: Seq<TrackInfo>, b: Seq<TrackInfo>, track: TrackInfo, source: Seq<char>)
    ensures
        other_sources(a + b, source) == other_sources(a, source) + other_sources(b, source),
        track.source_app@ == source ==> other_sources(seq![track], source) == Seq::<TrackInfo>::empty(),
        track.source_app@ != source ==> other_sources(seq![track], source) == seq![track],
    decreases b.len(),
{
    let one = seq![track];
    assert(one.drop_last() =~= Seq::<TrackInfo>::empty());
    assert(one.last() == track);
    assert(other_sources(one.drop_last(), source) =~= Seq::<TrackInfo>::empty());
    assert(Seq::<TrackInfo>::empty().push(track) =~= one);
    if b.len() == 0 {
        assert(a + b =~= a);
        assert(other_sources(a, source) + other_sources(b, source) =~= other_sources(a, source));
    } else {
        assert((a + b).drop_last() =~= a + b.drop_last());
        assert((a + b).last() == b.last());
        law_removal_goes_entry_by_entry(a, b.drop_last(), track, source);
        assert(other_sources(a + b, source) =~= other_sources(a, source) + other_sources(b, source));
    }
}

/// A source that is not in a full cache costs the oldest entry its place, and
/// only that one; in a cache with room it costs nothing.
pub proof fn law_full_cache_gives_up_its_oldest(s: Seq<TrackInfo>, track: TrackInfo)
    requires
        s.len() <= 3,
        forall|i: int| 0 <= i < s.len() ==> (#[trigger] s[i]).source_app@ != track.source_app@,
    ensures
        s.len() == 3 ==> cached(s, track) == s.skip(1).push(track.without_artwork()),
        s.len() < 3 ==> cached(s, track) == s.push(track.without_artwork()),
        track.without_artwork().artwork is None,
        track.without_artwork() == (TrackInfo { artwork: None, ..track }),
{
    lemma_nothing_to_remove(s, track.source_app@);
    let all = s.push(track.without_artwork());
    if s.len() == 3 {
        assert(all.skip(1) =~= s.skip(1).push(track.without_artwork()));
    }
}

proof fn lemma_nothing_to_remove(s: Seq<TrackInfo>, source: Seq<char>)
    requires
        forall|i: int| 0 <= i < s.len() ==> (#[trigger] s[i]).source_app@ != source,
    ensures
        other_sources(s, source) == s,
    decreases s.len(),
{
    if s.len() > 0 {
        assert(s[s.len() - 1].source_app@ != source);
        assert forall|i: int| 0 <= i < s.drop_last().len() implies (#[trigger] s.drop_last()[i]).source_app@
            != source by {
            assert(s[i].source_app@ != source);
        }
        lemma_nothing_to_remove(s.drop_last(), source);
        assert(s.drop_last().push(s.last()) =~= s);
    } else {
        assert(other_sources(s, source) =~= s);
    }
}

/// A source that returns to the cache moves to its end: the entries before
/// and after it keep their order, and its old track is gone.
pub proof fn law_returning_source_becomes_the_newest(
    before: Seq<TrackInfo>,
    stale: TrackInfo,
    after: Seq<TrackInfo>,
    track: TrackInfo,
)
    requires
        stale.source_app@ == track.source_app@,
        cache_ok(before.push(stale) + after),
    ensures
        cached(before.push(stale) + after, track) == (before + after).push(track.without_artwork()),
{
    let source = track.source_app@;
    let s = before.push(stale) + after;
    assert(s[before.len() as int] == stale);
    assert forall|i: int| 0 <= i < before.len() implies (#[trigger] before[i]).source_app@ != source by {
        assert(s[i] == before[i]);
        assert(s[i].source_app@ != s[before.len() as int].source_app@);
    }
    assert forall|i: int| 0 <= i < after.len() implies (#[trigger] after[i]).source_app@ != source by {
        assert(s[before.len() + 1 + i] == after[i]);
        assert(s[before.len() as int].source_app@ != s[before.len() + 1 + i].source_app@);
    }
    lemma_nothing_to_remove(before, source);
    lemma_nothing_to_remove(after, source);
    law_removal_goes_entry_by_entry(before.push(stale), after, stale, source);
    assert(before.push(stale).drop_last() =~= before);
    assert(other_sources(before.push(stale), source) == before);
    assert(other_sources(s, source) == before + after);
}

/// The remembered track of a source is its entry, wherever in the cache that
/// stands; a source without an entry has none.
pub proof fn law_remembered_track_is_the_entry_of_the_source(s: Seq<TrackInfo>, source: Seq<char>)
    requires
        distinct_sources(s),
    ensures
        forall|i: int|
            0 <= i < s.len() && (#[trigger] s[i]).source_app@ == source ==> track_for(s, source) == Some(s[i]),
        (forall|i: int| 0 <= i < s.len() ==> (#[trigger] s[i]).source_app@ != source) ==> track_for(s, source) is None,
    decreases s.len(),
{
    if s.len() > 0 {
        let init = s.drop_last();
        assert forall|i: int, j: int| 0 <= i < j < init.len() implies (#[trigger] init[i]).source_app@ != (
        #[trigger] init[j]).source_app@ by {
            assert(s[i].source_app@ != s[j].source_app@);
        }
        law_remembered_track_is_the_entry_of_the_source(init, source);
        assert forall|i: int| 0 <= i < s.len() && (#[trigger] s[i]).source_app@ == source implies track_for(s, source)
            == Some(s[i]) by {
            if i < s.len() - 1 {
                assert(init[i] == s[i]);
                assert(s[i].source_app@ != s[s.len() - 1].source_app@);
            }
        }
        if forall|i: int| 0 <= i < s.len() ==> (#[trigger] s[i]).source_app@ != source {
            assert(s[s.len() - 1].source_app@ != source);
            assert forall|i: int| 0 <= i < init.len() implies (#[trigger] init[i]).source_app@ != source by {
                assert(s[i].source_app@ != source);
            }
        }
    }
}

/// Whether the remembered track at `i` is of a playing source that matches
/// the pin.
pub open spec fn plays_pinned(cache: Seq<TrackInfo>, ledger: Seq<LedgerEntry>, pin: Seq<char>, i: int) -> bool {
    &&& 0 <= i < cache.len()
    &&& pin_matches(cache[i].source_app@, pin)
    &&& known_state(ledger, cache[i].source_app@) == Some(PlaybackState::Playing)
}

/// A playing source that matches the pin is found wherever in the cache it
/// stands, and of several the newest one answers.
pub proof fn law_pin_finds_the_newest_playing_match(
    cache: Seq<TrackInfo>,
    ledger: Seq<LedgerEntry>,
    pin: Seq<char>,
    i: int,
)
    requires
        plays_pinned(cache, ledger, pin, i),
    ensures
        pinned(cache, ledger, Some(pin)) is Some,
        exists|j: int|
            i <= j && #[trigger] plays_pinned(cache, ledger, pin, j) && pinned(cache, ledger, Some(pin)) == Some(
                cache[j],
            ) && forall|k: int| j < k ==> !#[trigger] plays_pinned(cache, ledger, pin, k),
        (forall|k: int| i < k ==> !#[trigger] plays_pinned(cache, ledger, pin, k)) ==> pinned(cache, ledger, Some(pin))
            == Some(cache[i]),
    decreases cache.len(),
{
    let n = cache.len() - 1;
    if plays_pinned(cache, ledger, pin, n) {
        assert(pinned(cache, ledger, Some(pin)) == Some(cache[n]));
    } else {
        let init = cache.drop_last();
        assert forall|k: int| #[trigger] plays_pinned(init, ledger, pin, k) == (k != n && plays_pinned(
            cache,
            ledger,
            pin,
            k,
        )) by {
            if 0 <= k < init.len() {
                assert(init[k] == cache[k]);
            }
        }
        assert(plays_pinned(init, ledger, pin, i));
        law_pin_finds_the_newest_playing_match(init, ledger, pin, i);
        let j = choose|j: int|
            i <= j && #[trigger] plays_pinned(init, ledger, pin, j) && pinned(init, ledger, Some(pin)) == Some(init[j])
                && forall|k: int| j < k ==> !#[trigger] plays_pinned(init, ledger, pin, k);
        assert(plays_pinned(cache, ledger, pin, j) && init[j] == cache[j]);
        assert forall|k: int| j < k implies !#[trigger] plays_pinned(cache, ledger, pin, k) by {
            assert(!plays_pinned(init, ledger, pin, k));
        }
        if forall|k: int| i < k ==> !#[trigger] plays_pinned(cache, ledger, pin, k) {
            assert(j == i);
        }
    }
}

/// No track is pinned where no remembered source both matches the pin and
/// plays, nor without a pin.
pub proof fn law_no_pin_without_a_playing_match(cache: Seq<TrackInfo>, ledger: Seq<LedgerEntry>, pin: Option<Seq<char>>)
    requires
        pin matches Some(p) ==> forall|i: int| !#[trigger] plays_pinned(cache, ledger, p, i),
    ensures
        pinned(cache, ledger, pin) is None,
{
    law_pinned_track_is_playing(cache, ledger, pin);
    if let Some(t) = pinned(cache, ledger, pin) {
        let k = choose|k: int| 0 <= k < cache.len() && cache[k] == t;
        assert(plays_pinned(cache, ledger, pin->0, k));
    }
}

/// Whether the remembered track at `i` is of a playing source other than
/// `excluded`.
pub open spec fn plays_beside(cache: Seq<TrackInfo>, ledger: Seq<LedgerEntry>, excluded: Seq<char>, i: int) -> bool {
    &&& 0 <= i < cache.len()
    &&& cache[i].source_app@ != excluded
    &&& known_state(ledger, cache[i].source_app@) == Some(PlaybackState::Playing)
}

/// The successor is the newest remembered track of a playing source other
/// than the excluded one, wherever in the cache that stands; with no such
/// track there is none.
pub proof fn law_successor_is_the_newest_playing_track(
    cache: Seq<TrackInfo>,
    ledger: Seq<LedgerEntry>,
    excluded: Seq<char>,
    i: int,
)
    ensures
        plays_beside(cache, ledger, excluded, i) && (forall|k: int|
            i < k ==> !#[trigger] plays_beside(cache, ledger, excluded, k)) ==> successor(cache, ledger, excluded)
            == Some(cache[i]),
        (forall|k: int| !#[trigger] plays_beside(cache, ledger, excluded, k)) ==> successor(cache, ledger, excluded)
            is None,
    decreases cache.len(),
{
    if cache.len() > 0 {
        let n = cache.len() - 1;
        let init = cache.drop_last();
        assert forall|k: int| #[trigger] plays_beside(init, ledger, excluded, k) == (k != n && plays_beside(
            cache,
            ledger,
            excluded,
            k,
        )) by {
            if 0 <= k < init.len() {
                assert(init[k] == cache[k]);
            }
        }
        law_successor_is_the_newest_playing_track(init, ledger, excluded, i);
        if plays_beside(cache, ledger, excluded, i) && i < n {
            assert(init[i] == cache[i]);
            assert(plays_beside(init, ledger, excluded, i));
            if forall|k: int| i < k ==> !#[trigger] plays_beside(cache, ledger, excluded, k) {
                assert(!plays_beside(cache, ledger, excluded, n));
                assert forall|k: int| i < k implies !#[trigger] plays_beside(init, ledger, excluded, k) by {
                    assert(!plays_beside(cache, ledger, excluded, k));
                }
            }
        }
        if forall|k: int| !#[trigger] plays_beside(cache, ledger, excluded, k) {
            assert(!plays_beside(cache, ledger, excluded, n));
            assert forall|k: int| !#[trigger] plays_beside(init, ledger, excluded, k) by {
                assert(!plays_beside(cache, ledger, excluded, k));
            }
        }
    }
}

} // verus!
