//! Decode job queue: coalesces partials of one segment, lets finals jump the line,
//! and keeps the backlog bounded.
//!
//! Jobs are generic over the audio sample type `S`; the queue never looks at samples,
//! it only moves and concatenates them.  Blocking waits belong to the caller, which
//! holds the queue behind its own lock.
use vstd::prelude::*;

use crate::text::{trim, trim_str};

verus! {

#[derive(Debug, Clone, Copy, PartialEq, Eq, Structural)]
pub enum AsrWorkKind {
    Partial,
    Final,
}

pub struct AsrWorkItem<S> {
    pub kind: AsrWorkKind,
    pub audio: Vec<S>,
    pub duration_ms: u32,
    pub generation: u64,
    pub segment_id: String,
    pub revision: u64,
    pub audio_is_delta: bool,
}

/// Mathematical view of a decode job.
pub struct AsrWorkView<S> {
    pub kind: AsrWorkKind,
    pub audio: Seq<S>,
    pub duration_ms: u32,
    pub generation: u64,
    pub segment_id: Seq<char>,
    pub revision: u64,
    pub audio_is_delta: bool,
}

impl<S> View for AsrWorkItem<S> {
    type V = AsrWorkView<S>;

    open spec fn view(&self) -> AsrWorkView<S> {
        AsrWorkView {
            kind: self.kind,
            audio: self.audio@,
            duration_ms: self.duration_ms,
            generation: self.generation,
            segment_id: self.segment_id@,
            revision: self.revision,
            audio_is_delta: self.audio_is_delta,
        }
    }
}

impl<S> AsrWorkItem<S> {
    pub fn new(
        kind: AsrWorkKind,
        audio: Vec<S>,
        duration_ms: u32,
        generation: u64,
        segment_id: String,
        revision: u64,
    ) -> (r: Self)
        ensures
            r@ == (AsrWorkView {
                kind,
                audio: audio@,
                duration_ms,
                generation,
                segment_id: segment_id@,
                revision,
                audio_is_delta: false,
            }),
    {
        AsrWorkItem { kind, audio, duration_ms, generation, segment_id, revision, audio_is_delta: false }
    }
}

pub open spec fn views<S>(v: Seq<AsrWorkItem<S>>) -> Seq<AsrWorkView<S>> {
    v.map_values(|e: AsrWorkItem<S>| e@)
}

/// A queued partial job of segment `seg`.
pub open spec fn is_partial_of<S>(e: AsrWorkView<S>, seg: Seq<char>) -> bool {
    e.kind == AsrWorkKind::Partial && e.segment_id == seg
}

/// Jobs that survive when a new job of segment `seg` coalesces the queue.
pub open spec fn kept<S>(q: Seq<AsrWorkView<S>>, seg: Seq<char>) -> Seq<AsrWorkView<S>>
    decreases q.len(),
{
    if q.len() == 0 {
        Seq::empty()
    } else if is_partial_of(q.last(), seg) {
        kept(q.drop_last(), seg)
    } else {
        kept(q.drop_last(), seg).push(q.last())
    }
}

/// Number of queued partials of `seg` that a coalescing push removes.
pub open spec fn absorbed<S>(q: Seq<AsrWorkView<S>>, seg: Seq<char>) -> nat
    decreases q.len(),
{
    if q.len() == 0 {
        0
    } else if is_partial_of(q.last(), seg) {
        absorbed(q.drop_last(), seg) + 1
    } else {
        absorbed(q.drop_last(), seg)
    }
}

/// Delta audio carried by the removed partials of `seg`, oldest first.
pub open spec fn absorbed_audio<S>(q: Seq<AsrWorkView<S>>, seg: Seq<char>) -> Seq<S>
    decreases q.len(),
{
    if q.len() == 0 {
        Seq::empty()
    } else if is_partial_of(q.last(), seg) && q.last().audio_is_delta && q.last().audio.len() > 0 {
        absorbed_audio(q.drop_last(), seg) + q.last().audio
    } else {
        absorbed_audio(q.drop_last(), seg)
    }
}

/// Whether a pushed job removes the queued partials of its segment.
pub open spec fn coalesces<S>(item: AsrWorkView<S>) -> bool {
    item.segment_id.len() > 0 && (item.kind == AsrWorkKind::Partial || !(item.audio_is_delta
        && item.audio.len() == 0))
}

/// The job that is enqueued: a delta job takes over the delta audio of the partials it replaces.
pub open spec fn incoming<S>(q: Seq<AsrWorkView<S>>, item: AsrWorkView<S>) -> AsrWorkView<S> {
    if coalesces(item) && item.audio_is_delta && absorbed_audio(q, item.segment_id).len() > 0 {
        AsrWorkView { audio: absorbed_audio(q, item.segment_id) + item.audio, ..item }
    } else {
        item
    }
}

pub open spec fn pruned<S>(q: Seq<AsrWorkView<S>>, item: AsrWorkView<S>) -> Seq<AsrWorkView<S>> {
    if coalesces(item) {
        kept(q, item.segment_id)
    } else {
        q
    }
}

/// Index of the first partial at or after `i` (or `q.len()`).
pub open spec fn first_partial_from<S>(q: Seq<AsrWorkView<S>>, i: int) -> int
    decreases q.len() - i,
{
    if 0 <= i < q.len() && q[i].kind != AsrWorkKind::Partial {
        first_partial_from(q, i + 1)
    } else {
        i
    }
}

/// Queue contents after a push into a queue bounded by `maxsize`.
pub open spec fn after_push<S>(q: Seq<AsrWorkView<S>>, maxsize: nat, item: AsrWorkView<S>) -> Seq<
    AsrWorkView<S>,
> {
    let p = pruned(q, item);
    let inc = incoming(q, item);
    if p.len() >= maxsize {
        let k = first_partial_from(p, 0);
        if k < p.len() {
            p.remove(k).push(inc)
        } else if inc.kind == AsrWorkKind::Partial {
            p
        } else {
            p.remove(0).push(inc)
        }
    } else {
        p.push(inc)
    }
}

/// Partial jobs dropped by a push (the oldest queued partial, or the new one).
pub open spec fn push_drops<S>(q: Seq<AsrWorkView<S>>, maxsize: nat, item: AsrWorkView<S>) -> nat {
    let p = pruned(q, item);
    if p.len() >= maxsize && (first_partial_from(p, 0) < p.len() || item.kind
        == AsrWorkKind::Partial) {
        1
    } else {
        0
    }
}

pub open spec fn push_coalesced<S>(q: Seq<AsrWorkView<S>>, item: AsrWorkView<S>) -> nat {
    if coalesces(item) {
        absorbed(q, item.segment_id)
    } else {
        0
    }
}

/// An empty-delta final waits while partials of its (trimmed) segment are still queued.
pub open spec fn deferred_final<S>(e: AsrWorkView<S>, q: Seq<AsrWorkView<S>>) -> bool {
    &&& e.kind == AsrWorkKind::Final
    &&& e.audio_is_delta
    &&& e.audio.len() == 0
    &&& trim(e.segment_id).len() > 0
    &&& exists|j: int| 0 <= j < q.len() && #[trigger] is_partial_of(q[j], trim(e.segment_id))
}

pub open spec fn eligible_final<S>(q: Seq<AsrWorkView<S>>, i: int) -> bool {
    q[i].kind == AsrWorkKind::Final && !deferred_final(q[i], q)
}

/// First eligible final at or after `i` (or `q.len()`).
pub open spec fn next_final_from<S>(q: Seq<AsrWorkView<S>>, i: int) -> int
    decreases q.len() - i,
{
    if 0 <= i < q.len() && !eligible_final(q, i) {
        next_final_from(q, i + 1)
    } else {
        i
    }
}

/// Index of the job that `pop_next` hands out of a non-empty queue.
pub open spec fn pop_index<S>(q: Seq<AsrWorkView<S>>) -> int {
    if next_final_from(q, 0) < q.len() {
        next_final_from(q, 0)
    } else {
        0
    }
}

pub proof fn lemma_first_partial_from<S>(q: Seq<AsrWorkView<S>>, i: int)
    requires
        0 <= i <= q.len(),
    ensures
        i <= first_partial_from(q, i) <= q.len(),
        first_partial_from(q, i) < q.len() ==> q[first_partial_from(q, i)].kind
            == AsrWorkKind::Partial,
        forall|k: int| i <= k < first_partial_from(q, i) ==> q[k].kind != AsrWorkKind::Partial,
    decreases q.len() - i,
{
    if i < q.len() && q[i].kind != AsrWorkKind::Partial {
        lemma_first_partial_from(q, i + 1);
    }
}

pub proof fn lemma_next_final_from<S>(q: Seq<AsrWorkView<S>>, i: int)
    requires
        0 <= i <= q.len(),
    ensures
        i <= next_final_from(q, i) <= q.len(),
        next_final_from(q, i) < q.len() ==> eligible_final(q, next_final_from(q, i)),
        forall|k: int| i <= k < next_final_from(q, i) ==> !eligible_final(q, k),
    decreases q.len() - i,
{
    if i < q.len() && !eligible_final(q, i) {
        lemma_next_final_from(q, i + 1);
    }
}

pub proof fn lemma_kept<S>(q: Seq<AsrWorkView<S>>, seg: Seq<char>)
    ensures
        kept(q, seg).len() + absorbed(q, seg) == q.len(),
        forall|i: int| 0 <= i < kept(q, seg).len() ==> !is_partial_of(#[trigger] kept(q, seg)[i], seg),
    decreases q.len(),
{
    if q.len() > 0 {
        lemma_kept(q.drop_last(), seg);
        let r = kept(q.drop_last(), seg);
        if !is_partial_of(q.last(), seg) {
            assert forall|i: int| 0 <= i < r.push(q.last()).len() implies !is_partial_of(
                #[trigger] r.push(q.last())[i],
                seg,
            ) by {
                if i < r.len() {
                    assert(r.push(q.last())[i] == r[i]);
                }
            }
        }
    }
}

/// Bounded decode queue.
pub struct AsrSegmentQueue<S> {
    items: Vec<AsrWorkItem<S>>,
    maxsize: usize,
    partial_jobs_dropped: u64,
    partial_jobs_coalesced: u64,
    finals_prioritized_count: u64,
    wake_counter: u64,
}

impl<S> AsrSegmentQueue<S> {
    pub closed spec fn jobs(&self) -> Seq<AsrWorkView<S>> {
        views(self.items@)
    }

    pub closed spec fn capacity(&self) -> nat {
        self.maxsize as nat
    }

    pub closed spec fn dropped(&self) -> u64 {
        self.partial_jobs_dropped
    }

    pub closed spec fn coalesced(&self) -> u64 {
        self.partial_jobs_coalesced
    }

    pub closed spec fn wakes(&self) -> u64 {
        self.wake_counter
    }

    /// The backlog never exceeds the capacity, which is at least one.
    pub closed spec fn wf(&self) -> bool {
        &&& self.maxsize >= 1
        &&& self.items.len() <= self.maxsize
    }

    pub fn new(maxsize: usize) -> (r: Self)
        ensures
            r.wf(),
            r.jobs() == Seq::<AsrWorkView<S>>::empty(),
            r.capacity() == if maxsize >= 1 { maxsize as nat } else { 1 },
            r.dropped() == 0,
            r.coalesced() == 0,
            r.wakes() == 0,
    {
        let r = AsrSegmentQueue {
            items: Vec::new(),
            maxsize: if maxsize >= 1 { maxsize } else { 1 },
            partial_jobs_dropped: 0,
            partial_jobs_coalesced: 0,
            finals_prioritized_count: 0,
            wake_counter: 0,
        };
        assert(r.jobs() =~= Seq::<AsrWorkView<S>>::empty());
        r
    }

    pub fn push(&mut self, item: AsrWorkItem<S>)
        requires
            old(self).wf(),
        ensures
            final(self).wf(),
            final(self).capacity() == old(self).capacity(),
            final(self).jobs() == after_push(old(self).jobs(), old(self).capacity(), item@),
            final(self).dropped() as int == sat_u64(
                old(self).dropped() + push_drops(old(self).jobs(), old(self).capacity(), item@),
            ),
            final(self).coalesced() as int == sat_u64(
                old(self).coalesced() + push_coalesced(old(self).jobs(), item@),
            ),
            final(self).wakes() == old(self).wakes(),
    {
        let ghost q = self.jobs();
        let ghost iv = item@;
        let mut item = item;
        let coalesce = !item.segment_id.as_str().is_empty() && (match item.kind {
            AsrWorkKind::Partial => true,
            AsrWorkKind::Final => !(item.audio_is_delta && item.audio.len() == 0),
        });
        if coalesce {
            let mut taken: Vec<AsrWorkItem<S>> = Vec::new();
            std::mem::swap(&mut taken, &mut self.items);
            let (rest, count) = coalesce_into(taken, &mut item);
            self.items = rest;
            self.partial_jobs_coalesced = self.partial_jobs_coalesced.saturating_add(count);
        } else {
            proof {
                assert(coalesces(iv) == false);
            }
        }
        let ghost p = self.jobs();
        assert(p == pruned(q, iv));
        assert(item@ == incoming(q, iv));
        if self.items.len() >= self.maxsize {
            let k = first_partial_index(&self.items);
            if k < self.items.len() {
                self.items.remove(k);
                self.partial_jobs_dropped = self.partial_jobs_dropped.saturating_add(1);
                proof {
                    assert(views(self.items@) =~= p.remove(k as int));
                }
            } else if item.kind == AsrWorkKind::Partial {
                self.partial_jobs_dropped = self.partial_jobs_dropped.saturating_add(1);
                return;
            } else {
                self.items.remove(0);
                proof {
                    assert(views(self.items@) =~= p.remove(0));
                }
            }
        }
        let ghost before = self.jobs();
        self.items.push(item);
        proof {
            assert(self.jobs() =~= before.push(item@));
        }
    }

    /// Hands out the next job: the first final that is not waiting for partials of its
    /// segment, otherwise the oldest job.
    pub fn pop_next(&mut self) -> (r: Option<AsrWorkItem<S>>)
        requires
            old(self).wf(),
        ensures
            final(self).wf(),
            final(self).capacity() == old(self).capacity(),
            final(self).dropped() == old(self).dropped(),
            final(self).coalesced() == old(self).coalesced(),
            final(self).wakes() == old(self).wakes(),
            old(self).jobs().len() == 0 ==> r is None && final(self).jobs() == old(self).jobs(),
            old(self).jobs().len() > 0 ==> r is Some && r->0@ == old(self).jobs()[pop_index(
                old(self).jobs(),
            )] && final(self).jobs() == old(self).jobs().remove(pop_index(old(self).jobs())),
    {
        let ghost q = self.jobs();
        if self.items.len() == 0 {
            return None;
        }
        let idx = next_final_index(&self.items);
        let i = if idx < self.items.len() {
            self.finals_prioritized_count = self.finals_prioritized_count.saturating_add(1);
            idx
        } else {
            0
        };
        let e = self.items.remove(i);
        proof {
            assert(self.jobs() =~= q.remove(i as int));
        }
        Some(e)
    }

    /// Drops every queued job and wakes waiters.
    pub fn clear(&mut self)
        requires
            old(self).wf(),
        ensures
            final(self).wf(),
            final(self).capacity() == old(self).capacity(),
            final(self).jobs() == Seq::<AsrWorkView<S>>::empty(),
            final(self).dropped() == old(self).dropped(),
            final(self).coalesced() == old(self).coalesced(),
            final(self).wakes() == old(self).wakes().wrapping_add(1),
    {
        self.items.clear();
        self.wake_counter = self.wake_counter.wrapping_add(1);
        assert(self.jobs() =~= Seq::<AsrWorkView<S>>::empty());
    }

    /// Wakes waiters without touching the jobs.
    pub fn wake(&mut self)
        requires
            old(self).wf(),
        ensures
            final(self).wf(),
            final(self).capacity() == old(self).capacity(),
            final(self).jobs() == old(self).jobs(),
            final(self).dropped() == old(self).dropped(),
            final(self).coalesced() == old(self).coalesced(),
            final(self).wakes() == old(self).wakes().wrapping_add(1),
    {
        self.wake_counter = self.wake_counter.wrapping_add(1);
    }

    pub fn wake_count(&self) -> (r: u64)
        ensures
            r == self.wakes(),
    {
        self.wake_counter
    }

    pub fn len(&self) -> (r: usize)
        ensures
            r == self.jobs().len(),
    {
        self.items.len()
    }

    pub fn queue_depth(&self) -> (r: usize)
        ensures
            r == self.jobs().len(),
    {
        self.len()
    }

    pub fn partial_jobs_dropped(&self) -> (r: u64)
        ensures
            r == self.dropped(),
    {
        self.partial_jobs_dropped
    }

    pub fn partial_jobs_coalesced(&self) -> (r: u64)
        ensures
            r == self.coalesced(),
    {
        self.partial_jobs_coalesced
    }
}

pub open spec fn sat_u64(x: int) -> int {
    if x > u64::MAX {
        u64::MAX as int
    } else {
        x
    }
}

/// Removes every queued partial of `item`'s segment; a delta job takes over their delta
/// audio in front of its own.  Returns the surviving jobs and how many were removed.
fn coalesce_into<S>(items: Vec<AsrWorkItem<S>>, item: &mut AsrWorkItem<S>) -> (r: (
    Vec<AsrWorkItem<S>>,
    u64,
))
    requires
        coalesces(old(item)@),
    ensures
        views(r.0@) == kept(views(items@), old(item)@.segment_id),
        r.1 == absorbed(views(items@), old(item)@.segment_id),
        final(item)@ == incoming(views(items@), old(item)@),
        r.0.len() <= items.len(),
{
    let ghost q = views(items@);
    let ghost seg = item.segment_id@;
    let merge_deltas = item.audio_is_delta;
    let mut rest = items;
    let mut kept_items: Vec<AsrWorkItem<S>> = Vec::new();
    let mut merged: Vec<S> = Vec::new();
    let mut count: u64 = 0;
    let n = rest.len();
    let mut i: usize = 0;
    while i < n
        invariant
            n == q.len(),
            i <= n,
            views(rest@) == q.skip(i as int),
            rest.len() == n - i,
            views(kept_items@) == kept(q.take(i as int), seg),
            merged@ == if merge_deltas {
                absorbed_audio(q.take(i as int), seg)
            } else {
                Seq::empty()
            },
            count == absorbed(q.take(i as int), seg),
            count <= i,
            item.segment_id@ == seg,
            item.audio_is_delta == merge_deltas,
            item@ == old(item)@,
        decreases n - i,
    {
        let ghost old_rest = rest@;
        let mut e = rest.remove(0);
        proof {
            assert(views(old_rest)[0] == old_rest[0]@);
            assert(q.skip(i as int)[0] == q[i as int]);
            assert(e@ == q[i as int]);
            assert(views(rest@) =~= q.skip(i + 1)) by {
                assert forall|m: int| 0 <= m < rest.len() implies views(rest@)[m] == q.skip(i + 1)[m] by {
                    assert(rest@[m] == old_rest[m + 1]);
                    assert(views(old_rest)[m + 1] == old_rest[m + 1]@);
                }
            }
            assert(q.take(i + 1).drop_last() =~= q.take(i as int));
            assert(q.take(i + 1).last() == q[i as int]);
        }
        let same = e.segment_id == item.segment_id && e.kind == AsrWorkKind::Partial;
        if same {
            if merge_deltas && e.audio_is_delta && e.audio.len() > 0 {
                merged.append(&mut e.audio);
            }
            count = count + 1;
        } else {
            let ghost before = views(kept_items@);
            kept_items.push(e);
            proof {
                assert(views(kept_items@) =~= before.push(e@));
            }
        }
        i = i + 1;
    }
    proof {
        assert(q.take(n as int) =~= q);
        lemma_kept(q, seg);
    }
    if merged.len() > 0 {
        merged.append(&mut item.audio);
        item.audio = merged;
    }
    (kept_items, count)
}

fn first_partial_index<S>(items: &Vec<AsrWorkItem<S>>) -> (k: usize)
    ensures
        k == first_partial_from(views(items@), 0),
{
    let ghost q = views(items@);
    let mut k: usize = 0;
    while k < items.len() && items[k].kind != AsrWorkKind::Partial
        invariant
            q == views(items@),
            k <= items.len(),
            first_partial_from(q, 0) == first_partial_from(q, k as int),
        decreases items.len() - k,
    {
        k = k + 1;
    }
    k
}

/// Whether the final at `i` waits for queued partials of its segment.
fn is_deferred_final<S>(items: &Vec<AsrWorkItem<S>>, i: usize) -> (r: bool)
    requires
        i < items.len(),
    ensures
        r == deferred_final(views(items@)[i as int], views(items@)),
{
    let ghost q = views(items@);
    assert(q.len() == items.len());
    let e = &items[i];
    assert(q[i as int] == e@);
    if e.kind != AsrWorkKind::Final || !e.audio_is_delta || e.audio.len() != 0 {
        return false;
    }
    let seg = trim_str(e.segment_id.as_str());
    if seg.as_str().is_empty() {
        return false;
    }
    let mut j: usize = 0;
    while j < items.len()
        invariant
            q == views(items@),
            j <= items.len(),
            i < items.len(),
            seg@ == trim(q[i as int].segment_id),
            seg@.len() > 0,
            q[i as int].kind == AsrWorkKind::Final,
            q[i as int].audio_is_delta,
            q[i as int].audio.len() == 0,
            forall|m: int| 0 <= m < j ==> !is_partial_of(#[trigger] q[m], seg@),
            q.len() == items.len(),
        decreases items.len() - j,
    {
        assert(q[j as int] == items@[j as int]@);
        if items[j].kind == AsrWorkKind::Partial && items[j].segment_id == seg {
            assert(q[j as int] == items@[j as int]@);
            assert(is_partial_of(q[j as int], seg@));
            return true;
        }
        j = j + 1;
    }
    false
}

fn next_final_index<S>(items: &Vec<AsrWorkItem<S>>) -> (k: usize)
    ensures
        k == next_final_from(views(items@), 0),
{
    let ghost q = views(items@);
    let mut k: usize = 0;
    while k < items.len()
        invariant
            q == views(items@),
            k <= items.len(),
            next_final_from(q, 0) == next_final_from(q, k as int),
        decreases items.len() - k,
    {
        if items[k].kind == AsrWorkKind::Final && !is_deferred_final(items, k) {
            return k;
        }
        k = k + 1;
    }
    k
}

/// Law: after a partial job of segment `seg` is pushed, no other partial of `seg` is
/// queued ahead of it — the queue holds at most one partial job per segment it touched.
pub proof fn law_partial_push_keeps_one_job_per_segment<S>(
    q: Seq<AsrWorkView<S>>,
    maxsize: nat,
    item: AsrWorkView<S>,
)
    requires
        maxsize >= 1,
        item.kind == AsrWorkKind::Partial,
        item.segment_id.len() > 0,
    ensures
        forall|i: int, j: int|
            0 <= i < j < after_push(q, maxsize, item).len() && is_partial_of(
                #[trigger] after_push(q, maxsize, item)[i],
                item.segment_id,
            ) ==> !is_partial_of(#[trigger] after_push(q, maxsize, item)[j], item.segment_id),
{
    let seg = item.segment_id;
    let p = pruned(q, item);
    let inc = incoming(q, item);
    lemma_kept(q, seg);
    lemma_first_partial_from(p, 0);
    let r = after_push(q, maxsize, item);
    if p.len() >= maxsize {
        let k = first_partial_from(p, 0);
        if k < p.len() {
            let pr = p.remove(k);
            assert forall|i: int| 0 <= i < pr.len() implies !is_partial_of(#[trigger] pr[i], seg) by {
                if i < k {
                    assert(pr[i] == p[i]);
                } else {
                    assert(pr[i] == p[i + 1]);
                }
            }
            assert forall|i: int, j: int|
                0 <= i < j < r.len() && is_partial_of(#[trigger] r[i], seg) implies !is_partial_of(
                #[trigger] r[j],
                seg,
            ) by {
                assert(r[i] == pr[i]);
            }
        } else {
            assert(k == p.len());
        }
    } else {
        assert forall|i: int, j: int|
            0 <= i < j < r.len() && is_partial_of(#[trigger] r[i], seg) implies !is_partial_of(
            #[trigger] r[j],
            seg,
        ) by {
            assert(r[i] == p[i]);
        }
    }
}

/// Law: a final that is not waiting on partials of its segment is always handed out
/// before any partial.
pub proof fn law_finals_jump_the_queue<S>(q: Seq<AsrWorkView<S>>, i: int)
    requires
        0 <= i < q.len(),
        eligible_final(q, i),
    ensures
        pop_index(q) <= i,
        q[pop_index(q)].kind == AsrWorkKind::Final,
{
    lemma_next_final_from(q, 0);
}

/// Law: when a delta partial replaces queued delta partials of its segment, none of their
/// audio is lost: the enqueued job carries it, oldest first, ahead of its own samples.
pub proof fn law_coalesced_delta_audio_is_kept<S>(q: Seq<AsrWorkView<S>>, item: AsrWorkView<S>)
    requires
        coalesces(item),
        item.audio_is_delta,
    ensures
        incoming(q, item).audio == absorbed_audio(q, item.segment_id) + item.audio,
{
    if absorbed_audio(q, item.segment_id).len() == 0 {
        assert(absorbed_audio(q, item.segment_id) + item.audio =~= item.audio);
    }
}

/// Monotone runtime generation: stale jobs carry an older generation than the current one.
pub struct RuntimeGeneration {
    value: u64,
}

impl RuntimeGeneration {
    pub closed spec fn value(&self) -> u64 {
        self.value
    }

    pub fn new(initial: u64) -> (r: Self)
        ensures
            r.value() == initial,
    {
        RuntimeGeneration { value: initial }
    }

    pub fn current(&self) -> (r: u64)
        ensures
            r == self.value(),
    {
        self.value
    }

    /// Advances the generation and returns the new value (wrapping at `u64::MAX`).
    pub fn bump(&mut self) -> (r: u64)
        ensures
            r == old(self).value().wrapping_add(1),
            final(self).value() == r,
    {
        self.value = self.value.wrapping_add(1);
        self.value
    }
}

/// Law (`pop_next`): the job handed out of a non-empty queue is the first final that is
/// not waiting on its segment's partials; when there is none (in particular when the queue
/// holds no final at all) it is the oldest job, so partials leave in arrival order.
pub proof fn law_pop_next_finals_first_else_oldest<S>(q: Seq<AsrWorkView<S>>)
    requires
        q.len() > 0,
    ensures
        0 <= pop_index(q) < q.len(),
        (forall|i: int| 0 <= i < q.len() ==> q[i].kind != AsrWorkKind::Final) ==> pop_index(q) == 0,
        (forall|i: int| 0 <= i < q.len() ==> !eligible_final(q, i)) ==> pop_index(q) == 0,
        (exists|i: int| 0 <= i < q.len() && eligible_final(q, i)) ==> {
            &&& q[pop_index(q)].kind == AsrWorkKind::Final
            &&& eligible_final(q, pop_index(q))
            &&& forall|k: int| 0 <= k < pop_index(q) ==> !eligible_final(q, k)
        },
{
    lemma_next_final_from(q, 0);
    if exists|i: int| 0 <= i < q.len() && eligible_final(q, i) {
        let i = choose|i: int| 0 <= i < q.len() && eligible_final(q, i);
        assert(next_final_from(q, 0) <= i);
    }
}

} // verus!
