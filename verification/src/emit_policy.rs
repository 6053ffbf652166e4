//! Downstream emit filtering: identical consecutive partials of a segment are suppressed;
//! finals always pass and reset the segment.  Also the transcript clean-ups applied to
//! already normalized text (duplicated halves, a final that clips the last partial).
use vstd::prelude::*;
use vstd::string::StringSliceAdditionalSpecFns;

use crate::str_map::StrMap;
use crate::text::{append_str, join, push_char, starts_with, starts_with_str, str_eq, views};

verus! {

pub struct PipelineEmit {
    pub segment_id: String,
    pub revision: u64,
    pub text: String,
    pub is_final: bool,
    pub is_speech: bool,
}

/// One emit through the policy: the new "last partial" table and whether it passes.
pub open spec fn policy_step(m: Map<Seq<char>, Seq<char>>, e: PipelineEmit) -> (Map<Seq<char>, Seq<char>>, bool) {
    if e.is_final {
        (m.remove(e.segment_id@), true)
    } else if m.dom().contains(e.segment_id@) && m[e.segment_id@] == e.text@ {
        (m, false)
    } else {
        (m.insert(e.segment_id@, e.text@), true)
    }
}

/// A batch of emits through the policy, in order: the final table and the emits that pass.
pub open spec fn policy_run(m: Map<Seq<char>, Seq<char>>, es: Seq<PipelineEmit>) -> (Map<Seq<char>, Seq<char>>, Seq<PipelineEmit>)
    decreases es.len(),
{
    if es.len() == 0 {
        (m, Seq::empty())
    } else {
        let (m1, out) = policy_run(m, es.drop_last());
        let (m2, keep) = policy_step(m1, es.last());
        (m2, if keep { out.push(es.last()) } else { out })
    }
}

pub struct RealtimeEmitPolicy {
    last_partial_by_segment: StrMap<String>,
}

impl RealtimeEmitPolicy {
    /// Last partial text passed per segment.
    pub closed spec fn last_partials(&self) -> Map<Seq<char>, Seq<char>> {
        self.last_partial_by_segment@.map_values(|s: String| s@)
    }

    pub closed spec fn wf(&self) -> bool {
        self.last_partial_by_segment.wf()
    }

    pub fn default() -> (r: Self)
        ensures
            r.wf(),
            r.last_partials() == Map::<Seq<char>, Seq<char>>::empty(),
    {
        let r = RealtimeEmitPolicy { last_partial_by_segment: StrMap::new() };
        assert(r.last_partials() =~= Map::<Seq<char>, Seq<char>>::empty());
        r
    }

    pub fn reset(&mut self)
        ensures
            final(self).wf(),
            final(self).last_partials() == Map::<Seq<char>, Seq<char>>::empty(),
    {
        self.last_partial_by_segment.clear();
        assert(self.last_partials() =~= Map::<Seq<char>, Seq<char>>::empty());
    }

    pub fn clear_segment(&mut self, segment_id: &str)
        requires
            old(self).wf(),
        ensures
            final(self).wf(),
            final(self).last_partials() == old(self).last_partials().remove(segment_id@),
    {
        self.last_partial_by_segment.remove(segment_id);
        assert(self.last_partials() =~= old(self).last_partials().remove(segment_id@));
    }

    pub fn last_partial(&self, segment_id: &str) -> (r: &str)
        requires
            self.wf(),
        ensures
            r@ == if self.last_partials().dom().contains(segment_id@) {
                self.last_partials()[segment_id@]
            } else {
                Seq::<char>::empty()
            },
    {
        match self.last_partial_by_segment.get(segment_id) {
            Some(s) => s.as_str(),
            None => {
                proof {
                    reveal_strlit("");
                }
                ""
            },
        }
    }

    /// Passes finals (forgetting the segment's last partial) and every partial whose text
    /// differs from the last partial passed for its segment.
    pub fn apply(&mut self, emits: Vec<PipelineEmit>) -> (r: Vec<PipelineEmit>)
        requires
            old(self).wf(),
        ensures
            final(self).wf(),
            (final(self).last_partials(), r@) == policy_run(old(self).last_partials(), emits@),
    {
        let ghost es = emits@;
        let ghost m0 = self.last_partials();
        let mut rest = emits;
        let mut out: Vec<PipelineEmit> = Vec::new();
        let n = rest.len();
        let mut i: usize = 0;
        while i < n
            invariant
                n == es.len(),
                i <= n,
                rest@ == es.skip(i as int),
                self.wf(),
                (self.last_partials(), out@) == policy_run(m0, es.take(i as int)),
            decreases n - i,
        {
            let ghost m1 = self.last_partials();
            let emit = rest.remove(0);
            proof {
                assert(es.skip(i as int)[0] == es[i as int]);
                assert(rest@ =~= es.skip(i + 1));
                assert(es.take(i + 1).drop_last() =~= es.take(i as int));
                assert(es.take(i + 1).last() == es[i as int]);
            }
            if emit.is_final {
                self.last_partial_by_segment.remove(emit.segment_id.as_str());
                assert(self.last_partials() =~= m1.remove(emit.segment_id@));
                out.push(emit);
            } else {
                let duplicate = match self.last_partial_by_segment.get(emit.segment_id.as_str()) {
                    Some(prev) => *prev == emit.text,
                    None => false,
                };
                if !duplicate {
                    self.last_partial_by_segment.insert(emit.segment_id.clone(), emit.text.clone());
                    assert(self.last_partials() =~= m1.insert(emit.segment_id@, emit.text@));
                    out.push(emit);
                }
            }
            i = i + 1;
        }
        assert(es.take(n as int) =~= es);
        out
    }
}

/// One call on a [`RealtimeEmitPolicy`], as far as its last-partial table goes: an emit
/// passed through `apply`, a `clear_segment`, or a `reset`.
pub enum PolicyEvent {
    Emit(PipelineEmit),
    ClearSegment(String),
    Reset,
}

/// The last-partial table after one event.
pub open spec fn event_step(m: Map<Seq<char>, Seq<char>>, ev: PolicyEvent) -> Map<Seq<char>, Seq<char>> {
    match ev {
        PolicyEvent::Emit(e) => policy_step(m, e).0,
        PolicyEvent::ClearSegment(s) => m.remove(s@),
        PolicyEvent::Reset => Map::empty(),
    }
}

/// The last-partial table after a history of events, in order.
pub open spec fn events_run(m: Map<Seq<char>, Seq<char>>, evs: Seq<PolicyEvent>) -> Map<Seq<char>, Seq<char>>
    decreases evs.len(),
{
    if evs.len() == 0 {
        m
    } else {
        event_step(events_run(m, evs.drop_last()), evs.last())
    }
}

/// The events of an `apply` call: one per emit, in order.
pub open spec fn emit_events(es: Seq<PipelineEmit>) -> Seq<PolicyEvent> {
    es.map_values(|e: PipelineEmit| PolicyEvent::Emit(e))
}

/// The text `last_partial` reports for `seg` after a history of events, starting from the
/// table `m`: the text of the latest partial of `seg`, unless a final of `seg`, a
/// `clear_segment(seg)` or a `reset` came after it; the starting entry when none of these
/// touched `seg`.
pub open spec fn latest_partial(m: Map<Seq<char>, Seq<char>>, evs: Seq<PolicyEvent>, seg: Seq<char>) -> Option<Seq<char>>
    decreases evs.len(),
{
    if evs.len() == 0 {
        if m.dom().contains(seg) { Some(m[seg]) } else { None }
    } else {
        match evs.last() {
            PolicyEvent::Emit(e) => if e.segment_id@ == seg {
                if e.is_final { None } else { Some(e.text@) }
            } else {
                latest_partial(m, evs.drop_last(), seg)
            },
            PolicyEvent::ClearSegment(s) => if s@ == seg {
                None
            } else {
                latest_partial(m, evs.drop_last(), seg)
            },
            PolicyEvent::Reset => None,
        }
    }
}

/// Law: `apply` changes the last-partial table as its emits do one after another, so a
/// history of `apply`, `clear_segment` and `reset` calls is a history of events.
pub proof fn law_apply_is_a_run_of_emit_events(m: Map<Seq<char>, Seq<char>>, es: Seq<PipelineEmit>)
    ensures
        policy_run(m, es).0 == events_run(m, emit_events(es)),
    decreases es.len(),
{
    if es.len() > 0 {
        law_apply_is_a_run_of_emit_events(m, es.drop_last());
        assert(emit_events(es).drop_last() =~= emit_events(es.drop_last()));
        assert(emit_events(es).last() == PolicyEvent::Emit(es.last()));
    }
}

/// Law: after any history of `apply`, `clear_segment` and `reset` calls, `last_partial`
/// for a segment is the text of its most recent partial that `apply` kept since the last
/// final of that segment, `clear_segment` of it or `reset` (a repeated partial, though
/// suppressed, carries the same text); there is none otherwise.
pub proof fn law_last_partial_follows_history(m: Map<Seq<char>, Seq<char>>, evs: Seq<PolicyEvent>, seg: Seq<char>)
    ensures
        events_run(m, evs).dom().contains(seg) <==> latest_partial(m, evs, seg) is Some,
        events_run(m, evs).dom().contains(seg) ==> Some(events_run(m, evs)[seg]) == latest_partial(m, evs, seg),
    decreases evs.len(),
{
    if evs.len() > 0 {
        law_last_partial_follows_history(m, evs.drop_last(), seg);
    }
}

/// Law: a partial that just passed is suppressed when it arrives again unchanged.
pub proof fn law_repeated_partial_is_suppressed(m: Map<Seq<char>, Seq<char>>, e: PipelineEmit)
    requires
        !e.is_final,
    ensures
        policy_run(policy_run(m, seq![e]).0, seq![e]).1.len() == 0,
{
    reveal_with_fuel(policy_run, 2);
    assert(seq![e].drop_last() =~= Seq::<PipelineEmit>::empty());
    assert(seq![e].last() == e);
    let m1 = policy_run(m, seq![e]).0;
    assert(m1 == policy_step(m, e).0);
    assert(m1.dom().contains(e.segment_id@) && m1[e.segment_id@] == e.text@);
}

/// Law: finals are never suppressed, and a final makes the next partial of its segment pass.
pub proof fn law_final_passes_and_reopens(m: Map<Seq<char>, Seq<char>>, f: PipelineEmit, p: PipelineEmit)
    requires
        f.is_final,
        !p.is_final,
        p.segment_id@ == f.segment_id@,
    ensures
        policy_step(m, f).1,
        policy_step(policy_step(m, f).0, p).1,
{
}

/// Words of a string split on single spaces, empty pieces dropped.
pub open spec fn space_words(s: Seq<char>) -> Seq<Seq<char>>
    decreases s.len(),
{
    if s.len() == 0 {
        Seq::empty()
    } else {
        let w = space_words(s.drop_last());
        let c = s.last();
        if c == ' ' {
            w
        } else if s.len() >= 2 && s[s.len() - 2] != ' ' {
            w.drop_last().push(w.last().push(c))
        } else {
            w.push(seq![c])
        }
    }
}

proof fn lemma_space_words_open(s: Seq<char>)
    requires
        s.len() > 0,
        s.last() != ' ',
    ensures
        space_words(s).len() > 0,
    decreases s.len(),
{
    if s.len() >= 2 && s[s.len() - 2] != ' ' {
        assert(s.drop_last().last() == s[s.len() - 2]);
        lemma_space_words_open(s.drop_last());
    }
}

fn split_spaces(s: &str) -> (r: Vec<String>)
    ensures
        views(r@) == space_words(s@),
{
    let v = crate::text::chars_of(s);
    let mut words: Vec<String> = Vec::new();
    let mut i: usize = 0;
    while i < v.len()
        invariant
            v@ == s@,
            i <= v.len(),
            views(words@) == space_words(s@.take(i as int)),
            i > 0 && s@[i - 1] != ' ' ==> words.len() > 0,
        decreases v.len() - i,
    {
        let c = v[i];
        let ghost pre = s@.take(i as int);
        let ghost w0 = views(words@);
        proof {
            assert(s@.take(i + 1).drop_last() =~= pre);
            assert(s@.take(i + 1).last() == c);
            if i >= 1 {
                assert(s@.take(i + 1)[i - 1] == s@[i - 1]);
            }
        }
        if c != ' ' {
            if i > 0 && v[i - 1] != ' ' {
                let last = words.len() - 1;
                let mut w = words.remove(last);
                push_char(&mut w, c);
                words.push(w);
                proof {
                    assert(views(words@) =~= w0.drop_last().push(w0.last().push(c)));
                }
            } else {
                let mut w = String::new();
                push_char(&mut w, c);
                words.push(w);
                proof {
                    assert(views(words@) =~= w0.push(seq![c]));
                }
            }
        }
        i = i + 1;
    }
    assert(s@.take(v.len() as int) =~= s@);
    words
}

/// Collapses a transcript that is the same words twice (`a b a b` → `a b`); otherwise the
/// text is returned as is.  The input is already normalized transcript text.
pub open spec fn deduped(norm: Seq<char>) -> Seq<char> {
    let w = space_words(norm);
    let h = (w.len() / 2) as int;
    if w.len() >= 2 && w.len() % 2 == 0 && w.subrange(0, h) == w.subrange(h, w.len() as int) {
        join(w.subrange(0, h), " "@)
    } else {
        norm
    }
}

/// Collapses exact duplicated halves of an already normalized transcript.
pub fn dedupe_repeated_transcript(norm: &str) -> (r: String)
    ensures
        r@ == deduped(norm@),
{
    let words = split_spaces(norm);
    let ghost w = views(words@);
    let n = words.len();
    if n >= 2 && n % 2 == 0 {
        let mid = n / 2;
        let mut same = true;
        let mut k: usize = 0;
        while k < mid
            invariant
                w == views(words@),
                n == words.len(),
                mid == n / 2,
                k <= mid,
                same == forall|m: int| 0 <= m < k ==> #[trigger] w[m] == w[m + mid],
            decreases mid - k,
        {
            let eq = str_eq(words[k].as_str(), words[k + mid].as_str());
            proof {
                assert(w[k as int] == words@[k as int]@);
                assert(w[k + mid] == words@[k + mid]@);
            }
            same = same && eq;
            k = k + 1;
        }
        if same {
            let mut first: Vec<String> = Vec::new();
            let mut j: usize = 0;
            while j < mid
                invariant
                    w == views(words@),
                    n == words.len(),
                    mid == n / 2,
                    j <= mid,
                    views(first@) == w.subrange(0, j as int),
                decreases mid - j,
            {
                let ghost f0 = views(first@);
                let word = words[j].clone();
                first.push(word);
                proof {
                    assert(w[j as int] == words@[j as int]@);
                    assert(views(first@) =~= f0.push(w[j as int]));
                    assert(w.subrange(0, j + 1) =~= w.subrange(0, j as int).push(w[j as int]));
                }
                j = j + 1;
            }
            assert(w.subrange(0, mid as int) =~= w.subrange(mid as int, n as int));
            return crate::text::join_strings(&first, " ");
        }
        proof {
            if w.subrange(0, mid as int) == w.subrange(mid as int, n as int) {
                let m = choose|m: int| 0 <= m < mid && #[trigger] w[m] != w[m + mid];
                assert(w.subrange(0, mid as int)[m] == w[m]);
                assert(w.subrange(mid as int, n as int)[m] == w[m + mid]);
            }
        }
    }
    crate::text::to_owned_string(norm)
}

/// Keeps the last partial when the (normalized) final is a shorter rewrite that does not
/// extend it; the lengths compared are the UTF-8 byte lengths that `str::len` gives.
pub open spec fn preferred_final(prev: Seq<char>, prev_bytes: usize, final_norm: Seq<char>, final_bytes: usize) -> Seq<char> {
    if prev.len() == 0 || starts_with(final_norm, prev) || final_bytes >= prev_bytes {
        final_norm
    } else {
        prev
    }
}

/// The final text to show: a longer last partial survives a shorter final rewrite.  Both
/// texts are already normalized transcript text.
pub fn prefer_final_text(last_partial: Option<&str>, final_norm: &str) -> (r: String)
    ensures
        last_partial is None ==> r@ == final_norm@,
        last_partial matches Some(p) ==> r@ == preferred_final(
            p@,
            p.spec_bytes().len() as usize,
            final_norm@,
            final_norm.spec_bytes().len() as usize,
        ),
{
    match last_partial {
        None => crate::text::to_owned_string(final_norm),
        Some(prev) => {
            if prev.is_empty() || starts_with_str(final_norm, prev) || final_norm.len() >= prev.len() {
                crate::text::to_owned_string(final_norm)
            } else {
                crate::text::to_owned_string(prev)
            }
        },
    }
}

impl RealtimeEmitPolicy {
    /// The downstream path of one pipeline emit: the policy may suppress it; a passing
    /// emit's text has duplicated halves collapsed and is dropped when empty.  Returns the
    /// segment's last partial before the emit (for telemetry) and the emit to deliver.
    pub fn forward_emit(&mut self, emit: PipelineEmit) -> (r: (String, Option<PipelineEmit>))
        requires
            old(self).wf(),
        ensures
            final(self).wf(),
            r.0@ == if old(self).last_partials().dom().contains(emit.segment_id@) {
                old(self).last_partials()[emit.segment_id@]
            } else {
                Seq::<char>::empty()
            },
            final(self).last_partials() == policy_step(old(self).last_partials(), emit).0,
            (r.1 is Some) == (policy_step(old(self).last_partials(), emit).1 && deduped(emit.text@).len() > 0),
            r.1 matches Some(e) ==> {
                &&& e.segment_id == emit.segment_id
                &&& e.revision == emit.revision
                &&& e.text@ == deduped(emit.text@)
                &&& e.is_final == emit.is_final
                &&& e.is_speech == emit.is_speech
            },
    {
        let previous = crate::text::to_owned_string(self.last_partial(emit.segment_id.as_str()));
        let ghost m0 = self.last_partials();
        let ghost e0 = emit;
        let mut passed = self.apply(vec![emit]);
        proof {
            reveal_with_fuel(policy_run, 2);
            assert(seq![e0].drop_last() =~= Seq::<PipelineEmit>::empty());
            assert(seq![e0].last() == e0);
        }
        if passed.len() == 0 {
            return (previous, None);
        }
        let mut out = passed.remove(0);
        let text = dedupe_repeated_transcript(out.text.as_str());
        if text.as_str().is_empty() {
            return (previous, None);
        }
        out.text = text;
        (previous, Some(out))
    }
}

} // verus!
