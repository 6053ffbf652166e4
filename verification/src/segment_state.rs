//! Segment id and revision tracking for local ASR emits.
use vstd::prelude::*;

use crate::clock::instant_now;
use crate::str_map::StrMap;
use crate::text::{decimal, normalize_whitespace, normalize_ws, push_decimal, to_owned_string, trim, trim_str};

verus! {

/// Id given to the `n`-th automatically numbered segment.
pub open spec fn auto_segment_id(n: u64) -> Seq<char> {
    "segment-"@ + decimal(n as nat)
}

pub struct SegmentStateController {
    sequence: u64,
    segment_counter: u64,
    active_segment_id: Option<String>,
    active_segment_revision: u64,
    last_partial_text_by_segment: StrMap<String>,
    last_partial_emit_monotonic_by_segment: StrMap<std::time::Instant>,
}

/// What `assign_segment_tracking` decides, over the controller's view.
pub open spec fn tracking_id(
    active: Option<Seq<char>>,
    counter: u64,
    preferred: Option<Seq<char>>,
) -> Seq<char> {
    match preferred {
        Some(p) => if trim(p).len() > 0 {
            trim(p)
        } else {
            match active {
                Some(a) => a,
                None => auto_segment_id(counter.wrapping_add(1)),
            }
        },
        None => match active {
            Some(a) => a,
            None => auto_segment_id(counter.wrapping_add(1)),
        },
    }
}

pub open spec fn tracking_starts(active: Option<Seq<char>>, preferred: Option<Seq<char>>) -> bool {
    match preferred {
        Some(p) => if trim(p).len() > 0 {
            active != Some(trim(p))
        } else {
            active is None
        },
        None => active is None,
    }
}

pub open spec fn opt_view(o: Option<&str>) -> Option<Seq<char>> {
    match o {
        Some(s) => Some(s@),
        None => None,
    }
}

impl SegmentStateController {
    pub closed spec fn active(&self) -> Option<Seq<char>> {
        match self.active_segment_id {
            Some(s) => Some(s@),
            None => None,
        }
    }

    pub closed spec fn revision(&self) -> u64 {
        self.active_segment_revision
    }

    pub closed spec fn counter(&self) -> u64 {
        self.segment_counter
    }

    /// The emit sequence number (restarted by `reset`).
    pub closed spec fn sequence_number(&self) -> u64 {
        self.sequence
    }

    pub closed spec fn partial_texts(&self) -> Map<Seq<char>, String> {
        self.last_partial_text_by_segment@
    }

    pub closed spec fn emit_times(&self) -> Set<Seq<char>> {
        self.last_partial_emit_monotonic_by_segment@.dom()
    }

    pub closed spec fn wf(&self) -> bool {
        self.last_partial_text_by_segment.wf() && self.last_partial_emit_monotonic_by_segment.wf()
    }

    pub fn default() -> (r: Self)
        ensures
            r.wf(),
            r.active() is None,
            r.revision() == 0,
            r.counter() == 0,
            r.sequence_number() == 0,
            r.partial_texts() == Map::<Seq<char>, String>::empty(),
            r.emit_times() == Set::<Seq<char>>::empty(),
    {
        SegmentStateController {
            sequence: 0,
            segment_counter: 0,
            active_segment_id: None,
            active_segment_revision: 0,
            last_partial_text_by_segment: StrMap::new(),
            last_partial_emit_monotonic_by_segment: StrMap::new(),
        }
    }

    pub fn active_segment_id(&self) -> (r: Option<&str>)
        ensures
            opt_view(r) == self.active(),
    {
        match &self.active_segment_id {
            Some(s) => Some(s.as_str()),
            None => None,
        }
    }

    pub fn active_segment_revision(&self) -> (r: u64)
        ensures
            r == self.revision(),
    {
        self.active_segment_revision
    }

    pub fn clear_active_segment(&mut self)
        ensures
            final(self).wf() == old(self).wf(),
            final(self).active() is None,
            final(self).revision() == 0,
            final(self).counter() == old(self).counter(),
            final(self).partial_texts() == old(self).partial_texts(),
            final(self).emit_times() == old(self).emit_times(),
    {
        self.active_segment_id = None;
        self.active_segment_revision = 0;
    }

    /// Forgets the last partial of a segment; a missing or blank id does nothing.
    pub fn clear_partial_tracking_for_segment(&mut self, segment_id: Option<&str>)
        requires
            old(self).wf(),
        ensures
            final(self).wf(),
            final(self).active() == old(self).active(),
            final(self).revision() == old(self).revision(),
            final(self).counter() == old(self).counter(),
            match segment_id {
                Some(id) => if trim(id@).len() > 0 {
                    final(self).partial_texts() == old(self).partial_texts().remove(id@)
                        && final(self).emit_times() == old(self).emit_times().remove(id@)
                } else {
                    final(self).partial_texts() == old(self).partial_texts() && final(self).emit_times()
                        == old(self).emit_times()
                },
                None => final(self).partial_texts() == old(self).partial_texts()
                    && final(self).emit_times() == old(self).emit_times(),
            },
    {
        let Some(id) = segment_id else {
            return;
        };
        let t = trim_str(id);
        if t.as_str().is_empty() {
            return;
        }
        self.last_partial_text_by_segment.remove(id);
        self.last_partial_emit_monotonic_by_segment.remove(id);
    }

    /// Records `text` (whitespace-normalized) as the last partial of `segment_id`, now.
    pub fn mark_partial_emitted(&mut self, segment_id: &str, text: &str)
        requires
            old(self).wf(),
        ensures
            final(self).wf(),
            final(self).active() == old(self).active(),
            final(self).revision() == old(self).revision(),
            final(self).counter() == old(self).counter(),
            final(self).partial_texts().dom() == old(self).partial_texts().dom().insert(segment_id@),
            final(self).partial_texts()[segment_id@]@ == normalize_ws(text@),
            forall|k: Seq<char>|
                k != segment_id@ && old(self).partial_texts().dom().contains(k)
                    ==> final(self).partial_texts()[k] == old(self).partial_texts()[k],
            final(self).emit_times() == old(self).emit_times().insert(segment_id@),
    {
        let normalized = normalize_whitespace(text);
        self.last_partial_text_by_segment.insert(to_owned_string(segment_id), normalized);
        self.last_partial_emit_monotonic_by_segment.insert(to_owned_string(segment_id), instant_now());
    }

    pub fn get_last_partial_text(&self, segment_id: &str) -> (r: &str)
        requires
            self.wf(),
        ensures
            r@ == if self.partial_texts().dom().contains(segment_id@) {
                self.partial_texts()[segment_id@]@
            } else {
                Seq::<char>::empty()
            },
    {
        match self.last_partial_text_by_segment.get(segment_id) {
            Some(s) => s.as_str(),
            None => {
                proof {
                    reveal_strlit("");
                }
                ""
            },
        }
    }

    /// When the last partial of `segment_id` was emitted, if one was.
    pub fn last_partial_emit_at(&self, segment_id: &str) -> (r: Option<std::time::Instant>)
        requires
            self.wf(),
        ensures
            r is Some <==> self.emit_times().contains(segment_id@),
    {
        match self.last_partial_emit_monotonic_by_segment.get(segment_id) {
            Some(t) => Some(*t),
            None => None,
        }
    }

    /// Returns `(segment_id, revision, started_now, previous_segment_id_to_clear)`.
    ///
    /// A non-blank preferred id (trimmed) becomes the active segment when it differs from
    /// the current one; without one, an active segment continues, else `segment-<n>` is
    /// allocated.  A (re)started segment begins at revision 1; each call adds one.
    pub fn assign_segment_tracking(&mut self, preferred_segment_id: Option<&str>) -> (r: (
        String,
        u64,
        bool,
        Option<String>,
    ))
        requires
            old(self).wf(),
        ensures
            final(self).wf(),
            r.0@ == tracking_id(old(self).active(), old(self).counter(), opt_view(preferred_segment_id)),
            final(self).active() == Some(r.0@),
            r.2 == tracking_starts(old(self).active(), opt_view(preferred_segment_id)),
            r.1 == final(self).revision(),
            r.1 == if r.2 {
                1
            } else {
                old(self).revision().wrapping_add(1)
            },
            match r.3 {
                Some(prev) => r.2 && old(self).active() == Some(prev@),
                None => !r.2 || old(self).active() is None,
            },
            final(self).counter() == if r.2 && old(self).active() is None && !(
            preferred_segment_id is Some && trim(preferred_segment_id->0@).len() > 0) {
                old(self).counter().wrapping_add(1)
            } else {
                old(self).counter()
            },
            final(self).partial_texts() == old(self).partial_texts(),
            final(self).emit_times() == old(self).emit_times(),
    {
        let mut started_now = false;
        let mut previous_to_clear: Option<String> = None;
        let normalized: Option<String> = match preferred_segment_id {
            Some(p) => {
                let t = trim_str(p);
                if t.as_str().is_empty() {
                    None
                } else {
                    Some(t)
                }
            },
            None => None,
        };
        match normalized {
            Some(preferred) => {
                let same = match &self.active_segment_id {
                    Some(a) => *a == preferred,
                    None => false,
                };
                if !same {
                    previous_to_clear = self.active_segment_id.clone();
                    self.active_segment_id = Some(preferred);
                    self.active_segment_revision = 0;
                    started_now = true;
                }
            },
            None => {
                if self.active_segment_id.is_none() {
                    self.segment_counter = self.segment_counter.wrapping_add(1);
                    let mut id = to_owned_string("segment-");
                    push_decimal(&mut id, self.segment_counter);
                    self.active_segment_id = Some(id);
                    self.active_segment_revision = 0;
                    started_now = true;
                }
            },
        }
        self.active_segment_revision = self.active_segment_revision.wrapping_add(1);
        let id = match &self.active_segment_id {
            Some(a) => a.clone(),
            None => String::new(),
        };
        (id, self.active_segment_revision, started_now, previous_to_clear)
    }

    pub fn reset(&mut self)
        ensures
            final(self).wf(),
            final(self).active() is None,
            final(self).revision() == 0,
            final(self).counter() == 0,
            final(self).partial_texts() == Map::<Seq<char>, String>::empty(),
            final(self).emit_times() == Set::<Seq<char>>::empty(),
    {
        self.sequence = 0;
        self.segment_counter = 0;
        self.clear_active_segment();
        self.last_partial_text_by_segment.clear();
        self.last_partial_emit_monotonic_by_segment.clear();
    }
}

/// Law: asking twice for the same preferred segment continues it — the second call does not
/// restart it and bumps the revision by one.
pub proof fn law_same_segment_continues(active: Option<Seq<char>>, counter: u64, p: Seq<char>)
    requires
        trim(p).len() > 0,
    ensures
        tracking_id(active, counter, Some(p)) == trim(p),
        !tracking_starts(Some(tracking_id(active, counter, Some(p))), Some(p)),
{
}

} // verus!
