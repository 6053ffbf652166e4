//! Browser ASR service transport identity: which worker connection is live, and which
//! worker payloads are stale (old connection, old session, old generation).
use vstd::prelude::*;

use crate::text::{lower, lower_str, str_eq, trim, trim_str};

verus! {

/// A recognition update taken in from the browser worker.
pub struct IngestedAsrUpdate {
    pub partial: String,
    pub final_text: String,
    pub is_final: bool,
    pub source_lang: Option<String>,
    pub generation_id: u64,
    pub session_id: Option<String>,
    pub client_segment_id: Option<String>,
    pub forced_final: bool,
    pub transport_id: u64,
    pub worker_message_sequence: Option<u64>,
}

/// The live connection and the worker session / generation it last reported.
pub struct IngressGate {
    next_transport_id: u64,
    active_transport_id: u64,
    active_session_id: Option<String>,
    active_generation_id: u64,
    stale_events_ignored: u64,
}

pub open spec fn opt_view(o: Option<String>) -> Option<Seq<char>> {
    match o {
        Some(s) => Some(s@),
        None => None,
    }
}

/// What `IngressGate` does with one payload: `(accepted, session, generation, stale+1)`.
pub open spec fn gate_step(
    active_transport: u64,
    session: Option<Seq<char>>,
    generation: u64,
    transport_id: u64,
    payload_session: Option<Seq<char>>,
    payload_generation: u64,
) -> (bool, Option<Seq<char>>, u64, bool) {
    if transport_id != active_transport {
        (false, session, generation, true)
    } else if payload_session is Some && session is Some && payload_session != session {
        if payload_generation > 0 && payload_generation <= generation {
            (false, session, generation, true)
        } else {
            (true, payload_session, payload_generation, false)
        }
    } else {
        let s1 = if payload_session is Some && session is None { payload_session } else { session };
        if payload_generation > 0 && payload_generation < generation {
            (false, s1, generation, true)
        } else {
            (true, s1, if payload_generation > 0 { payload_generation } else { generation }, false)
        }
    }
}

impl IngressGate {
    pub closed spec fn active_transport(&self) -> u64 {
        self.active_transport_id
    }

    pub closed spec fn issued(&self) -> u64 {
        self.next_transport_id
    }

    pub closed spec fn session(&self) -> Option<Seq<char>> {
        opt_view(self.active_session_id)
    }

    pub closed spec fn generation(&self) -> u64 {
        self.active_generation_id
    }

    pub closed spec fn stale(&self) -> u64 {
        self.stale_events_ignored
    }

    pub fn new() -> (r: Self)
        ensures
            r.active_transport() == 0,
            r.issued() == 0,
            r.session() is None,
            r.generation() == 0,
            r.stale() == 0,
    {
        IngressGate {
            next_transport_id: 0,
            active_transport_id: 0,
            active_session_id: None,
            active_generation_id: 0,
            stale_events_ignored: 0,
        }
    }

    /// A new worker connection becomes the live one, with a fresh transport id; the
    /// worker's session and generation start over.
    pub fn register_connection(&mut self) -> (r: u64)
        requires
            old(self).issued() < u64::MAX,
        ensures
            r == old(self).issued() + 1,
            final(self).issued() == r,
            final(self).active_transport() == r,
            final(self).session() is None,
            final(self).generation() == 0,
            final(self).stale() == old(self).stale(),
    {
        self.next_transport_id = self.next_transport_id + 1;
        self.active_transport_id = self.next_transport_id;
        self.active_session_id = None;
        self.active_generation_id = 0;
        self.next_transport_id
    }

    /// How many transport ids were handed out so far (the last one issued).
    pub fn transports_issued(&self) -> (r: u64)
        ensures
            r == self.issued(),
    {
        self.next_transport_id
    }

    pub fn active_transport_id(&self) -> (r: u64)
        ensures
            r == self.active_transport(),
    {
        self.active_transport_id
    }

    pub fn stale_events_ignored(&self) -> (r: u64)
        ensures
            r == self.stale(),
    {
        self.stale_events_ignored
    }

    /// Counts an event the caller found stale by other means.
    pub fn note_stale(&mut self)
        requires
            old(self).stale() < u64::MAX,
        ensures
            final(self).stale() == old(self).stale() + 1,
            final(self).active_transport() == old(self).active_transport(),
            final(self).issued() == old(self).issued(),
            final(self).session() == old(self).session(),
            final(self).generation() == old(self).generation(),
    {
        self.stale_events_ignored = self.stale_events_ignored + 1;
    }

    /// Accepts a payload from the live connection unless it belongs to an older generation
    /// of the worker session; a payload of a new session is accepted when its generation
    /// is newer (or unset).  `session_id` is the payload's (trimmed, non-blank) session.
    pub fn accept_payload(&mut self, transport_id: u64, session_id: Option<String>, generation_id: u64) -> (r: bool)
        requires
            old(self).stale() < u64::MAX,
        ensures
            ({
                let (ok, s, g, stale) = gate_step(
                    old(self).active_transport(),
                    old(self).session(),
                    old(self).generation(),
                    transport_id,
                    opt_view(session_id),
                    generation_id,
                );
                &&& r == ok
                &&& final(self).session() == s
                &&& final(self).generation() == g
                &&& final(self).stale() == if stale { old(self).stale() + 1 } else { old(self).stale() as int }
            }),
            final(self).active_transport() == old(self).active_transport(),
            final(self).issued() == old(self).issued(),
    {
        if transport_id != self.active_transport_id {
            self.stale_events_ignored = self.stale_events_ignored + 1;
            return false;
        }
        let differs = match (&session_id, &self.active_session_id) {
            (Some(sid), Some(active)) => !str_eq(sid.as_str(), active.as_str()),
            _ => false,
        };
        if differs {
            if generation_id > 0 && generation_id <= self.active_generation_id {
                self.stale_events_ignored = self.stale_events_ignored + 1;
                return false;
            }
            self.active_session_id = session_id;
            self.active_generation_id = generation_id;
            return true;
        }
        if session_id.is_some() && self.active_session_id.is_none() {
            self.active_session_id = session_id;
        }
        if generation_id > 0 && generation_id < self.active_generation_id {
            self.stale_events_ignored = self.stale_events_ignored + 1;
            return false;
        }
        if generation_id > 0 {
            self.active_generation_id = generation_id;
        }
        true
    }
}

/// Law: a payload that `IngressGate` accepted is accepted again if it is delivered twice.
pub proof fn law_accepted_payload_replays(
    active_transport: u64,
    session: Option<Seq<char>>,
    generation: u64,
    transport_id: u64,
    payload_session: Option<Seq<char>>,
    payload_generation: u64,
)
    requires
        gate_step(active_transport, session, generation, transport_id, payload_session, payload_generation).0,
    ensures
        ({
            let (_, s, g, _) = gate_step(active_transport, session, generation, transport_id, payload_session, payload_generation);
            gate_step(active_transport, s, g, transport_id, payload_session, payload_generation).0
        }),
{
}

/// Law: within one worker session the accepted generation never goes back, and a payload
/// of an older generation is never accepted.
pub proof fn law_generation_never_regresses(
    active_transport: u64,
    session: Option<Seq<char>>,
    generation: u64,
    transport_id: u64,
    payload_session: Option<Seq<char>>,
    payload_generation: u64,
)
    requires
        payload_session is None || session is None || payload_session == session,
    ensures
        ({
            let (ok, _, g, _) = gate_step(active_transport, session, generation, transport_id, payload_session, payload_generation);
            &&& g >= generation
            &&& 0 < payload_generation < generation ==> !ok
        }),
{
}

/// Law: a payload from a connection that is no longer live is rejected and changes
/// nothing but the stale count.
pub proof fn law_old_connection_is_ignored(
    active_transport: u64,
    session: Option<Seq<char>>,
    generation: u64,
    transport_id: u64,
    payload_session: Option<Seq<char>>,
    payload_generation: u64,
)
    requires
        transport_id != active_transport,
    ensures
        gate_step(active_transport, session, generation, transport_id, payload_session, payload_generation) == (
        false,
        session,
        generation,
        true,
        ),
{
}

/// A control action as sent to the worker: trimmed and ASCII-lowercased.
pub fn control_action(action: &str) -> (r: String)
    ensures
        r@ == lower(trim(action@)),
{
    let t = trim_str(action);
    lower_str(t.as_str())
}

/// A payload text field read as optional: trimmed, blank read as absent.
pub fn optional_text(value: Option<&str>) -> (r: Option<String>)
    ensures
        match value {
            Some(v) => if trim(v@).len() == 0 {
                r is None
            } else {
                r is Some && r->0@ == trim(v@)
            },
            None => r is None,
        },
{
    match value {
        Some(v) => {
            let t = trim_str(v);
            if t.as_str().is_empty() {
                None
            } else {
                Some(t)
            }
        },
        None => None,
    }
}

/// The worker message sequence: a non-negative integer, else none.
pub fn message_sequence(unsigned: Option<u64>, signed: Option<i64>) -> (r: Option<u64>)
    ensures
        r == match unsigned {
            Some(u) => Some(u),
            None => match signed {
                Some(n) => if n >= 0 { Some(n as u64) } else { None },
                None => None,
            },
        },
{
    match unsigned {
        Some(u) => Some(u),
        None => match signed {
            Some(n) => if n >= 0 {
                Some(n as u64)
            } else {
                None
            },
            None => None,
        },
    }
}

} // verus!
