//! Operational lifecycle of the browser speech worker, as seen by the host.
use vstd::prelude::*;

verus! {

#[derive(Debug, Clone, Copy, PartialEq, Eq, Structural)]
pub enum BrowserOperationalPhase {
    Idle,
    WorkerSocketIdle,
    WorkerLive,
    IngestPartial,
    IngestFinal,
    DegradedHint,
}

pub open spec fn phase_name(p: BrowserOperationalPhase) -> Seq<char> {
    match p {
        BrowserOperationalPhase::Idle => "idle"@,
        BrowserOperationalPhase::WorkerSocketIdle => "worker_socket_idle"@,
        BrowserOperationalPhase::WorkerLive => "worker_live"@,
        BrowserOperationalPhase::IngestPartial => "ingest_partial"@,
        BrowserOperationalPhase::IngestFinal => "ingest_final"@,
        BrowserOperationalPhase::DegradedHint => "degraded_hint"@,
    }
}

impl BrowserOperationalPhase {
    pub fn as_str(self) -> (r: &'static str)
        ensures
            r@ == phase_name(self),
    {
        match self {
            BrowserOperationalPhase::Idle => "idle",
            BrowserOperationalPhase::WorkerSocketIdle => "worker_socket_idle",
            BrowserOperationalPhase::WorkerLive => "worker_live",
            BrowserOperationalPhase::IngestPartial => "ingest_partial",
            BrowserOperationalPhase::IngestFinal => "ingest_final",
            BrowserOperationalPhase::DegradedHint => "degraded_hint",
        }
    }
}

/// Phase after a status aggregate while the worker is (or is not) connected.
pub open spec fn after_status(
    p: BrowserOperationalPhase,
    worker_connected: bool,
    degraded: bool,
) -> BrowserOperationalPhase {
    if !worker_connected {
        p
    } else if degraded {
        BrowserOperationalPhase::DegradedHint
    } else {
        BrowserOperationalPhase::WorkerLive
    }
}

pub open spec fn after_ingest(is_final: bool) -> BrowserOperationalPhase {
    if is_final {
        BrowserOperationalPhase::IngestFinal
    } else {
        BrowserOperationalPhase::IngestPartial
    }
}

pub struct BrowserAsrOperationalFsm {
    phase: BrowserOperationalPhase,
}

impl BrowserAsrOperationalFsm {
    pub closed spec fn current(&self) -> BrowserOperationalPhase {
        self.phase
    }

    pub fn default() -> (r: Self)
        ensures
            r.current() == BrowserOperationalPhase::Idle,
    {
        BrowserAsrOperationalFsm { phase: BrowserOperationalPhase::Idle }
    }

    pub fn phase(&self) -> (r: BrowserOperationalPhase)
        ensures
            r == self.current(),
    {
        self.phase
    }

    pub fn reset(&mut self)
        ensures
            final(self).current() == BrowserOperationalPhase::Idle,
    {
        self.phase = BrowserOperationalPhase::Idle;
    }

    pub fn note_worker_connected(&mut self)
        ensures
            final(self).current() == BrowserOperationalPhase::WorkerSocketIdle,
    {
        self.transition(BrowserOperationalPhase::WorkerSocketIdle);
    }

    pub fn note_worker_disconnected(&mut self)
        ensures
            final(self).current() == BrowserOperationalPhase::Idle,
    {
        self.transition(BrowserOperationalPhase::Idle);
    }

    /// A status aggregate only moves the phase while the worker is connected.
    pub fn note_status_aggregate(&mut self, worker_connected: bool, degraded_reason: Option<&str>)
        ensures
            final(self).current() == after_status(
                old(self).current(),
                worker_connected,
                degraded_reason is Some,
            ),
    {
        if !worker_connected {
            return;
        }
        let target = if degraded_reason.is_some() {
            BrowserOperationalPhase::DegradedHint
        } else {
            BrowserOperationalPhase::WorkerLive
        };
        self.transition(target);
    }

    pub fn note_ingest(&mut self, is_final: bool)
        ensures
            final(self).current() == after_ingest(is_final),
    {
        let target = if is_final {
            BrowserOperationalPhase::IngestFinal
        } else {
            BrowserOperationalPhase::IngestPartial
        };
        self.transition(target);
    }

    fn transition(&mut self, new_phase: BrowserOperationalPhase)
        ensures
            final(self).current() == new_phase,
    {
        self.phase = new_phase;
    }
}

/// Law: once the worker socket drops, the lifecycle is back at `Idle`, and status aggregates
/// received while disconnected leave it there.
pub proof fn law_disconnect_is_idle_until_reconnect(degraded: bool)
    ensures
        after_status(BrowserOperationalPhase::Idle, false, degraded) == BrowserOperationalPhase::Idle,
{
}

/// Law (`note_status_aggregate`): while the worker is connected, a status aggregate puts the
/// lifecycle at `DegradedHint` exactly when it carries a degraded reason, and at
/// `WorkerLive` otherwise, whatever the phase was; the two phases differ, and are reported
/// as `degraded_hint` and `worker_live`.  Without a connection the phase stays.
pub proof fn law_status_aggregate_reports_degradation(p: BrowserOperationalPhase, degraded: bool)
    ensures
        (after_status(p, true, degraded) == BrowserOperationalPhase::DegradedHint) == degraded,
        !degraded ==> after_status(p, true, degraded) == BrowserOperationalPhase::WorkerLive,
        phase_name(after_status(p, true, degraded)) == if degraded {
            "degraded_hint"@
        } else {
            "worker_live"@
        },
        after_status(p, false, degraded) == p,
{
}

/// Law (`note_ingest`): a final result puts the lifecycle at `IngestFinal` and a partial at
/// `IngestPartial`; the two differ, and neither is idle or degraded.
pub proof fn law_ingest_reports_result_kind(is_final: bool)
    ensures
        (after_ingest(is_final) == BrowserOperationalPhase::IngestFinal) == is_final,
        (after_ingest(is_final) == BrowserOperationalPhase::IngestPartial) == !is_final,
        phase_name(after_ingest(is_final)) == if is_final {
            "ingest_final"@
        } else {
            "ingest_partial"@
        },
{
}

} // verus!
