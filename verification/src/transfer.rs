//! Download / install progress as the UI reads it.  The percentage is kept as the fraction
//! `(done, total)` it is shown from; the transfer speed is measured by the caller.
use vstd::prelude::*;

verus! {

#[derive(Debug, PartialEq, Eq, Structural, Clone, Copy)]
pub enum TransferPhase {
    Idle,
    Downloading,
    Extracting,
    Finalizing,
}

/// A transfer was cancelled by the user.
#[derive(Debug, PartialEq, Eq, Structural, Clone, Copy)]
pub struct TransferCancelled;

impl TransferCancelled {
    /// The display text of the error.
    pub fn message(&self) -> (r: &'static str)
        ensures
            r@ == "download cancelled"@,
    {
        "download cancelled"
    }
}

pub struct TransferProgress {
    pub active: bool,
    pub phase: TransferPhase,
    pub label: String,
    pub target: String,
    pub received_bytes: u64,
    pub total_bytes: Option<u64>,
    pub speed_bps: u64,
    /// Completed fraction `(done, total)`, `done <= total`; the UI shows `100 * done / total`.
    pub percent: Option<(u64, u64)>,
    pub error: Option<String>,
    pub cancelled: bool,
}

/// The fraction shown for what arrived of an expected size (none while the size is
/// unknown).
pub open spec fn percent_of(received: u64, total: Option<u64>) -> Option<(u64, u64)> {
    match total {
        Some(t) => if t > 0 {
            Some((if received > t { t } else { received }, t))
        } else {
            None
        },
        None => None,
    }
}

/// The progress shown never passes one whole: it is shown only for a known positive size,
/// and then the part counted never exceeds that size.
pub proof fn law_percent_at_most_whole(received: u64, total: Option<u64>)
    ensures
        match percent_of(received, total) {
            Some((done, whole)) => total == Some(whole) && whole > 0 && done <= whole && (done == whole
                <==> received >= whole),
            None => !(total matches Some(t) && t > 0),
        },
{
}

fn percent(received: u64, total: Option<u64>) -> (r: Option<(u64, u64)>)
    ensures
        r == percent_of(received, total),
{
    match total {
        Some(t) => if t > 0 {
            Some((if received > t { t } else { received }, t))
        } else {
            None
        },
        None => None,
    }
}

impl TransferProgress {
    pub fn default() -> (r: Self)
        ensures
            !r.active,
            r.phase == TransferPhase::Idle,
            r.label@.len() == 0,
            r.target@.len() == 0,
            r.received_bytes == 0,
            r.total_bytes is None,
            r.speed_bps == 0,
            r.percent is None,
            r.error is None,
            !r.cancelled,
    {
        TransferProgress {
            active: false,
            phase: TransferPhase::Idle,
            label: String::new(),
            target: String::new(),
            received_bytes: 0,
            total_bytes: None,
            speed_bps: 0,
            percent: None,
            error: None,
            cancelled: false,
        }
    }

    /// Starts a transfer: active, downloading, nothing received, total unknown.
    pub fn begin(&mut self, target: String, label: String)
        ensures
            final(self).active,
            final(self).phase == TransferPhase::Downloading,
            final(self).label == label,
            final(self).target == target,
            final(self).received_bytes == 0,
            final(self).total_bytes is None,
            final(self).speed_bps == 0,
            final(self).percent is None,
            final(self).error is None,
            !final(self).cancelled,
    {
        *self = TransferProgress {
            active: true,
            phase: TransferPhase::Downloading,
            label,
            target,
            received_bytes: 0,
            total_bytes: None,
            speed_bps: 0,
            percent: None,
            error: None,
            cancelled: false,
        };
    }

    /// Sets the expected size; an unknown or zero size is recorded as unknown.
    pub fn set_total(&mut self, total: Option<u64>)
        ensures
            final(self).total_bytes == match total {
                Some(t) => if t > 0 { Some(t) } else { None },
                None => None,
            },
            final(self).percent == percent_of(final(self).received_bytes, final(self).total_bytes),
            final(self).active == old(self).active,
            final(self).phase == old(self).phase,
            final(self).received_bytes == old(self).received_bytes,
            final(self).cancelled == old(self).cancelled,
    {
        self.total_bytes = match total {
            Some(t) => if t > 0 {
                Some(t)
            } else {
                None
            },
            None => None,
        };
        self.percent = percent(self.received_bytes, self.total_bytes);
    }

    /// Counts received bytes (saturating); a total exceeded by what arrived grows to it.
    pub fn add_bytes(&mut self, delta: u64)
        ensures
            delta == 0 ==> *final(self) == *old(self),
            delta > 0 ==> final(self).received_bytes == old(self).received_bytes.saturating_add(delta),
            delta > 0 ==> final(self).total_bytes == match old(self).total_bytes {
                Some(t) => if final(self).received_bytes > t {
                    Some(final(self).received_bytes)
                } else {
                    Some(t)
                },
                None => None,
            },
            delta > 0 && final(self).total_bytes is Some ==> final(self).received_bytes <= final(self).total_bytes->0,
            delta > 0 ==> final(self).percent == percent_of(final(self).received_bytes, final(self).total_bytes),
            final(self).active == old(self).active,
            final(self).phase == old(self).phase,
            final(self).cancelled == old(self).cancelled,
    {
        if delta == 0 {
            return;
        }
        self.received_bytes = self.received_bytes.saturating_add(delta);
        match self.total_bytes {
            Some(t) => if self.received_bytes > t {
                self.total_bytes = Some(self.received_bytes);
            },
            None => {},
        }
        self.percent = percent(self.received_bytes, self.total_bytes);
    }

    /// Ends a transfer successfully; with a known size it shows as complete.
    pub fn finish_ok(&mut self)
        ensures
            final(self).percent == match old(self).total_bytes {
                Some(t) => Some((1u64, 1u64)),
                None => old(self).percent,
            },
            !final(self).active,
            final(self).phase == TransferPhase::Idle,
            final(self).speed_bps == 0,
            final(self).error is None,
            !final(self).cancelled,
            final(self).received_bytes == old(self).received_bytes,
            final(self).total_bytes == old(self).total_bytes,
    {
        self.active = false;
        self.phase = TransferPhase::Idle;
        self.speed_bps = 0;
        if self.total_bytes.is_some() {
            self.percent = Some((1, 1));
        }
        self.error = None;
        self.cancelled = false;
    }

    /// Ends a transfer the user cancelled.
    pub fn finish_cancelled(&mut self)
        ensures
            !final(self).active,
            final(self).phase == TransferPhase::Idle,
            final(self).speed_bps == 0,
            final(self).error is None,
            final(self).cancelled,
            final(self).percent == old(self).percent,
            final(self).received_bytes == old(self).received_bytes,
            final(self).total_bytes == old(self).total_bytes,
    {
        self.active = false;
        self.phase = TransferPhase::Idle;
        self.speed_bps = 0;
        self.error = None;
        self.cancelled = true;
    }

    /// Ends a transfer with an error message.
    pub fn finish_err(&mut self, message: String)
        ensures
            !final(self).active,
            final(self).phase == TransferPhase::Idle,
            final(self).speed_bps == 0,
            final(self).error == Some(message),
            final(self).percent == old(self).percent,
            !final(self).cancelled,
            final(self).received_bytes == old(self).received_bytes,
            final(self).total_bytes == old(self).total_bytes,
    {
        self.active = false;
        self.phase = TransferPhase::Idle;
        self.speed_bps = 0;
        self.error = Some(message);
        self.cancelled = false;
    }
}

} // verus!
