//! The TTS playback workers' decisions: which channel a request names, what a worker does
//! with each command while idle, while an item plays and while it drains its queue, when
//! its output stream has to be reopened, and the report sent when an item ends.
use vstd::prelude::*;

use crate::audio_error::AudioError;
use crate::text::{append_str, str_eq, to_owned_string};

verus! {

pub const CHANNEL_SPEECH: &'static str = "speech";

pub const CHANNEL_TWITCH: &'static str = "twitch";

/// The two independent playback workers.
#[derive(Debug, Clone, Copy, PartialEq, Eq, Structural)]
pub enum PlaybackChannel {
    Speech,
    Twitch,
}

pub open spec fn channel_of(name: Seq<char>) -> Option<PlaybackChannel> {
    if name == "speech"@ {
        Some(PlaybackChannel::Speech)
    } else if name == "twitch"@ {
        Some(PlaybackChannel::Twitch)
    } else {
        None
    }
}

pub open spec fn channel_name(c: PlaybackChannel) -> Seq<char> {
    match c {
        PlaybackChannel::Speech => "speech"@,
        PlaybackChannel::Twitch => "twitch"@,
    }
}

impl PlaybackChannel {
    pub fn name(self) -> (r: &'static str)
        ensures
            r@ == channel_name(self),
    {
        proof {
            reveal_strlit("speech");
            reveal_strlit("twitch");
        }
        match self {
            PlaybackChannel::Speech => CHANNEL_SPEECH,
            PlaybackChannel::Twitch => CHANNEL_TWITCH,
        }
    }
}

/// The worker for a channel name; any other name is refused.
pub fn playback_channel(name: &str) -> (r: Result<PlaybackChannel, AudioError>)
    ensures
        match r {
            Ok(c) => channel_of(name@) == Some(c),
            Err(e) => channel_of(name@) is None && (e matches AudioError::PlaybackFailed(m) && m@
                == "unknown playback channel: "@ + name@),
        },
{
    proof {
        reveal_strlit("speech");
        reveal_strlit("twitch");
    }
    if str_eq(name, CHANNEL_SPEECH) {
        Ok(PlaybackChannel::Speech)
    } else if str_eq(name, CHANNEL_TWITCH) {
        Ok(PlaybackChannel::Twitch)
    } else {
        let mut m = to_owned_string("unknown playback channel: ");
        append_str(&mut m, name);
        Err(AudioError::PlaybackFailed(m))
    }
}

/// How an item ended.
pub enum PlayOutcome {
    Completed,
    Stopped,
    Failed(AudioError),
}

/// The outcome of playing an item: an error reported exactly as `playback stopped` reads as
/// a stop; any other error is a failure.
pub fn play_outcome(result: Result<(), AudioError>) -> (r: PlayOutcome)
    ensures
        match result {
            Ok(()) => r is Completed,
            Err(e) => if e.message_spec() == "playback stopped"@ {
                r is Stopped
            } else {
                (r matches PlayOutcome::Failed(f) && f == e)
            },
        },
{
    match result {
        Ok(()) => PlayOutcome::Completed,
        Err(e) => {
            let text = e.message();
            if str_eq(text.as_str(), "playback stopped") {
                PlayOutcome::Stopped
            } else {
                PlayOutcome::Failed(e)
            }
        },
    }
}

/// A playback error never reads as a stop: its text always carries the `playback failed: `
/// prefix, so an interrupted item is reported as a failed one.
pub proof fn law_playback_error_is_never_a_stop(detail: String)
    ensures
        AudioError::PlaybackFailed(detail).message_spec() != "playback stopped"@,
{
    reveal_strlit("playback failed: ");
    reveal_strlit("playback stopped");
    assert(("playback failed: "@ + detail@).len() >= 17);
}

/// The report sent when an item ends.
pub struct PlaybackFinished {
    pub channel: String,
    pub item_id: String,
    pub ok: bool,
    pub error: Option<String>,
}

pub open spec fn finished_error(outcome: PlayOutcome) -> Option<Seq<char>> {
    match outcome {
        PlayOutcome::Completed => None,
        PlayOutcome::Stopped => Some("playback stopped"@),
        PlayOutcome::Failed(e) => Some(e.message_spec()),
    }
}

pub fn playback_finished(channel: PlaybackChannel, item_id: String, outcome: PlayOutcome) -> (r: PlaybackFinished)
    ensures
        r.channel@ == channel_name(channel),
        r.item_id == item_id,
        r.ok == (outcome is Completed),
        match r.error {
            Some(m) => finished_error(outcome) == Some(m@),
            None => finished_error(outcome) is None,
        },
{
    let (ok, error) = match &outcome {
        PlayOutcome::Completed => (true, None),
        PlayOutcome::Stopped => (false, Some(to_owned_string("playback stopped"))),
        PlayOutcome::Failed(e) => (false, Some(e.message())),
    };
    PlaybackFinished { channel: to_owned_string(channel.name()), item_id, ok, error }
}

/// A command for a worker, with the audio of a play request left to the caller.
pub enum WorkerSignal {
    Play,
    SetDeviceLabel(String),
    StopPending,
}

/// What an idle worker does with a command.
#[derive(Debug, Clone, Copy, PartialEq, Eq, Structural)]
pub enum IdleAction {
    /// Play the item.
    Play,
    /// Drop every queued command but label changes.
    DrainQueue,
    /// Nothing more (a label change was recorded).
    Nothing,
}

/// The worker's output: the device label in use and the label its open output stream was
/// opened for, if one is open.
pub struct PlaybackWorkerState {
    pub device_label: String,
    pub output_open_for: Option<String>,
}

pub open spec fn opt_view(o: Option<String>) -> Option<Seq<char>> {
    match o {
        Some(s) => Some(s@),
        None => None,
    }
}

impl PlaybackWorkerState {
    pub open spec fn label(&self) -> Seq<char> {
        self.device_label@
    }

    pub open spec fn open_for(&self) -> Option<Seq<char>> {
        opt_view(self.output_open_for)
    }

    /// A fresh worker: the default device, no stream open.
    pub fn new() -> (r: Self)
        ensures
            r.label() == Seq::<char>::empty(),
            r.open_for() is None,
    {
        PlaybackWorkerState { device_label: String::new(), output_open_for: None }
    }

    /// A new device label; a stream open for another label is dropped.
    pub fn set_device_label(&mut self, label: String)
        ensures
            final(self).label() == label@,
            final(self).open_for() == if old(self).label() != label@ {
                None
            } else {
                old(self).open_for()
            },
    {
        if !str_eq(self.device_label.as_str(), label.as_str()) {
            self.output_open_for = None;
        }
        self.device_label = label;
    }

    /// Whether a stream for the current label has to be opened before playing.
    pub fn needs_output(&self) -> (r: bool)
        ensures
            r == (self.open_for() != Some(self.label())),
    {
        match &self.output_open_for {
            Some(l) => !str_eq(l.as_str(), self.device_label.as_str()),
            None => true,
        }
    }

    /// A stream was opened for the current label.
    pub fn output_opened(&mut self)
        ensures
            final(self).label() == old(self).label(),
            final(self).open_for() == Some(old(self).label()),
    {
        self.output_open_for = Some(self.device_label.clone());
    }

    /// The item failed: the stream is dropped, to be reopened for the next one.
    pub fn playback_failed(&mut self)
        ensures
            final(self).label() == old(self).label(),
            final(self).open_for() is None,
    {
        self.output_open_for = None;
    }

    /// An idle worker receives a command: a play request is played, a stop drains the
    /// queue, a label change is recorded.
    pub fn on_idle(&mut self, signal: WorkerSignal) -> (r: IdleAction)
        ensures
            match signal {
                WorkerSignal::Play => r == IdleAction::Play && *final(self) == *old(self),
                WorkerSignal::StopPending => r == IdleAction::DrainQueue && *final(self) == *old(self),
                WorkerSignal::SetDeviceLabel(l) => r == IdleAction::Nothing && final(self).label() == l@
                    && final(self).open_for() == if old(self).label() != l@ {
                    None
                } else {
                    old(self).open_for()
                },
            },
    {
        match signal {
            WorkerSignal::Play => IdleAction::Play,
            WorkerSignal::StopPending => IdleAction::DrainQueue,
            WorkerSignal::SetDeviceLabel(l) => {
                self.set_device_label(l);
                IdleAction::Nothing
            },
        }
    }

    /// A command arrives while an item plays: a stop ends the item (and the queue is then
    /// drained); a label change is recorded and the item plays on; a further play request
    /// is dropped.  Returns whether the item stops.
    pub fn on_busy(&mut self, signal: WorkerSignal) -> (stop: bool)
        ensures
            stop == (signal is StopPending),
            match signal {
                WorkerSignal::SetDeviceLabel(l) => final(self).label() == l@ && final(self).open_for() == if old(
                    self,
                ).label() != l@ {
                    None
                } else {
                    old(self).open_for()
                },
                _ => *final(self) == *old(self),
            },
    {
        match signal {
            WorkerSignal::StopPending => true,
            WorkerSignal::Play => false,
            WorkerSignal::SetDeviceLabel(l) => {
                self.set_device_label(l);
                false
            },
        }
    }

    /// A queued command while the queue is drained after a stop: label changes still
    /// apply; play requests and further stops are dropped.
    pub fn on_drain(&mut self, signal: WorkerSignal)
        ensures
            match signal {
                WorkerSignal::SetDeviceLabel(l) => final(self).label() == l@ && final(self).open_for() == if old(
                    self,
                ).label() != l@ {
                    None
                } else {
                    old(self).open_for()
                },
                _ => *final(self) == *old(self),
            },
    {
        if let WorkerSignal::SetDeviceLabel(l) = signal {
            self.set_device_label(l);
        }
    }
}

} // verus!
