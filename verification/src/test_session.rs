//! State reported by the mic test bench.
use vstd::prelude::*;

use crate::emit_policy::PipelineEmit;
use crate::text::{append_str, join, join_strings, views};

verus! {

/// Parakeet's input sample rate (Hz).
pub const SAMPLE_RATE: u32 = 16000;

#[derive(Debug, PartialEq, Eq, Structural, Clone, Copy)]
pub enum TestBenchPhase {
    Idle,
    Listening,
    Done,
    Error,
}

/// What the test bench shows.  The per-decode timing breakdown (fractional percentages)
/// is kept beside this value by the caller.
#[derive(Clone)]
pub struct TestBenchSnapshot {
    pub running: bool,
    pub phase: TestBenchPhase,
    pub execution_provider: String,
    pub model_label: String,
    pub duration_ms: u64,
    pub device_id: String,
    pub device_label: String,
    pub sample_count: u64,
    pub sample_rate: u32,
    /// Live partial text for the active segment.
    pub partial_transcript: String,
    /// Finalized lines joined for display.
    pub transcript: String,
    pub finalized_segments: u32,
    pub is_speech: bool,
    pub decode_count: u32,
    pub capture_ms: u64,
    pub last_decode_ms: u64,
    pub error: Option<String>,
}

impl TestBenchSnapshot {
    /// Idle bench at the model's sample rate, with nothing captured.
    pub fn default() -> (r: Self)
        ensures
            !r.running,
            r.phase == TestBenchPhase::Idle,
            r.execution_provider@.len() == 0,
            r.model_label@.len() == 0,
            r.duration_ms == 0,
            r.device_id@.len() == 0,
            r.device_label@.len() == 0,
            r.sample_count == 0,
            r.sample_rate == SAMPLE_RATE,
            r.partial_transcript@.len() == 0,
            r.transcript@.len() == 0,
            r.finalized_segments == 0,
            !r.is_speech,
            r.decode_count == 0,
            r.capture_ms == 0,
            r.last_decode_ms == 0,
            r.error is None,
    {
        TestBenchSnapshot {
            running: false,
            phase: TestBenchPhase::Idle,
            execution_provider: String::new(),
            model_label: String::new(),
            duration_ms: 0,
            device_id: String::new(),
            device_label: String::new(),
            sample_count: 0,
            sample_rate: SAMPLE_RATE,
            partial_transcript: String::new(),
            transcript: String::new(),
            finalized_segments: 0,
            is_speech: false,
            decode_count: 0,
            capture_ms: 0,
            last_decode_ms: 0,
            error: None,
        }
    }
}

#[derive(Debug, PartialEq, Eq, Structural, Clone, Copy)]
pub enum TestBenchError {
    AlreadyRunning,
    NotRunning,
}

/// Stopping the bench: a bench that is not running reports `NotRunning`; otherwise it
/// stops, and a bench still listening is done.
pub fn stop_snapshot(snap: &mut TestBenchSnapshot) -> (r: Result<(), TestBenchError>)
    ensures
        !old(snap).running ==> r == Err::<(), TestBenchError>(TestBenchError::NotRunning) && *final(snap) == *old(snap),
        old(snap).running ==> r is Ok && !final(snap).running && final(snap).phase == (if old(snap).phase
            == TestBenchPhase::Listening {
            TestBenchPhase::Done
        } else {
            old(snap).phase
        }) && final(snap).transcript == old(snap).transcript && final(snap).finalized_segments == old(
        snap).finalized_segments,
{
    if !snap.running {
        return Err(TestBenchError::NotRunning);
    }
    snap.running = false;
    if snap.phase == TestBenchPhase::Listening {
        snap.phase = TestBenchPhase::Done;
    }
    Ok(())
}

/// The transcript a test bench run builds from its emits.
pub struct TestBenchTranscript {
    finalized_lines: Vec<String>,
    partial: String,
    decode_count: u32,
}

/// The transcript reported at the end: the finalized lines, one per line, then the live
/// partial (alone when nothing was finalized).
pub open spec fn full_transcript(lines: Seq<Seq<char>>, partial: Seq<char>) -> Seq<char> {
    if lines.len() == 0 {
        partial
    } else if partial.len() == 0 {
        join(lines, "\n"@)
    } else {
        join(lines, "\n"@) + "\n"@ + partial
    }
}

impl TestBenchTranscript {
    pub closed spec fn lines(&self) -> Seq<Seq<char>> {
        views(self.finalized_lines@)
    }

    pub closed spec fn partial(&self) -> Seq<char> {
        self.partial@
    }

    pub closed spec fn decodes(&self) -> u32 {
        self.decode_count
    }

    pub fn new() -> (r: Self)
        ensures
            r.lines() == Seq::<Seq<char>>::empty(),
            r.partial().len() == 0,
            r.decodes() == 0,
    {
        let r = TestBenchTranscript { finalized_lines: Vec::new(), partial: String::new(), decode_count: 0 };
        assert(r.lines() =~= Seq::<Seq<char>>::empty());
        r
    }

    /// Partial decodes recorded so far.
    pub fn decode_count(&self) -> (r: u32)
        ensures
            r == self.decodes(),
    {
        self.decode_count
    }

    /// Records one emit (already filtered and de-duplicated) into the transcript and the
    /// snapshot: an empty text is skipped; a final adds a line and clears the partial; a
    /// partial replaces the live partial and counts as a decode.
    pub fn record_emit(&mut self, snap: &mut TestBenchSnapshot, emit: &PipelineEmit)
        requires
            old(self).decodes() < u32::MAX,
            old(snap).finalized_segments < u32::MAX,
        ensures
            emit.text@.len() == 0 ==> *final(self) == *old(self) && *final(snap) == *old(snap),
            emit.text@.len() > 0 && emit.is_final ==> {
                &&& final(self).lines() == old(self).lines().push(emit.text@)
                &&& final(self).partial().len() == 0
                &&& final(self).decodes() == old(self).decodes()
                &&& final(snap).finalized_segments == old(snap).finalized_segments + 1
                &&& final(snap).partial_transcript@.len() == 0
                &&& final(snap).transcript@ == join(final(self).lines(), "\n"@)
                &&& final(snap).running == old(snap).running
                &&& final(snap).phase == old(snap).phase
            },
            emit.text@.len() > 0 && !emit.is_final ==> {
                &&& final(self).lines() == old(self).lines()
                &&& final(self).partial() == emit.text@
                &&& final(self).decodes() == old(self).decodes() + 1
                &&& final(snap).partial_transcript@ == emit.text@
                &&& final(snap).is_speech == emit.is_speech
                &&& final(snap).decode_count == final(self).decodes()
                &&& final(snap).transcript == old(snap).transcript
                &&& final(snap).finalized_segments == old(snap).finalized_segments
                &&& final(snap).running == old(snap).running
                &&& final(snap).phase == old(snap).phase
            },
    {
        if emit.text.as_str().is_empty() {
            return;
        }
        if emit.is_final {
            let ghost l0 = views(self.finalized_lines@);
            self.finalized_lines.push(emit.text.clone());
            assert(views(self.finalized_lines@) =~= l0.push(emit.text@));
            self.partial = String::new();
            snap.finalized_segments = snap.finalized_segments + 1;
            snap.partial_transcript = String::new();
            snap.transcript = join_strings(&self.finalized_lines, "\n");
        } else {
            self.partial = emit.text.clone();
            self.decode_count = self.decode_count + 1;
            snap.partial_transcript = self.partial.clone();
            snap.is_speech = emit.is_speech;
            snap.decode_count = self.decode_count;
        }
    }

    pub fn transcript(&self) -> (r: String)
        ensures
            r@ == full_transcript(self.lines(), self.partial()),
    {
        if self.finalized_lines.len() == 0 {
            return self.partial.clone();
        }
        let mut out = join_strings(&self.finalized_lines, "\n");
        if !self.partial.as_str().is_empty() {
            append_str(&mut out, "\n");
            append_str(&mut out, self.partial.as_str());
        }
        out
    }

    /// The snapshot at the end of a completed run.
    pub fn finish(&self, snap: &mut TestBenchSnapshot, capture_ms: u64, last_decode_ms: u64)
        ensures
            !final(snap).running,
            final(snap).phase == TestBenchPhase::Done,
            final(snap).partial_transcript@ == self.partial(),
            final(snap).transcript@ == full_transcript(self.lines(), self.partial()),
            final(snap).finalized_segments == self.lines().len() as u32,
            final(snap).decode_count == self.decodes(),
            final(snap).capture_ms == capture_ms,
            final(snap).last_decode_ms == last_decode_ms,
            final(snap).error is None,
    {
        snap.running = false;
        snap.phase = TestBenchPhase::Done;
        snap.partial_transcript = self.partial.clone();
        snap.transcript = self.transcript();
        snap.finalized_segments = self.finalized_lines.len() as u32;
        snap.decode_count = self.decode_count;
        snap.capture_ms = capture_ms;
        snap.last_decode_ms = last_decode_ms;
        snap.error = None;
    }
}

/// Whether the capture loop stops: on a stop request, or once a run with a duration limit
/// (`duration_ms` above 0) has captured for that long.
pub fn capture_should_stop(stop_requested: bool, duration_ms: u64, elapsed_ms: u128) -> (r: bool)
    ensures
        r == (stop_requested || (duration_ms > 0 && elapsed_ms >= duration_ms)),
{
    stop_requested || (duration_ms > 0 && elapsed_ms >= duration_ms as u128)
}

/// A run ended because the decoder's profiling budget ran out: stopped and done, with no
/// error; what was captured and transcribed stays.
pub fn budget_reached_snapshot(snap: &mut TestBenchSnapshot)
    ensures
        !final(snap).running,
        final(snap).phase == TestBenchPhase::Done,
        final(snap).error is None,
        final(snap).transcript == old(snap).transcript,
        final(snap).partial_transcript == old(snap).partial_transcript,
        final(snap).finalized_segments == old(snap).finalized_segments,
        final(snap).decode_count == old(snap).decode_count,
        final(snap).sample_count == old(snap).sample_count,
        final(snap).capture_ms == old(snap).capture_ms,
        final(snap).last_decode_ms == old(snap).last_decode_ms,
{
    snap.running = false;
    snap.phase = TestBenchPhase::Done;
    snap.error = None;
}

/// A run that failed: stopped, in the error phase, with the message.
pub fn fail_snapshot(snap: &mut TestBenchSnapshot, message: String)
    ensures
        !final(snap).running,
        final(snap).phase == TestBenchPhase::Error,
        final(snap).error == Some(message),
        final(snap).transcript == old(snap).transcript,
{
    snap.running = false;
    snap.phase = TestBenchPhase::Error;
    snap.error = Some(message);
}

} // verus!
