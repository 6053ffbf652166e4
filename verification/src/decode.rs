//! Decode window selection.  Both partial and final passes re-decode the whole growing
//! segment buffer; the tail window below is an optional helper for very long segments.
use vstd::prelude::*;

use crate::segment_enqueue::{ms_to_samples, samples_for};

verus! {

#[derive(Debug, PartialEq, Eq, Structural, Clone, Copy)]
pub enum DecodePass {
    Partial,
    Final,
}

/// Left context before the chunk: three chunks, kept within 1.8–6 s.
pub open spec fn left_context(chunk_window_ms: u32) -> int {
    let t = 3 * chunk_window_ms as int;
    if t < 1800 {
        1800
    } else if t > 6000 {
        6000
    } else {
        t
    }
}

pub fn left_context_ms(chunk_window_ms: u32) -> (r: u32)
    ensures
        r == left_context(chunk_window_ms),
{
    let t: u64 = chunk_window_ms as u64 * 3;
    if t < 1800 {
        1800
    } else if t > 6000 {
        6000
    } else {
        t as u32
    }
}

/// Samples in the tail window: the left context plus one chunk (at least 640 ms).
pub open spec fn tail_window_len(chunk_window_ms: u32, sample_rate: u32) -> int {
    let left = samples_for(left_context(chunk_window_ms) as u32, sample_rate) as usize as int;
    let chunk = samples_for(if chunk_window_ms < 640 { 640 } else { chunk_window_ms }, sample_rate) as usize as int;
    if left + chunk > usize::MAX {
        usize::MAX as int
    } else {
        left + chunk
    }
}

/// The tail of `cumulative` that fits the window, with the index it starts at.
pub fn select_partial_window<S: Copy>(cumulative: &[S], chunk_window_ms: u32, sample_rate: u32) -> (r: (usize, Vec<S>))
    ensures
        cumulative@.len() <= tail_window_len(chunk_window_ms, sample_rate) ==> r.0 == 0 && r.1@ == cumulative@,
        cumulative@.len() > tail_window_len(chunk_window_ms, sample_rate) ==> r.0 == cumulative@.len()
            - tail_window_len(chunk_window_ms, sample_rate) && r.1@ == cumulative@.subrange(
            r.0 as int,
            cumulative@.len() as int,
        ),
{
    let left = ms_to_samples(left_context_ms(chunk_window_ms), sample_rate);
    let chunk = ms_to_samples(if chunk_window_ms < 640 { 640 } else { chunk_window_ms }, sample_rate);
    let window_len = left.saturating_add(chunk);
    let start = if cumulative.len() <= window_len { 0 } else { cumulative.len() - window_len };
    let mut out: Vec<S> = Vec::new();
    let mut i = start;
    while i < cumulative.len()
        invariant
            start <= i <= cumulative@.len(),
            out@ == cumulative@.subrange(start as int, i as int),
        decreases cumulative.len() - i,
    {
        out.push(cumulative[i]);
        i = i + 1;
        assert(out@ =~= cumulative@.subrange(start as int, i as int));
    }
    assert(cumulative@.subrange(0, cumulative@.len() as int) =~= cumulative@);
    (start, out)
}

/// The audio a decode pass transcribes, with the index in `cumulative` it starts at (the
/// pre-emphasis filter continues from the sample before it).  Partial and final passes
/// both re-decode the whole growing segment buffer, so partial text accumulates.
pub fn prepare_decode_window<S: Copy>(cumulative: &[S], chunk_window_ms: u32, pass: DecodePass) -> (r: (usize, Vec<S>))
    ensures
        r.0 == 0,
        r.1@ == cumulative@,
{
    let mut out: Vec<S> = Vec::new();
    let mut i: usize = 0;
    while i < cumulative.len()
        invariant
            i <= cumulative.len(),
            out@ == cumulative@.take(i as int),
        decreases cumulative.len() - i,
    {
        out.push(cumulative[i]);
        assert(cumulative@.take(i + 1) =~= cumulative@.take(i as int).push(cumulative@[i as int]));
        i = i + 1;
    }
    assert(cumulative@.take(cumulative.len() as int) =~= cumulative@);
    (0, out)
}

} // verus!
