//! Errors of the audio layer and the texts they are reported by.
use vstd::prelude::*;

use crate::text::{append_str, to_owned_string};

verus! {

/// Errors of the audio layer, with the texts they are reported by.
pub enum AudioError {
    InvalidProcessId,
    DeviceNotFound(String),
    RoutingFailed(String),
    PlaybackFailed(String),
}

impl AudioError {
    pub open spec fn message_spec(&self) -> Seq<char> {
        match self {
            AudioError::InvalidProcessId => "invalid process id"@,
            AudioError::DeviceNotFound(m) => "device not found: "@ + m@,
            AudioError::RoutingFailed(m) => "audio routing failed: "@ + m@,
            AudioError::PlaybackFailed(m) => "playback failed: "@ + m@,
        }
    }

    pub fn message(&self) -> (r: String)
        ensures
            r@ == self.message_spec(),
    {
        let (prefix, detail) = match self {
            AudioError::InvalidProcessId => {
                return to_owned_string("invalid process id");
            },
            AudioError::DeviceNotFound(m) => ("device not found: ", m),
            AudioError::RoutingFailed(m) => ("audio routing failed: ", m),
            AudioError::PlaybackFailed(m) => ("playback failed: ", m),
        };
        let mut out = to_owned_string(prefix);
        append_str(&mut out, detail.as_str());
        out
    }
}

} // verus!
