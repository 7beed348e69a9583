//! Events that a telephony provider reports about its calls.

use vstd::prelude::*;

use crate::telephony::call::{AudioChunk, CallState};

verus! {

/// Events from the telephony provider. Calls are named by their identifiers.
#[derive(Debug, Clone)]
pub enum TelephonyEvent {
    /// Call state changed
    CallStateChanged { call_id: u128, new_state: CallState },
    /// Audio received from the remote party
    AudioReceived { call_id: u128, audio: AudioChunk },
    /// Call connected
    CallConnected { call_id: u128 },
    /// Call ended
    CallEnded { call_id: u128, reason: String },
    /// Error occurred
    Error { call_id: Option<u128>, error: String },
}

} // verus!
