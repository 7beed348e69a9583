//! The flow of a call: the conversation state machine and the session that
//! drives it.

pub mod session;
pub mod state;


