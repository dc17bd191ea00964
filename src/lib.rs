//! Client side of a whitelist request: the status model shown to the user,
//! and the protocol session that sends credentials and reads the outcome.

pub mod frame;
pub mod session;
pub mod status;
pub mod text;
