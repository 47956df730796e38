//! The desk's serial protocol: the frames that command it and the packets
//! that it answers with.

pub mod command;
pub mod query;
