//! Codec and control logic for a Flexispot height-adjustable desk.
//!
//! The desk is commanded over a serial link with fixed frames and answers
//! with what its display shows. This library encodes the commands, decodes
//! the answers, and decides what a controller that sits between the desk and
//! a publish/subscribe broker does and in what order. It neither opens a
//! device nor a connection: whoever owns those carries out what is decided
//! here.

pub mod adapter;
pub mod flexispot;
pub mod mqtt;
