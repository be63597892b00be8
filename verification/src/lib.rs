//! Exchange of HL7 v2 messages over a framed transport: newline
//! normalization, acknowledgment composition, the send and listen session
//! logic, and location-based value mapping.
//!
//! The message grammar itself is parsed by the `hl7-parser` crate; this
//! library states contracts for the calls it makes into that crate and
//! verifies everything built on top of them.

pub mod ack;
pub mod fresh;
pub mod laws;
pub mod location;
pub mod mapping;
pub mod message;
pub mod output;
pub mod session;
pub mod text;
