//! Resilient sequencing of an embedded network client: the link supervisor's
//! state machine, the one-shot fetch pipeline, the bounded response buffer,
//! and the error taxonomy that all of them share.

pub mod numtext;
pub mod cause;
pub mod error;
pub mod supervisor;
pub mod buffer;
pub mod report;
pub mod pipeline;
pub mod network;
