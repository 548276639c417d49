//! Extending the invisibility of popped messages, and acknowledging the
//! delivery that an extension replaces.
//!
//! - `extra_info`: the checkpoint coordinates that travel with a popped message.
//! - `records`: checkpoints, acknowledgments and store outcomes.
//! - `processor`: the handler's decisions, one step per collaborator report.
//! - `laws`: what every run of the handler guarantees.
//! - `query_header`: the consumer-offset query header and its text form.

pub mod extra_info;
pub mod laws;
pub mod processor;
pub mod query_header;
pub mod records;
