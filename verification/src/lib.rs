//! The message component of a persona engine: the `message` command's
//! input and output records, the frame codec that carries them as Signal
//! requests and replies, the daemon's provenance stamping, the resolution
//! of the local actor that speaks for a process, and the validator of
//! printed output.

pub mod command;
pub mod daemon;
pub mod error;
pub mod output_validator;
pub mod prompt;
pub mod resolver;
pub mod router;
pub mod schema;
pub mod signal;
pub mod surface;
pub mod text;
