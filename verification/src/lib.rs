//! Field-scoped parsing of fixed-format binary packets from a bit-addressable
//! buffer. Every field read carries contextual diagnostics (which field, which
//! containing group, and the underlying cause) and can be validated right
//! after being read.

pub mod bits;
pub mod bitstream;
pub mod display;
pub mod error;
pub mod field_buffer;
pub mod packet_parsing;
pub mod validators;
