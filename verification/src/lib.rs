//! Native side of a binding bridge between statically typed values and a
//! dynamically typed host runtime.
//!
//! The crate holds the object model that the host sees: how failures are
//! categorised and handed over, how enumerations and tagged unions answer
//! comparisons and attribute reads, how optional parameters are resolved,
//! and how a derived type embeds its base. Every function is verified
//! against the contract written on it.

pub mod arguments;
pub mod errors;
pub mod functions;
pub mod inheritance;
pub mod numeric;
pub mod values;
