//! A price that follows a triangular wave in time.
//!
//! An oracle is created at some clock reading and from then on answers, for
//! any later reading, with the value of a wave that climbs from zero to its
//! peak in half an hour and descends again in the next.

pub mod decimal;
pub mod minute;
pub mod oracle;
pub mod waveform;
