//! Distributed unique identifiers: 39 bits of time in 10 ms units, 8 bits of
//! sequence and 16 bits of machine id packed into one 63-bit integer.
//!
//! A [`Sonyflake`] is made by a [`Builder`] from a start time and a machine
//! id. Each attempt to make an identifier reads the clock once and comes to
//! an [`Attempt`]: the identifier, the time to wait for the next tick, or the
//! end of the 39 bits of time. Identifiers of one generator grow, so no two
//! are equal; `laws` states this of every run.

pub mod builder;
pub mod clock;
pub mod error;
pub mod id;
pub mod laws;
pub mod sonyflake;
pub mod time;

pub use crate::builder::Builder;
pub use crate::error::Error;
pub use crate::error::NoCause;
pub use crate::id::decode;
pub use crate::id::encode;
pub use crate::id::Parts;
pub use crate::sonyflake::Attempt;
pub use crate::sonyflake::Internals;
pub use crate::sonyflake::Sonyflake;
pub use crate::time::Timestamp;
