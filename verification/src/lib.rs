//! Host resource snapshots: readings taken from the operating system are
//! folded into one normalized record whose aggregate fields are proved to
//! agree with its per-resource entries.

pub mod aggregate;
pub mod driver;
pub mod frame;
pub mod laws;
pub mod probe;
pub mod reading;
pub mod record;
pub mod sums;
