//! Cross-market spread scanning: decimal quotes are read as fixed-point
//! integers, a venue pool's quote is oriented against the reference price,
//! each sample is priced under a cost model and classified, and observations
//! are counted and fanned out to subscribers. A round-robin scheduler drives
//! one asset at a time as a state machine whose I/O is done by its caller.
use vstd::prelude::*;

pub mod fixed;
pub mod market;
pub mod catalog;
pub mod store;
pub mod hub;
pub mod scanner;
