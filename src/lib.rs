//! A park/unpark primitive: a `Parker` that one thread uses to wait for a
//! notification, and cloneable `Unparker` handles that other threads use to
//! deliver it.

pub mod laws;
mod parker;
pub mod state;
mod sys;

pub use parker::{lemma_same_cell_is_equivalence, pair, Parker, Unparker};
pub use state::{ParkError, ParkState, EMPTY, NOTIFIED, PARKED};
