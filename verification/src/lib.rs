//! Host side of a guest-facing logging interface: bounds-checked access to the
//! guest's linear memory, the table of endpoint handles of one session, and the
//! two host calls that a guest makes to name an endpoint and to write to it.

pub mod fastly_log;
pub mod guarantees;
pub mod handler;
pub mod memory;
