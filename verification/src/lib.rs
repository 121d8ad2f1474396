//! External Workflow Stream waits and markers.
//!
//! A Workflow that reads external streams blocks on *waits*, one per subscription. While it blocks,
//! the Workflow Task may be retained on its behalf, or given up by *parking* the complete set of
//! waits. [`wait_set`] decides whether a readiness notification, a park confirmation, or a timer
//! expiry is acted on or discarded as stale; [`machine`] turns what a Workflow Task observed into
//! one marker in History and reconciles it on replay. Both are stated over mathematical models. What
//! holds across their operations is proved in [`wait_laws`] and [`machine_laws`], and what each
//! operation and each value comes to, field by field, in [`wait_effects`] and [`marker_laws`].
//!
//! Three generations exist and are deliberately named separately:
//!
//! | Name                    | Scope                         | Increments when                               |
//! |-------------------------|-------------------------------|-----------------------------------------------|
//! | `wait_generation`       | one subscription              | that subscription re-enters the blocked state |
//! | `quiescence_generation` | one complete blocked snapshot | the Workflow becomes quiescent again          |
//! | `park_generation`       | one confirmed park of a set   | a park set is confirmed                       |
//!
//! `park_generation` is not a counter of its own: it takes the value of the
//! `quiescence_generation` that was parked.

pub mod activation;
pub mod constants;
pub mod ids;
pub mod machine;
pub mod machine_laws;
pub mod marker;
pub mod marker_laws;
pub mod text;
pub mod wait_effects;
pub mod wait_laws;
pub mod wait_model;
pub mod wait_set;
pub mod waits;
