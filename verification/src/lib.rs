//! Static-analysis checks over a resolved syntax tree.
//!
//! The crate holds the detection engine that the individual checks share: a
//! deterministic pre-order walk of a function body, the resolution of calls
//! and local bindings to stable identities, and the small state machines
//! that decide, from the nodes that follow a point of interest, whether a
//! risky use was guarded.  Every function carries a contract over the
//! mathematical model of the tree; the host front-end only has to hand the
//! tree over and to print the findings.
//!
//! The model: [`span`], [`text`], [`tree`], [`item`], [`ids`],
//! [`expansion`], [`finding`].
//!
//! The engine: [`walk`] (with its laws in [`walk_laws`]), [`resolve`],
//! [`tracker`].
//!
//! The checks: [`allocation`] and [`allocation_by_name`], [`blocking`],
//! [`ffi`], [`literals`], [`loading`], [`loops`], [`ptr`], [`stack`], and
//! the check for hidden `unsafe` blocks in [`expansion`].
//!
//! The drivers: [`group`] and [`early`] check one node at a time,
//! [`analysis`] a whole function body.

pub mod allocation;
pub mod allocation_by_name;
pub mod analysis;
pub mod blocking;
pub mod early;
pub mod expansion;
pub mod ffi;
pub mod finding;
pub mod group;
pub mod ids;
pub mod item;
pub mod literals;
pub mod loading;
pub mod loops;
pub mod ptr;
pub mod resolve;
pub mod span;
pub mod stack;
pub mod text;
pub mod tracker;
pub mod tree;
pub mod walk;
pub mod walk_laws;
