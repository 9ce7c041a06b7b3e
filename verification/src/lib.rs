//! Synchronisation primitives for single-threaded, interrupt-driven cooperative
//! schedulers.
//!
//! Two primitives let independently scheduled tasks exchange a value without
//! ever blocking the processor:
//!
//! * [`AsyncOption`], a single-slot deliverable: one producer eventually
//!   supplies a value and any number of consumers suspend until it is there;
//! * [`ValueContainer`], a watched value: any task can read it, replace it, or
//!   suspend until it next changes.
//!
//! Every access to shared state is a non-blocking attempt on an arbiter cell.
//! A suspended operation is driven through its `poll` method, which reports a
//! [`Progress`]; a wake signal only ever means "drive again".
//!
//! What a cell holds at a given moment depends on the other contexts, so the
//! contracts of the operations say what holds whatever a cell granted: they
//! tie each result, each value stored and each wake handle registered to what
//! the cells may answer, in the terms of the module [`cell`]. The module
//! [`protocol`] adds an abstract model of the shared state. The laws of the
//! protocol are stated and proved there, and hold of that model alone.

pub mod async_option;
pub mod cell;
pub mod outside;
pub mod progress;
pub mod protocol;
pub mod value_container;

pub use async_option::AsyncOption;
pub use progress::Progress;
pub use value_container::ValueContainer;
