//! Synchronization core of a Layer-2 full node.
//!
//! The library models the sync pipeline as a set of verified state machines:
//! a fetch stage that produces a gap-free sequence of heights, a conversion
//! stage that overlaps work over a bounded lookahead window while emitting
//! strictly in input order, a verify-and-apply stage that is the single point
//! of truth for apply order, a pending-state poller decision, and a shared
//! state store read by external consumers. All gateway, storage and sealing
//! I/O is performed by the surrounding application, which feeds the outcomes
//! of those calls back into the step functions defined here.

pub mod apply;
pub mod commitments;
pub mod convert;
pub mod data;
pub mod fetch;
pub mod felt;
pub mod order;
pub mod pipeline;
pub mod queue;
pub mod store;
