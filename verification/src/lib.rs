//! A safe-wrapper layer over a native multimedia engine.
//!
//! The engine itself is an external collaborator reachable only through a C
//! interface; what this crate verifies is the discipline that makes such a
//! binding safe: unique ownership of foreign allocations with exactly-once
//! destruction (`handle`), the UTF-32 / UTF-8 string bridge (`string`),
//! callback trampolines that carry a host capability across the boundary
//! (`trampoline`), and the borrow rules that keep a drawable from outliving a
//! texture it was bound to (`shape`).
//!
//! The foreign side is represented by instrumented in-process state
//! ([`handle::ForeignHeap`], [`context::ContextHost`]) so that the lifecycle
//! rules are stated and proved over it; the raw-pointer edge that hands values
//! to the real engine stays outside the verified core.

pub mod context;
pub mod geometry;
pub mod handle;
pub mod shape;
pub mod string;
pub mod trampoline;
pub mod view;
