//! The syntax tree that the transformation reads and writes.
//!
//! Every node keeps as plain values what the passes inspect; whatever they
//! only carry along is kept as token text.  Each node has a ghost twin whose
//! name ends in `View`, and contracts speak of those.

pub mod path;
pub mod ty;
pub mod function;
pub mod shim;
pub mod item;
