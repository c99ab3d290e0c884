//! Rewrites the annotated methods of a bridge module into freestanding
//! functions that convert their arguments and results at a foreign-function
//! boundary.
//!
//! The library works on a plain syntax tree ([`syntax`]) whose meaning in
//! contracts is given by the view of each node.  A module is rewritten by a
//! [`transformer::ModTransformer`]:
//!
//! - [`classify`] sorts the methods of an `impl` block by their calling
//!   convention and cleans those that stay;
//! - [`freestanding`] turns a receiver into an ordinary parameter;
//! - [`lifetimes`] declares the lifetimes `'env` and `'borrow`;
//! - [`signature`] rewrites parameter and return types;
//! - [`jni_signature`] builds the call that reaches the method;
//! - [`exported`] puts these together for one method;
//! - [`call_type`] holds the call modes and reads the attribute that
//!   selects one;
//! - [`packages`] maps types to their packages;
//! - [`diagnostics`] defines what the passes report;
//! - [`laws`] states what holds of the passes on every input.

pub mod text;
pub mod syntax;
pub mod call_type;
pub mod diagnostics;
pub mod packages;
pub mod classify;
pub mod freestanding;
pub mod lifetimes;
pub mod signature;
pub mod jni_signature;
pub mod exported;
pub mod transformer;
pub mod laws;
