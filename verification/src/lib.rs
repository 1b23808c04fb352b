//! Rewrites a module's default-exported function component into a custom-element
//! class, a registration of that class under a derived tag name, and a default
//! export of the class.
//!
//! The syntax tree is the library's own: it holds the default exports, which the
//! rewrite reads, the nodes that the rewrite builds, and a handle for every other
//! top-level item, which is carried through untouched.

pub mod ast;
pub mod naming;
pub mod synth;
pub mod transform;
pub mod laws;
