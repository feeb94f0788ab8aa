//! A verified core for carrying Rust values through the GObject type system.
//!
//! GObject wants every value it handles to be a reference-counted heap object
//! of a registered runtime type. This crate holds the decisions behind that:
//! which runtime type a Rust type gets and under which name, how large the
//! object is, when the carried value is destroyed, what a list model answers,
//! and which reference-count calls a handle owes. The calls into GLib
//! themselves are made by the code around this crate, which hands their
//! results back as plain values.

pub mod gobject_fzn;
pub mod public_interface;
