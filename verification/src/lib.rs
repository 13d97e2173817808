//! Guest-side description of the `xwu` widget host interface.
//!
//! The host owns the widget tree; a guest reaches it through four entry
//! points: create an object, destroy it, read an attribute, write an
//! attribute. This crate holds the identifiers of that interface, the
//! geometry records that cross it, and, for every operation on a widget
//! handle, the exact host call that carries it out. Making the call is left
//! to the embedding, which alone can reach the host.

pub mod xwu;
