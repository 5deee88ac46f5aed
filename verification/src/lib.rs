//! Build HTML as a tree of plain values and serialize it with
//! context-sensitive escaping.
//!
//! An [`Element`] is assembled bottom-up from its tag, its [`Attribute`]s and
//! its children; a [`Document`] wraps the root element and adds the doctype.
//! The modules [`elt`] and [`attr`] hold the common elements and attributes.
//! Text and attribute values are escaped when they are written; names are
//! written as they are, and checked when the element or attribute is made.
//!
//! Serialization is a total function. Its result is stated exactly, over the
//! ghost model in [`model`], by the contracts of `to_string` and `fmt`; what
//! holds of every serialized text is proved in [`escape`] and [`laws`].

pub mod attr;
pub mod attribute;
pub mod decimal;
pub mod element;
pub mod elt;
pub mod escape;
pub mod laws;
pub mod model;
pub mod names;
pub mod occurrences;

pub use crate::attribute::Attribute;
pub use crate::element::{html, Document, Element};
