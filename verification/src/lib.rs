//! Attribute-parsing core of a value-construction code generator.
//!
//! The library reads the annotations attached to a container type, to its
//! fields and to its `enum` variants, recognises the ones that belong to the
//! tool's own `arbitrary` namespace, and folds their options into validated
//! configuration objects.  Everything the options carry — value expressions,
//! generic-bound declarations — is threaded through verbatim as opaque source
//! fragments; nothing is evaluated here.

pub mod ast;
pub mod names;
pub mod syntax;
pub mod listfmt;
pub mod messages;
pub mod container_options;
pub mod container;
pub mod field_constructor;
pub mod field_options;
pub mod field;
pub mod variant;
pub mod laws;
