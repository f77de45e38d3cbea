//! Dynamic-object capability layer of a template-engine value system.
//!
//! Host applications expose native data structures to the engine by
//! implementing one or more capability traits on a type: [`object::Object`]
//! for the base surface every dynamic value has, [`sequence::SeqObject`]
//! for ordered, index-addressed collections, and [`record::StructObject`]
//! for named-field records.  The [`traverse`] module iterates over a
//! sequence capability, the [`simple`] adapters synthesize a complete
//! object from a bare sequence or record capability, and every capability
//! is forwarded transparently through a shared, reference-counted handle.

pub mod object;
pub mod record;
pub mod render;
pub mod sequence;
pub mod simple;
pub mod traverse;
pub mod value;
