//! An abstract model of the types of a hardware description language.
//!
//! Every type answers four classification queries (scalar, discrete,
//! numeric, composite). Concrete kinds live in an arena owned by the caller;
//! `AnyType` is a copyable, tagged handle into that arena.

pub mod bigint;
pub mod range;
pub mod kind;
pub mod any;
pub mod marker;
pub mod text;
pub mod enumeration;
pub mod physical;
pub mod integer;
pub mod array;
pub mod port_mapping;
