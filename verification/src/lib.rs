//! Bidirectional field-mapping plan synthesis for DTO <-> protobuf struct
//! and enum conversions.
//!
//! Given a descriptor of a field or enum variant (its names, container
//! shape and conversion directives) and a conversion direction, the
//! synthesizers in this crate decide the exact ordered sequence of
//! unwrap / wrap / map / collect operations the generated conversion must
//! perform. The result is an abstract transformation plan; rendering a
//! plan into target-language syntax is left to an unverified backend.

pub mod attributes;
pub mod enum_codegen;
pub mod laws;
pub mod plan;
pub mod shape;
pub mod struct_codegen;

pub use attributes::Direction;
