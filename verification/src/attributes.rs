//! Descriptor model: the already-parsed metadata attached to struct fields
//! and enum variants, plus the conversion `Direction` tag.
//!
//! Descriptors are immutable inputs to the plan synthesizers; every
//! synthesis call is a pure function of one descriptor and one direction.

use vstd::prelude::*;

use crate::shape::DeclaredType;

verus! {

/// Which conversion pass is being synthesized. The payload carries the
/// direction-scoped auxiliary directives: only the directives relevant to
/// that direction can be represented at all.
#[derive(Debug, Clone)]
pub enum Direction<F, I> {
    FromProst(F),
    IntoProst(I),
}

impl<F, I> Direction<F, I> {
    pub open spec fn spec_is_into(&self) -> bool {
        self is IntoProst
    }

    pub open spec fn spec_is_from(&self) -> bool {
        self is FromProst
    }

    pub fn is_into(&self) -> (r: bool)
        ensures
            r == self.spec_is_into(),
    {
        matches!(self, Direction::IntoProst(_))
    }

    pub fn is_from(&self) -> (r: bool)
        ensures
            r == self.spec_is_from(),
    {
        matches!(self, Direction::FromProst(_))
    }
}

/// Directives shared by both directions, attached to one struct field.
#[derive(Debug, Clone)]
pub struct ProstFieldInfo {
    /// The field's identifier in the DTO type.
    pub ident: String,
    /// The field's declared DTO-side type, used only to derive its
    /// container shape.
    pub ty: DeclaredType,
    /// Exclude the field from the generated logic (omit on the way out,
    /// default-initialize on the way in).
    pub skip: bool,
    /// The field's identifier in the protobuf type, when it differs from
    /// `ident`.
    pub name: Option<String>,
    /// Declares that the protobuf side's optionality disagrees with what
    /// the DTO-side shape implies.
    pub required: bool,
}

/// The name the field carries on the protobuf side: the rename if one was
/// given, the DTO-side identifier otherwise.
pub open spec fn spec_proto_name(f: ProstFieldInfo) -> Seq<char> {
    match f.name {
        Some(n) => n@,
        None => f.ident@,
    }
}

impl ProstFieldInfo {
    /// The field's identifier in the DTO type.
    pub fn ident(&self) -> (r: &String)
        ensures
            r@ == self.ident@,
    {
        &self.ident
    }
}

/// Directives that apply only to the protobuf-to-DTO direction of one
/// struct field.
#[derive(Debug, Clone)]
pub struct FromProstFieldInfo {
    /// Always assign the empty Optional in this direction, ignoring the
    /// source value; effectively makes the field read-only.
    pub always_none: bool,
    /// Custom mapper function to apply in place of the generic element
    /// conversion.
    pub map: Option<String>,
    /// Hand the custom mapper a reference rather than the value.
    pub map_by_ref: bool,
}

/// Directives that apply only to the DTO-to-protobuf direction of one
/// struct field.
#[derive(Debug, Clone)]
pub struct IntoProstFieldInfo {
    /// Custom mapper function to apply in place of the generic element
    /// conversion.
    pub map: Option<String>,
    /// Hand the custom mapper a reference rather than the value.
    pub map_by_ref: bool,
}

/// The payload shape of one enum variant, fixed per variant and identical
/// in both directions.
#[derive(Debug, Clone, Copy, PartialEq, Eq, Structural)]
pub enum VariantStyle {
    /// No payload.
    Unit,
    /// Exactly one positional payload value.
    Tuple,
    /// Named payload fields; recognized but rejected by synthesis.
    Struct,
}

/// Directives shared by both directions, attached to one enum variant.
#[derive(Debug, Clone)]
pub struct ProstVariantInfo {
    /// The variant's identifier in the DTO enum.
    pub ident: String,
    /// The variant's payload shape.
    pub style: VariantStyle,
    /// The variant's identifier in the protobuf enum, when it differs
    /// from `ident`.
    pub name: Option<String>,
    /// Leave the variant out of the generated match logic.
    pub skip: bool,
}

/// The name the variant carries on the protobuf side: the rename if one
/// was given, the DTO-side identifier otherwise.
pub open spec fn spec_variant_proto_name(v: ProstVariantInfo) -> Seq<char> {
    match v.name {
        Some(n) => n@,
        None => v.ident@,
    }
}

/// Variant-level directives scoped to the protobuf-to-DTO direction.
/// Holds nothing yet; it exists so that the two directions stay distinct
/// types.
#[derive(Debug, Clone)]
pub struct FromProstVariantInfo {
}

/// Variant-level directives scoped to the DTO-to-protobuf direction.
/// Holds nothing yet; it exists so that the two directions stay distinct
/// types.
#[derive(Debug, Clone)]
pub struct IntoProstVariantInfo {
}

/// Anything a directive can exclude from the generated logic.
pub trait Skip {
    spec fn spec_skipped(&self) -> bool;

    fn is_skipped(&self) -> (r: bool)
        ensures
            r == self.spec_skipped(),
    ;
}

impl Skip for ProstFieldInfo {
    open spec fn spec_skipped(&self) -> bool {
        self.skip
    }

    fn is_skipped(&self) -> (r: bool) {
        self.skip
    }
}

impl Skip for ProstVariantInfo {
    open spec fn spec_skipped(&self) -> bool {
        self.skip
    }

    fn is_skipped(&self) -> (r: bool) {
        self.skip
    }
}

} // verus!
