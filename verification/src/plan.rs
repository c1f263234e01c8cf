//! Transformation plans: the synthesizers' output.
//!
//! A plan is an abstract, ordered description of the operations the
//! generated conversion performs for one field or one enum variant. The
//! unverified rendering backend turns a plan into target-language syntax;
//! nothing in the plan is syntax itself.

use vstd::prelude::*;

use crate::shape::ContainerShape;

verus! {

/// One step of a field conversion pipeline. Steps are applied to the
/// source value in list order. `MapCustom` and `MapGeneric` are applied
/// element-wise for container shapes (over the Optional's inner value,
/// over each Sequence element, over each Associative value — Associative
/// keys always get the generic conversion) and directly for Scalars.
#[derive(Debug, Clone, Copy, PartialEq, Eq, Structural)]
pub enum PlanStep {
    /// Force-unwrap the value; the generated conversion aborts on absence.
    ForceUnwrap,
    /// Wrap the value into a present Optional before any mapping.
    WrapPresent,
    /// Apply the plan's custom mapper.
    MapCustom,
    /// Apply the generic element conversion to the destination type.
    MapGeneric,
    /// Collect mapped elements into the destination container; which
    /// container is given by the plan's shape tag.
    Collect,
}

/// The element transformation a plan's mapping steps refer to: either the
/// generic destination-type conversion, or a user-supplied mapper function
/// named by `path`, receiving the element by reference when `by_ref` is
/// set.
#[derive(Debug, Clone, PartialEq, Eq)]
pub enum MapperRef {
    Generic,
    Custom { path: String, by_ref: bool },
}

/// Spec-level mirror of [`MapperRef`].
pub ghost enum MapperRefV {
    Generic,
    Custom { path: Seq<char>, by_ref: bool },
}

impl View for MapperRef {
    type V = MapperRefV;

    open spec fn view(&self) -> MapperRefV {
        match self {
            MapperRef::Generic => MapperRefV::Generic,
            MapperRef::Custom { path, by_ref } => MapperRefV::Custom {
                path: path@,
                by_ref: *by_ref,
            },
        }
    }
}

impl MapperRef {
    /// Whether this is a user-supplied mapper rather than the generic
    /// conversion.
    pub fn is_custom(&self) -> (r: bool)
        ensures
            r == (self@ is Custom),
    {
        matches!(self, MapperRef::Custom { .. })
    }
}

/// The plan synthesized for one struct field in one direction.
#[derive(Debug, Clone, PartialEq, Eq)]
pub enum FieldPlan {
    /// Produce nothing for this field in this direction.
    Omit,
    /// Assign the destination field its type's default value.
    AssignDefault { dest: String },
    /// Assign the destination field the empty-Optional constant,
    /// ignoring the source value entirely.
    EmitAbsent { dest: String },
    /// Read the source field, run the steps in order, write the result to
    /// the destination field.
    Convert {
        source: String,
        dest: String,
        shape: ContainerShape,
        mapper: MapperRef,
        steps: Vec<PlanStep>,
    },
}

/// Spec-level mirror of [`FieldPlan`].
pub ghost enum FieldPlanV {
    Omit,
    AssignDefault { dest: Seq<char> },
    EmitAbsent { dest: Seq<char> },
    Convert {
        source: Seq<char>,
        dest: Seq<char>,
        shape: ContainerShape,
        mapper: MapperRefV,
        steps: Seq<PlanStep>,
    },
}

impl View for FieldPlan {
    type V = FieldPlanV;

    open spec fn view(&self) -> FieldPlanV {
        match self {
            FieldPlan::Omit => FieldPlanV::Omit,
            FieldPlan::AssignDefault { dest } => FieldPlanV::AssignDefault { dest: dest@ },
            FieldPlan::EmitAbsent { dest } => FieldPlanV::EmitAbsent { dest: dest@ },
            FieldPlan::Convert { source, dest, shape, mapper, steps } => FieldPlanV::Convert {
                source: source@,
                dest: dest@,
                shape: *shape,
                mapper: mapper@,
                steps: steps@,
            },
        }
    }
}

/// The plan synthesized for one enum variant in one direction.
#[derive(Debug, Clone, PartialEq, Eq)]
pub enum VariantPlan {
    /// Leave this arm out of the generated match entirely.
    Omit,
    /// Map the source arm to the destination arm; neither carries a
    /// payload.
    UnitArm { source: String, dest: String },
    /// Map the source arm to the destination arm, applying the generic
    /// conversion to the single positional payload value.
    PayloadArm { source: String, dest: String },
}

/// Spec-level mirror of [`VariantPlan`].
pub ghost enum VariantPlanV {
    Omit,
    UnitArm { source: Seq<char>, dest: Seq<char> },
    PayloadArm { source: Seq<char>, dest: Seq<char> },
}

impl View for VariantPlan {
    type V = VariantPlanV;

    open spec fn view(&self) -> VariantPlanV {
        match self {
            VariantPlan::Omit => VariantPlanV::Omit,
            VariantPlan::UnitArm { source, dest } => VariantPlanV::UnitArm {
                source: source@,
                dest: dest@,
            },
            VariantPlan::PayloadArm { source, dest } => VariantPlanV::PayloadArm {
                source: source@,
                dest: dest@,
            },
        }
    }
}

/// The one error this engine can produce: an enum variant whose payload is
/// a set of named fields, which the positional-mapping model cannot
/// represent. Carries the offending variant's name for diagnostics.
#[derive(Debug, Clone, PartialEq, Eq)]
pub struct UnsupportedShape {
    pub variant: String,
}

} // verus!
