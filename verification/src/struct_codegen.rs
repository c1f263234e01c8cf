//! Field transform synthesis: the decision engine that turns one field
//! descriptor plus a direction into the ordered transformation plan for
//! that field.
//!
//! The decision table is written once, as the spec function
//! [`spec_field_plan`]; the executable synthesizer is proved to return
//! exactly that plan for every descriptor and direction.

use vstd::prelude::*;

use crate::attributes::{
    Direction, FromProstFieldInfo, IntoProstFieldInfo, ProstFieldInfo, Skip, spec_proto_name,
};
use crate::plan::{FieldPlan, FieldPlanV, MapperRef, MapperRefV, PlanStep};
use crate::shape::{ContainerShape, spec_shape};

verus! {

/// The element transformation a given direction's directives select: the
/// direction's custom mapper when one is set, the generic conversion
/// otherwise.
pub open spec fn spec_mapper(d: Direction<FromProstFieldInfo, IntoProstFieldInfo>) -> MapperRefV {
    match d {
        Direction::FromProst(info) => match info.map {
            Some(p) => MapperRefV::Custom { path: p@, by_ref: info.map_by_ref },
            None => MapperRefV::Generic,
        },
        Direction::IntoProst(info) => match info.map {
            Some(p) => MapperRefV::Custom { path: p@, by_ref: info.map_by_ref },
            None => MapperRefV::Generic,
        },
    }
}

/// The mapping step the shape's base rule applies per element.
pub open spec fn spec_map_step(custom: bool) -> PlanStep {
    if custom {
        PlanStep::MapCustom
    } else {
        PlanStep::MapGeneric
    }
}

/// The base transform of each shape, before any required-driven
/// adjustment. A Scalar applies the custom mapper (if any) and then the
/// generic conversion; a container applies the custom mapper in place of
/// the generic conversion, element-wise, and a Sequence or Associative
/// container then collects into the destination container.
pub open spec fn spec_base_steps(shape: ContainerShape, custom: bool) -> Seq<PlanStep> {
    match shape {
        ContainerShape::Scalar => if custom {
            seq![PlanStep::MapCustom, PlanStep::MapGeneric]
        } else {
            seq![PlanStep::MapGeneric]
        },
        ContainerShape::Optional => seq![spec_map_step(custom)],
        ContainerShape::Sequence => seq![spec_map_step(custom), PlanStep::Collect],
        ContainerShape::Associative(_) => seq![spec_map_step(custom), PlanStep::Collect],
    }
}

/// The full decision table: the plan synthesized for one field in one
/// direction.
///
/// In priority order: a skipped field is omitted on the way out and
/// default-initialized on the way in; an `always_none` Optional field
/// coming in receives the empty-Optional constant; otherwise the shape's
/// base steps run, adjusted for a `required` optionality mismatch — an
/// Optional field going out force-unwraps after its element map, an
/// Optional field coming in is wrapped present before its element map,
/// and a non-Optional field coming in force-unwraps before anything else.
pub open spec fn spec_field_plan(
    f: ProstFieldInfo,
    d: Direction<FromProstFieldInfo, IntoProstFieldInfo>,
) -> FieldPlanV {
    let dest = if d is IntoProst {
        spec_proto_name(f)
    } else {
        f.ident@
    };
    let source = if d is IntoProst {
        f.ident@
    } else {
        spec_proto_name(f)
    };
    if f.skip {
        if d is IntoProst {
            FieldPlanV::Omit
        } else {
            FieldPlanV::AssignDefault { dest }
        }
    } else {
        let shape = spec_shape(f.ty@);
        let mapper = spec_mapper(d);
        if shape is Optional && d is FromProst && d->FromProst_0.always_none {
            FieldPlanV::EmitAbsent { dest }
        } else {
            let base = spec_base_steps(shape, mapper is Custom);
            let steps = if shape is Optional {
                if f.required && d is IntoProst {
                    base.push(PlanStep::ForceUnwrap)
                } else if f.required && d is FromProst {
                    seq![PlanStep::WrapPresent] + base
                } else {
                    base
                }
            } else {
                if f.required && d is FromProst {
                    seq![PlanStep::ForceUnwrap] + base
                } else {
                    base
                }
            };
            FieldPlanV::Convert { source, dest, shape, mapper, steps }
        }
    }
}

/// The mapper selected by `direction`'s directives.
fn custom_mapper(direction: &Direction<FromProstFieldInfo, IntoProstFieldInfo>) -> (r: MapperRef)
    ensures
        r@ == spec_mapper(*direction),
{
    match direction {
        Direction::FromProst(info) => match &info.map {
            Some(p) => MapperRef::Custom { path: p.clone(), by_ref: info.map_by_ref },
            None => MapperRef::Generic,
        },
        Direction::IntoProst(info) => match &info.map {
            Some(p) => MapperRef::Custom { path: p.clone(), by_ref: info.map_by_ref },
            None => MapperRef::Generic,
        },
    }
}

impl ProstFieldInfo {
    /// Synthesize the transformation plan for this field in the given
    /// direction. Total: every well-formed descriptor yields exactly the
    /// plan [`spec_field_plan`] assigns it.
    pub fn synthesize(
        self,
        direction: Direction<FromProstFieldInfo, IntoProstFieldInfo>,
    ) -> (r: FieldPlan)
        ensures
            r@ == spec_field_plan(self, direction),
    {
        let proto_name: String = match &self.name {
            Some(n) => n.clone(),
            None => self.ident.clone(),
        };
        let is_into = direction.is_into();
        let dest: String = if is_into {
            proto_name.clone()
        } else {
            self.ident.clone()
        };
        let source: String = if is_into {
            self.ident.clone()
        } else {
            proto_name
        };

        if self.is_skipped() {
            if is_into {
                return FieldPlan::Omit;
            }
            return FieldPlan::AssignDefault { dest };
        }

        let shape = self.ty.shape();
        let mapper = custom_mapper(&direction);
        let custom = mapper.is_custom();
        let map_step = if custom {
            PlanStep::MapCustom
        } else {
            PlanStep::MapGeneric
        };

        let mut steps: Vec<PlanStep> = Vec::new();
        match shape {
            ContainerShape::Optional => {
                if let Direction::FromProst(info) = &direction {
                    if info.always_none {
                        return FieldPlan::EmitAbsent { dest };
                    }
                }
                if self.required && !is_into {
                    steps.push(PlanStep::WrapPresent);
                }
                steps.push(map_step);
                if self.required && is_into {
                    steps.push(PlanStep::ForceUnwrap);
                }
            },
            ContainerShape::Scalar => {
                if self.required && !is_into {
                    steps.push(PlanStep::ForceUnwrap);
                }
                if custom {
                    steps.push(PlanStep::MapCustom);
                }
                steps.push(PlanStep::MapGeneric);
            },
            _ => {
                if self.required && !is_into {
                    steps.push(PlanStep::ForceUnwrap);
                }
                steps.push(map_step);
                steps.push(PlanStep::Collect);
            },
        }
        proof {
            assert(steps@ =~= (spec_field_plan(self, direction)->Convert_steps));
        }
        FieldPlan::Convert { source, dest, shape, mapper, steps }
    }
}

} // verus!
