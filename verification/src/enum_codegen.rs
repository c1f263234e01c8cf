//! Variant transform synthesis: the decision engine for sum-type arms.
//!
//! The shape space is smaller than for fields — a variant is Unit,
//! carries one positional payload, or carries named fields — and named
//! fields are rejected outright, in both directions and independent of
//! any other directive.

use vstd::prelude::*;

use crate::attributes::{
    Direction, FromProstVariantInfo, IntoProstVariantInfo, ProstVariantInfo, Skip, VariantStyle,
    spec_variant_proto_name,
};
use crate::plan::{UnsupportedShape, VariantPlan, VariantPlanV};

verus! {

/// The full decision table for one variant in one direction.
///
/// Shape validity is checked first, unconditionally: a named-fields
/// payload is an error whatever the other directives say. A skipped
/// variant's arm is then omitted entirely. Otherwise the arm maps the
/// DTO-side name to the protobuf-side name — the direction only decides
/// which of the two is the source — and a positional payload receives the
/// generic conversion.
pub open spec fn spec_variant_plan(
    v: ProstVariantInfo,
    d: Direction<FromProstVariantInfo, IntoProstVariantInfo>,
) -> Result<VariantPlanV, Seq<char>> {
    if v.style is Struct {
        Err(v.ident@)
    } else if v.skip {
        Ok(VariantPlanV::Omit)
    } else {
        let source = if d is IntoProst {
            v.ident@
        } else {
            spec_variant_proto_name(v)
        };
        let dest = if d is IntoProst {
            spec_variant_proto_name(v)
        } else {
            v.ident@
        };
        if v.style is Unit {
            Ok(VariantPlanV::UnitArm { source, dest })
        } else {
            Ok(VariantPlanV::PayloadArm { source, dest })
        }
    }
}

impl ProstVariantInfo {
    /// Synthesize the match-arm plan for this variant in the given
    /// direction. Fails exactly on named-fields payload shapes, returning
    /// the offending variant's name.
    pub fn synthesize(
        self,
        direction: Direction<FromProstVariantInfo, IntoProstVariantInfo>,
    ) -> (r: Result<VariantPlan, UnsupportedShape>)
        ensures
            match spec_variant_plan(self, direction) {
                Ok(p) => r is Ok && r->Ok_0@ == p,
                Err(name) => r is Err && r->Err_0.variant@ == name,
            },
    {
        if matches!(self.style, VariantStyle::Struct) {
            return Err(UnsupportedShape { variant: self.ident });
        }
        if self.is_skipped() {
            return Ok(VariantPlan::Omit);
        }
        let proto_name: String = match &self.name {
            Some(n) => n.clone(),
            None => self.ident.clone(),
        };
        let is_into = direction.is_into();
        let source: String = if is_into {
            self.ident.clone()
        } else {
            proto_name.clone()
        };
        let dest: String = if is_into {
            proto_name
        } else {
            self.ident.clone()
        };
        if matches!(self.style, VariantStyle::Unit) {
            Ok(VariantPlan::UnitArm { source, dest })
        } else {
            Ok(VariantPlan::PayloadArm { source, dest })
        }
    }
}

} // verus!
