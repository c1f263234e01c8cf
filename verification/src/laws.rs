//! Laws of the synthesizers: the guarantees that hold across every
//! descriptor and direction, stated over the spec-level decision tables
//! and proved once and for all.

use vstd::prelude::*;

use crate::attributes::{
    Direction, FromProstFieldInfo, FromProstVariantInfo, IntoProstFieldInfo, IntoProstVariantInfo,
    ProstFieldInfo, ProstVariantInfo, spec_proto_name, spec_variant_proto_name,
};
use crate::plan::{FieldPlanV, PlanStep, VariantPlanV};
use crate::shape::spec_shape;
use crate::struct_codegen::{spec_base_steps, spec_field_plan, spec_map_step, spec_mapper};
use crate::enum_codegen::spec_variant_plan;

verus! {

/// A plain Scalar field — not required, not skipped, no custom mapper in
/// either direction — synthesizes the same plan both ways: the identity
/// element treatment followed by the generic conversion. The two plans
/// differ only in which of the two field names is the source and which
/// the destination.
pub proof fn lemma_scalar_plain_symmetric(
    f: ProstFieldInfo,
    from: FromProstFieldInfo,
    into: IntoProstFieldInfo,
)
    requires
        spec_shape(f.ty@) is Scalar,
        !f.required,
        !f.skip,
        from.map is None,
        into.map is None,
    ensures
        ({
            let pi = spec_field_plan(f, Direction::IntoProst(into));
            let pf = spec_field_plan(f, Direction::FromProst(from));
            &&& pi is Convert
            &&& pf is Convert
            &&& pi->Convert_shape == pf->Convert_shape
            &&& pi->Convert_mapper == pf->Convert_mapper
            &&& pi->Convert_mapper is Generic
            &&& pi->Convert_steps == pf->Convert_steps
            &&& pi->Convert_steps =~= seq![PlanStep::MapGeneric]
            &&& pi->Convert_source == f.ident@
            &&& pi->Convert_dest == spec_proto_name(f)
            &&& pf->Convert_source == spec_proto_name(f)
            &&& pf->Convert_dest == f.ident@
        }),
{
}

/// An Optional field that is not required keeps its Optional wrapper in
/// both directions: the plan is a single element-wise map — absence maps
/// to absence — and never force-unwraps or wraps.
pub proof fn lemma_optional_not_required_maps(
    f: ProstFieldInfo,
    from: FromProstFieldInfo,
    into: IntoProstFieldInfo,
)
    requires
        spec_shape(f.ty@) is Optional,
        !f.required,
        !f.skip,
        !from.always_none,
    ensures
        ({
            let pi = spec_field_plan(f, Direction::IntoProst(into));
            let pf = spec_field_plan(f, Direction::FromProst(from));
            &&& pi is Convert
            &&& pf is Convert
            &&& pi->Convert_steps =~= seq![
                spec_map_step(spec_mapper(Direction::IntoProst(into)) is Custom),
            ]
            &&& pf->Convert_steps =~= seq![
                spec_map_step(spec_mapper(Direction::FromProst(from)) is Custom),
            ]
            &&& !pi->Convert_steps.contains(PlanStep::ForceUnwrap)
            &&& !pf->Convert_steps.contains(PlanStep::ForceUnwrap)
            &&& !pi->Convert_steps.contains(PlanStep::WrapPresent)
            &&& !pf->Convert_steps.contains(PlanStep::WrapPresent)
        }),
{
}

/// `skip` wins over everything else: whatever the field's shape, mapper
/// or required directive, the field is omitted on the way out and
/// default-assigned on the way in.
pub proof fn lemma_skip_overrides_all(
    f: ProstFieldInfo,
    from: FromProstFieldInfo,
    into: IntoProstFieldInfo,
)
    requires
        f.skip,
    ensures
        spec_field_plan(f, Direction::IntoProst(into)) is Omit,
        spec_field_plan(f, Direction::FromProst(from)) == (FieldPlanV::AssignDefault {
            dest: f.ident@,
        }),
{
}

/// A required non-Optional field force-unwraps first — and only — on the
/// way in: the inbound plan begins with a force-unwrap, while the
/// outbound plan carries no extra unwrap or wrap step at all.
pub proof fn lemma_required_non_optional(
    f: ProstFieldInfo,
    from: FromProstFieldInfo,
    into: IntoProstFieldInfo,
)
    requires
        !(spec_shape(f.ty@) is Optional),
        f.required,
        !f.skip,
    ensures
        ({
            let pi = spec_field_plan(f, Direction::IntoProst(into));
            let pf = spec_field_plan(f, Direction::FromProst(from));
            &&& pf is Convert
            &&& pf->Convert_steps.len() > 0
            &&& pf->Convert_steps[0] == PlanStep::ForceUnwrap
            &&& pi is Convert
            &&& !pi->Convert_steps.contains(PlanStep::ForceUnwrap)
            &&& !pi->Convert_steps.contains(PlanStep::WrapPresent)
        }),
{
}

/// A required Optional field is treated asymmetrically: the outbound plan
/// ends with a force-unwrap after its element map, the inbound plan
/// begins with a wrap-into-present before its element map. The two are
/// not mirror images of each other.
pub proof fn lemma_required_optional_asymmetric(
    f: ProstFieldInfo,
    from: FromProstFieldInfo,
    into: IntoProstFieldInfo,
)
    requires
        spec_shape(f.ty@) is Optional,
        f.required,
        !f.skip,
        !from.always_none,
    ensures
        ({
            let pi = spec_field_plan(f, Direction::IntoProst(into));
            let pf = spec_field_plan(f, Direction::FromProst(from));
            &&& pi is Convert
            &&& pi->Convert_steps =~= seq![
                spec_map_step(spec_mapper(Direction::IntoProst(into)) is Custom),
                PlanStep::ForceUnwrap,
            ]
            &&& pf is Convert
            &&& pf->Convert_steps =~= seq![
                PlanStep::WrapPresent,
                spec_map_step(spec_mapper(Direction::FromProst(from)) is Custom),
            ]
        }),
{
}

/// `always_none` on an Optional field overrides `required`, and only for
/// the inbound direction: whatever `required` says, the inbound plan is
/// the empty-Optional constant.
pub proof fn lemma_always_none_overrides_required(f: ProstFieldInfo, from: FromProstFieldInfo)
    requires
        spec_shape(f.ty@) is Optional,
        !f.skip,
        from.always_none,
    ensures
        spec_field_plan(f, Direction::FromProst(from)) == (FieldPlanV::EmitAbsent {
            dest: f.ident@,
        }),
{
}

/// Destination selection: a plan coming in always writes the DTO-side
/// field, a plan going out always writes the protobuf-side field, and the
/// source is always the other one of the two names.
pub proof fn lemma_destination_field(
    f: ProstFieldInfo,
    d: Direction<FromProstFieldInfo, IntoProstFieldInfo>,
)
    ensures
        ({
            let p = spec_field_plan(f, d);
            &&& p is AssignDefault ==> p->AssignDefault_dest == f.ident@
            &&& p is EmitAbsent ==> p->EmitAbsent_dest == f.ident@
            &&& p is Convert && d is IntoProst ==> p->Convert_dest == spec_proto_name(f)
                && p->Convert_source == f.ident@
            &&& p is Convert && d is FromProst ==> p->Convert_dest == f.ident@
                && p->Convert_source == spec_proto_name(f)
        }),
{
}

/// Exactly one plan form comes out of every descriptor and direction, and
/// its pieces fit together: the skip directives alone decide omission and
/// default-assignment; the empty-Optional constant appears exactly for an
/// inbound `always_none` Optional; and in a conversion plan the custom
/// mapping step appears exactly when a custom mapper is carried, only an
/// Optional coming in is wrapped present, and exactly the Sequence and
/// Associative shapes end by collecting.
pub proof fn lemma_field_plan_well_formed(
    f: ProstFieldInfo,
    d: Direction<FromProstFieldInfo, IntoProstFieldInfo>,
)
    ensures
        ({
            let p = spec_field_plan(f, d);
            &&& p is Omit <==> f.skip && d is IntoProst
            &&& p is AssignDefault <==> f.skip && d is FromProst
            &&& p is EmitAbsent <==> !f.skip && spec_shape(f.ty@) is Optional && d is FromProst
                && d->FromProst_0.always_none
            &&& p is Convert ==> {
                let shape = p->Convert_shape;
                let mapper = p->Convert_mapper;
                let steps = p->Convert_steps;
                &&& shape == spec_shape(f.ty@)
                &&& mapper == spec_mapper(d)
                &&& (steps.contains(PlanStep::MapCustom) <==> mapper is Custom)
                &&& (shape is Scalar || shape is Optional) ==> !steps.contains(PlanStep::Collect)
                &&& (shape is Sequence || shape is Associative) ==> steps.len() > 0
                    && steps.last() == PlanStep::Collect
                &&& steps.contains(PlanStep::WrapPresent) ==> shape is Optional && f.required
                    && d is FromProst
            }
        }),
{
    let p = spec_field_plan(f, d);
    if p is Convert {
        let shape = spec_shape(f.ty@);
        let mapper = spec_mapper(d);
        let base = spec_base_steps(shape, mapper is Custom);
        let steps = p->Convert_steps;
        assert(base.len() <= 2);
        if mapper is Custom {
            assert(base[0] == PlanStep::MapCustom);
        }
        if steps.contains(PlanStep::MapCustom) {
            let i = choose|i: int| 0 <= i < steps.len() && steps[i] == PlanStep::MapCustom;
            assert(mapper is Custom);
        }
        if mapper is Custom {
            if shape is Optional {
                if f.required && d is FromProst {
                    assert(steps[1] == PlanStep::MapCustom);
                } else {
                    assert(steps[0] == PlanStep::MapCustom);
                }
            } else {
                if f.required && d is FromProst {
                    assert(steps[1] == PlanStep::MapCustom);
                } else {
                    assert(steps[0] == PlanStep::MapCustom);
                }
            }
            assert(steps.contains(PlanStep::MapCustom));
        }
        if steps.contains(PlanStep::Collect) {
            let i = choose|i: int| 0 <= i < steps.len() && steps[i] == PlanStep::Collect;
            assert(shape is Sequence || shape is Associative);
        }
        if steps.contains(PlanStep::WrapPresent) {
            let i = choose|i: int| 0 <= i < steps.len() && steps[i] == PlanStep::WrapPresent;
            assert(shape is Optional && f.required && d is FromProst);
        }
    }
}

/// A unit variant maps arm to arm, with the rename deciding which side
/// carries which name: outbound the DTO name is the source and the
/// protobuf name the destination, inbound the other way around. Without a
/// rename the two names coincide.
pub proof fn lemma_unit_variant_rename(
    v: ProstVariantInfo,
    from: FromProstVariantInfo,
    into: IntoProstVariantInfo,
)
    requires
        v.style is Unit,
        !v.skip,
    ensures
        spec_variant_plan(v, Direction::IntoProst(into)) == Ok::<VariantPlanV, Seq<char>>(
            VariantPlanV::UnitArm { source: v.ident@, dest: spec_variant_proto_name(v) },
        ),
        spec_variant_plan(v, Direction::FromProst(from)) == Ok::<VariantPlanV, Seq<char>>(
            VariantPlanV::UnitArm { source: spec_variant_proto_name(v), dest: v.ident@ },
        ),
        v.name is None ==> spec_variant_proto_name(v) == v.ident@,
{
}

/// A named-fields payload is rejected in every direction, whether or not
/// the variant is skipped, and the error names the variant.
pub proof fn lemma_struct_payload_unsupported(
    v: ProstVariantInfo,
    d: Direction<FromProstVariantInfo, IntoProstVariantInfo>,
)
    requires
        v.style is Struct,
    ensures
        spec_variant_plan(v, d) == Err::<VariantPlanV, Seq<char>>(v.ident@),
{
}

} // verus!
