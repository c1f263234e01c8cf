//! Field plan synthesis, case by case: bare (scalar) fields, Optionals,
//! sequences and maps, with and without custom mappers, renames and the
//! skip / required / always-none directives.

use prost_dto::attributes::{Direction, FromProstFieldInfo, IntoProstFieldInfo, ProstFieldInfo};
use prost_dto::plan::{FieldPlan, MapperRef, PlanStep};
use prost_dto::shape::{ContainerShape, DeclaredType, Flavor};

fn ty(head: &str, type_args: u64) -> DeclaredType {
    DeclaredType {
        segments: vec![head.to_string()],
        type_args,
    }
}

fn field(ident: &str, t: DeclaredType) -> ProstFieldInfo {
    ProstFieldInfo {
        ident: ident.to_string(),
        ty: t,
        skip: false,
        name: None,
        required: false,
    }
}

fn plain_from() -> Direction<FromProstFieldInfo, IntoProstFieldInfo> {
    Direction::FromProst(FromProstFieldInfo {
        always_none: false,
        map: None,
        map_by_ref: false,
    })
}

fn plain_into() -> Direction<FromProstFieldInfo, IntoProstFieldInfo> {
    Direction::IntoProst(IntoProstFieldInfo {
        map: None,
        map_by_ref: false,
    })
}

fn mapped_from(path: &str, by_ref: bool) -> Direction<FromProstFieldInfo, IntoProstFieldInfo> {
    Direction::FromProst(FromProstFieldInfo {
        always_none: false,
        map: Some(path.to_string()),
        map_by_ref: by_ref,
    })
}

fn mapped_into(path: &str, by_ref: bool) -> Direction<FromProstFieldInfo, IntoProstFieldInfo> {
    Direction::IntoProst(IntoProstFieldInfo {
        map: Some(path.to_string()),
        map_by_ref: by_ref,
    })
}

fn convert(
    source: &str,
    dest: &str,
    shape: ContainerShape,
    mapper: MapperRef,
    steps: Vec<PlanStep>,
) -> FieldPlan {
    FieldPlan::Convert {
        source: source.to_string(),
        dest: dest.to_string(),
        shape,
        mapper,
        steps,
    }
}

fn custom(path: &str, by_ref: bool) -> MapperRef {
    MapperRef::Custom {
        path: path.to_string(),
        by_ref,
    }
}

#[test]
fn struct_codegen_gen_tokens_skipped() {
    let mut f = field("foo", ty("u32", 0));
    f.skip = true;

    // Omitted entirely on the way out.
    assert_eq!(f.clone().synthesize(plain_into()), FieldPlan::Omit);

    // Default-initialized on the way in.
    assert_eq!(
        f.synthesize(plain_from()),
        FieldPlan::AssignDefault {
            dest: "foo".to_string()
        }
    );
}

#[test]
fn gen_tokens_bare() {
    // No mapping, no wrapping.
    {
        let f = field("foo", ty("u32", 0));
        let expected = convert(
            "foo",
            "foo",
            ContainerShape::Scalar,
            MapperRef::Generic,
            vec![PlanStep::MapGeneric],
        );
        assert_eq!(f.clone().synthesize(plain_into()), expected);
        assert_eq!(f.synthesize(plain_from()), expected);
    }

    // required bare type: coming in, the protobuf value is wrapped in an
    // Optional that the DTO shape lacks, so the plan force-unwraps first;
    // going out no extra step is planned (the generic conversion is
    // expected to produce the Optional-wrapped protobuf value).
    {
        let mut f = field("foo", ty("u32", 0));
        f.required = true;
        assert_eq!(
            f.clone().synthesize(plain_into()),
            convert(
                "foo",
                "foo",
                ContainerShape::Scalar,
                MapperRef::Generic,
                vec![PlanStep::MapGeneric],
            )
        );
        assert_eq!(
            f.synthesize(plain_from()),
            convert(
                "foo",
                "foo",
                ContainerShape::Scalar,
                MapperRef::Generic,
                vec![PlanStep::ForceUnwrap, PlanStep::MapGeneric],
            )
        );
    }

    // Custom mapper scoped to the inbound direction only.
    {
        let f = field("foo", ty("String", 0));
        let d = mapped_from("String::from", false);
        // no effect on the outbound plan
        assert_eq!(
            f.clone().synthesize(plain_into()),
            convert(
                "foo",
                "foo",
                ContainerShape::Scalar,
                MapperRef::Generic,
                vec![PlanStep::MapGeneric],
            )
        );
        // mapped, by value, then generically converted
        assert_eq!(
            f.clone().synthesize(d),
            convert(
                "foo",
                "foo",
                ContainerShape::Scalar,
                custom("String::from", false),
                vec![PlanStep::MapCustom, PlanStep::MapGeneric],
            )
        );
        // by reference
        assert_eq!(
            f.synthesize(mapped_from("String::from", true)),
            convert(
                "foo",
                "foo",
                ContainerShape::Scalar,
                custom("String::from", true),
                vec![PlanStep::MapCustom, PlanStep::MapGeneric],
            )
        );
    }

    // Custom mapper scoped to the outbound direction only.
    {
        let f = field("foo", ty("u32", 0));
        // no effect on the inbound plan
        assert_eq!(
            f.clone().synthesize(plain_from()),
            convert(
                "foo",
                "foo",
                ContainerShape::Scalar,
                MapperRef::Generic,
                vec![PlanStep::MapGeneric],
            )
        );
        assert_eq!(
            f.clone().synthesize(mapped_into("String::from", false)),
            convert(
                "foo",
                "foo",
                ContainerShape::Scalar,
                custom("String::from", false),
                vec![PlanStep::MapCustom, PlanStep::MapGeneric],
            )
        );
        // by reference
        assert_eq!(
            f.synthesize(mapped_into("String::from", true)),
            convert(
                "foo",
                "foo",
                ContainerShape::Scalar,
                custom("String::from", true),
                vec![PlanStep::MapCustom, PlanStep::MapGeneric],
            )
        );
    }

    // Outbound mapper together with a rename.
    {
        let mut f = field("foo", ty("u32", 0));
        f.name = Some("bar".to_string());
        // inbound: simple rename, the protobuf name is the source
        assert_eq!(
            f.clone().synthesize(plain_from()),
            convert(
                "bar",
                "foo",
                ContainerShape::Scalar,
                MapperRef::Generic,
                vec![PlanStep::MapGeneric],
            )
        );
        // outbound: mapped and renamed
        assert_eq!(
            f.synthesize(mapped_into("String::from", false)),
            convert(
                "foo",
                "bar",
                ContainerShape::Scalar,
                custom("String::from", false),
                vec![PlanStep::MapCustom, PlanStep::MapGeneric],
            )
        );
    }
}

#[test]
fn gen_tokens_option() {
    // No mapping, no wrapping: one element-wise map in each direction.
    {
        let f = field("foo", ty("Option", 1));
        let expected = convert(
            "foo",
            "foo",
            ContainerShape::Optional,
            MapperRef::Generic,
            vec![PlanStep::MapGeneric],
        );
        assert_eq!(f.clone().synthesize(plain_into()), expected);
        assert_eq!(f.synthesize(plain_from()), expected);
    }

    // required Option: outbound maps then force-unwraps, inbound wraps
    // present then maps.
    {
        let mut f = field("foo", ty("Option", 1));
        f.required = true;
        assert_eq!(
            f.clone().synthesize(plain_into()),
            convert(
                "foo",
                "foo",
                ContainerShape::Optional,
                MapperRef::Generic,
                vec![PlanStep::MapGeneric, PlanStep::ForceUnwrap],
            )
        );
        assert_eq!(
            f.synthesize(plain_from()),
            convert(
                "foo",
                "foo",
                ContainerShape::Optional,
                MapperRef::Generic,
                vec![PlanStep::WrapPresent, PlanStep::MapGeneric],
            )
        );
    }

    // always_none Option: outbound unchanged, inbound emits the
    // empty-Optional constant.
    {
        let f = field("foo", ty("Option", 1));
        assert_eq!(
            f.clone().synthesize(plain_into()),
            convert(
                "foo",
                "foo",
                ContainerShape::Optional,
                MapperRef::Generic,
                vec![PlanStep::MapGeneric],
            )
        );
        let d = Direction::FromProst(FromProstFieldInfo {
            always_none: true,
            map: None,
            map_by_ref: false,
        });
        assert_eq!(
            f.synthesize(d),
            FieldPlan::EmitAbsent {
                dest: "foo".to_string()
            }
        );
    }
}

#[test]
fn gen_tokens_mapped_option() {
    // Outbound mapper on an Option.
    {
        let f = field("foo", ty("Option", 1));
        assert_eq!(
            f.clone().synthesize(mapped_into("String::from", false)),
            convert(
                "foo",
                "foo",
                ContainerShape::Optional,
                custom("String::from", false),
                vec![PlanStep::MapCustom],
            )
        );
        assert_eq!(
            f.synthesize(plain_from()),
            convert(
                "foo",
                "foo",
                ContainerShape::Optional,
                MapperRef::Generic,
                vec![PlanStep::MapGeneric],
            )
        );
    }

    // Inbound mapper on an Option.
    {
        let f = field("foo", ty("Option", 1));
        assert_eq!(
            f.clone().synthesize(plain_into()),
            convert(
                "foo",
                "foo",
                ContainerShape::Optional,
                MapperRef::Generic,
                vec![PlanStep::MapGeneric],
            )
        );
        assert_eq!(
            f.clone().synthesize(mapped_from("String::from", false)),
            convert(
                "foo",
                "foo",
                ContainerShape::Optional,
                custom("String::from", false),
                vec![PlanStep::MapCustom],
            )
        );
        // by reference
        assert_eq!(
            f.synthesize(mapped_from("String::from", true)),
            convert(
                "foo",
                "foo",
                ContainerShape::Optional,
                custom("String::from", true),
                vec![PlanStep::MapCustom],
            )
        );
    }

    // required Option mapped by reference in both directions.
    {
        let mut f = field("foo", ty("Option", 1));
        f.required = true;
        assert_eq!(
            f.clone().synthesize(mapped_into("AnotherType::from", true)),
            convert(
                "foo",
                "foo",
                ContainerShape::Optional,
                custom("AnotherType::from", true),
                vec![PlanStep::MapCustom, PlanStep::ForceUnwrap],
            )
        );
        assert_eq!(
            f.synthesize(mapped_from("String::from", true)),
            convert(
                "foo",
                "foo",
                ContainerShape::Optional,
                custom("String::from", true),
                vec![PlanStep::WrapPresent, PlanStep::MapCustom],
            )
        );
    }
}

#[test]
fn gen_tokens_vec() {
    // Vec with no mapping: map each element generically, collect.
    {
        let f = field("foo", ty("Vec", 1));
        let expected = convert(
            "foo",
            "foo",
            ContainerShape::Sequence,
            MapperRef::Generic,
            vec![PlanStep::MapGeneric, PlanStep::Collect],
        );
        assert_eq!(f.clone().synthesize(plain_into()), expected);
        assert_eq!(f.synthesize(plain_from()), expected);
    }

    // required Vec: only the inbound direction force-unwraps, before
    // iterating.
    {
        let mut f = field("foo", ty("Vec", 1));
        f.required = true;
        assert_eq!(
            f.clone().synthesize(plain_into()),
            convert(
                "foo",
                "foo",
                ContainerShape::Sequence,
                MapperRef::Generic,
                vec![PlanStep::MapGeneric, PlanStep::Collect],
            )
        );
        assert_eq!(
            f.synthesize(plain_from()),
            convert(
                "foo",
                "foo",
                ContainerShape::Sequence,
                MapperRef::Generic,
                vec![PlanStep::ForceUnwrap, PlanStep::MapGeneric, PlanStep::Collect],
            )
        );
    }
}

#[test]
fn gen_tokens_mapped_vec() {
    // Vec with a direction-scoped mapper on each side.
    {
        let f = field("foo", ty("Vec", 1));
        assert_eq!(
            f.clone().synthesize(mapped_into("AnotherType::from", false)),
            convert(
                "foo",
                "foo",
                ContainerShape::Sequence,
                custom("AnotherType::from", false),
                vec![PlanStep::MapCustom, PlanStep::Collect],
            )
        );
        assert_eq!(
            f.synthesize(mapped_from("String::from", false)),
            convert(
                "foo",
                "foo",
                ContainerShape::Sequence,
                custom("String::from", false),
                vec![PlanStep::MapCustom, PlanStep::Collect],
            )
        );
    }

    // required Vec, the inbound mapper by reference.
    {
        let mut f = field("foo", ty("Vec", 1));
        f.required = true;
        assert_eq!(
            f.clone().synthesize(mapped_into("AnotherType::from", false)),
            convert(
                "foo",
                "foo",
                ContainerShape::Sequence,
                custom("AnotherType::from", false),
                vec![PlanStep::MapCustom, PlanStep::Collect],
            )
        );
        assert_eq!(
            f.synthesize(mapped_from("String::from", true)),
            convert(
                "foo",
                "foo",
                ContainerShape::Sequence,
                custom("String::from", true),
                vec![PlanStep::ForceUnwrap, PlanStep::MapCustom, PlanStep::Collect],
            )
        );
    }
}

#[test]
fn gen_tokens_maps() {
    // HashMap: values mapped, keys always generic, collect unordered.
    {
        let f = field("foo", ty("HashMap", 2));
        let expected = convert(
            "foo",
            "foo",
            ContainerShape::Associative(Flavor::Unordered),
            MapperRef::Generic,
            vec![PlanStep::MapGeneric, PlanStep::Collect],
        );
        assert_eq!(f.clone().synthesize(plain_into()), expected);
        assert_eq!(f.clone().synthesize(plain_from()), expected);
        assert_eq!(
            f.synthesize(mapped_into("String::from", false)),
            convert(
                "foo",
                "foo",
                ContainerShape::Associative(Flavor::Unordered),
                custom("String::from", false),
                vec![PlanStep::MapCustom, PlanStep::Collect],
            )
        );
    }

    // BTreeMap: same, collected into the ordered flavor.
    {
        let mut f = field("foo", ty("BTreeMap", 2));
        f.required = true;
        assert_eq!(
            f.synthesize(plain_from()),
            convert(
                "foo",
                "foo",
                ContainerShape::Associative(Flavor::Ordered),
                MapperRef::Generic,
                vec![PlanStep::ForceUnwrap, PlanStep::MapGeneric, PlanStep::Collect],
            )
        );
    }
}
