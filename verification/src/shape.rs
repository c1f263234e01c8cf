//! Container-shape classification.
//!
//! A field's declared type is reduced to exactly one of four container
//! shapes by inspecting only the outermost type constructor: `Option<T>`
//! is Optional, `Vec<T>` is a Sequence, `HashMap<K, V>` and `BTreeMap<K, V>`
//! are Associative (unordered and ordered flavor respectively), and
//! anything else is a Scalar. Candidates are tried in that fixed order and
//! the first structural match wins; nested containers are deliberately not
//! inspected.

use vstd::prelude::*;

verus! {

/// Ordering flavor of an associative container.
#[derive(Debug, Clone, Copy, PartialEq, Eq, Structural)]
pub enum Flavor {
    Unordered,
    Ordered,
}

/// The classification of a declared type, derived once per field.
#[derive(Debug, Clone, Copy, PartialEq, Eq, Structural)]
pub enum ContainerShape {
    Optional,
    Sequence,
    Associative(Flavor),
    Scalar,
}

/// A field's declared type, reduced to what classification reads: the
/// path of the outermost type constructor (e.g. `["std", "vec", "Vec"]`
/// or just `["Vec"]`) and how many generic type arguments it is applied
/// to. Inner types are never inspected, so they are not kept.
#[derive(Debug, Clone, PartialEq, Eq)]
pub struct DeclaredType {
    pub segments: Vec<String>,
    pub type_args: u64,
}

/// Spec-level mirror of [`DeclaredType`].
pub ghost struct DeclaredTypeV {
    pub segments: Seq<Seq<char>>,
    pub type_args: u64,
}

impl View for DeclaredType {
    type V = DeclaredTypeV;

    open spec fn view(&self) -> DeclaredTypeV {
        DeclaredTypeV {
            segments: self.segments@.map_values(|s: String| s@),
            type_args: self.type_args,
        }
    }
}

/// What [`DeclaredType::shape`] returns: the last path segment decides,
/// in the fixed priority order Optional, Sequence, Associative(unordered),
/// Associative(ordered); no match means Scalar. A path with no segments
/// matches nothing and is a Scalar.
pub open spec fn spec_shape(t: DeclaredTypeV) -> ContainerShape {
    if t.segments.len() == 0 {
        ContainerShape::Scalar
    } else {
        let head = t.segments.last();
        if head == "Option"@ && t.type_args == 1 {
            ContainerShape::Optional
        } else if head == "Vec"@ && t.type_args == 1 {
            ContainerShape::Sequence
        } else if head == "HashMap"@ && t.type_args == 2 {
            ContainerShape::Associative(Flavor::Unordered)
        } else if head == "BTreeMap"@ && t.type_args == 2 {
            ContainerShape::Associative(Flavor::Ordered)
        } else {
            ContainerShape::Scalar
        }
    }
}

impl DeclaredType {
    /// Classify this type into its container shape.
    pub fn shape(&self) -> (r: ContainerShape)
        ensures
            r == spec_shape(self@),
    {
        if self.segments.len() == 0 {
            return ContainerShape::Scalar;
        }
        let head: &String = &self.segments[self.segments.len() - 1];
        proof {
            assert(self@.segments.last() == head@);
        }
        if head.eq(&String::from_str("Option")) && self.type_args == 1 {
            ContainerShape::Optional
        } else if head.eq(&String::from_str("Vec")) && self.type_args == 1 {
            ContainerShape::Sequence
        } else if head.eq(&String::from_str("HashMap")) && self.type_args == 2 {
            ContainerShape::Associative(Flavor::Unordered)
        } else if head.eq(&String::from_str("BTreeMap")) && self.type_args == 2 {
            ContainerShape::Associative(Flavor::Ordered)
        } else {
            ContainerShape::Scalar
        }
    }
}

} // verus!
