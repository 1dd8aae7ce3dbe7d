//! Telling primitive types from composite ones.
//!
//! An entry only names its types. Which names stand for primitive types is
//! for the caller to say: the resolver is given their names and looks a name
//! up among them.

use vstd::prelude::*;
use crate::token::same_text;

verus! {

/// What a type is, as far as the content type of a body depends on it.
#[derive(Clone, Copy, Debug, PartialEq, Eq, Structural)]
pub enum TypeClass {
    /// A type written as plain text, such as an integer, a string or a
    /// boolean.
    Primitive,
    /// Any other type.
    Composite,
}

/// The names of the primitive types.
#[derive(Clone, Debug, PartialEq, Eq)]
pub struct TypeResolver {
    pub primitives: Vec<String>,
}

impl View for TypeResolver {
    type V = Set<Seq<char>>;

    /// The set of the names that are primitive.
    open spec fn view(&self) -> Set<Seq<char>> {
        Set::new(
            |name: Seq<char>|
                exists|i: int| 0 <= i < self.primitives@.len() && self.primitives@[i]@ == name,
        )
    }
}

/// The class of the type `name` where `primitives` are the primitive types.
pub open spec fn class_of(primitives: Set<Seq<char>>, name: Seq<char>) -> TypeClass {
    if primitives.contains(name) {
        TypeClass::Primitive
    } else {
        TypeClass::Composite
    }
}

impl TypeResolver {
    /// A resolver for which the types named in `primitives` are primitive
    /// and all others composite.
    pub fn new(primitives: Vec<String>) -> (r: TypeResolver)
        ensures
            r.primitives == primitives,
    {
        TypeResolver { primitives }
    }

    /// The class of the type `name`.
    pub fn classify(&self, name: &str) -> (class: TypeClass)
        ensures
            class == class_of(self@, name@),
    {
        let mut i: usize = 0;
        while i < self.primitives.len()
            invariant
                i <= self.primitives.len(),
                forall|j: int| 0 <= j < i ==> self.primitives@[j]@ != name@,
            decreases self.primitives.len() - i,
        {
            if same_text(&self.primitives[i], name) {
                return TypeClass::Primitive;
            }
            i += 1;
        }
        TypeClass::Composite
    }
}

} // verus!
