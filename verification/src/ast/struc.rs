//! Struct definitions.
use crate::ast::attr::{Attributes, SpecAttribute};
use crate::lexer::{Identifier, Span};
use vstd::prelude::*;

verus! {

/// A struct: either a primitive one, represented by the type that its `repr`
/// attribute names, or a composite one.
#[derive(Debug)]
pub enum Struct {
    Primitive(Attributes, Identifier, Span, Identifier),
    Composite(Attributes, Span, Identifier),
}

/// What a [`Struct`] holds, as plain values.
pub enum SpecStruct {
    Primitive(Seq<SpecAttribute>, Identifier, Span, Identifier),
    Composite(Seq<SpecAttribute>, Span, Identifier),
}

impl SpecStruct {
    pub open spec fn name(self) -> Identifier {
        match self {
            SpecStruct::Primitive(_, _, _, n) => n,
            SpecStruct::Composite(_, _, n) => n,
        }
    }
}

impl View for Struct {
    type V = SpecStruct;

    open spec fn view(&self) -> SpecStruct {
        match self {
            Struct::Primitive(a, r, d, n) => SpecStruct::Primitive(a@, *r, *d, *n),
            Struct::Composite(a, d, n) => SpecStruct::Composite(a@, *d, *n),
        }
    }
}

impl Struct {
    pub fn name(&self) -> (r: &Identifier)
        ensures
            *r == self@.name(),
    {
        match self {
            Struct::Primitive(_, _, _, n) => n,
            Struct::Composite(_, _, n) => n,
        }
    }
}

} // verus!
