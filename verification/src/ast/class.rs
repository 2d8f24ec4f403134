//! Class definitions.
use crate::ast::attr::{Attributes, SpecAttribute};
use crate::lexer::{Identifier, Span};
use vstd::prelude::*;

verus! {

/// A class. A class written with `;` in place of a body has no size: it cannot be
/// instantiated and only holds static methods.
#[derive(Debug)]
pub struct Class {
    pub attrs: Attributes,
    pub def: Span,
    pub name: Identifier,
}

/// What a [`Class`] holds, as plain values.
pub struct SpecClass {
    pub attrs: Seq<SpecAttribute>,
    pub def: Span,
    pub name: Identifier,
}

impl View for Class {
    type V = SpecClass;

    open spec fn view(&self) -> SpecClass {
        SpecClass { attrs: self.attrs@, def: self.def, name: self.name }
    }
}

impl Class {
    pub fn new(attrs: Attributes, def: Span, name: Identifier) -> (r: Class)
        ensures
            r@ == (SpecClass { attrs: attrs@, def, name }),
    {
        Class { attrs, def, name }
    }

    pub fn name(&self) -> (r: &Identifier)
        ensures
            *r == self.name,
    {
        &self.name
    }
}

} // verus!
