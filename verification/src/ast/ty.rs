//! Types written in signatures.
use crate::ast::path::Path;
use crate::lexer::{Span, Token};
use vstd::prelude::*;

verus! {

/// The name part of a type.
#[derive(Debug)]
pub enum TypeName {
    /// `!`
    Never(Span),
    /// `()`
    Unit(Span, Span),
    /// A named type.
    Ident(Path),
}

/// What a [`TypeName`] holds, as plain values.
pub enum SpecTypeName {
    Never(Span),
    Unit(Span, Span),
    Ident(Seq<Token>),
}

impl View for TypeName {
    type V = SpecTypeName;

    open spec fn view(&self) -> SpecTypeName {
        match self {
            TypeName::Never(s) => SpecTypeName::Never(*s),
            TypeName::Unit(o, c) => SpecTypeName::Unit(*o, *c),
            TypeName::Ident(p) => SpecTypeName::Ident(p@),
        }
    }
}

/// A type: the `*` that make it a pointer, then its name.
#[derive(Debug)]
pub struct Type {
    pub prefixes: Vec<Span>,
    pub name: TypeName,
}

/// What a [`Type`] holds, as plain values.
pub struct SpecType {
    pub prefixes: Seq<Span>,
    pub name: SpecTypeName,
}

impl View for Type {
    type V = SpecType;

    open spec fn view(&self) -> SpecType {
        SpecType { prefixes: self.prefixes@, name: self.name@ }
    }
}

impl Type {
    pub fn new(prefixes: Vec<Span>, name: TypeName) -> (r: Type)
        ensures
            r@ == (SpecType { prefixes: prefixes@, name: name@ }),
    {
        Type { prefixes, name }
    }

    pub fn prefixes(&self) -> (r: &[Span])
        ensures
            r@ == self.prefixes@,
    {
        self.prefixes.as_slice()
    }

    pub fn name(&self) -> (r: &TypeName)
        ensures
            r == &self.name,
    {
        &self.name
    }
}

} // verus!
