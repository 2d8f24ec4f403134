//! Implementations of a type.
use crate::ast::func::{Function, SpecFunction};
use crate::lexer::{Identifier, Span};
use vstd::prelude::*;

verus! {

/// An `impl` block: the type it implements and its functions.
#[derive(Debug)]
pub struct TypeImpl {
    pub def: Span,
    pub ty: Identifier,
    pub functions: Vec<Function>,
}

/// What a [`TypeImpl`] holds, as plain values.
pub struct SpecTypeImpl {
    pub def: Span,
    pub ty: Identifier,
    pub functions: Seq<SpecFunction>,
}

pub open spec fn functions_view(functions: Seq<Function>) -> Seq<SpecFunction> {
    functions.map_values(|f: Function| f@)
}

impl View for TypeImpl {
    type V = SpecTypeImpl;

    open spec fn view(&self) -> SpecTypeImpl {
        SpecTypeImpl { def: self.def, ty: self.ty, functions: functions_view(self.functions@) }
    }
}

impl TypeImpl {
    pub fn new(def: Span, ty: Identifier, functions: Vec<Function>) -> (r: TypeImpl)
        ensures
            r@ == (SpecTypeImpl { def, ty, functions: functions_view(functions@) }),
    {
        TypeImpl { def, ty, functions }
    }

    pub fn ty(&self) -> (r: &Identifier)
        ensures
            *r == self.ty,
    {
        &self.ty
    }

    pub fn functions(&self) -> (r: &[Function])
        ensures
            r@ == self.functions@,
    {
        self.functions.as_slice()
    }
}

} // verus!
