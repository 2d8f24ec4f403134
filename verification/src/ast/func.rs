//! Function definitions.
use crate::ast::attr::{Attributes, SpecAttribute};
use crate::ast::ty::{SpecType, Type};
use crate::lexer::{Identifier, Span, Token};
use vstd::prelude::*;

verus! {

/// A parameter of a function.
#[derive(Debug)]
pub struct FunctionParam {
    pub name: Identifier,
    pub ty: Type,
}

/// What a [`FunctionParam`] holds, as plain values.
pub struct SpecFunctionParam {
    pub name: Identifier,
    pub ty: SpecType,
}

impl View for FunctionParam {
    type V = SpecFunctionParam;

    open spec fn view(&self) -> SpecFunctionParam {
        SpecFunctionParam { name: self.name, ty: self.ty@ }
    }
}

impl FunctionParam {
    pub fn new(name: Identifier, ty: Type) -> (r: FunctionParam)
        ensures
            r@ == (SpecFunctionParam { name, ty: ty@ }),
    {
        FunctionParam { name, ty }
    }
}

/// A function: its attributes, name, parameters, return type and body. A function
/// without a body was declared with `;`.
#[derive(Debug)]
pub struct Function {
    pub attrs: Attributes,
    pub def: Span,
    pub name: Identifier,
    pub params: Vec<FunctionParam>,
    pub ret: Option<Type>,
    pub body: Option<Vec<Token>>,
}

/// What a [`Function`] holds, as plain values.
pub struct SpecFunction {
    pub attrs: Seq<SpecAttribute>,
    pub def: Span,
    pub name: Identifier,
    pub params: Seq<SpecFunctionParam>,
    pub ret: Option<SpecType>,
    pub body: Option<Seq<Token>>,
}

pub open spec fn params_view(params: Seq<FunctionParam>) -> Seq<SpecFunctionParam> {
    params.map_values(|p: FunctionParam| p@)
}

pub open spec fn ret_view(ret: Option<Type>) -> Option<SpecType> {
    match ret {
        Some(t) => Some(t@),
        None => None,
    }
}

pub open spec fn body_view(body: Option<Vec<Token>>) -> Option<Seq<Token>> {
    match body {
        Some(b) => Some(b@),
        None => None,
    }
}

impl View for Function {
    type V = SpecFunction;

    open spec fn view(&self) -> SpecFunction {
        SpecFunction {
            attrs: self.attrs@,
            def: self.def,
            name: self.name,
            params: params_view(self.params@),
            ret: ret_view(self.ret),
            body: body_view(self.body),
        }
    }
}

impl Function {
    pub fn new(
        attrs: Attributes,
        def: Span,
        name: Identifier,
        params: Vec<FunctionParam>,
        ret: Option<Type>,
        body: Option<Vec<Token>>,
    ) -> (r: Function)
        ensures
            r@ == (SpecFunction {
                attrs: attrs@,
                def,
                name,
                params: params_view(params@),
                ret: ret_view(ret),
                body: body_view(body),
            }),
    {
        Function { attrs, def, name, params, ret, body }
    }

    pub fn name(&self) -> (r: &Identifier)
        ensures
            *r == self.name,
    {
        &self.name
    }

    pub fn params(&self) -> (r: &[FunctionParam])
        ensures
            r@ == self.params@,
    {
        self.params.as_slice()
    }
}

} // verus!
