//! Parsed source files.
pub mod attr;
pub mod class;
pub mod func;
pub mod grammar;
pub mod imp;
pub mod path;
pub mod stmt;
pub mod struc;
pub mod ty;
pub mod using;

use crate::ast::attr::{lemma_parse_attributes_bounds, Attributes, SpecAttribute};
use crate::ast::class::Class;
use crate::ast::func::{params_view, Function, FunctionParam};
use crate::ast::grammar::{
    defines_only_its_own_type, lemma_parse_class_bounds, lemma_parse_fn_bounds,
    lemma_parse_struct_bounds, lemma_parse_type_bounds, lemma_parse_type_impl_bounds,
    lemma_parse_use_bounds, lemma_parsed_file_defines_only_its_own_type,
    lemma_parsed_file_uses_are_paths, lemma_top_keeps_own_type, lemma_top_uses_are_paths,
    spec_can_define_type, spec_impl_items, spec_params,
    spec_parse_class, spec_parse_fn, spec_parse_source, spec_parse_struct, spec_parse_type,
    spec_parse_type_impl, spec_parse_use, spec_top, spec_type_path, spec_type_prefixes,
    spec_use_rest, uses_are_paths, SpecSourceFile, SpecTypeDefinition,
};
use crate::ast::imp::{functions_view, SpecTypeImpl, TypeImpl};
use crate::ast::path::Path;
use crate::ast::stmt::parse_block;
use crate::ast::struc::Struct;
use crate::ast::ty::{Type, TypeName};
use crate::ast::using::{SpecUse, Use};
use crate::lexer::{Identifier, Lexer, Span, SyntaxError, Token};
use vstd::prelude::*;

verus! {

/// The stem of a path (its file name without the extension), as `std::path::Path::file_stem`
/// gives it.
pub uninterp spec fn path_file_stem(path: Seq<char>) -> Option<Seq<char>>;

/// The stem of `path`, by `std::path::Path::file_stem`.
///
/// Its contract only names the result: what `file_stem` gives is not restated here.
#[verifier::external_body]
fn file_stem(path: &str) -> (r: Option<String>)
    ensures
        match path_file_stem(path@) {
            Some(s) => r matches Some(x) && x@ == s,
            None => r is None,
        },
{
    match std::path::Path::new(path).file_stem() {
        Some(s) => Some(s.to_string_lossy().into_owned()),
        None => None,
    }
}

/// A type definition in a source file.
#[derive(Debug)]
pub enum TypeDefinition {
    Struct(Struct),
    Class(Class),
}

impl View for TypeDefinition {
    type V = SpecTypeDefinition;

    open spec fn view(&self) -> SpecTypeDefinition {
        match self {
            TypeDefinition::Struct(s) => SpecTypeDefinition::Struct(s@),
            TypeDefinition::Class(c) => SpecTypeDefinition::Class(c@),
        }
    }
}

impl TypeDefinition {
    pub fn name(&self) -> (r: &Identifier)
        ensures
            *r == self@.name(),
    {
        match self {
            TypeDefinition::Struct(v) => v.name(),
            TypeDefinition::Class(v) => v.name(),
        }
    }
}

/// Represents an error when a source file cannot be parsed.
#[derive(Debug)]
pub enum ParseError {
    /// The source file could not be read.
    ReadFailed(std::io::Error),
    /// The source file is not valid.
    ParseFailed(SyntaxError),
}

pub open spec fn uses_view(uses: Seq<Use>) -> Seq<SpecUse> {
    uses.map_values(|u: Use| u@)
}

pub open spec fn impls_view(impls: Seq<TypeImpl>) -> Seq<SpecTypeImpl> {
    impls.map_values(|i: TypeImpl| i@)
}

pub open spec fn type_definition_view(ty: Option<TypeDefinition>) -> Option<SpecTypeDefinition> {
    match ty {
        Some(t) => Some(t@),
        None => None,
    }
}

pub open spec fn attributes_view(attrs: Option<Attributes>) -> Option<Seq<SpecAttribute>> {
    match attrs {
        Some(a) => Some(a@),
        None => None,
    }
}

/// A parsed source file.
#[derive(Debug)]
pub struct SourceFile {
    path: String,
    uses: Vec<Use>,
    ty: Option<TypeDefinition>,
    impls: Vec<TypeImpl>,
}

impl View for SourceFile {
    type V = SpecSourceFile;

    closed spec fn view(&self) -> SpecSourceFile {
        SpecSourceFile {
            path: self.path@,
            uses: uses_view(self.uses@),
            ty: type_definition_view(self.ty),
            impls: impls_view(self.impls@),
        }
    }
}

impl SourceFile {
    /// Parses the source file at `path`, whose file stem is `stem`, from its tokens.
    pub fn parse_source(path: String, stem: String, tokens: Vec<Token>) -> (r: Result<
        SourceFile,
        SyntaxError,
    >)
        ensures
            match spec_parse_source(path@, stem@, tokens@) {
                Ok(f) => r matches Ok(v) && v@ == f,
                Err(e) => r == Err::<SourceFile, SyntaxError>(e),
            },
            r matches Ok(v) ==> v@.path == path@ && defines_only_its_own_type(v@, stem@)
                && uses_are_paths(v@),
    {
        proof {
            lemma_parsed_file_defines_only_its_own_type(path@, stem@, tokens@);
            lemma_parsed_file_uses_are_paths(path@, stem@, tokens@);
        }
        let mut file = SourceFile { path, ty: None, uses: Vec::new(), impls: Vec::new() };
        proof {
            assert(file@.uses =~= Seq::<SpecUse>::empty());
            assert(file@.impls =~= Seq::<SpecTypeImpl>::empty());
        }
        match file.parse_top(&stem, tokens) {
            Ok(()) => Ok(file),
            Err(e) => Err(e),
        }
    }

    /// Parses the source file at `path` from its tokens.
    pub fn parse_tokens(path: String, tokens: Vec<Token>) -> (r: Result<SourceFile, SyntaxError>)
        requires
            path_file_stem(path@) is Some,
        ensures
            match spec_parse_source(path@, path_file_stem(path@).unwrap(), tokens@) {
                Ok(f) => r matches Ok(v) && v@ == f,
                Err(e) => r == Err::<SourceFile, SyntaxError>(e),
            },
    {
        let stem = file_stem(path.as_str()).unwrap();
        Self::parse_source(path, stem, tokens)
    }

    /// Parses the source file at `path` from its tokens; `None` when `path` names no file.
    pub fn parse(path: String, tokens: Vec<Token>) -> (r: Option<Result<SourceFile, ParseError>>)
        ensures
            r is None <==> path_file_stem(path@) is None,
            r is Some ==> match spec_parse_source(
                path@,
                path_file_stem(path@).unwrap(),
                tokens@,
            ) {
                Ok(f) => r matches Some(Ok(v)) && v@ == f,
                Err(e) => r == Some(Err::<SourceFile, ParseError>(ParseError::ParseFailed(e))),
            },
    {
        match file_stem(path.as_str()) {
            None => None,
            Some(_) => match Self::parse_tokens(path, tokens) {
                Ok(f) => Some(Ok(f)),
                Err(e) => Some(Err(ParseError::ParseFailed(e))),
            },
        }
    }

    pub fn path(&self) -> (r: &str)
        ensures
            r@ == self@.path,
    {
        self.path.as_str()
    }

    pub fn ty(&self) -> (r: Option<&TypeDefinition>)
        ensures
            match r {
                Some(t) => self@.ty == Some(t@),
                None => self@.ty is None,
            },
    {
        self.ty.as_ref()
    }

    pub fn has_type(&self) -> (r: bool)
        ensures
            r == self@.ty is Some,
    {
        self.ty.is_some()
    }

    pub fn uses(&self) -> (r: &[Use])
        ensures
            uses_view(r@) == self@.uses,
    {
        self.uses.as_slice()
    }

    pub fn impls(&self) -> (r: &[TypeImpl])
        ensures
            impls_view(r@) == self@.impls,
    {
        self.impls.as_slice()
    }

    /// Reads the items of a source file whose path has the stem `stem` from its tokens into
    /// this file: its uses, its type and the implementations of that type, in order. On an
    /// error the file keeps what was read before it.
    #[verifier::loop_isolation(false)]
    pub fn parse_top(&mut self, stem: &String, tokens: Vec<Token>) -> (r: Result<(), SyntaxError>)
        ensures
            match spec_top(tokens@, 0, stem@, old(self)@, None) {
                Ok(f) => r is Ok && final(self)@ == f,
                Err((e, f)) => r == Err::<(), SyntaxError>(e) && final(self)@ == f,
            },
            // What every parsed file keeps.
            r is Ok && defines_only_its_own_type(old(self)@, stem@) ==> defines_only_its_own_type(
                final(self)@,
                stem@,
            ) && final(self)@.path == old(self)@.path,
            r is Ok && uses_are_paths(old(self)@) ==> uses_are_paths(final(self)@),
    {
        let ghost toks = tokens@;
        let ghost whole = spec_top(toks, 0, stem@, self@, None);
        proof {
            if defines_only_its_own_type(self@, stem@) {
                lemma_top_keeps_own_type(toks, 0, stem@, self@, None);
            }
            if uses_are_paths(self@) {
                lemma_top_uses_are_paths(toks, 0, stem@, self@, None);
            }
        }
        let mut lex = Lexer::new(tokens);
        let mut attrs: Option<Attributes> = None;

        loop
            invariant
                lex.wf(),
                lex.tokens() == toks,
                whole == spec_top(toks, lex.pos(), stem@, self@, attributes_view(attrs)),
            decreases toks.len() - lex.pos(),
        {
            // Get next token.
            let ghost p = lex.pos();
            let tok = match lex.next() {
                Some(v) => v,
                None => break,
            };

            // Check token.
            match tok {
                Token::AttributeName(name) => {
                    proof {
                        lemma_parse_attributes_bounds(toks, p + 1, name);
                    }
                    attrs = Some(Attributes::parse(&mut lex, name)?);
                },
                Token::UseKeyword(def) => {
                    proof {
                        lemma_parse_use_bounds(toks, p + 1, def);
                    }
                    let u = Self::parse_use(&mut lex, def)?;
                    let ghost before = self@;
                    let ghost uv = u@;
                    self.uses.push(u);
                    assert(self@.uses =~= before.uses.push(uv));
                },
                Token::StructKeyword(def) => {
                    let name = lex.next_ident()?;
                    self.can_define_type(stem, &name)?;
                    let a = match attrs {
                        Some(a) => a,
                        None => Attributes::new(),
                    };
                    attrs = None;
                    proof {
                        lemma_parse_struct_bounds(toks, lex.pos(), a@, def, name);
                    }
                    let s = Self::parse_struct(&mut lex, a, def, name)?;
                    self.ty = Some(TypeDefinition::Struct(s));
                },
                Token::ClassKeyword(def) => {
                    let name = lex.next_ident()?;
                    self.can_define_type(stem, &name)?;
                    let a = match attrs {
                        Some(a) => a,
                        None => Attributes::new(),
                    };
                    attrs = None;
                    proof {
                        lemma_parse_class_bounds(toks, lex.pos(), a@, def, name);
                    }
                    let c = Self::parse_class(&mut lex, a, def, name)?;
                    self.ty = Some(TypeDefinition::Class(c));
                },
                Token::ImplKeyword(def) => {
                    let ty = lex.next_ident()?;
                    let tok = match lex.next() {
                        Some(v) => v,
                        None => {
                            return Err(SyntaxError::new(ty.span, "expect '{' after this"));
                        },
                    };

                    match tok {
                        Token::OpenCurly(_) => {
                            match &self.ty {
                                Some(v) => {
                                    if !v.name().same_name(&ty) {
                                        return Err(
                                            SyntaxError::new(
                                                ty.span,
                                                "an implementation is not matched with type in the file",
                                            ),
                                        );
                                    }
                                },
                                None => {
                                    return Err(
                                        SyntaxError::new(
                                            ty.span,
                                            "type must be defined before define an implementation",
                                        ),
                                    );
                                },
                            }
                            proof {
                                lemma_parse_type_impl_bounds(toks, lex.pos(), def, ty);
                            }
                            let i = Self::parse_type_impl(&mut lex, def, ty)?;
                            let ghost before = self@;
                            let ghost iv = i@;
                            self.impls.push(i);
                            assert(self@.impls =~= before.impls.push(iv));
                        },
                        t => return Err(SyntaxError::new(t.span(), "expect '{'")),
                    }
                },
                t => {
                    return Err(
                        SyntaxError::new(t.span(), "this item is not allowed as a top-level"),
                    );
                },
            }
        }

        Ok(())
    }

    #[verifier::loop_isolation(false)]
    fn parse_use(lex: &mut Lexer, def: Span) -> (r: Result<Use, SyntaxError>)
        requires
            old(lex).wf(),
        ensures
            final(lex).wf(),
            final(lex).tokens() == old(lex).tokens(),
            match spec_parse_use(old(lex).tokens(), old(lex).pos(), def) {
                Ok((u, q)) => r matches Ok(v) && v@ == u && final(lex).pos() == q,
                Err(e) => r == Err::<Use, SyntaxError>(e),
            },
    {
        let ghost toks = lex.tokens();
        let ghost p0 = lex.pos();

        // Get the package name.
        let mut name: Vec<Token> = Vec::new();

        match lex.next() {
            Some(Token::SelfKeyword(v)) => name.push(Token::SelfKeyword(v)),
            Some(Token::Identifier(v)) => name.push(Token::Identifier(v)),
            Some(t) => {
                return Err(SyntaxError::new(t.span(), "expect an identifer or self keyword"));
            },
            None => {
                return Err(SyntaxError::new(def, "expect an identifer or self keyword after this"));
            },
        }

        match lex.next() {
            Some(Token::FullStop(v)) => name.push(Token::FullStop(v)),
            Some(t) => return Err(SyntaxError::new(t.span(), "expect '.'")),
            None => return Err(SyntaxError::new(lex.last().unwrap(), "expect '.' after this")),
        }

        // Get item after the package name.
        match lex.next() {
            Some(Token::Identifier(v)) => name.push(Token::Identifier(v)),
            Some(t) => return Err(SyntaxError::new(t.span(), "expect an identifer")),
            None => return Err(SyntaxError::new(lex.last().unwrap(), "expect an identifer after this")),
        }
        assert(name@ =~= seq![toks[p0], toks[p0 + 1], toks[p0 + 2]]);

        // Get remaining path.
        loop
            invariant
                lex.wf(),
                lex.tokens() == toks,
                lex.tokens().len() > 0,
                spec_parse_use(toks, p0, def) == match spec_use_rest(toks, lex.pos(), name@) {
                    Ok((n, q)) => Ok((SpecUse { def, name: n, rename: None }, q)),
                    Err(e) => Err(e),
                },
            decreases toks.len() - lex.pos(),
        {
            let next = match lex.next() {
                Some(v) => v,
                None => {
                    return Err(SyntaxError::new(lex.last().unwrap(), "expect ';' after this"));
                },
            };

            match next {
                Token::FullStop(v) => {
                    name.push(Token::FullStop(v));

                    match lex.next() {
                        Some(Token::Identifier(v)) => name.push(Token::Identifier(v)),
                        Some(t) => {
                            return Err(SyntaxError::new(t.span(), "expect an identifer"));
                        },
                        None => {
                            return Err(SyntaxError::new(lex.last().unwrap(), "expect an identifer after this"));
                        },
                    }
                },
                Token::Semicolon(_) => break,
                t => return Err(SyntaxError::new(t.span(), "expect ';'")),
            }
        }

        Ok(Use::new(def, Path::new(name), None))
    }

    fn parse_struct(lex: &mut Lexer, attrs: Attributes, def: Span, name: Identifier) -> (r: Result<
        Struct,
        SyntaxError,
    >)
        requires
            old(lex).wf(),
            old(lex).tokens().len() > 0,
        ensures
            final(lex).wf(),
            final(lex).tokens() == old(lex).tokens(),
            match spec_parse_struct(old(lex).tokens(), old(lex).pos(), attrs@, def, name) {
                Ok((s, q)) => r matches Ok(v) && v@ == s && final(lex).pos() == q,
                Err(e) => r == Err::<Struct, SyntaxError>(e),
            },
    {
        // Check if a primitive struct.
        let repr = match attrs.repr() {
            Some((_, repr)) => Some(repr.duplicate()),
            None => None,
        };
        if let Some(repr) = repr {
            lex.next_semicolon()?;
            return Ok(Struct::Primitive(attrs, repr, def, name));
        }
        // Parse fields.

        lex.next_oc()?;
        match lex.next() {
            None => Err(SyntaxError::new(lex.last().unwrap(), "expect '}' after this")),
            Some(Token::CloseCurly(_)) => Ok(Struct::Composite(attrs, def, name)),
            Some(t) => Err(SyntaxError::new(t.span(), "expect '}'")),
        }
    }

    fn parse_class(lex: &mut Lexer, attrs: Attributes, def: Span, name: Identifier) -> (r: Result<
        Class,
        SyntaxError,
    >)
        requires
            old(lex).wf(),
        ensures
            final(lex).wf(),
            final(lex).tokens() == old(lex).tokens(),
            match spec_parse_class(old(lex).tokens(), old(lex).pos(), attrs@, def, name) {
                Ok((c, q)) => r matches Ok(v) && v@ == c && final(lex).pos() == q,
                Err(e) => r == Err::<Class, SyntaxError>(e),
            },
    {
        // A class without a body is zero-sized: it only holds static methods.
        let tok = match lex.next() {
            Some(v) => v,
            None => {
                return Err(
                    SyntaxError::new(name.span, "expect either ';' or '{' after the class name"),
                );
            },
        };

        match tok {
            Token::Semicolon(_) => return Ok(Class::new(attrs, def, name)),
            Token::OpenCurly(_) => {},
            v => {
                return Err(SyntaxError::new(v.span(), "expect either ';' or '{'"));
            },
        }

        // Parse fields.
        match lex.next() {
            None => Err(SyntaxError::new(lex.last().unwrap(), "expect an '}'")),
            Some(Token::CloseCurly(_)) => Ok(Class::new(attrs, def, name)),
            Some(t) => Err(SyntaxError::new(t.span(), "syntax error")),
        }
    }

    #[verifier::loop_isolation(false)]
    fn parse_type_impl(lex: &mut Lexer, def: Span, ty: Identifier) -> (r: Result<
        TypeImpl,
        SyntaxError,
    >)
        requires
            old(lex).wf(),
            old(lex).tokens().len() > 0,
        ensures
            final(lex).wf(),
            final(lex).tokens() == old(lex).tokens(),
            match spec_parse_type_impl(old(lex).tokens(), old(lex).pos(), def, ty) {
                Ok((i, q)) => r matches Ok(v) && v@ == i && final(lex).pos() == q,
                Err(e) => r == Err::<TypeImpl, SyntaxError>(e),
            },
    {
        let ghost toks = lex.tokens();
        let ghost p0 = lex.pos();
        let mut attrs: Option<Attributes> = None;
        let mut functions: Vec<Function> = Vec::new();
        assert(functions_view(functions@) =~= Seq::empty());

        loop
            invariant
                lex.wf(),
                lex.tokens() == toks,
                lex.tokens().len() > 0,
                spec_parse_type_impl(toks, p0, def, ty) == match spec_impl_items(
                    toks,
                    lex.pos(),
                    attributes_view(attrs),
                    functions_view(functions@),
                ) {
                    Ok((f, q)) => Ok((SpecTypeImpl { def, ty, functions: f }, q)),
                    Err(e) => Err(e),
                },
            decreases toks.len() - lex.pos(),
        {
            let ghost p = lex.pos();
            let tok = match lex.next() {
                Some(v) => v,
                None => {
                    return Err(SyntaxError::new(lex.last().unwrap(), "expect an '}'"));
                },
            };

            match tok {
                Token::AttributeName(name) => {
                    proof {
                        lemma_parse_attributes_bounds(toks, p + 1, name);
                    }
                    attrs = Some(Attributes::parse(lex, name)?);
                },
                Token::FnKeyword(d) => {
                    let a = match attrs {
                        Some(a) => a,
                        None => Attributes::new(),
                    };
                    attrs = None;
                    proof {
                        lemma_parse_fn_bounds(toks, p + 1, a@, d);
                    }
                    let f = Self::parse_fn(lex, a, d)?;
                    let ghost before = functions_view(functions@);
                    let ghost fv = f@;
                    functions.push(f);
                    assert(functions_view(functions@) =~= before.push(fv));
                },
                Token::CloseCurly(_) => break,
                t => return Err(SyntaxError::new(t.span(), "syntax error")),
            }
        }

        Ok(TypeImpl::new(def, ty, functions))
    }

    #[verifier::loop_isolation(false)]
    fn parse_fn(lex: &mut Lexer, attrs: Attributes, def: Span) -> (r: Result<Function, SyntaxError>)
        requires
            old(lex).wf(),
            old(lex).tokens().len() > 0,
        ensures
            final(lex).wf(),
            final(lex).tokens() == old(lex).tokens(),
            match spec_parse_fn(old(lex).tokens(), old(lex).pos(), attrs@, def) {
                Ok((f, q)) => r matches Ok(v) && v@ == f && final(lex).pos() == q,
                Err(e) => r == Err::<Function, SyntaxError>(e),
            },
    {
        let ghost toks = lex.tokens();
        let name = lex.next_ident()?;

        // Parse parameters.
        let mut params: Vec<FunctionParam> = Vec::new();

        lex.next_op()?;
        let ghost q2 = lex.pos();
        assert(params_view(params@) =~= Seq::empty());

        loop
            invariant
                lex.wf(),
                lex.tokens() == toks,
                lex.tokens().len() > 0,
                spec_params(toks, q2, seq![]) == spec_params(toks, lex.pos(), params_view(params@)),
            decreases toks.len() - lex.pos(),
        {
            let tok = match lex.next() {
                Some(v) => v,
                None => {
                    return Err(SyntaxError::new(lex.last().unwrap(), "expect an ')'"));
                },
            };

            match tok {
                Token::Identifier(pname) => {
                    // Parse the parameter.
                    lex.next_colon()?;
                    proof {
                        lemma_parse_type_bounds(toks, lex.pos());
                    }
                    let ty = Self::parse_type(lex)?;
                    let ghost before = params_view(params@);
                    let param = FunctionParam::new(pname, ty);
                    let ghost pv = param@;
                    params.push(param);
                    assert(params_view(params@) =~= before.push(pv));

                    // Check for a ','.
                    let tok = match lex.next() {
                        Some(v) => v,
                        None => {
                            return Err(SyntaxError::new(lex.last().unwrap(), "expect an ')'"));
                        },
                    };

                    match tok {
                        Token::Comma(_) => {},
                        Token::CloseParenthesis(_) => break,
                        t => return Err(SyntaxError::new(t.span(), "syntax error")),
                    }
                },
                Token::CloseParenthesis(_) => break,
                t => return Err(SyntaxError::new(t.span(), "syntax error")),
            }
        }

        // Parse return type.
        let next = match lex.next() {
            Some(v) => v,
            None => {
                return Err(SyntaxError::new(lex.last().unwrap(), "expect either '{' or ';' after this"));
            },
        };

        let ret = match next {
            Token::Semicolon(_) => return Ok(Function::new(attrs, def, name, params, None, None)),
            Token::OpenCurly(_) => None,
            Token::Colon(_) => {
                proof {
                    lemma_parse_type_bounds(toks, lex.pos());
                }
                let ret = Self::parse_type(lex)?;
                let next = match lex.next() {
                    Some(v) => v,
                    None => {
                        return Err(SyntaxError::new(lex.last().unwrap(), "expect either '{' or ';' after this"));
                    },
                };

                match next {
                    Token::Semicolon(_) => {
                        return Ok(Function::new(attrs, def, name, params, Some(ret), None));
                    },
                    Token::OpenCurly(_) => {},
                    t => {
                        return Err(SyntaxError::new(t.span(), "expect either '{' or ';'"));
                    },
                }

                Some(ret)
            },
            t => {
                return Err(SyntaxError::new(t.span(), "expect either '{' or ';'"));
            },
        };

        // Parse body.
        let body = parse_block(lex)?;

        Ok(Function::new(attrs, def, name, params, ret, Some(body)))
    }

    #[verifier::loop_isolation(false)]
    fn parse_type(lex: &mut Lexer) -> (r: Result<Type, SyntaxError>)
        requires
            old(lex).wf(),
            old(lex).tokens().len() > 0,
        ensures
            final(lex).wf(),
            final(lex).tokens() == old(lex).tokens(),
            match spec_parse_type(old(lex).tokens(), old(lex).pos()) {
                Ok((t, q)) => r matches Ok(v) && v@ == t && final(lex).pos() == q,
                Err(e) => r == Err::<Type, SyntaxError>(e),
            },
    {
        let ghost toks = lex.tokens();
        let ghost p0 = lex.pos();

        // Parse pointer prefix.
        let mut prefixes: Vec<Span> = Vec::new();

        loop
            invariant
                lex.wf(),
                lex.tokens() == toks,
                lex.tokens().len() > 0,
                spec_type_prefixes(toks, p0, seq![]) == spec_type_prefixes(
                    toks,
                    lex.pos(),
                    prefixes@,
                ),
            decreases toks.len() - lex.pos(),
        {
            match lex.next() {
                Some(Token::Asterisk(v)) => prefixes.push(v),
                Some(_) => {
                    lex.undo();
                    break;
                },
                None => {
                    return Err(SyntaxError::new(lex.last().unwrap(), "expect an identifier after this"));
                },
            }
        }

        // Parse type.
        let ghost q = lex.pos();
        let next = match lex.next() {
            Some(v) => v,
            None => {
                return Err(SyntaxError::new(lex.last().unwrap(), "expect an identifier after this"));
            },
        };

        let name = match next {
            Token::ExclamationMark(v) => TypeName::Never(v),
            Token::OpenParenthesis(o) => TypeName::Unit(o, lex.next_cp()?),
            Token::Identifier(first) => {
                let mut ident = first;
                let mut fqtn: Vec<Token> = Vec::new();

                loop
                    invariant
                        lex.wf(),
                        lex.tokens() == toks,
                        lex.tokens().len() > 0,
                        spec_type_path(toks, q + 1, first, seq![]) == spec_type_path(
                            toks,
                            lex.pos(),
                            ident,
                            fqtn@,
                        ),
                    decreases toks.len() - lex.pos(),
                {
                    match lex.next() {
                        Some(Token::FullStop(v)) => {
                            fqtn.push(Token::FullStop(v));
                            fqtn.push(Token::Identifier(ident));
                        },
                        Some(_) => {
                            lex.undo();
                            fqtn.push(Token::Identifier(ident));
                            return Ok(Type::new(prefixes, TypeName::Ident(Path::new(fqtn))));
                        },
                        None => {
                            fqtn.push(Token::Identifier(ident));
                            return Ok(Type::new(prefixes, TypeName::Ident(Path::new(fqtn))));
                        },
                    }

                    ident = match lex.next() {
                        Some(Token::Identifier(v)) => v,
                        Some(t) => {
                            return Err(SyntaxError::new(t.span(), "expect an identifier"));
                        },
                        None => {
                            return Err(SyntaxError::new(lex.last().unwrap(), "expect an identifier after this"));
                        },
                    };
                }
            },
            t => return Err(SyntaxError::new(t.span(), "invalid type")),
        };

        Ok(Type::new(prefixes, name))
    }

    fn can_define_type(&self, stem: &String, name: &Identifier) -> (r: Result<(), SyntaxError>)
        ensures
            match spec_can_define_type(self@, stem@, *name) {
                Some(e) => r == Err::<(), SyntaxError>(e),
                None => r is Ok,
            },
    {
        if self.ty.is_some() {
            return Err(SyntaxError::new(name.span, "multiple type definition in a source file"));
        }
        if name.value != *stem {
            return Err(SyntaxError::new(name.span, "type name and file name must be matched"));
        }
        Ok(())
    }
}

} // verus!
