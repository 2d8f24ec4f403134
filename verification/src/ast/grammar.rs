//! The grammar of a source file, as spec functions over its tokens.
//!
//! Each `spec_parse_*` function takes the tokens and the position of the first token
//! to read, and gives either what was read together with the position after it, or
//! the syntax error that reading stops at.
use crate::ast::attr::{
    lemma_parse_attributes_bounds, spec_parse_attributes, spec_repr, SpecAttribute,
};
use crate::ast::class::SpecClass;
use crate::ast::func::{SpecFunction, SpecFunctionParam};
use crate::ast::imp::SpecTypeImpl;
use crate::ast::stmt::{lemma_parse_block_bounds, spec_parse_block};
use crate::ast::struc::SpecStruct;
use crate::ast::ty::{SpecType, SpecTypeName};
use crate::ast::using::SpecUse;
use crate::lexer::{
    expect_close_paren, expect_colon, expect_ident, expect_open_curly, expect_open_paren,
    expect_semicolon, last_span, syntax_error, token_at, Identifier, Span, SyntaxError, Token,
};
use vstd::prelude::*;

verus! {

/// The type definition of a file, as plain values.
pub enum SpecTypeDefinition {
    Struct(SpecStruct),
    Class(SpecClass),
}

impl SpecTypeDefinition {
    pub open spec fn name(self) -> Identifier {
        match self {
            SpecTypeDefinition::Struct(s) => s.name(),
            SpecTypeDefinition::Class(c) => c.name,
        }
    }
}

/// What a parsed source file holds, as plain values.
pub struct SpecSourceFile {
    pub path: Seq<char>,
    pub uses: Seq<SpecUse>,
    pub ty: Option<SpecTypeDefinition>,
    pub impls: Seq<SpecTypeImpl>,
}

/// The attributes that an item takes: those written before it, or none.
pub open spec fn attrs_or_empty(attrs: Option<Seq<SpecAttribute>>) -> Seq<SpecAttribute> {
    match attrs {
        Some(a) => a,
        None => seq![],
    }
}

// ---- types ----

/// The `*` prefixes of a type from `p` on.
pub open spec fn spec_type_prefixes(toks: Seq<Token>, p: int, acc: Seq<Span>) -> Result<
    (Seq<Span>, int),
    SyntaxError,
>
    decreases toks.len() - p,
{
    match token_at(toks, p) {
        Some(Token::Asterisk(s)) => spec_type_prefixes(toks, p + 1, acc.push(s)),
        Some(_) => Ok((acc, p)),
        None => Err(syntax_error(last_span(toks, p), "expect an identifier after this")),
    }
}

/// The rest of a type's path, whose last identifier read is `ident` and whose
/// tokens so far are `acc`.
///
/// Each `.` is stored before the identifier that precedes it, and the last
/// identifier comes at the end: `a.b.c` is stored as `. a . b c`.
pub open spec fn spec_type_path(toks: Seq<Token>, p: int, ident: Identifier, acc: Seq<Token>) -> Result<
    (Seq<Token>, int),
    SyntaxError,
>
    decreases toks.len() - p,
{
    match token_at(toks, p) {
        Some(Token::FullStop(v)) => match token_at(toks, p + 1) {
            Some(Token::Identifier(i)) => spec_type_path(
                toks,
                p + 2,
                i,
                acc.push(Token::FullStop(v)).push(Token::Identifier(ident)),
            ),
            Some(t) => Err(syntax_error(t.spec_span(), "expect an identifier")),
            None => Err(syntax_error(last_span(toks, p + 1), "expect an identifier after this")),
        },
        _ => Ok((acc.push(Token::Identifier(ident)), p)),
    }
}

/// A type from `p` on.
pub open spec fn spec_parse_type(toks: Seq<Token>, p: int) -> Result<(SpecType, int), SyntaxError> {
    match spec_type_prefixes(toks, p, seq![]) {
        Err(e) => Err(e),
        Ok((prefixes, q)) => match token_at(toks, q) {
            None => Err(syntax_error(last_span(toks, q), "expect an identifier after this")),
            Some(Token::ExclamationMark(v)) => Ok(
                (SpecType { prefixes, name: SpecTypeName::Never(v) }, q + 1),
            ),
            Some(Token::OpenParenthesis(o)) => match expect_close_paren(toks, q + 1) {
                Ok((c, r)) => Ok((SpecType { prefixes, name: SpecTypeName::Unit(o, c) }, r)),
                Err(e) => Err(e),
            },
            Some(Token::Identifier(i)) => match spec_type_path(toks, q + 1, i, seq![]) {
                Ok((path, r)) => Ok((SpecType { prefixes, name: SpecTypeName::Ident(path) }, r)),
                Err(e) => Err(e),
            },
            Some(t) => Err(syntax_error(t.spec_span(), "invalid type")),
        },
    }
}

// ---- use ----

/// The rest of a `use` path, up to and with its `;`.
pub open spec fn spec_use_rest(toks: Seq<Token>, p: int, acc: Seq<Token>) -> Result<
    (Seq<Token>, int),
    SyntaxError,
>
    decreases toks.len() - p,
{
    match token_at(toks, p) {
        None => Err(syntax_error(last_span(toks, p), "expect ';' after this")),
        Some(Token::FullStop(v)) => match token_at(toks, p + 1) {
            Some(Token::Identifier(i)) => spec_use_rest(
                toks,
                p + 2,
                acc.push(Token::FullStop(v)).push(Token::Identifier(i)),
            ),
            Some(t) => Err(syntax_error(t.spec_span(), "expect an identifer")),
            None => Err(syntax_error(last_span(toks, p + 1), "expect an identifer after this")),
        },
        Some(Token::Semicolon(_)) => Ok((acc, p + 1)),
        Some(t) => Err(syntax_error(t.spec_span(), "expect ';'")),
    }
}

/// A `use` declaration whose keyword, at `def`, stands just before `p`. Its path
/// has a package name (or `self`), a `.` and at least one identifier more.
pub open spec fn spec_parse_use(toks: Seq<Token>, p: int, def: Span) -> Result<
    (SpecUse, int),
    SyntaxError,
> {
    match token_at(toks, p) {
        None => Err(syntax_error(def, "expect an identifer or self keyword after this")),
        Some(first) => if !(first is SelfKeyword || first is Identifier) {
            Err(syntax_error(first.spec_span(), "expect an identifer or self keyword"))
        } else {
            match token_at(toks, p + 1) {
                None => Err(syntax_error(last_span(toks, p + 1), "expect '.' after this")),
                Some(Token::FullStop(d)) => match token_at(toks, p + 2) {
                    None => Err(
                        syntax_error(last_span(toks, p + 2), "expect an identifer after this"),
                    ),
                    Some(Token::Identifier(i)) => match spec_use_rest(
                        toks,
                        p + 3,
                        seq![first, Token::FullStop(d), Token::Identifier(i)],
                    ) {
                        Ok((name, q)) => Ok((SpecUse { def, name, rename: None }, q)),
                        Err(e) => Err(e),
                    },
                    Some(t) => Err(syntax_error(t.spec_span(), "expect an identifer")),
                },
                Some(t) => Err(syntax_error(t.spec_span(), "expect '.'")),
            }
        },
    }
}

// ---- struct and class ----

/// A struct whose name stands just before `p`. A struct with a `repr` attribute ends
/// with `;`; any other has an empty body.
pub open spec fn spec_parse_struct(
    toks: Seq<Token>,
    p: int,
    attrs: Seq<SpecAttribute>,
    def: Span,
    name: Identifier,
) -> Result<(SpecStruct, int), SyntaxError> {
    match spec_repr(attrs) {
        Some((_, repr)) => match expect_semicolon(toks, p) {
            Ok((_, q)) => Ok((SpecStruct::Primitive(attrs, repr, def, name), q)),
            Err(e) => Err(e),
        },
        None => match expect_open_curly(toks, p) {
            Err(e) => Err(e),
            Ok((_, q)) => match token_at(toks, q) {
                None => Err(syntax_error(last_span(toks, q), "expect '}' after this")),
                Some(Token::CloseCurly(_)) => Ok((SpecStruct::Composite(attrs, def, name), q + 1)),
                Some(t) => Err(syntax_error(t.spec_span(), "expect '}'")),
            },
        },
    }
}

/// A class whose name stands just before `p`: it ends with `;` or has an empty body.
pub open spec fn spec_parse_class(
    toks: Seq<Token>,
    p: int,
    attrs: Seq<SpecAttribute>,
    def: Span,
    name: Identifier,
) -> Result<(SpecClass, int), SyntaxError> {
    match token_at(toks, p) {
        None => Err(syntax_error(name.span, "expect either ';' or '{' after the class name")),
        Some(Token::Semicolon(_)) => Ok((SpecClass { attrs, def, name }, p + 1)),
        Some(Token::OpenCurly(_)) => match token_at(toks, p + 1) {
            None => Err(syntax_error(last_span(toks, p + 1), "expect an '}'")),
            Some(Token::CloseCurly(_)) => Ok((SpecClass { attrs, def, name }, p + 2)),
            Some(t) => Err(syntax_error(t.spec_span(), "syntax error")),
        },
        Some(v) => Err(syntax_error(v.spec_span(), "expect either ';' or '{'")),
    }
}

// ---- functions ----

/// The parameters of a function from `p` on, up to and with the `)` that ends them.
pub open spec fn spec_params(toks: Seq<Token>, p: int, acc: Seq<SpecFunctionParam>) -> Result<
    (Seq<SpecFunctionParam>, int),
    SyntaxError,
>
    decreases toks.len() - p,
{
    match token_at(toks, p) {
        None => Err(syntax_error(last_span(toks, p), "expect an ')'")),
        Some(Token::Identifier(name)) => match expect_colon(toks, p + 1) {
            Err(e) => Err(e),
            Ok((_, q)) => match spec_parse_type(toks, q) {
                Err(e) => Err(e),
                Ok((ty, r)) => {
                    let acc2 = acc.push(SpecFunctionParam { name, ty });
                    match token_at(toks, r) {
                        None => Err(syntax_error(last_span(toks, r), "expect an ')'")),
                        Some(Token::Comma(_)) => {
                            proof {
                                lemma_parse_type_bounds(toks, q);
                            }
                            spec_params(toks, r + 1, acc2)
                        },
                        Some(Token::CloseParenthesis(_)) => Ok((acc2, r + 1)),
                        Some(t) => Err(syntax_error(t.spec_span(), "syntax error")),
                    }
                },
            },
        },
        Some(Token::CloseParenthesis(_)) => Ok((acc, p + 1)),
        Some(t) => Err(syntax_error(t.spec_span(), "syntax error")),
    }
}

/// A function whose body's `{` stands just before `p`.
pub open spec fn spec_fn_with_body(
    toks: Seq<Token>,
    p: int,
    attrs: Seq<SpecAttribute>,
    def: Span,
    name: Identifier,
    params: Seq<SpecFunctionParam>,
    ret: Option<SpecType>,
) -> Result<(SpecFunction, int), SyntaxError> {
    match spec_parse_block(toks, p) {
        Ok((body, q)) => Ok((SpecFunction { attrs, def, name, params, ret, body: Some(body) }, q)),
        Err(e) => Err(e),
    }
}

/// A function whose `fn` keyword, at `def`, stands just before `p`.
pub open spec fn spec_parse_fn(toks: Seq<Token>, p: int, attrs: Seq<SpecAttribute>, def: Span) -> Result<
    (SpecFunction, int),
    SyntaxError,
> {
    match expect_ident(toks, p) {
        Err(e) => Err(e),
        Ok((name, q1)) => match expect_open_paren(toks, q1) {
            Err(e) => Err(e),
            Ok((_, q2)) => match spec_params(toks, q2, seq![]) {
                Err(e) => Err(e),
                Ok((params, q3)) => match token_at(toks, q3) {
                    None => Err(
                        syntax_error(last_span(toks, q3), "expect either '{' or ';' after this"),
                    ),
                    Some(Token::Semicolon(_)) => Ok(
                        (SpecFunction { attrs, def, name, params, ret: None, body: None }, q3 + 1),
                    ),
                    Some(Token::OpenCurly(_)) => spec_fn_with_body(
                        toks,
                        q3 + 1,
                        attrs,
                        def,
                        name,
                        params,
                        None,
                    ),
                    Some(Token::Colon(_)) => match spec_parse_type(toks, q3 + 1) {
                        Err(e) => Err(e),
                        Ok((ret, q4)) => match token_at(toks, q4) {
                            None => Err(
                                syntax_error(
                                    last_span(toks, q4),
                                    "expect either '{' or ';' after this",
                                ),
                            ),
                            Some(Token::Semicolon(_)) => Ok(
                                (
                                    SpecFunction {
                                        attrs,
                                        def,
                                        name,
                                        params,
                                        ret: Some(ret),
                                        body: None,
                                    },
                                    q4 + 1,
                                ),
                            ),
                            Some(Token::OpenCurly(_)) => spec_fn_with_body(
                                toks,
                                q4 + 1,
                                attrs,
                                def,
                                name,
                                params,
                                Some(ret),
                            ),
                            Some(t) => Err(syntax_error(t.spec_span(), "expect either '{' or ';'")),
                        },
                    },
                    Some(t) => Err(syntax_error(t.spec_span(), "expect either '{' or ';'")),
                },
            },
        },
    }
}

// ---- impl ----

/// The items of an `impl` block from `p` on, up to and with its `}`. `attrs` are the
/// attributes read since the last function.
pub open spec fn spec_impl_items(
    toks: Seq<Token>,
    p: int,
    attrs: Option<Seq<SpecAttribute>>,
    acc: Seq<SpecFunction>,
) -> Result<(Seq<SpecFunction>, int), SyntaxError>
    decreases toks.len() - p,
{
    match token_at(toks, p) {
        None => Err(syntax_error(last_span(toks, p), "expect an '}'")),
        Some(Token::AttributeName(n)) => match spec_parse_attributes(toks, p + 1, n) {
            Ok((a, q)) => {
                proof {
                    lemma_parse_attributes_bounds(toks, p + 1, n);
                }
                spec_impl_items(toks, q, Some(a), acc)
            },
            Err(e) => Err(e),
        },
        Some(Token::FnKeyword(d)) => match spec_parse_fn(toks, p + 1, attrs_or_empty(attrs), d) {
            Ok((f, q)) => {
                proof {
                    lemma_parse_fn_bounds(toks, p + 1, attrs_or_empty(attrs), d);
                }
                spec_impl_items(toks, q, None, acc.push(f))
            },
            Err(e) => Err(e),
        },
        Some(Token::CloseCurly(_)) => Ok((acc, p + 1)),
        Some(t) => Err(syntax_error(t.spec_span(), "syntax error")),
    }
}

/// An `impl` block for `ty` whose `{` stands just before `p`.
pub open spec fn spec_parse_type_impl(toks: Seq<Token>, p: int, def: Span, ty: Identifier) -> Result<
    (SpecTypeImpl, int),
    SyntaxError,
> {
    match spec_impl_items(toks, p, None, seq![]) {
        Ok((functions, q)) => Ok((SpecTypeImpl { def, ty, functions }, q)),
        Err(e) => Err(e),
    }
}

// ---- source file ----

/// Whether `file`, whose path has the stem `stem`, may define a type named `name`: `None`
/// if it may, else the error. A file defines at most one type, and it is named as the file is.
pub open spec fn spec_can_define_type(file: SpecSourceFile, stem: Seq<char>, name: Identifier) -> Option<
    SyntaxError,
> {
    if file.ty is Some {
        Some(syntax_error(name.span, "multiple type definition in a source file"))
    } else if name.value@ != stem {
        Some(syntax_error(name.span, "type name and file name must be matched"))
    } else {
        None
    }
}

/// The items of a source file from `p` on, added to `file`, whose path has the stem `stem`.
/// `attrs` are the attributes read and not yet taken by a type definition. On an error, the
/// error comes with the file as it was built up to the item that failed.
pub open spec fn spec_top(
    toks: Seq<Token>,
    p: int,
    stem: Seq<char>,
    file: SpecSourceFile,
    attrs: Option<Seq<SpecAttribute>>,
) -> Result<SpecSourceFile, (SyntaxError, SpecSourceFile)>
    decreases toks.len() - p,
{
    match token_at(toks, p) {
        None => Ok(file),
        Some(Token::AttributeName(n)) => match spec_parse_attributes(toks, p + 1, n) {
            Ok((a, q)) => {
                proof {
                    lemma_parse_attributes_bounds(toks, p + 1, n);
                }
                spec_top(toks, q, stem, file, Some(a))
            },
            Err(e) => Err((e, file)),
        },
        Some(Token::UseKeyword(d)) => match spec_parse_use(toks, p + 1, d) {
            Ok((u, q)) => {
                proof {
                    lemma_parse_use_bounds(toks, p + 1, d);
                }
                spec_top(
                    toks,
                    q,
                    stem,
                    SpecSourceFile {
                        path: file.path,
                        uses: file.uses.push(u),
                        ty: file.ty,
                        impls: file.impls,
                    },
                    attrs,
                )
            },
            Err(e) => Err((e, file)),
        },
        Some(Token::StructKeyword(d)) => match expect_ident(toks, p + 1) {
            Err(e) => Err((e, file)),
            Ok((name, q)) => match spec_can_define_type(file, stem, name) {
                Some(e) => Err((e, file)),
                None => match spec_parse_struct(toks, q, attrs_or_empty(attrs), d, name) {
                    Ok((s, r)) => {
                        proof {
                            lemma_parse_struct_bounds(toks, q, attrs_or_empty(attrs), d, name);
                        }
                        spec_top(
                            toks,
                            r,
                            stem,
                            SpecSourceFile {
                                path: file.path,
                                uses: file.uses,
                                ty: Some(SpecTypeDefinition::Struct(s)),
                                impls: file.impls,
                            },
                            None,
                        )
                    },
                    Err(e) => Err((e, file)),
                },
            },
        },
        Some(Token::ClassKeyword(d)) => match expect_ident(toks, p + 1) {
            Err(e) => Err((e, file)),
            Ok((name, q)) => match spec_can_define_type(file, stem, name) {
                Some(e) => Err((e, file)),
                None => match spec_parse_class(toks, q, attrs_or_empty(attrs), d, name) {
                    Ok((c, r)) => {
                        proof {
                            lemma_parse_class_bounds(toks, q, attrs_or_empty(attrs), d, name);
                        }
                        spec_top(
                            toks,
                            r,
                            stem,
                            SpecSourceFile {
                                path: file.path,
                                uses: file.uses,
                                ty: Some(SpecTypeDefinition::Class(c)),
                                impls: file.impls,
                            },
                            None,
                        )
                    },
                    Err(e) => Err((e, file)),
                },
            },
        },
        Some(Token::ImplKeyword(d)) => match expect_ident(toks, p + 1) {
            Err(e) => Err((e, file)),
            Ok((ty, q)) => match token_at(toks, q) {
                None => Err((syntax_error(ty.span, "expect '{' after this"), file)),
                Some(Token::OpenCurly(_)) => match file.ty {
                    None => Err(
                        (
                            syntax_error(
                                ty.span,
                                "type must be defined before define an implementation",
                            ),
                            file,
                        ),
                    ),
                    Some(def_ty) => if def_ty.name().value@ != ty.value@ {
                        Err(
                            (
                                syntax_error(
                                    ty.span,
                                    "an implementation is not matched with type in the file",
                                ),
                                file,
                            ),
                        )
                    } else {
                        match spec_parse_type_impl(toks, q + 1, d, ty) {
                            Ok((i, r)) => {
                                proof {
                                    lemma_parse_type_impl_bounds(toks, q + 1, d, ty);
                                }
                                spec_top(
                                    toks,
                                    r,
                                    stem,
                                    SpecSourceFile {
                                        path: file.path,
                                        uses: file.uses,
                                        ty: file.ty,
                                        impls: file.impls.push(i),
                                    },
                                    attrs,
                                )
                            },
                            Err(e) => Err((e, file)),
                        }
                    },
                },
                Some(t) => Err((syntax_error(t.spec_span(), "expect '{'"), file)),
            },
        },
        Some(t) => Err((syntax_error(t.spec_span(), "this item is not allowed as a top-level"), file)),
    }
}

/// The source file at `path`, whose stem is `stem`, and whose tokens are `toks`.
pub open spec fn spec_parse_source(path: Seq<char>, stem: Seq<char>, toks: Seq<Token>) -> Result<
    SpecSourceFile,
    SyntaxError,
> {
    match spec_top(toks, 0, stem, SpecSourceFile { path, uses: seq![], ty: None, impls: seq![] }, None) {
        Ok(f) => Ok(f),
        Err((e, _)) => Err(e),
    }
}

// ---- every reader moves forward and stays within the tokens ----

pub proof fn lemma_type_prefixes_bounds(toks: Seq<Token>, p: int, acc: Seq<Span>)
    requires
        0 <= p,
    ensures
        spec_type_prefixes(toks, p, acc) matches Ok((_, q)) ==> p <= q < toks.len(),
    decreases toks.len() - p,
{
    if let Some(Token::Asterisk(s)) = token_at(toks, p) {
        lemma_type_prefixes_bounds(toks, p + 1, acc.push(s));
    }
}

pub proof fn lemma_type_path_bounds(toks: Seq<Token>, p: int, ident: Identifier, acc: Seq<Token>)
    requires
        0 <= p <= toks.len(),
    ensures
        spec_type_path(toks, p, ident, acc) matches Ok((_, q)) ==> p <= q <= toks.len(),
    decreases toks.len() - p,
{
    if let Some(Token::FullStop(v)) = token_at(toks, p) {
        if let Some(Token::Identifier(i)) = token_at(toks, p + 1) {
            lemma_type_path_bounds(
                toks,
                p + 2,
                i,
                acc.push(Token::FullStop(v)).push(Token::Identifier(ident)),
            );
        }
    }
}

pub proof fn lemma_parse_type_bounds(toks: Seq<Token>, p: int)
    requires
        0 <= p,
    ensures
        spec_parse_type(toks, p) matches Ok((_, q)) ==> p < q <= toks.len(),
{
    lemma_type_prefixes_bounds(toks, p, seq![]);
    if let Ok((prefixes, q)) = spec_type_prefixes(toks, p, seq![]) {
        if let Some(Token::Identifier(i)) = token_at(toks, q) {
            lemma_type_path_bounds(toks, q + 1, i, seq![]);
        }
    }
}

pub proof fn lemma_use_rest_bounds(toks: Seq<Token>, p: int, acc: Seq<Token>)
    requires
        0 <= p,
    ensures
        spec_use_rest(toks, p, acc) matches Ok((_, q)) ==> p < q <= toks.len(),
    decreases toks.len() - p,
{
    if let Some(Token::FullStop(v)) = token_at(toks, p) {
        if let Some(Token::Identifier(i)) = token_at(toks, p + 1) {
            lemma_use_rest_bounds(
                toks,
                p + 2,
                acc.push(Token::FullStop(v)).push(Token::Identifier(i)),
            );
        }
    }
}

pub proof fn lemma_parse_use_bounds(toks: Seq<Token>, p: int, def: Span)
    requires
        0 <= p,
    ensures
        spec_parse_use(toks, p, def) matches Ok((_, q)) ==> p < q <= toks.len(),
{
    if let Some(first) = token_at(toks, p) {
        if let Some(Token::FullStop(d)) = token_at(toks, p + 1) {
            if let Some(Token::Identifier(i)) = token_at(toks, p + 2) {
                lemma_use_rest_bounds(
                    toks,
                    p + 3,
                    seq![first, Token::FullStop(d), Token::Identifier(i)],
                );
            }
        }
    }
}

pub proof fn lemma_parse_struct_bounds(
    toks: Seq<Token>,
    p: int,
    attrs: Seq<SpecAttribute>,
    def: Span,
    name: Identifier,
)
    requires
        0 <= p,
    ensures
        spec_parse_struct(toks, p, attrs, def, name) matches Ok((_, q)) ==> p < q <= toks.len(),
{
}

pub proof fn lemma_parse_class_bounds(
    toks: Seq<Token>,
    p: int,
    attrs: Seq<SpecAttribute>,
    def: Span,
    name: Identifier,
)
    requires
        0 <= p,
    ensures
        spec_parse_class(toks, p, attrs, def, name) matches Ok((_, q)) ==> p < q <= toks.len(),
{
}

pub proof fn lemma_params_bounds(toks: Seq<Token>, p: int, acc: Seq<SpecFunctionParam>)
    requires
        0 <= p,
    ensures
        spec_params(toks, p, acc) matches Ok((_, q)) ==> p < q <= toks.len(),
    decreases toks.len() - p,
{
    if let Some(Token::Identifier(name)) = token_at(toks, p) {
        if let Ok((_, q)) = expect_colon(toks, p + 1) {
            lemma_parse_type_bounds(toks, q);
            if let Ok((ty, r)) = spec_parse_type(toks, q) {
                if let Some(Token::Comma(_)) = token_at(toks, r) {
                    lemma_params_bounds(toks, r + 1, acc.push(SpecFunctionParam { name, ty }));
                }
            }
        }
    }
}

pub proof fn lemma_parse_fn_bounds(toks: Seq<Token>, p: int, attrs: Seq<SpecAttribute>, def: Span)
    requires
        0 <= p,
    ensures
        spec_parse_fn(toks, p, attrs, def) matches Ok((_, q)) ==> p < q <= toks.len(),
{
    if let Ok((name, q1)) = expect_ident(toks, p) {
        if let Ok((_, q2)) = expect_open_paren(toks, q1) {
            lemma_params_bounds(toks, q2, seq![]);
            if let Ok((params, q3)) = spec_params(toks, q2, seq![]) {
                lemma_parse_block_bounds(toks, q3 + 1);
                lemma_parse_type_bounds(toks, q3 + 1);
                if let Ok((ret, q4)) = spec_parse_type(toks, q3 + 1) {
                    lemma_parse_block_bounds(toks, q4 + 1);
                }
            }
        }
    }
}

pub proof fn lemma_impl_items_bounds(
    toks: Seq<Token>,
    p: int,
    attrs: Option<Seq<SpecAttribute>>,
    acc: Seq<SpecFunction>,
)
    requires
        0 <= p,
    ensures
        spec_impl_items(toks, p, attrs, acc) matches Ok((_, q)) ==> p < q <= toks.len(),
    decreases toks.len() - p,
{
    match token_at(toks, p) {
        Some(Token::AttributeName(n)) => {
            lemma_parse_attributes_bounds(toks, p + 1, n);
            if let Ok((a, q)) = spec_parse_attributes(toks, p + 1, n) {
                lemma_impl_items_bounds(toks, q, Some(a), acc);
            }
        },
        Some(Token::FnKeyword(d)) => {
            lemma_parse_fn_bounds(toks, p + 1, attrs_or_empty(attrs), d);
            if let Ok((f, q)) = spec_parse_fn(toks, p + 1, attrs_or_empty(attrs), d) {
                lemma_impl_items_bounds(toks, q, None, acc.push(f));
            }
        },
        _ => {},
    }
}

pub proof fn lemma_parse_type_impl_bounds(toks: Seq<Token>, p: int, def: Span, ty: Identifier)
    requires
        0 <= p,
    ensures
        spec_parse_type_impl(toks, p, def, ty) matches Ok((_, q)) ==> p < q <= toks.len(),
{
    lemma_impl_items_bounds(toks, p, None, seq![]);
}

// ---- what every parsed file keeps ----

/// A file defines at most one type, named `stem` as the file is, and every implementation
/// in it is one of that type.
pub open spec fn defines_only_its_own_type(f: SpecSourceFile, stem: Seq<char>) -> bool {
    &&& f.ty matches Some(t) ==> t.name().value@ == stem
    &&& f.impls.len() > 0 ==> f.ty is Some
    &&& forall|i: int|
        0 <= i < f.impls.len() ==> #[trigger] f.impls[i].ty.value@ == f.ty.unwrap().name().value@
}

proof fn lemma_defines_only_its_own_type_uses(a: SpecSourceFile, b: SpecSourceFile, stem: Seq<char>)
    requires
        defines_only_its_own_type(a, stem),
        a.path == b.path,
        a.ty == b.ty,
        a.impls == b.impls,
    ensures
        defines_only_its_own_type(b, stem),
{
    assert forall|i: int| 0 <= i < b.impls.len() implies #[trigger] b.impls[i].ty.value@
        == b.ty.unwrap().name().value@ by {
        assert(a.impls[i].ty.value@ == a.ty.unwrap().name().value@);
    }
}

/// Reading items keeps the path of the file and what [`defines_only_its_own_type`] states.
pub proof fn lemma_top_keeps_own_type(
    toks: Seq<Token>,
    p: int,
    stem: Seq<char>,
    file: SpecSourceFile,
    attrs: Option<Seq<SpecAttribute>>,
)
    requires
        0 <= p,
        defines_only_its_own_type(file, stem),
    ensures
        spec_top(toks, p, stem, file, attrs) matches Ok(f) ==> defines_only_its_own_type(f, stem)
            && f.path == file.path,
    decreases toks.len() - p,
{
    match token_at(toks, p) {
        None => {},
        Some(Token::AttributeName(n)) => {
            lemma_parse_attributes_bounds(toks, p + 1, n);
            if let Ok((a, q)) = spec_parse_attributes(toks, p + 1, n) {
                lemma_top_keeps_own_type(toks, q, stem, file, Some(a));
            }
        },
        Some(Token::UseKeyword(d)) => {
            lemma_parse_use_bounds(toks, p + 1, d);
            if let Ok((u, q)) = spec_parse_use(toks, p + 1, d) {
                let next = SpecSourceFile {
                    path: file.path,
                    uses: file.uses.push(u),
                    ty: file.ty,
                    impls: file.impls,
                };
                lemma_defines_only_its_own_type_uses(file, next, stem);
                lemma_top_keeps_own_type(toks, q, stem, next, attrs);
            }
        },
        Some(Token::StructKeyword(d)) => {
            if let Ok((name, q)) = expect_ident(toks, p + 1) {
                if spec_can_define_type(file, stem, name) is None {
                    lemma_parse_struct_bounds(toks, q, attrs_or_empty(attrs), d, name);
                    if let Ok((s, r)) = spec_parse_struct(toks, q, attrs_or_empty(attrs), d, name) {
                        let next = SpecSourceFile {
                            path: file.path,
                            uses: file.uses,
                            ty: Some(SpecTypeDefinition::Struct(s)),
                            impls: file.impls,
                        };
                        assert(file.impls.len() == 0) by {
                            if file.impls.len() > 0 {
                                assert(file.impls[0].ty.value@ == file.ty.unwrap().name().value@);
                            }
                        }
                        lemma_top_keeps_own_type(toks, r, stem, next, None);
                    }
                }
            }
        },
        Some(Token::ClassKeyword(d)) => {
            if let Ok((name, q)) = expect_ident(toks, p + 1) {
                if spec_can_define_type(file, stem, name) is None {
                    lemma_parse_class_bounds(toks, q, attrs_or_empty(attrs), d, name);
                    if let Ok((c, r)) = spec_parse_class(toks, q, attrs_or_empty(attrs), d, name) {
                        let next = SpecSourceFile {
                            path: file.path,
                            uses: file.uses,
                            ty: Some(SpecTypeDefinition::Class(c)),
                            impls: file.impls,
                        };
                        assert(file.impls.len() == 0) by {
                            if file.impls.len() > 0 {
                                assert(file.impls[0].ty.value@ == file.ty.unwrap().name().value@);
                            }
                        }
                        lemma_top_keeps_own_type(toks, r, stem, next, None);
                    }
                }
            }
        },
        Some(Token::ImplKeyword(d)) => {
            if let Ok((ty, q)) = expect_ident(toks, p + 1) {
                if let Some(Token::OpenCurly(_)) = token_at(toks, q) {
                    if let Some(def_ty) = file.ty {
                        if def_ty.name().value@ == ty.value@ {
                            lemma_parse_type_impl_bounds(toks, q + 1, d, ty);
                            if let Ok((i, r)) = spec_parse_type_impl(toks, q + 1, d, ty) {
                                let next = SpecSourceFile {
                                    path: file.path,
                                    uses: file.uses,
                                    ty: file.ty,
                                    impls: file.impls.push(i),
                                };
                                assert(defines_only_its_own_type(next, stem)) by {
                                    assert forall|k: int| 0 <= k < next.impls.len() implies #[trigger] next.impls[k].ty.value@
                                        == next.ty.unwrap().name().value@ by {
                                        if k < file.impls.len() {
                                            assert(file.impls[k].ty.value@ == file.ty.unwrap().name().value@);
                                        }
                                    }
                                }
                                lemma_top_keeps_own_type(toks, r, stem, next, attrs);
                            }
                        }
                    }
                }
            }
        },
        Some(_) => {},
    }
}

/// A parsed source file keeps its path, defines at most one type, whose name is the
/// stem of that path, and holds implementations of that type only.
pub proof fn lemma_parsed_file_defines_only_its_own_type(
    path: Seq<char>,
    stem: Seq<char>,
    toks: Seq<Token>,
)
    ensures
        spec_parse_source(path, stem, toks) matches Ok(f) ==> f.path == path
            && defines_only_its_own_type(f, stem),
{
    lemma_top_keeps_own_type(
        toks,
        0,
        stem,
        SpecSourceFile { path, uses: seq![], ty: None, impls: seq![] },
        None,
    );
}

// ---- the shape of a `use` path ----

/// A `use` path: a package name or `self`, then `.` and an identifier, one or more times.
pub open spec fn is_use_path(name: Seq<Token>) -> bool {
    &&& name.len() >= 3
    &&& name.len() % 2 == 1
    &&& (name[0] is SelfKeyword || name[0] is Identifier)
    &&& forall|k: int| 0 < k < name.len() ==> (if k % 2 == 1 {
        #[trigger] name[k] is FullStop
    } else {
        name[k] is Identifier
    })
}

proof fn lemma_use_rest_shape(toks: Seq<Token>, p: int, acc: Seq<Token>)
    requires
        is_use_path(acc),
    ensures
        spec_use_rest(toks, p, acc) matches Ok((name, _)) ==> is_use_path(name),
    decreases toks.len() - p,
{
    if let Some(Token::FullStop(v)) = token_at(toks, p) {
        if let Some(Token::Identifier(i)) = token_at(toks, p + 1) {
            let next = acc.push(Token::FullStop(v)).push(Token::Identifier(i));
            assert forall|k: int| 0 < k < next.len() implies (if k % 2 == 1 {
                #[trigger] next[k] is FullStop
            } else {
                next[k] is Identifier
            }) by {
                if k < acc.len() {
                    assert(next[k] == acc[k]);
                }
            }
            lemma_use_rest_shape(toks, p + 2, next);
        }
    }
}

/// Every `use` declaration that is read names a package (or `self`) and at least one item in
/// it, separated by `.`.
pub proof fn lemma_parsed_use_is_a_path(toks: Seq<Token>, p: int, def: Span)
    ensures
        spec_parse_use(toks, p, def) matches Ok((u, _)) ==> is_use_path(u.name),
{
    if let Some(first) = token_at(toks, p) {
        if first is SelfKeyword || first is Identifier {
            if let Some(Token::FullStop(d)) = token_at(toks, p + 1) {
                if let Some(Token::Identifier(i)) = token_at(toks, p + 2) {
                    let start = seq![first, Token::FullStop(d), Token::Identifier(i)];
                    assert(is_use_path(start)) by {
                        assert forall|k: int| 0 < k < start.len() implies (if k % 2 == 1 {
                            #[trigger] start[k] is FullStop
                        } else {
                            start[k] is Identifier
                        }) by {
                            if k == 1 {
                            } else {
                                assert(k == 2);
                            }
                        }
                    }
                    lemma_use_rest_shape(toks, p + 3, start);
                }
            }
        }
    }
}

/// Every `use` declaration of `f` names a path.
pub open spec fn uses_are_paths(f: SpecSourceFile) -> bool {
    forall|i: int| 0 <= i < f.uses.len() ==> is_use_path(#[trigger] f.uses[i].name)
}

/// Reading items keeps [`uses_are_paths`].
pub proof fn lemma_top_uses_are_paths(
    toks: Seq<Token>,
    p: int,
    stem: Seq<char>,
    file: SpecSourceFile,
    attrs: Option<Seq<SpecAttribute>>,
)
    requires
        0 <= p,
        uses_are_paths(file),
    ensures
        spec_top(toks, p, stem, file, attrs) matches Ok(f) ==> uses_are_paths(f),
    decreases toks.len() - p,
{
    match token_at(toks, p) {
        Some(Token::AttributeName(n)) => {
            lemma_parse_attributes_bounds(toks, p + 1, n);
            if let Ok((a, q)) = spec_parse_attributes(toks, p + 1, n) {
                lemma_top_uses_are_paths(toks, q, stem, file, Some(a));
            }
        },
        Some(Token::UseKeyword(d)) => {
            lemma_parse_use_bounds(toks, p + 1, d);
            lemma_parsed_use_is_a_path(toks, p + 1, d);
            if let Ok((u, q)) = spec_parse_use(toks, p + 1, d) {
                let next = SpecSourceFile {
                    path: file.path,
                    uses: file.uses.push(u),
                    ty: file.ty,
                    impls: file.impls,
                };
                assert forall|i: int| 0 <= i < next.uses.len() implies is_use_path(
                    #[trigger] next.uses[i].name,
                ) by {
                    if i < file.uses.len() {
                        assert(next.uses[i] == file.uses[i]);
                    }
                }
                lemma_top_uses_are_paths(toks, q, stem, next, attrs);
            }
        },
        Some(Token::StructKeyword(d)) => {
            if let Ok((name, q)) = expect_ident(toks, p + 1) {
                if spec_can_define_type(file, stem, name) is None {
                    lemma_parse_struct_bounds(toks, q, attrs_or_empty(attrs), d, name);
                    if let Ok((s, r)) = spec_parse_struct(toks, q, attrs_or_empty(attrs), d, name) {
                        let next = SpecSourceFile {
                            path: file.path,
                            uses: file.uses,
                            ty: Some(SpecTypeDefinition::Struct(s)),
                            impls: file.impls,
                        };
                        lemma_top_uses_are_paths(toks, r, stem, next, None);
                    }
                }
            }
        },
        Some(Token::ClassKeyword(d)) => {
            if let Ok((name, q)) = expect_ident(toks, p + 1) {
                if spec_can_define_type(file, stem, name) is None {
                    lemma_parse_class_bounds(toks, q, attrs_or_empty(attrs), d, name);
                    if let Ok((c, r)) = spec_parse_class(toks, q, attrs_or_empty(attrs), d, name) {
                        let next = SpecSourceFile {
                            path: file.path,
                            uses: file.uses,
                            ty: Some(SpecTypeDefinition::Class(c)),
                            impls: file.impls,
                        };
                        lemma_top_uses_are_paths(toks, r, stem, next, None);
                    }
                }
            }
        },
        Some(Token::ImplKeyword(d)) => {
            if let Ok((ty, q)) = expect_ident(toks, p + 1) {
                if let Some(Token::OpenCurly(_)) = token_at(toks, q) {
                    lemma_parse_type_impl_bounds(toks, q + 1, d, ty);
                    if let Ok((i, r)) = spec_parse_type_impl(toks, q + 1, d, ty) {
                        let next = SpecSourceFile {
                            path: file.path,
                            uses: file.uses,
                            ty: file.ty,
                            impls: file.impls.push(i),
                        };
                        lemma_top_uses_are_paths(toks, r, stem, next, attrs);
                    }
                }
            }
        },
        _ => {},
    }
}

/// Every `use` declaration of a parsed source file names a package (or `self`) and at least
/// one item in it.
pub proof fn lemma_parsed_file_uses_are_paths(path: Seq<char>, stem: Seq<char>, toks: Seq<Token>)
    ensures
        spec_parse_source(path, stem, toks) matches Ok(f) ==> uses_are_paths(f),
{
    lemma_top_uses_are_paths(
        toks,
        0,
        stem,
        SpecSourceFile { path, uses: seq![], ty: None, impls: seq![] },
        None,
    );
}

/// Where the header of a function whose name stands at `p` ends: just after the `)` that
/// closes its parameters, if the name, the `(` and the parameters can be read.
pub open spec fn fn_header_end(toks: Seq<Token>, p: int) -> Option<int> {
    match expect_ident(toks, p) {
        Ok((_, q1)) => match expect_open_paren(toks, q1) {
            Ok((_, q2)) => match spec_params(toks, q2, seq![]) {
                Ok((_, q3)) => Some(q3),
                Err(_) => None,
            },
            Err(_) => None,
        },
        Err(_) => None,
    }
}

/// Where the header of a function whose parameters end at `q` ends: at `q`, or after the
/// return type that a `:` at `q` introduces.
pub open spec fn fn_signature_end(toks: Seq<Token>, q: int) -> int {
    match token_at(toks, q) {
        Some(Token::Colon(_)) => match spec_parse_type(toks, q + 1) {
            Ok((_, k)) => k,
            Err(_) => q,
        },
        _ => q,
    }
}

/// A parsed function has the name, the parameters and the return type written in its
/// header: the return type is the one after the `:` that follows the parameters, whether
/// the header ends with `;` or with a body, and there is none where no `:` follows them.
/// It has a body exactly when its header ends with `{`.
pub proof fn lemma_fn_return_type(toks: Seq<Token>, p: int, attrs: Seq<SpecAttribute>, def: Span)
    ensures
        spec_parse_fn(toks, p, attrs, def) matches Ok((f, _)) ==> (fn_header_end(toks, p) matches Some(
            q,
        ) && {
            &&& expect_ident(toks, p) matches Ok((name, _)) && f.name == name
            &&& f.attrs == attrs
            &&& f.def == def
            &&& (spec_params(toks, p + 2, seq![]) matches Ok((params, _)) && f.params == params)
            &&& if token_at(toks, q) matches Some(Token::Colon(_)) {
                spec_parse_type(toks, q + 1) matches Ok((t, _)) && f.ret == Some(t)
            } else {
                f.ret is None
            }
            &&& (f.body is Some <==> token_at(toks, fn_signature_end(toks, q)) matches Some(
                Token::OpenCurly(_),
            ))
            &&& (f.body is None <==> token_at(toks, fn_signature_end(toks, q)) matches Some(
                Token::Semicolon(_),
            ))
        }),
{
}

/// The uses of the file that reading a top level gives, on success or with an error.
pub open spec fn top_uses(r: Result<SpecSourceFile, (SyntaxError, SpecSourceFile)>) -> Seq<SpecUse> {
    match r {
        Ok(f) => f.uses,
        Err((_, f)) => f.uses,
    }
}

/// `file` with no uses.
pub open spec fn without_uses(file: SpecSourceFile) -> SpecSourceFile {
    SpecSourceFile { path: file.path, uses: seq![], ty: file.ty, impls: file.impls }
}

/// Reading a top level keeps the uses read before, in front, and adds the same uses
/// whatever they were: the uses it gives are those it was given followed by those it
/// gives from a file with no uses.
pub proof fn lemma_top_keeps_earlier_uses(
    toks: Seq<Token>,
    p: int,
    stem: Seq<char>,
    file: SpecSourceFile,
    attrs: Option<Seq<SpecAttribute>>,
)
    requires
        0 <= p,
    ensures
        top_uses(spec_top(toks, p, stem, file, attrs)) == file.uses + top_uses(
            spec_top(toks, p, stem, without_uses(file), attrs),
        ),
    decreases toks.len() - p,
{
    let bare = without_uses(file);
    match token_at(toks, p) {
        Some(Token::AttributeName(n)) => {
            lemma_parse_attributes_bounds(toks, p + 1, n);
            if let Ok((a, q)) = spec_parse_attributes(toks, p + 1, n) {
                lemma_top_keeps_earlier_uses(toks, q, stem, file, Some(a));
            } else {
                assert(file.uses + seq![] =~= file.uses);
            }
        },
        Some(Token::UseKeyword(d)) => {
            lemma_parse_use_bounds(toks, p + 1, d);
            if let Ok((u, q)) = spec_parse_use(toks, p + 1, d) {
                let next = SpecSourceFile {
                    path: file.path,
                    uses: file.uses.push(u),
                    ty: file.ty,
                    impls: file.impls,
                };
                let next_bare = SpecSourceFile {
                    path: bare.path,
                    uses: bare.uses.push(u),
                    ty: bare.ty,
                    impls: bare.impls,
                };
                lemma_top_keeps_earlier_uses(toks, q, stem, next, attrs);
                lemma_top_keeps_earlier_uses(toks, q, stem, next_bare, attrs);
                assert(without_uses(next) == without_uses(next_bare));
                assert(next_bare.uses =~= seq![u]);
                assert(file.uses.push(u) =~= file.uses + seq![u]);
                let rest = top_uses(spec_top(toks, q, stem, without_uses(next), attrs));
                assert(next.uses + rest =~= file.uses + (next_bare.uses + rest));
            } else {
                assert(file.uses + seq![] =~= file.uses);
            }
        },
        Some(Token::StructKeyword(d)) => {
            if let Ok((name, q)) = expect_ident(toks, p + 1) {
                if spec_can_define_type(file, stem, name) is None {
                    lemma_parse_struct_bounds(toks, q, attrs_or_empty(attrs), d, name);
                    if let Ok((s, r)) = spec_parse_struct(toks, q, attrs_or_empty(attrs), d, name) {
                        let next = SpecSourceFile {
                            path: file.path,
                            uses: file.uses,
                            ty: Some(SpecTypeDefinition::Struct(s)),
                            impls: file.impls,
                        };
                        lemma_top_keeps_earlier_uses(toks, r, stem, next, None);
                        assert(without_uses(next) == SpecSourceFile { uses: bare.uses, ..next });
                    } else {
                        assert(file.uses + seq![] =~= file.uses);
                    }
                } else {
                    assert(file.uses + seq![] =~= file.uses);
                }
            } else {
                assert(file.uses + seq![] =~= file.uses);
            }
        },
        Some(Token::ClassKeyword(d)) => {
            if let Ok((name, q)) = expect_ident(toks, p + 1) {
                if spec_can_define_type(file, stem, name) is None {
                    lemma_parse_class_bounds(toks, q, attrs_or_empty(attrs), d, name);
                    if let Ok((c, r)) = spec_parse_class(toks, q, attrs_or_empty(attrs), d, name) {
                        let next = SpecSourceFile {
                            path: file.path,
                            uses: file.uses,
                            ty: Some(SpecTypeDefinition::Class(c)),
                            impls: file.impls,
                        };
                        lemma_top_keeps_earlier_uses(toks, r, stem, next, None);
                        assert(without_uses(next) == SpecSourceFile { uses: bare.uses, ..next });
                    } else {
                        assert(file.uses + seq![] =~= file.uses);
                    }
                } else {
                    assert(file.uses + seq![] =~= file.uses);
                }
            } else {
                assert(file.uses + seq![] =~= file.uses);
            }
        },
        Some(Token::ImplKeyword(d)) => {
            if let Ok((ty, q)) = expect_ident(toks, p + 1) {
                if let Some(Token::OpenCurly(_)) = token_at(toks, q) {
                    lemma_parse_type_impl_bounds(toks, q + 1, d, ty);
                    if let Ok((i, r)) = spec_parse_type_impl(toks, q + 1, d, ty) {
                        let next = SpecSourceFile {
                            path: file.path,
                            uses: file.uses,
                            ty: file.ty,
                            impls: file.impls.push(i),
                        };
                        lemma_top_keeps_earlier_uses(toks, r, stem, next, attrs);
                        assert(without_uses(next) == SpecSourceFile { uses: bare.uses, ..next });
                    } else {
                        assert(file.uses + seq![] =~= file.uses);
                    }
                } else {
                    assert(file.uses + seq![] =~= file.uses);
                }
            } else {
                assert(file.uses + seq![] =~= file.uses);
            }
        },
        _ => {
            assert(file.uses + seq![] =~= file.uses);
        },
    }
}

/// A `use` declaration read at the top level of a source file adds exactly that use, right
/// after the uses read before it and before those read after it.
pub proof fn lemma_top_appends_use(
    toks: Seq<Token>,
    p: int,
    stem: Seq<char>,
    file: SpecSourceFile,
    attrs: Option<Seq<SpecAttribute>>,
    d: Span,
)
    requires
        0 <= p,
        token_at(toks, p) == Some(Token::UseKeyword(d)),
        spec_parse_use(toks, p + 1, d) is Ok,
    ensures
        ({
            let (u, q) = spec_parse_use(toks, p + 1, d)->Ok_0;
            top_uses(spec_top(toks, p, stem, file, attrs)) == file.uses.push(u) + top_uses(
                spec_top(toks, q, stem, without_uses(file), attrs),
            )
        }),
{
    lemma_parse_use_bounds(toks, p + 1, d);
    let (u, q) = spec_parse_use(toks, p + 1, d)->Ok_0;
    let next = SpecSourceFile {
        path: file.path,
        uses: file.uses.push(u),
        ty: file.ty,
        impls: file.impls,
    };
    lemma_top_keeps_earlier_uses(toks, q, stem, next, attrs);
    assert(without_uses(next) == without_uses(file));
}

} // verus!
