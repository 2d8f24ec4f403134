//! Attributes written before an item, such as `@repr(u8)`.
//!
//! An attribute is its name, then optionally the tokens between a `(` and the
//! first `)` that follows it. Attributes written one after another form one list.
use crate::lexer::{
    last_span, syntax_error, token_at, Identifier, Lexer, SyntaxError, Token,
};
use vstd::prelude::*;

verus! {

/// One attribute.
#[derive(Debug)]
pub struct Attribute {
    pub name: Identifier,
    pub args: Option<Vec<Token>>,
}

/// What an [`Attribute`] holds, as plain values.
pub struct SpecAttribute {
    pub name: Identifier,
    pub args: Option<Seq<Token>>,
}

impl View for Attribute {
    type V = SpecAttribute;

    open spec fn view(&self) -> SpecAttribute {
        SpecAttribute {
            name: self.name,
            args: match self.args {
                Some(a) => Some(a@),
                None => None,
            },
        }
    }
}

/// The attributes of an item, in the order they were written.
#[derive(Debug)]
pub struct Attributes {
    pub items: Vec<Attribute>,
}

impl View for Attributes {
    type V = Seq<SpecAttribute>;

    open spec fn view(&self) -> Seq<SpecAttribute> {
        self.items@.map_values(|a: Attribute| a@)
    }
}

/// Whether an attribute is `repr` with a single identifier as its argument.
pub open spec fn is_repr(a: SpecAttribute) -> bool {
    &&& a.name.value@ == "repr"@
    &&& a.args matches Some(args)
    &&& args.len() == 1
    &&& args[0] is Identifier
}

/// The first `repr` attribute of a list: its name and the representation it names.
pub open spec fn spec_repr(attrs: Seq<SpecAttribute>) -> Option<(Identifier, Identifier)>
    decreases attrs.len(),
{
    if attrs.len() == 0 {
        None
    } else if is_repr(attrs[0]) {
        Some((attrs[0].name, attrs[0].args.unwrap()[0]->Identifier_0))
    } else {
        spec_repr(attrs.drop_first())
    }
}

/// The tokens of an argument list after its `(`, up to the `)` that closes it.
pub open spec fn spec_attr_args_body(toks: Seq<Token>, p: int, acc: Seq<Token>) -> Result<
    (Seq<Token>, int),
    SyntaxError,
>
    decreases toks.len() - p,
{
    match token_at(toks, p) {
        None => Err(syntax_error(last_span(toks, p), "expect ')' after this")),
        Some(Token::CloseParenthesis(_)) => Ok((acc, p + 1)),
        Some(t) => spec_attr_args_body(toks, p + 1, acc.push(t)),
    }
}

/// The argument list of an attribute whose name stands just before `p`, if it has one.
pub open spec fn spec_attr_args(toks: Seq<Token>, p: int) -> Result<
    (Option<Seq<Token>>, int),
    SyntaxError,
> {
    match token_at(toks, p) {
        Some(Token::OpenParenthesis(_)) => match spec_attr_args_body(toks, p + 1, seq![]) {
            Ok((a, q)) => Ok((Some(a), q)),
            Err(e) => Err(e),
        },
        _ => Ok((None, p)),
    }
}

/// The attributes that follow, one after another, from `p` on.
pub open spec fn spec_attributes_rest(toks: Seq<Token>, p: int, acc: Seq<SpecAttribute>) -> Result<
    (Seq<SpecAttribute>, int),
    SyntaxError,
>
    decreases toks.len() - p,
{
    match token_at(toks, p) {
        Some(Token::AttributeName(n)) => match spec_attr_args(toks, p + 1) {
            Ok((args, q)) => {
                proof {
                    lemma_attr_args_bounds(toks, p + 1);
                }
                spec_attributes_rest(toks, q, acc.push(SpecAttribute { name: n, args }))
            },
            Err(e) => Err(e),
        },
        _ => Ok((acc, p)),
    }
}

/// The attribute list that starts with the attribute `name`, whose name token stands
/// just before `p`.
pub open spec fn spec_parse_attributes(toks: Seq<Token>, p: int, name: Identifier) -> Result<
    (Seq<SpecAttribute>, int),
    SyntaxError,
> {
    match spec_attr_args(toks, p) {
        Ok((args, q)) => spec_attributes_rest(toks, q, seq![SpecAttribute { name, args }]),
        Err(e) => Err(e),
    }
}

pub proof fn lemma_attr_args_body_bounds(toks: Seq<Token>, p: int, acc: Seq<Token>)
    requires
        0 <= p,
    ensures
        spec_attr_args_body(toks, p, acc) matches Ok((_, q)) ==> p < q <= toks.len(),
    decreases toks.len() - p,
{
    if 0 <= p < toks.len() {
        match toks[p] {
            Token::CloseParenthesis(_) => {},
            t => lemma_attr_args_body_bounds(toks, p + 1, acc.push(t)),
        }
    }
}

pub proof fn lemma_attr_args_bounds(toks: Seq<Token>, p: int)
    requires
        0 <= p <= toks.len(),
    ensures
        spec_attr_args(toks, p) matches Ok((_, q)) ==> p <= q <= toks.len(),
{
    lemma_attr_args_body_bounds(toks, p + 1, seq![]);
}

pub proof fn lemma_attributes_rest_bounds(toks: Seq<Token>, p: int, acc: Seq<SpecAttribute>)
    requires
        0 <= p <= toks.len(),
    ensures
        spec_attributes_rest(toks, p, acc) matches Ok((_, q)) ==> p <= q <= toks.len(),
    decreases toks.len() - p,
{
    if let Some(Token::AttributeName(n)) = token_at(toks, p) {
        lemma_attr_args_bounds(toks, p + 1);
        if let Ok((args, q)) = spec_attr_args(toks, p + 1) {
            lemma_attributes_rest_bounds(toks, q, acc.push(SpecAttribute { name: n, args }));
        }
    }
}

/// Reading an attribute list never moves backwards nor past the end.
pub proof fn lemma_parse_attributes_bounds(toks: Seq<Token>, p: int, name: Identifier)
    requires
        0 <= p <= toks.len(),
    ensures
        spec_parse_attributes(toks, p, name) matches Ok((_, q)) ==> p <= q <= toks.len(),
{
    lemma_attr_args_bounds(toks, p);
    if let Ok((args, q)) = spec_attr_args(toks, p) {
        lemma_attributes_rest_bounds(toks, q, seq![SpecAttribute { name, args }]);
    }
}

impl Attributes {
    /// An empty list.
    pub fn new() -> (r: Attributes)
        ensures
            r@ == Seq::<SpecAttribute>::empty(),
    {
        let r = Attributes { items: Vec::new() };
        assert(r@ =~= Seq::<SpecAttribute>::empty());
        r
    }

    /// Reads the argument list of the attribute whose name was read last.
    #[verifier::loop_isolation(false)]
    fn parse_args(lex: &mut Lexer) -> (r: Result<Option<Vec<Token>>, SyntaxError>)
        requires
            old(lex).wf(),
        ensures
            final(lex).wf(),
            final(lex).tokens() == old(lex).tokens(),
            match spec_attr_args(old(lex).tokens(), old(lex).pos()) {
                Ok((a, q)) => r matches Ok(v) && final(lex).pos() == q && (match v {
                    Some(x) => Some(x@),
                    None => None,
                }) == a,
                Err(e) => r == Err::<Option<Vec<Token>>, SyntaxError>(e),
            },
    {
        let ghost toks = lex.tokens();
        let ghost p0 = lex.pos();
        match lex.next() {
            Some(Token::OpenParenthesis(_)) => {
                let mut args: Vec<Token> = Vec::new();
                loop
                    invariant
                        lex.wf(),
                        lex.tokens() == toks,
                        lex.tokens().len() > 0,
                        spec_attr_args_body(toks, p0 + 1, seq![]) == spec_attr_args_body(
                            toks,
                            lex.pos(),
                            args@,
                        ),
                    decreases toks.len() - lex.pos(),
                {
                    match lex.next() {
                        None => {
                            return Err(SyntaxError::new(lex.last().unwrap(), "expect ')' after this"));
                        },
                        Some(Token::CloseParenthesis(_)) => {
                            return Ok(Some(args));
                        },
                        Some(t) => {
                            args.push(t);
                        },
                    }
                }
            },
            Some(_) => {
                lex.undo();
                Ok(None)
            },
            None => Ok(None),
        }
    }

    /// Reads an attribute list whose first name, `name`, was read last.
    #[verifier::loop_isolation(false)]
    pub fn parse(lex: &mut Lexer, name: Identifier) -> (r: Result<Attributes, SyntaxError>)
        requires
            old(lex).wf(),
        ensures
            final(lex).wf(),
            final(lex).tokens() == old(lex).tokens(),
            match spec_parse_attributes(old(lex).tokens(), old(lex).pos(), name) {
                Ok((a, q)) => r matches Ok(v) && v@ == a && final(lex).pos() == q,
                Err(e) => r == Err::<Attributes, SyntaxError>(e),
            },
    {
        let ghost toks = lex.tokens();
        let ghost p0 = lex.pos();
        let ghost name0 = name;
        proof {
            lemma_attr_args_bounds(toks, p0);
        }
        let args = Self::parse_args(lex)?;
        let mut items: Vec<Attribute> = Vec::new();
        items.push(Attribute { name, args });
        proof {
            assert(items@.map_values(|a: Attribute| a@) =~= seq![items@[0]@]);
        }
        loop
            invariant
                lex.wf(),
                lex.tokens() == toks,
                spec_parse_attributes(toks, p0, name0) == spec_attributes_rest(
                    toks,
                    lex.pos(),
                    items@.map_values(|a: Attribute| a@),
                ),
            decreases toks.len() - lex.pos(),
        {
            let ghost before = items@.map_values(|a: Attribute| a@);
            match lex.next() {
                Some(Token::AttributeName(n)) => {
                    proof {
                        lemma_attr_args_bounds(toks, lex.pos());
                    }
                    let args = Self::parse_args(lex)?;
                    let attr = Attribute { name: n, args };
                    let ghost av = attr@;
                    items.push(attr);
                    assert(items@.map_values(|a: Attribute| a@) =~= before.push(av));
                },
                Some(_) => {
                    lex.undo();
                    return Ok(Attributes { items });
                },
                None => {
                    return Ok(Attributes { items });
                },
            }
        }
    }

    /// The first `repr` attribute: its name and the representation that it names.
    pub fn repr(&self) -> (r: Option<(&Identifier, &Identifier)>)
        ensures
            match spec_repr(self@) {
                Some((n, t)) => r matches Some((x, y)) && *x == n && *y == t,
                None => r is None,
            },
    {
        let repr_name = String::from_str("repr");
        let mut i: usize = 0;
        assert(self@.skip(0) =~= self@);
        while i < self.items.len()
            invariant
                0 <= i <= self.items.len(),
                repr_name@ == "repr"@,
                spec_repr(self@) == spec_repr(self@.skip(i as int)),
            decreases self.items.len() - i,
        {
            let a = &self.items[i];
            assert(self@.skip(i as int)[0] == a@);
            assert(self@.skip(i as int).drop_first() =~= self@.skip(i + 1));
            if a.name.value == repr_name {
                if let Some(args) = &a.args {
                    if args.len() == 1 {
                        if let Token::Identifier(t) = &args[0] {
                            return Some((&a.name, t));
                        }
                    }
                }
            }
            i = i + 1;
        }
        None
    }
}

} // verus!
