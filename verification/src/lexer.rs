//! Tokens of a Nitro source file and the cursor that the parser reads them with.
use vstd::prelude::*;

verus! {

/// A position in a source file.
#[derive(Clone, Copy, Debug, PartialEq, Eq, Structural)]
pub struct Span {
    pub line: usize,
    pub col: usize,
}

impl Span {
    pub fn new(line: usize, col: usize) -> (s: Span)
        ensures
            s.line == line,
            s.col == col,
    {
        Span { line, col }
    }
}

/// An identifier together with the place where it was written.
#[derive(Clone, Debug)]
pub struct Identifier {
    pub span: Span,
    pub value: String,
}

impl Identifier {
    pub fn new(span: Span, value: String) -> (r: Identifier)
        ensures
            r.span == span,
            r.value == value,
    {
        Identifier { span, value }
    }

    pub fn span(&self) -> (r: &Span)
        ensures
            *r == self.span,
    {
        &self.span
    }

    pub fn value(&self) -> (r: &str)
        ensures
            r@ == self.value@,
    {
        self.value.as_str()
    }

    /// A copy of this identifier.
    pub fn duplicate(&self) -> (r: Identifier)
        ensures
            r == *self,
    {
        Identifier { span: self.span, value: self.value.clone() }
    }

    /// Whether two identifiers have the same text (where they stand is not compared).
    pub fn same_name(&self, other: &Identifier) -> (r: bool)
        ensures
            r == (self.value@ == other.value@),
    {
        self.value == other.value
    }
}

/// A token of a Nitro source file.
///
/// `Other` stands for every token that the item grammar does not tell apart
/// (operators, literals and the keywords of statements inside function bodies).
#[derive(Clone, Debug)]
pub enum Token {
    AttributeName(Identifier),
    UseKeyword(Span),
    StructKeyword(Span),
    ClassKeyword(Span),
    ImplKeyword(Span),
    FnKeyword(Span),
    SelfKeyword(Span),
    Identifier(Identifier),
    FullStop(Span),
    Comma(Span),
    Colon(Span),
    Semicolon(Span),
    Asterisk(Span),
    ExclamationMark(Span),
    OpenParenthesis(Span),
    CloseParenthesis(Span),
    OpenCurly(Span),
    CloseCurly(Span),
    Other(Span),
}

impl Token {
    /// Where the token stands.
    pub open spec fn spec_span(&self) -> Span {
        match self {
            Token::AttributeName(i) => i.span,
            Token::UseKeyword(s) => *s,
            Token::StructKeyword(s) => *s,
            Token::ClassKeyword(s) => *s,
            Token::ImplKeyword(s) => *s,
            Token::FnKeyword(s) => *s,
            Token::SelfKeyword(s) => *s,
            Token::Identifier(i) => i.span,
            Token::FullStop(s) => *s,
            Token::Comma(s) => *s,
            Token::Colon(s) => *s,
            Token::Semicolon(s) => *s,
            Token::Asterisk(s) => *s,
            Token::ExclamationMark(s) => *s,
            Token::OpenParenthesis(s) => *s,
            Token::CloseParenthesis(s) => *s,
            Token::OpenCurly(s) => *s,
            Token::CloseCurly(s) => *s,
            Token::Other(s) => *s,
        }
    }

    pub fn span(&self) -> (r: Span)
        ensures
            r == self.spec_span(),
    {
        match self {
            Token::AttributeName(i) => i.span,
            Token::UseKeyword(s) => *s,
            Token::StructKeyword(s) => *s,
            Token::ClassKeyword(s) => *s,
            Token::ImplKeyword(s) => *s,
            Token::FnKeyword(s) => *s,
            Token::SelfKeyword(s) => *s,
            Token::Identifier(i) => i.span,
            Token::FullStop(s) => *s,
            Token::Comma(s) => *s,
            Token::Colon(s) => *s,
            Token::Semicolon(s) => *s,
            Token::Asterisk(s) => *s,
            Token::ExclamationMark(s) => *s,
            Token::OpenParenthesis(s) => *s,
            Token::CloseParenthesis(s) => *s,
            Token::OpenCurly(s) => *s,
            Token::CloseCurly(s) => *s,
            Token::Other(s) => *s,
        }
    }

    /// A copy of this token.
    pub fn duplicate(&self) -> (r: Token)
        ensures
            r == *self,
    {
        match self {
            Token::AttributeName(i) => Token::AttributeName(i.duplicate()),
            Token::UseKeyword(s) => Token::UseKeyword(*s),
            Token::StructKeyword(s) => Token::StructKeyword(*s),
            Token::ClassKeyword(s) => Token::ClassKeyword(*s),
            Token::ImplKeyword(s) => Token::ImplKeyword(*s),
            Token::FnKeyword(s) => Token::FnKeyword(*s),
            Token::SelfKeyword(s) => Token::SelfKeyword(*s),
            Token::Identifier(i) => Token::Identifier(i.duplicate()),
            Token::FullStop(s) => Token::FullStop(*s),
            Token::Comma(s) => Token::Comma(*s),
            Token::Colon(s) => Token::Colon(*s),
            Token::Semicolon(s) => Token::Semicolon(*s),
            Token::Asterisk(s) => Token::Asterisk(*s),
            Token::ExclamationMark(s) => Token::ExclamationMark(*s),
            Token::OpenParenthesis(s) => Token::OpenParenthesis(*s),
            Token::CloseParenthesis(s) => Token::CloseParenthesis(*s),
            Token::OpenCurly(s) => Token::OpenCurly(*s),
            Token::CloseCurly(s) => Token::CloseCurly(*s),
            Token::Other(s) => Token::Other(*s),
        }
    }
}

/// An error in the syntax of a source file: where it is and what was expected.
#[derive(Debug)]
pub struct SyntaxError {
    pub span: Span,
    pub reason: &'static str,
}

impl SyntaxError {
    pub fn new(span: Span, reason: &'static str) -> (r: SyntaxError)
        ensures
            r == syntax_error(span, reason),
    {
        SyntaxError { span, reason }
    }

    pub fn span(&self) -> (r: &Span)
        ensures
            *r == self.span,
    {
        &self.span
    }

    pub fn reason(&self) -> (r: &'static str)
        ensures
            r == self.reason,
    {
        self.reason
    }
}

pub open spec fn syntax_error(span: Span, reason: &'static str) -> SyntaxError {
    SyntaxError { span, reason }
}

/// The token at position `p`, if there is one.
pub open spec fn token_at(toks: Seq<Token>, p: int) -> Option<Token> {
    if 0 <= p < toks.len() {
        Some(toks[p])
    } else {
        None
    }
}

/// Where the token before position `p` stands (the last one that was read).
pub open spec fn last_span(toks: Seq<Token>, p: int) -> Span {
    toks[p - 1].spec_span()
}

/// Reading an identifier at `p`: the identifier and the position after it.
pub open spec fn expect_ident(toks: Seq<Token>, p: int) -> Result<(Identifier, int), SyntaxError> {
    match token_at(toks, p) {
        Some(Token::Identifier(i)) => Ok((i, p + 1)),
        Some(t) => Err(syntax_error(t.spec_span(), "expect an identifier")),
        None => Err(syntax_error(last_span(toks, p), "expect an identifier after this")),
    }
}

/// Reading a `;` at `p`.
pub open spec fn expect_semicolon(toks: Seq<Token>, p: int) -> Result<(Span, int), SyntaxError> {
    match token_at(toks, p) {
        Some(Token::Semicolon(s)) => Ok((s, p + 1)),
        Some(t) => Err(syntax_error(t.spec_span(), "expect ';'")),
        None => Err(syntax_error(last_span(toks, p), "expect ';' after this")),
    }
}

/// Reading a `{` at `p`.
pub open spec fn expect_open_curly(toks: Seq<Token>, p: int) -> Result<(Span, int), SyntaxError> {
    match token_at(toks, p) {
        Some(Token::OpenCurly(s)) => Ok((s, p + 1)),
        Some(t) => Err(syntax_error(t.spec_span(), "expect '{'")),
        None => Err(syntax_error(last_span(toks, p), "expect '{' after this")),
    }
}

/// Reading a `(` at `p`.
pub open spec fn expect_open_paren(toks: Seq<Token>, p: int) -> Result<(Span, int), SyntaxError> {
    match token_at(toks, p) {
        Some(Token::OpenParenthesis(s)) => Ok((s, p + 1)),
        Some(t) => Err(syntax_error(t.spec_span(), "expect '('")),
        None => Err(syntax_error(last_span(toks, p), "expect '(' after this")),
    }
}

/// Reading a `)` at `p`.
pub open spec fn expect_close_paren(toks: Seq<Token>, p: int) -> Result<(Span, int), SyntaxError> {
    match token_at(toks, p) {
        Some(Token::CloseParenthesis(s)) => Ok((s, p + 1)),
        Some(t) => Err(syntax_error(t.spec_span(), "expect ')'")),
        None => Err(syntax_error(last_span(toks, p), "expect ')' after this")),
    }
}

/// Reading a `:` at `p`.
pub open spec fn expect_colon(toks: Seq<Token>, p: int) -> Result<(Span, int), SyntaxError> {
    match token_at(toks, p) {
        Some(Token::Colon(s)) => Ok((s, p + 1)),
        Some(t) => Err(syntax_error(t.spec_span(), "expect ':'")),
        None => Err(syntax_error(last_span(toks, p), "expect ':' after this")),
    }
}

/// A cursor over the tokens of one source file.
pub struct Lexer {
    tokens: Vec<Token>,
    pos: usize,
}

impl Lexer {
    /// The tokens that the cursor reads.
    pub closed spec fn tokens(&self) -> Seq<Token> {
        self.tokens@
    }

    /// How many tokens have been read.
    pub closed spec fn pos(&self) -> int {
        self.pos as int
    }

    pub open spec fn wf(&self) -> bool {
        0 <= self.pos() <= self.tokens().len() <= usize::MAX
    }

    pub fn new(tokens: Vec<Token>) -> (r: Lexer)
        ensures
            r.wf(),
            r.tokens() == tokens@,
            r.pos() == 0,
    {
        let r = Lexer { tokens, pos: 0 };
        assert(r.tokens@.len() == r.tokens.len());
        r
    }

    /// Reads the next token.
    pub fn next(&mut self) -> (r: Option<Token>)
        requires
            old(self).wf(),
        ensures
            final(self).wf(),
            final(self).tokens() == old(self).tokens(),
            r == token_at(old(self).tokens(), old(self).pos()),
            final(self).pos() == if r is Some {
                old(self).pos() + 1
            } else {
                old(self).pos()
            },
    {
        if self.pos < self.tokens.len() {
            let t = self.tokens[self.pos].duplicate();
            self.pos = self.pos + 1;
            Some(t)
        } else {
            None
        }
    }

    /// Gives back the token that was read last.
    pub fn undo(&mut self)
        requires
            old(self).wf(),
            old(self).pos() > 0,
        ensures
            final(self).wf(),
            final(self).tokens() == old(self).tokens(),
            final(self).pos() == old(self).pos() - 1,
    {
        self.pos = self.pos - 1;
    }

    /// Where the token that was read last stands.
    pub fn last(&self) -> (r: Option<Span>)
        requires
            self.wf(),
        ensures
            r == if self.pos() > 0 {
                Some(last_span(self.tokens(), self.pos()))
            } else {
                None::<Span>
            },
    {
        if self.pos > 0 {
            Some(self.tokens[self.pos - 1].span())
        } else {
            None
        }
    }

    fn last_read(&self) -> (r: Span)
        requires
            self.wf(),
            self.pos() > 0,
        ensures
            r == last_span(self.tokens(), self.pos()),
    {
        self.tokens[self.pos - 1].span()
    }

    pub fn next_ident(&mut self) -> (r: Result<Identifier, SyntaxError>)
        requires
            old(self).wf(),
            old(self).tokens().len() > 0,
        ensures
            final(self).wf(),
            final(self).tokens() == old(self).tokens(),
            match expect_ident(old(self).tokens(), old(self).pos()) {
                Ok((i, q)) => r == Ok::<Identifier, SyntaxError>(i) && final(self).pos() == q,
                Err(e) => r == Err::<Identifier, SyntaxError>(e),
            },
    {
        match self.next() {
            Some(Token::Identifier(i)) => Ok(i),
            Some(t) => Err(SyntaxError::new(t.span(), "expect an identifier")),
            None => Err(SyntaxError::new(self.last_read(), "expect an identifier after this")),
        }
    }

    pub fn next_semicolon(&mut self) -> (r: Result<Span, SyntaxError>)
        requires
            old(self).wf(),
            old(self).tokens().len() > 0,
        ensures
            final(self).wf(),
            final(self).tokens() == old(self).tokens(),
            match expect_semicolon(old(self).tokens(), old(self).pos()) {
                Ok((s, q)) => r == Ok::<Span, SyntaxError>(s) && final(self).pos() == q,
                Err(e) => r == Err::<Span, SyntaxError>(e),
            },
    {
        match self.next() {
            Some(Token::Semicolon(s)) => Ok(s),
            Some(t) => Err(SyntaxError::new(t.span(), "expect ';'")),
            None => Err(SyntaxError::new(self.last_read(), "expect ';' after this")),
        }
    }

    pub fn next_oc(&mut self) -> (r: Result<Span, SyntaxError>)
        requires
            old(self).wf(),
            old(self).tokens().len() > 0,
        ensures
            final(self).wf(),
            final(self).tokens() == old(self).tokens(),
            match expect_open_curly(old(self).tokens(), old(self).pos()) {
                Ok((s, q)) => r == Ok::<Span, SyntaxError>(s) && final(self).pos() == q,
                Err(e) => r == Err::<Span, SyntaxError>(e),
            },
    {
        match self.next() {
            Some(Token::OpenCurly(s)) => Ok(s),
            Some(t) => Err(SyntaxError::new(t.span(), "expect '{'")),
            None => Err(SyntaxError::new(self.last_read(), "expect '{' after this")),
        }
    }

    pub fn next_op(&mut self) -> (r: Result<Span, SyntaxError>)
        requires
            old(self).wf(),
            old(self).tokens().len() > 0,
        ensures
            final(self).wf(),
            final(self).tokens() == old(self).tokens(),
            match expect_open_paren(old(self).tokens(), old(self).pos()) {
                Ok((s, q)) => r == Ok::<Span, SyntaxError>(s) && final(self).pos() == q,
                Err(e) => r == Err::<Span, SyntaxError>(e),
            },
    {
        match self.next() {
            Some(Token::OpenParenthesis(s)) => Ok(s),
            Some(t) => Err(SyntaxError::new(t.span(), "expect '('")),
            None => Err(SyntaxError::new(self.last_read(), "expect '(' after this")),
        }
    }

    pub fn next_cp(&mut self) -> (r: Result<Span, SyntaxError>)
        requires
            old(self).wf(),
            old(self).tokens().len() > 0,
        ensures
            final(self).wf(),
            final(self).tokens() == old(self).tokens(),
            match expect_close_paren(old(self).tokens(), old(self).pos()) {
                Ok((s, q)) => r == Ok::<Span, SyntaxError>(s) && final(self).pos() == q,
                Err(e) => r == Err::<Span, SyntaxError>(e),
            },
    {
        match self.next() {
            Some(Token::CloseParenthesis(s)) => Ok(s),
            Some(t) => Err(SyntaxError::new(t.span(), "expect ')'")),
            None => Err(SyntaxError::new(self.last_read(), "expect ')' after this")),
        }
    }

    pub fn next_colon(&mut self) -> (r: Result<Span, SyntaxError>)
        requires
            old(self).wf(),
            old(self).tokens().len() > 0,
        ensures
            final(self).wf(),
            final(self).tokens() == old(self).tokens(),
            match expect_colon(old(self).tokens(), old(self).pos()) {
                Ok((s, q)) => r == Ok::<Span, SyntaxError>(s) && final(self).pos() == q,
                Err(e) => r == Err::<Span, SyntaxError>(e),
            },
    {
        match self.next() {
            Some(Token::Colon(s)) => Ok(s),
            Some(t) => Err(SyntaxError::new(t.span(), "expect ':'")),
            None => Err(SyntaxError::new(self.last_read(), "expect ':' after this")),
        }
    }
}

} // verus!
