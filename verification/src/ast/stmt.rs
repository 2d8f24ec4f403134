//! Blocks of statements. A block is kept as the tokens between its braces.
use crate::lexer::{last_span, syntax_error, token_at, Lexer, SyntaxError, Token};
use vstd::prelude::*;

verus! {

/// The tokens of a block from `p` on, `depth` braces deep, up to the `}` that closes it.
pub open spec fn spec_block_rest(toks: Seq<Token>, p: int, depth: nat, acc: Seq<Token>) -> Result<
    (Seq<Token>, int),
    SyntaxError,
>
    decreases toks.len() - p,
{
    match token_at(toks, p) {
        None => Err(syntax_error(last_span(toks, p), "expect '}' after this")),
        Some(Token::CloseCurly(s)) => if depth == 0 {
            Ok((acc, p + 1))
        } else {
            spec_block_rest(toks, p + 1, (depth - 1) as nat, acc.push(Token::CloseCurly(s)))
        },
        Some(Token::OpenCurly(s)) => spec_block_rest(
            toks,
            p + 1,
            depth + 1,
            acc.push(Token::OpenCurly(s)),
        ),
        Some(t) => spec_block_rest(toks, p + 1, depth, acc.push(t)),
    }
}

/// The block whose `{` stands just before `p`: its tokens and the position after its `}`.
pub open spec fn spec_parse_block(toks: Seq<Token>, p: int) -> Result<(Seq<Token>, int), SyntaxError> {
    spec_block_rest(toks, p, 0, seq![])
}

pub proof fn lemma_block_rest_bounds(toks: Seq<Token>, p: int, depth: nat, acc: Seq<Token>)
    requires
        0 <= p,
    ensures
        spec_block_rest(toks, p, depth, acc) matches Ok((_, q)) ==> p < q <= toks.len(),
    decreases toks.len() - p,
{
    if 0 <= p < toks.len() {
        match toks[p] {
            Token::CloseCurly(s) => {
                if depth != 0 {
                    lemma_block_rest_bounds(
                        toks,
                        p + 1,
                        (depth - 1) as nat,
                        acc.push(Token::CloseCurly(s)),
                    );
                }
            },
            Token::OpenCurly(s) => {
                lemma_block_rest_bounds(toks, p + 1, depth + 1, acc.push(Token::OpenCurly(s)));
            },
            t => lemma_block_rest_bounds(toks, p + 1, depth, acc.push(t)),
        }
    }
}

/// Reading a block consumes at least its closing `}` and never goes past the end.
pub proof fn lemma_parse_block_bounds(toks: Seq<Token>, p: int)
    requires
        0 <= p,
    ensures
        spec_parse_block(toks, p) matches Ok((_, q)) ==> p < q <= toks.len(),
{
    lemma_block_rest_bounds(toks, p, 0, seq![]);
}

/// Reads the rest of a block whose `{` was read last.
#[verifier::loop_isolation(false)]
pub fn parse_block(lex: &mut Lexer) -> (r: Result<Vec<Token>, SyntaxError>)
    requires
        old(lex).wf(),
        old(lex).tokens().len() > 0,
    ensures
        final(lex).wf(),
        final(lex).tokens() == old(lex).tokens(),
        match spec_parse_block(old(lex).tokens(), old(lex).pos()) {
            Ok((b, q)) => r matches Ok(v) && v@ == b && final(lex).pos() == q,
            Err(e) => r == Err::<Vec<Token>, SyntaxError>(e),
        },
{
    let ghost toks = lex.tokens();
    let ghost p0 = lex.pos();
    let mut body: Vec<Token> = Vec::new();
    let mut depth: usize = 0;
    loop
        invariant
            lex.wf(),
            lex.tokens() == toks,
            lex.tokens().len() > 0,
            depth <= lex.pos(),
            spec_parse_block(toks, p0) == spec_block_rest(toks, lex.pos(), depth as nat, body@),
        decreases toks.len() - lex.pos(),
    {
        match lex.next() {
            None => {
                return Err(SyntaxError::new(lex.last().unwrap(), "expect '}' after this"));
            },
            Some(Token::CloseCurly(s)) => {
                if depth == 0 {
                    return Ok(body);
                }
                depth = depth - 1;
                body.push(Token::CloseCurly(s));
            },
            Some(Token::OpenCurly(s)) => {
                depth = depth + 1;
                body.push(Token::OpenCurly(s));
            },
            Some(t) => {
                body.push(t);
            },
        }
    }
}

} // verus!
