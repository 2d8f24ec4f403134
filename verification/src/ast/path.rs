//! Dotted paths such as `self.foo.Bar`.
use crate::lexer::Token;
use vstd::prelude::*;

verus! {

/// A path, kept as the tokens that spell it.
#[derive(Debug)]
pub struct Path {
    pub components: Vec<Token>,
}

impl View for Path {
    type V = Seq<Token>;

    open spec fn view(&self) -> Seq<Token> {
        self.components@
    }
}

impl Path {
    pub fn new(components: Vec<Token>) -> (r: Path)
        ensures
            r@ == components@,
    {
        Path { components }
    }

    pub fn components(&self) -> (r: &[Token])
        ensures
            r@ == self@,
    {
        self.components.as_slice()
    }
}

} // verus!
