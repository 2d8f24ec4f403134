//! `use` declarations.
use crate::ast::path::Path;
use crate::lexer::{Identifier, Span, Token};
use vstd::prelude::*;

verus! {

/// A `use` declaration.
#[derive(Debug)]
pub struct Use {
    pub def: Span,
    pub name: Path,
    pub rename: Option<Identifier>,
}

/// What a [`Use`] holds, as plain values.
pub struct SpecUse {
    pub def: Span,
    pub name: Seq<Token>,
    pub rename: Option<Identifier>,
}

impl View for Use {
    type V = SpecUse;

    open spec fn view(&self) -> SpecUse {
        SpecUse { def: self.def, name: self.name@, rename: self.rename }
    }
}

impl Use {
    pub fn new(def: Span, name: Path, rename: Option<Identifier>) -> (r: Use)
        ensures
            r@ == (SpecUse { def, name: name@, rename }),
    {
        Use { def, name, rename }
    }

    pub fn name(&self) -> (r: &Path)
        ensures
            r == &self.name,
    {
        &self.name
    }
}

} // verus!
