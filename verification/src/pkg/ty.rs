//! Types that a library exports.
use vstd::prelude::*;

verus! {

/// A type that a library exports.
#[derive(Debug)]
pub enum TypeDeclaration {
    Basic(BasicType),
}

/// A type with functions: its name and the symbol names of its functions, as the
/// code generator mangled them.
#[derive(Debug)]
pub struct BasicType {
    pub name: String,
    pub funcs: Vec<String>,
}

impl BasicType {
    pub fn new(name: String, funcs: Vec<String>) -> (r: BasicType)
        ensures
            r.name == name,
            r.funcs == funcs,
    {
        BasicType { name, funcs }
    }

    pub fn name(&self) -> (r: &str)
        ensures
            r@ == self.name@,
    {
        self.name.as_str()
    }

    pub fn funcs(&self) -> (r: &[String])
        ensures
            r@ == self.funcs@,
    {
        self.funcs.as_slice()
    }
}

} // verus!
