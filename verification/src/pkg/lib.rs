//! Libraries inside a package.
use crate::pkg::ty::TypeDeclaration;
use vstd::prelude::*;

verus! {

/// Where the code of a library is.
#[derive(Debug)]
pub enum LibraryBinary {
    /// A shared library bundled in the package, at this path.
    Bundle(String),
}

/// A library: its code and the types that it exports.
#[derive(Debug)]
pub struct Library {
    pub bin: LibraryBinary,
    pub types: Vec<TypeDeclaration>,
}

impl Library {
    pub fn new(bin: LibraryBinary, types: Vec<TypeDeclaration>) -> (r: Library)
        ensures
            r.bin == bin,
            r.types == types,
    {
        Library { bin, types }
    }

    pub fn bin(&self) -> (r: &LibraryBinary)
        ensures
            *r == self.bin,
    {
        &self.bin
    }

    pub fn types(&self) -> (r: &[TypeDeclaration])
        ensures
            r@ == self.types@,
    {
        self.types.as_slice()
    }
}

} // verus!
