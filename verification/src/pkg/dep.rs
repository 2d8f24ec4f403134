//! Dependencies of a binary.
use crate::pkg::meta::{PackageName, PackageVersion};
use vstd::prelude::*;

verus! {

/// A package that a binary needs.
#[derive(Debug)]
pub struct Dependency {
    pub name: PackageName,
    pub version: PackageVersion,
}

impl Dependency {
    pub fn new(name: PackageName, version: PackageVersion) -> (r: Dependency)
        ensures
            r.name == name,
            r.version == version,
    {
        Dependency { name, version }
    }
}

} // verus!
