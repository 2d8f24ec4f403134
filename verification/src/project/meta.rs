//! What a project's `Nitro.yml` declares.
use crate::pkg::meta::{PackageName, PackageVersion};
use vstd::prelude::*;

verus! {

/// The package that a project builds.
#[derive(Debug)]
pub struct ProjectPackage {
    pub name: PackageName,
    pub version: PackageVersion,
}

impl ProjectPackage {
    pub fn new(name: PackageName, version: PackageVersion) -> (r: ProjectPackage)
        ensures
            r.name == name,
            r.version == version,
    {
        ProjectPackage { name, version }
    }

    pub fn name(&self) -> (r: &PackageName)
        ensures
            *r == self.name,
    {
        &self.name
    }

    pub fn version(&self) -> (r: &PackageVersion)
        ensures
            *r == self.version,
    {
        &self.version
    }
}

/// A binary of a project: where its sources are.
#[derive(Debug)]
pub struct ProjectBinary {
    pub sources: String,
}

impl ProjectBinary {
    pub fn new(sources: String) -> (r: ProjectBinary)
        ensures
            r.sources == sources,
    {
        ProjectBinary { sources }
    }

    pub fn sources(&self) -> (r: &str)
        ensures
            r@ == self.sources@,
    {
        self.sources.as_str()
    }
}

/// The declaration of a project: its package, and its executable and library if it has them.
#[derive(Debug)]
pub struct ProjectMeta {
    pub package: ProjectPackage,
    pub executable: Option<ProjectBinary>,
    pub library: Option<ProjectBinary>,
}

impl ProjectMeta {
    pub fn new(
        package: ProjectPackage,
        executable: Option<ProjectBinary>,
        library: Option<ProjectBinary>,
    ) -> (r: ProjectMeta)
        ensures
            r.package == package,
            r.executable == executable,
            r.library == library,
    {
        ProjectMeta { package, executable, library }
    }

    pub fn package(&self) -> (r: &ProjectPackage)
        ensures
            *r == self.package,
    {
        &self.package
    }

    pub fn executable(&self) -> (r: Option<&ProjectBinary>)
        ensures
            match r {
                Some(b) => self.executable == Some(*b),
                None => self.executable is None,
            },
    {
        self.executable.as_ref()
    }

    pub fn library(&self) -> (r: Option<&ProjectBinary>)
        ensures
            match r {
                Some(b) => self.library == Some(*b),
                None => self.library is None,
            },
    {
        self.library.as_ref()
    }
}

} // verus!
