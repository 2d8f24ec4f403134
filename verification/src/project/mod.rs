//! Nitro projects.
pub mod builder;
pub mod link;
pub mod meta;
pub mod source;

use crate::ast::grammar::SpecSourceFile;
use crate::ast::{ParseError, SourceFile};
use crate::lexer::SyntaxError;
use crate::pkg::meta::PackageMeta;
use crate::pkg::target::{all_primitive_targets, lemma_all_primitive_targets, PrimitiveTarget, Target};
use crate::project::builder::Build;
use crate::project::link::{joined_path, path_join};
use crate::project::meta::{ProjectBinary, ProjectMeta};
use crate::project::source::{has_name, qualified_name, qualified_name_of, strings_view, SourceSet};
use vstd::prelude::*;

verus! {

/// Whether `std::path::Path::is_absolute` holds of a path.
pub uninterp spec fn is_absolute_path(path: Seq<char>) -> bool;

/// Whether `path` is absolute, by `std::path::Path::is_absolute`.
///
/// Its contract only names the result: what makes a path absolute is not restated here.
#[verifier::external_body]
fn path_is_absolute(path: &str) -> (r: bool)
    ensures
        r == is_absolute_path(path@),
{
    std::path::Path::new(path).is_absolute()
}

/// Where the sources declared as `sources` are, for the project in the directory `path`:
/// an absolute path stands as it is, a relative one is taken from the project's directory.
pub open spec fn source_root(path: Seq<char>, sources: Seq<char>) -> Seq<char> {
    if is_absolute_path(sources) {
        sources
    } else {
        joined_path(path, sources)
    }
}

/// Represents an error when the target resolver cannot resolve a target.
#[derive(Debug)]
pub struct TargetResolveError {
    pub reason: String,
}

/// Represents an error when the code generator cannot build an object file.
#[derive(Debug)]
pub struct BuildError {
    pub reason: String,
}

/// Represents an error when a [`Project`] is failed to link.
#[derive(Debug)]
pub struct LinkError(pub String);

impl LinkError {
    pub fn new(message: String) -> (r: LinkError)
        ensures
            r.0 == message,
    {
        LinkError(message)
    }

    /// What the linker reported.
    pub fn message(&self) -> (r: &str)
        ensures
            r@ == self.0@,
    {
        self.0.as_str()
    }
}

/// Why the manifest of a project could not be had.
#[derive(Debug)]
pub enum ManifestError {
    /// The file could not be opened.
    OpenFailed(std::io::Error),
    /// What the file holds is not a project declaration.
    ParseFailed(serde_yaml::Error),
}

/// The manifest of the project in the directory `path`: `<path>/Nitro.yml`.
pub open spec fn manifest_of(path: Seq<char>) -> Seq<char> {
    joined_path(path, "Nitro.yml"@)
}

/// Represents an error when a [`Project`] is failed to open.
#[derive(Debug)]
pub enum ProjectOpenError {
    OpenFileFailed(String, std::io::Error),
    ParseProjectFailed(String, serde_yaml::Error),
    MissingBinary(String),
}

/// Represents an error when a [`Project`] is failed to load.
#[derive(Debug)]
pub enum ProjectLoadError {
    EnumerateFilesFailed(String, std::io::Error),
    AccessFileFailed(String, std::io::Error),
    GetMetadataFailed(String, std::io::Error),
    ParseSourceFailed(String, ParseError),
    NonUtf8Path(String),
}

/// Represents an error when a [`Project`] is failed to build.
#[derive(Debug)]
pub enum ProjectBuildError {
    ResolvePrimitiveTargetFailed(Target, TargetResolveError),
    ResolveParentTargetFailed(Target, TargetResolveError),
    InvalidSyntax(String, SyntaxError),
    CreateDirectoryFailed(String, std::io::Error),
    BuildFailed(String, BuildError),
    CreateModuleDefinitionFailed(String, std::io::Error),
    LinkFailed(String, LinkError),
}

/// A Nitro project.
#[derive(Debug)]
pub struct Project {
    path: String,
    meta: ProjectMeta,
    exe: SourceSet,
    lib: SourceSet,
}

impl Project {
    pub closed spec fn spec_path(&self) -> Seq<char> {
        self.path@
    }

    pub closed spec fn spec_meta(&self) -> ProjectMeta {
        self.meta
    }

    /// The sources of the executable.
    pub closed spec fn spec_exe(&self) -> Seq<(Seq<char>, SpecSourceFile)> {
        self.exe@
    }

    /// The sources of the library.
    pub closed spec fn spec_lib(&self) -> Seq<(Seq<char>, SpecSourceFile)> {
        self.lib@
    }

    /// What every project keeps: it declares a binary, and no two of its sources define a
    /// type of the same name.
    pub closed spec fn wf(&self) -> bool {
        &&& self.meta.executable is Some || self.meta.library is Some
        &&& self.exe@.len() > 0 ==> self.meta.executable is Some
        &&& self.lib@.len() > 0 ==> self.meta.library is Some
        &&& self.exe.wf()
        &&& self.lib.wf()
    }

    /// The manifest of the project in the directory `path`: its `Nitro.yml`.
    pub fn manifest_path(path: &str) -> (r: String)
        ensures
            r@ == manifest_of(path@),
    {
        path_join(path, "Nitro.yml")
    }

    /// The project in the directory `path`, from what was read of its manifest (see
    /// [`Self::manifest_path`]): the declaration, or why it could not be had. A project
    /// declares an executable, a library or both.
    pub fn open(path: String, read: Result<ProjectMeta, ManifestError>) -> (r: Result<
        Project,
        ProjectOpenError,
    >)
        ensures
            match read {
                Err(ManifestError::OpenFailed(e)) => r matches Err(
                    ProjectOpenError::OpenFileFailed(m, x),
                ) && m@ == manifest_of(path@) && x == e,
                Err(ManifestError::ParseFailed(e)) => r matches Err(
                    ProjectOpenError::ParseProjectFailed(m, x),
                ) && m@ == manifest_of(path@) && x == e,
                Ok(meta) => if meta.executable is None && meta.library is None {
                    r matches Err(ProjectOpenError::MissingBinary(m)) && m@ == manifest_of(path@)
                } else {
                    r matches Ok(p) && {
                        &&& p.wf()
                        &&& p.spec_path() == path@
                        &&& p.spec_meta() == meta
                        &&& p.spec_exe().len() == 0
                        &&& p.spec_lib().len() == 0
                    }
                },
            },
    {
        let manifest = Self::manifest_path(path.as_str());
        let meta = match read {
            Ok(v) => v,
            Err(ManifestError::OpenFailed(e)) => {
                return Err(ProjectOpenError::OpenFileFailed(manifest, e));
            },
            Err(ManifestError::ParseFailed(e)) => {
                return Err(ProjectOpenError::ParseProjectFailed(manifest, e));
            },
        };
        if meta.executable().is_none() && meta.library().is_none() {
            return Err(ProjectOpenError::MissingBinary(manifest));
        }
        Ok(Project { path, meta, exe: SourceSet::new(), lib: SourceSet::new() })
    }

    pub fn path(&self) -> (r: &str)
        ensures
            r@ == self.spec_path(),
    {
        self.path.as_str()
    }

    pub fn meta(&self) -> (r: &ProjectMeta)
        ensures
            *r == self.spec_meta(),
    {
        &self.meta
    }

    pub fn exe(&self) -> (r: &SourceSet)
        ensures
            r@ == self.spec_exe(),
    {
        &self.exe
    }

    pub fn lib(&self) -> (r: &SourceSet)
        ensures
            r@ == self.spec_lib(),
    {
        &self.lib
    }

    fn root_of(&self, sources: &str) -> (r: String)
        ensures
            r@ == source_root(self.spec_path(), sources@),
    {
        if path_is_absolute(sources) {
            String::from_str(sources)
        } else {
            path_join(self.path.as_str(), sources)
        }
    }

    /// The directory of the executable's sources, if the project has an executable.
    pub fn executable_root(&self) -> (r: Option<String>)
        ensures
            match self.spec_meta().executable {
                Some(b) => r matches Some(s) && s@ == source_root(self.spec_path(), b.sources@),
                None => r is None,
            },
    {
        match self.meta.executable() {
            Some(b) => Some(self.root_of(b.sources())),
            None => None,
        }
    }

    /// The directory of the library's sources, if the project has a library.
    pub fn library_root(&self) -> (r: Option<String>)
        ensures
            match self.spec_meta().library {
                Some(b) => r matches Some(s) && s@ == source_root(self.spec_path(), b.sources@),
                None => r is None,
            },
    {
        match self.meta.library() {
            Some(b) => Some(self.root_of(b.sources())),
            None => None,
        }
    }

    /// Takes the sources read from [`Self::executable_root`] and then from
    /// [`Self::library_root`], each as it was read: the sources of a binary that the project
    /// declares replace those it had, and the first error ends the load. So when the
    /// executable's sources could not be read, nothing changes and `lib` is not looked at;
    /// when the library's could not, the executable's new sources stay. What is handed for a
    /// binary that the project does not declare is left out.
    pub fn load(
        &mut self,
        exe: Result<SourceSet, ProjectLoadError>,
        lib: Result<SourceSet, ProjectLoadError>,
    ) -> (r: Result<(), ProjectLoadError>)
        requires
            old(self).wf(),
            exe matches Ok(s) ==> s.wf(),
            lib matches Ok(s) ==> s.wf(),
        ensures
            final(self).wf(),
            load_keeps(*old(self), *final(self)),
            match (old(self).spec_meta().executable, exe) {
                (Some(_), Err(e)) => r == Err::<(), ProjectLoadError>(e) && final(self).spec_exe()
                    == old(self).spec_exe() && final(self).spec_lib() == old(self).spec_lib(),
                _ => {
                    &&& final(self).spec_exe() == match (old(self).spec_meta().executable, exe) {
                        (Some(_), Ok(s)) => s@,
                        _ => old(self).spec_exe(),
                    }
                    &&& match (old(self).spec_meta().library, lib) {
                        (Some(_), Err(e)) => r == Err::<(), ProjectLoadError>(e)
                            && final(self).spec_lib() == old(self).spec_lib(),
                        (Some(_), Ok(s)) => r is Ok && final(self).spec_lib() == s@,
                        (None, _) => r is Ok && final(self).spec_lib() == old(self).spec_lib(),
                    }
                },
            },
    {
        // Load executable sources.
        if self.meta.executable().is_some() {
            match exe {
                Ok(s) => {
                    self.exe = s;
                },
                Err(e) => {
                    return Err(e);
                },
            }
        }
        // Load library sources.
        if self.meta.library().is_some() {
            match lib {
                Ok(s) => {
                    self.lib = s;
                },
                Err(e) => {
                    return Err(e);
                },
            }
        }
        Ok(())
    }

    /// Adds the source file at `path`, which `SourceFile::parse` read as `parsed`, to
    /// `set` when it defines a type, under the full name of that type; `components` are
    /// the names of the path below the source directory, or nothing where one of them is not
    /// UTF-8. A file that defines no type is left out.
    pub fn load_source(
        set: &mut SourceSet,
        path: String,
        parsed: Result<SourceFile, ParseError>,
        components: Option<Vec<String>>,
    ) -> (r: Result<(), ProjectLoadError>)
        requires
            old(set).wf(),
            parsed matches Ok(source) ==> (source@.ty is Some ==> (components matches Some(cs)
                ==> !has_name(old(set)@, qualified_name_of(strings_view(cs@))))),
        ensures
            final(set).wf(),
            match parsed {
                Err(e) => r == Err::<(), ProjectLoadError>(ProjectLoadError::ParseSourceFailed(
                    path,
                    e,
                )) && final(set)@ == old(set)@,
                Ok(source) => if source@.ty is None {
                    r is Ok && final(set)@ == old(set)@
                } else {
                    match components {
                        None => r == Err::<(), ProjectLoadError>(ProjectLoadError::NonUtf8Path(
                            path,
                        )) && final(set)@ == old(set)@,
                        Some(cs) => r is Ok && final(set)@ == old(set)@.push(
                            (qualified_name_of(strings_view(cs@)), source@),
                        ),
                    }
                },
            },
    {
        // Parse the source.
        let source = match parsed {
            Ok(v) => v,
            Err(e) => {
                return Err(ProjectLoadError::ParseSourceFailed(path, e));
            },
        };
        // Get fully qualified type name.
        if source.has_type() {
            match components {
                Some(cs) => {
                    let fqtn = qualified_name(cs.as_slice());
                    set.insert(fqtn, source);
                },
                None => {
                    return Err(ProjectLoadError::NonUtf8Path(path));
                },
            }
        }
        Ok(())
    }

    /// Starts building the project for every target: its library, when it has library
    /// sources, then its executable, when it has executable sources. Each is compiled in
    /// the directory `.build/<target>` below its sources as the project declares them.
    pub fn build(&self) -> (r: Build)
        requires
            self.spec_exe().len() > 0 || self.spec_lib().len() > 0,
        ensures
            r.wf(),
            r.meta() == (PackageMeta {
                name: self.spec_meta().package.name,
                version: self.spec_meta().package.version,
            }),
            r.targets() == all_primitive_targets(),
            r.has_lib() == (self.spec_lib().len() > 0),
            r.has_exe() == (self.spec_exe().len() > 0),
            r.lib_root() == declared_sources(self.spec_meta().library),
            r.exe_root() == declared_sources(self.spec_meta().executable),
            r.phase() is Start,
    {
        let pkg = self.meta.package();
        let meta = PackageMeta::new(pkg.name().duplicate(), *pkg.version());
        let lib_root = match self.meta.library() {
            Some(b) => String::from_str(b.sources()),
            None => String::new(),
        };
        let exe_root = match self.meta.executable() {
            Some(b) => String::from_str(b.sources()),
            None => String::new(),
        };
        proof {
            lemma_all_primitive_targets();
        }
        Build::new(
            meta,
            PrimitiveTarget::all(),
            lib_root,
            exe_root,
            !self.lib.is_empty(),
            !self.exe.is_empty(),
        )
    }
}

/// The sources of a binary as the project declares them, or nothing for a binary that it
/// does not declare.
pub open spec fn declared_sources(b: Option<ProjectBinary>) -> Seq<char> {
    match b {
        Some(b) => b.sources@,
        None => Seq::empty(),
    }
}

/// What a load keeps of a project: its directory and its declaration.
pub open spec fn load_keeps(before: Project, after: Project) -> bool {
    &&& after.spec_path() == before.spec_path()
    &&& after.spec_meta() == before.spec_meta()
}

/// However many loads follow the opening of a project, its directory stays the one it was
/// opened in: in a run of projects each of which a load made from the one before, every
/// one has the path of the first.
pub proof fn lemma_loads_keep_path(run: Seq<Project>, path: Seq<char>)
    requires
        run.len() > 0,
        run[0].spec_path() == path,
        forall|i: int| 0 <= i < run.len() - 1 ==> load_keeps(#[trigger] run[i], run[i + 1]),
    ensures
        forall|i: int| 0 <= i < run.len() ==> (#[trigger] run[i]).spec_path() == path,
    decreases run.len(),
{
    if run.len() > 1 {
        let front = run.drop_last();
        assert forall|i: int| 0 <= i < front.len() - 1 implies load_keeps(
            #[trigger] front[i],
            front[i + 1],
        ) by {
            assert(load_keeps(run[i], run[i + 1]));
        }
        lemma_loads_keep_path(front, path);
        assert(load_keeps(run[run.len() - 2], run[run.len() - 1]));
        assert forall|i: int| 0 <= i < run.len() implies (#[trigger] run[i]).spec_path() == path by {
            if i < run.len() - 1 {
                assert(front[i] == run[i]);
            } else {
                assert(front[i - 1] == run[i - 1]);
            }
        }
    }
}

} // verus!
