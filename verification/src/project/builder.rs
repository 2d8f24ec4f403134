//! The steps of building a project into a package.
//!
//! The library is built first, for every target in turn, then the executable. For each
//! target the sources are compiled, a Windows library gets its module definition file,
//! and the object is linked. Compiling, writing and linking are done by the caller: a
//! [`Build`] says what to do next and is told when it was done or how it failed; a failure
//! ends the build with its error.
use crate::pkg::dep::Dependency;
use crate::pkg::lib::{Library, LibraryBinary};
use crate::pkg::meta::PackageMeta;
use crate::lexer::SyntaxError;
use crate::pkg::target::{target_name, PrimitiveTarget, Target, TargetOs};
use crate::pkg::ty::TypeDeclaration;
use crate::pkg::{targets_distinct, Binary, Package};
use crate::project::link::{
    joined_path, link_plan, module_definition, module_definition_text, path_join, spec_link_plan,
    LinkPlan,
};
use crate::project::{BuildError, LinkError, ProjectBuildError, TargetResolveError};
use vstd::prelude::*;

verus! {

/// Where a build is.
#[derive(Debug)]
pub enum Phase {
    /// Nothing was done yet.
    Start,
    /// The library is being compiled for the target of this index.
    LibCompile(usize),
    /// The module definition of the library for this target is being written; the link
    /// and the exported types follow.
    LibModuleDefinition(usize, LinkPlan, Vec<TypeDeclaration>),
    /// The library for this target is being linked into this file; it exports these types.
    LibLink(usize, String, Vec<TypeDeclaration>),
    /// The executable is being compiled for the target of this index.
    ExeCompile(usize),
    /// The executable for this target is being linked into this file.
    ExeLink(usize, String),
}

/// What the caller reports back.
#[derive(Debug)]
pub enum BuildEvent {
    /// The build starts.
    Started,
    /// The sources were compiled into the object that was asked for; they define `exports`.
    Compiled(Vec<TypeDeclaration>),
    /// The workspace directory could not be created.
    DirectoryFailed(std::io::Error),
    /// The target resolver could not resolve the target.
    ResolveFailed(TargetResolveError),
    /// The source file at this path is not valid.
    SyntaxFailed(String, SyntaxError),
    /// The code generator could not build the object.
    CodegenFailed(BuildError),
    /// The module definition was written, or the link was made.
    Completed,
    /// The module definition could not be written.
    WriteFailed(std::io::Error),
    /// The linker failed.
    LinkFailed(LinkError),
}

/// What the caller is asked to do next.
#[derive(Debug)]
pub enum BuildAction {
    /// Compile the executable (`exe`) or the library for `target` into `object`, inside the
    /// directory `workspace`, which is made first.
    Compile { target: PrimitiveTarget, exe: bool, workspace: String, object: String },
    /// Write `content` into the file `path`.
    WriteModuleDefinition { path: String, content: String },
    /// Run the linker.
    Link(LinkPlan),
}

/// A build that goes on, with what to do next; the package that it made; or the error that
/// ended it.
#[derive(Debug)]
pub enum BuildStep {
    Continue(Build, BuildAction),
    Finished(Package),
    Failed(ProjectBuildError),
}

/// The directory in which the sources declared at `root` are compiled for `target`:
/// `<root>/.build/<target>`.
pub open spec fn spec_workspace(root: Seq<char>, target: PrimitiveTarget) -> Seq<char> {
    joined_path(joined_path(root, ".build"@), target_name(target))
}

/// The object file of the package `name` in the workspace `ws`: `<ws>/<name>.o`.
pub open spec fn spec_object(ws: Seq<char>, name: Seq<char>) -> Seq<char> {
    joined_path(ws, name + ".o"@)
}

fn workspace_of(root: &str, target: PrimitiveTarget) -> (r: String)
    ensures
        r@ == spec_workspace(root@, target),
{
    let build = path_join(root, ".build");
    path_join(build.as_str(), target.name())
}

fn object_of(ws: &str, name: &str) -> (r: String)
    ensures
        r@ == spec_object(ws@, name@),
{
    let file = String::from_str(name).concat(".o");
    path_join(ws, file.as_str())
}

/// Whether `r` ends the build with the error for a failed compile, for the target `target`,
/// the workspace `ws` and the object `obj`.
pub open spec fn compile_failed(
    event: BuildEvent,
    target: PrimitiveTarget,
    ws: Seq<char>,
    obj: Seq<char>,
    r: BuildStep,
) -> bool {
    match event {
        BuildEvent::DirectoryFailed(e) => r matches BuildStep::Failed(
            ProjectBuildError::CreateDirectoryFailed(p, x),
        ) && p@ == ws && x == e,
        BuildEvent::ResolveFailed(e) => r matches BuildStep::Failed(
            ProjectBuildError::ResolvePrimitiveTargetFailed(t, x),
        ) && t == Target::Primitive(target) && x == e,
        BuildEvent::SyntaxFailed(path, e) => r matches BuildStep::Failed(
            ProjectBuildError::InvalidSyntax(p, x),
        ) && p == path && x == e,
        BuildEvent::CodegenFailed(e) => r matches BuildStep::Failed(
            ProjectBuildError::BuildFailed(p, x),
        ) && p@ == obj && x == e,
        _ => false,
    }
}

/// Whether `event` reports a failed compile.
pub open spec fn is_compile_failure(event: BuildEvent) -> bool {
    ||| event is DirectoryFailed
    ||| event is ResolveFailed
    ||| event is SyntaxFailed
    ||| event is CodegenFailed
}

/// A build in progress.
#[derive(Debug)]
pub struct Build {
    meta: PackageMeta,
    targets: Vec<PrimitiveTarget>,
    has_lib: bool,
    has_exe: bool,
    phase: Phase,
    libs: Vec<(Target, Binary<Library>)>,
    exes: Vec<(Target, Binary<String>)>,
    lib_root: String,
    exe_root: String,
}

/// Whether no target occurs twice.
pub open spec fn primitive_targets_distinct(ts: Seq<PrimitiveTarget>) -> bool {
    forall|i: int, j: int| 0 <= i < j < ts.len() ==> #[trigger] ts[i] != #[trigger] ts[j]
}

/// Whether the entries are for the first targets of `ts`, in order.
pub open spec fn follows_targets<T>(entries: Seq<(Target, T)>, ts: Seq<PrimitiveTarget>) -> bool {
    &&& entries.len() <= ts.len()
    &&& forall|j: int| 0 <= j < entries.len() ==> #[trigger] entries[j].0 == Target::Primitive(ts[j])
}

/// What comes after the library for every target before `i` (`lib`), or the executable for
/// every target before `i` (not `lib`), is done: the binary to compile next and its target,
/// or nothing when the build is over.
pub open spec fn next_position(has_lib: bool, has_exe: bool, n: int, lib: bool, i: int) -> Option<
    (bool, int),
> {
    if lib && has_lib && i < n {
        Some((false, i))
    } else {
        let j = if lib {
            0
        } else {
            i
        };
        if has_exe && j < n {
            Some((true, j))
        } else {
            None
        }
    }
}

/// The libraries that a step leaves.
pub open spec fn step_libs(r: BuildStep) -> Seq<(Target, Binary<Library>)> {
    match r {
        BuildStep::Continue(b, _) => b.libs(),
        BuildStep::Finished(p) => p.spec_libs(),
        BuildStep::Failed(_) => Seq::empty(),
    }
}

/// The executables that a step leaves.
pub open spec fn step_exes(r: BuildStep) -> Seq<(Target, Binary<String>)> {
    match r {
        BuildStep::Continue(b, _) => b.exes(),
        BuildStep::Finished(p) => p.spec_exes(),
        BuildStep::Failed(_) => Seq::empty(),
    }
}

impl Build {
    pub closed spec fn meta(&self) -> PackageMeta {
        self.meta
    }

    pub closed spec fn targets(&self) -> Seq<PrimitiveTarget> {
        self.targets@
    }

    pub closed spec fn has_lib(&self) -> bool {
        self.has_lib
    }

    pub closed spec fn has_exe(&self) -> bool {
        self.has_exe
    }

    pub closed spec fn phase(&self) -> Phase {
        self.phase
    }

    pub closed spec fn libs(&self) -> Seq<(Target, Binary<Library>)> {
        self.libs@
    }

    pub closed spec fn exes(&self) -> Seq<(Target, Binary<String>)> {
        self.exes@
    }

    /// Where the library's sources are declared to be.
    pub closed spec fn lib_root(&self) -> Seq<char> {
        self.lib_root@
    }

    /// Where the executable's sources are declared to be.
    pub closed spec fn exe_root(&self) -> Seq<char> {
        self.exe_root@
    }

    /// Where the sources of the executable (`exe`) or the library are declared to be.
    pub open spec fn root_for(&self, exe: bool) -> Seq<char> {
        if exe {
            self.exe_root()
        } else {
            self.lib_root()
        }
    }

    /// Whether `other` builds the same package for the same targets.
    pub open spec fn same_config(&self, other: Build) -> bool {
        &&& self.meta() == other.meta()
        &&& self.targets() == other.targets()
        &&& self.has_lib() == other.has_lib()
        &&& self.has_exe() == other.has_exe()
        &&& self.lib_root() == other.lib_root()
        &&& self.exe_root() == other.exe_root()
    }

    /// What every build keeps: where it is agrees with what was built so far.
    pub open spec fn wf(&self) -> bool {
        let n = self.targets().len();
        &&& n > 0
        &&& primitive_targets_distinct(self.targets())
        &&& self.has_lib() || self.has_exe()
        &&& follows_targets(self.libs(), self.targets())
        &&& follows_targets(self.exes(), self.targets())
        &&& match self.phase() {
            Phase::Start => self.libs().len() == 0 && self.exes().len() == 0,
            Phase::LibCompile(i) => self.has_lib() && i < n && self.libs().len() == i
                && self.exes().len() == 0,
            Phase::LibModuleDefinition(i, plan, _) => self.has_lib() && i < n && self.libs().len()
                == i && self.exes().len() == 0 && plan.def is Some,
            Phase::LibLink(i, _, _) => self.has_lib() && i < n && self.libs().len() == i
                && self.exes().len() == 0,
            Phase::ExeCompile(i) => self.has_exe() && i < n && self.exes().len() == i
                && self.libs().len() == (if self.has_lib() {
                n
            } else {
                0
            }),
            Phase::ExeLink(i, _) => self.has_exe() && i < n && self.exes().len() == i
                && self.libs().len() == (if self.has_lib() {
                n
            } else {
                0
            }),
        }
    }

    /// Whether `event` is what the build waits for.
    pub open spec fn expects(&self, event: BuildEvent) -> bool {
        match self.phase() {
            Phase::Start => event is Started,
            Phase::LibCompile(_) => event is Compiled || is_compile_failure(event),
            Phase::ExeCompile(_) => event is Compiled || is_compile_failure(event),
            Phase::LibModuleDefinition(..) => event is Completed || event is WriteFailed,
            _ => event is Completed || event is LinkFailed,
        }
    }

    /// Whether `r` goes on from after the library (`lib`) or the executable for the targets
    /// before `i`: the next compile, or the package.
    pub open spec fn continues_at(&self, r: BuildStep, lib: bool, i: int) -> bool {
        match next_position(self.has_lib(), self.has_exe(), self.targets().len() as int, lib, i) {
            Some((exe, j)) => r matches BuildStep::Continue(
                b,
                BuildAction::Compile { target, exe: e, workspace, object },
            ) && {
                &&& target == self.targets()[j]
                &&& e == exe
                &&& workspace@ == spec_workspace(self.root_for(exe), target)
                &&& object@ == spec_object(workspace@, self.meta().name@)
                &&& b.same_config(*self)
                &&& b.phase() == (if exe {
                    Phase::ExeCompile(j as usize)
                } else {
                    Phase::LibCompile(j as usize)
                })
            },
            None => r matches BuildStep::Finished(p) && {
                &&& p.wf()
                &&& p.spec_meta() == self.meta()
                &&& follows_targets(p.spec_libs(), self.targets())
                &&& follows_targets(p.spec_exes(), self.targets())
                &&& p.spec_libs().len() == if self.has_lib() {
                    self.targets().len()
                } else {
                    0
                }
                &&& p.spec_exes().len() == if self.has_exe() {
                    self.targets().len()
                } else {
                    0
                }
            },
        }
    }

    /// Starts building the package `meta` for `targets`; `has_lib` and `has_exe` say
    /// whether the project has library and executable sources, and `lib_root` and `exe_root`
    /// where they are declared to be.
    pub fn new(
        meta: PackageMeta,
        targets: Vec<PrimitiveTarget>,
        lib_root: String,
        exe_root: String,
        has_lib: bool,
        has_exe: bool,
    ) -> (r: Build)
        requires
            targets@.len() > 0,
            primitive_targets_distinct(targets@),
            has_lib || has_exe,
        ensures
            r.wf(),
            r.meta() == meta,
            r.targets() == targets@,
            r.has_lib() == has_lib,
            r.has_exe() == has_exe,
            r.lib_root() == lib_root@,
            r.exe_root() == exe_root@,
            r.phase() is Start,
            r.libs().len() == 0,
            r.exes().len() == 0,
    {
        Build {
            meta,
            targets,
            has_lib,
            has_exe,
            phase: Phase::Start,
            libs: Vec::new(),
            exes: Vec::new(),
            lib_root,
            exe_root,
        }
    }

    pub fn targets_of(&self) -> (r: &[PrimitiveTarget])
        ensures
            r@ == self.targets(),
    {
        self.targets.as_slice()
    }

    /// The library built for `target`, which an executable for `target` links with.
    pub fn library(&self, target: &PrimitiveTarget) -> (r: Option<&Binary<Library>>)
        requires
            self.wf(),
        ensures
            match r {
                Some(l) => exists|j: int|
                    0 <= j < self.libs().len() && #[trigger] self.libs()[j] == (
                        Target::Primitive(*target),
                        *l,
                    ),
                None => forall|j: int|
                    0 <= j < self.libs().len() ==> #[trigger] self.libs()[j].0 != Target::Primitive(
                        *target,
                    ),
            },
            // The library is built for every target before any executable.
            self.phase() matches Phase::ExeCompile(_) && self.has_lib() && self.targets().contains(
                *target,
            ) ==> r is Some,
    {
        let want = Target::Primitive(*target);
        let mut i: usize = 0;
        while i < self.libs.len()
            invariant
                0 <= i <= self.libs@.len(),
                want == Target::Primitive(*target),
                forall|j: int| 0 <= j < i ==> #[trigger] self.libs@[j].0 != want,
            decreases self.libs@.len() - i,
        {
            if self.libs[i].0.same(&want) {
                return Some(&self.libs[i].1);
            }
            i = i + 1;
        }
        proof {
            if self.phase() matches Phase::ExeCompile(_) && self.has_lib() && self.targets().contains(
                *target,
            ) {
                let k = choose|k: int| 0 <= k < self.targets().len() && self.targets()[k] == *target;
                assert(self.libs()[k].0 == Target::Primitive(*target));
            }
        }
        None
    }

    /// Goes on after the library (`lib`) or the executable for the targets before `i`.
    fn advance(self, lib: bool, i: usize) -> (r: BuildStep)
        requires
            self.targets().len() > 0,
            primitive_targets_distinct(self.targets()),
            self.has_lib() || self.has_exe(),
            follows_targets(self.libs(), self.targets()),
            follows_targets(self.exes(), self.targets()),
            i <= self.targets().len(),
            lib ==> self.exes().len() == 0 && self.libs().len() == (if self.has_lib() {
                i as int
            } else {
                0
            }) && (!self.has_lib() ==> i == 0),
            !lib ==> self.libs().len() == (if self.has_lib() {
                self.targets().len() as int
            } else {
                0
            }) && self.exes().len() == (if self.has_exe() {
                i as int
            } else {
                0
            }) && (!self.has_exe() ==> i == 0),
        ensures
            self.continues_at(r, lib, i as int),
            step_libs(r) == self.libs(),
            step_exes(r) == self.exes(),
            r matches BuildStep::Continue(b, _) ==> b.wf(),
    {
        let n = self.targets.len();
        if lib && self.has_lib && i < n {
            let target = self.targets[i];
            let workspace = workspace_of(self.lib_root.as_str(), target);
            let object = object_of(workspace.as_str(), self.meta.name.as_str());
            let Build { meta, targets, has_lib, has_exe, phase: _, libs, exes, lib_root, exe_root } =
                self;
            let b = Build {
                meta,
                targets,
                has_lib,
                has_exe,
                phase: Phase::LibCompile(i),
                libs,
                exes,
                lib_root,
                exe_root,
            };
            return BuildStep::Continue(
                b,
                BuildAction::Compile { target, exe: false, workspace, object },
            );
        }
        let j = if lib {
            0
        } else {
            i
        };
        if self.has_exe && j < n {
            let target = self.targets[j];
            let workspace = workspace_of(self.exe_root.as_str(), target);
            let object = object_of(workspace.as_str(), self.meta.name.as_str());
            let Build { meta, targets, has_lib, has_exe, phase: _, libs, exes, lib_root, exe_root } =
                self;
            let b = Build {
                meta,
                targets,
                has_lib,
                has_exe,
                phase: Phase::ExeCompile(j),
                libs,
                exes,
                lib_root,
                exe_root,
            };
            return BuildStep::Continue(
                b,
                BuildAction::Compile { target, exe: true, workspace, object },
            );
        }
        let ghost ts = self.targets();
        let Build {
            meta,
            targets: _,
            has_lib: _,
            has_exe: _,
            phase: _,
            libs,
            exes,
            lib_root: _,
            exe_root: _,
        } = self;
        proof {
            assert forall|a: int, b: int| 0 <= a < b < libs@.len() implies #[trigger] libs@[a].0
                != #[trigger] libs@[b].0 by {
                assert(ts[a] != ts[b]);
            }
            assert forall|a: int, b: int| 0 <= a < b < exes@.len() implies #[trigger] exes@[a].0
                != #[trigger] exes@[b].0 by {
                assert(ts[a] != ts[b]);
            }
        }
        BuildStep::Finished(Package::new(meta, exes, libs))
    }

    /// Takes the next step after `event`.
    pub fn step(self, event: BuildEvent) -> (r: BuildStep)
        requires
            self.wf(),
            self.expects(event),
        ensures
            r matches BuildStep::Continue(b, _) ==> b.wf(),
            match self.phase() {
                Phase::Start => self.continues_at(r, true, 0) && step_libs(r) == self.libs()
                    && step_exes(r) == self.exes(),
                Phase::LibCompile(i) => {
                    let target = self.targets()[i as int];
                    let ws = spec_workspace(self.lib_root(), target);
                    let obj = spec_object(ws, self.meta().name@);
                    match event {
                        BuildEvent::Compiled(exports) => {
                            let plan = spec_link_plan(target, false, self.meta().name@, ws, obj);
                            r matches BuildStep::Continue(b, action) && {
                                &&& b.same_config(self)
                                &&& b.libs() == self.libs()
                                &&& b.exes() == self.exes()
                                &&& if target.os == TargetOs::Win32 {
                                    &&& (action matches BuildAction::WriteModuleDefinition {
                                        path,
                                        content,
                                    } && Some(path@) == plan.def && content@
                                        == module_definition_text(exports@))
                                    &&& (b.phase() matches Phase::LibModuleDefinition(k, p, ex)
                                        && k == i && p@ == plan && ex == exports)
                                } else {
                                    &&& (action matches BuildAction::Link(p) && p@ == plan)
                                    &&& (b.phase() matches Phase::LibLink(k, out, ex) && k == i
                                        && out@ == plan.out && ex == exports)
                                }
                            }
                        },
                        _ => compile_failed(event, target, ws, obj, r),
                    }
                },
                Phase::LibModuleDefinition(i, plan, ex) => match event {
                    BuildEvent::WriteFailed(e) => r matches BuildStep::Failed(
                        ProjectBuildError::CreateModuleDefinitionFailed(p, x),
                    ) && Some(p@) == plan@.def && x == e,
                    _ => r matches BuildStep::Continue(b, BuildAction::Link(p)) && {
                        &&& p == plan
                        &&& b.same_config(self)
                        &&& b.libs() == self.libs()
                        &&& b.exes() == self.exes()
                        &&& (b.phase() matches Phase::LibLink(k, out, ex2) && k == i && out
                            == plan.out && ex2 == ex)
                    },
                },
                Phase::LibLink(i, out, ex) => match event {
                    BuildEvent::LinkFailed(e) => r matches BuildStep::Failed(
                        ProjectBuildError::LinkFailed(p, x),
                    ) && p == out && x == e,
                    _ => {
                        &&& self.continues_at(r, true, i + 1)
                        &&& step_exes(r) == self.exes()
                        &&& step_libs(r).len() == self.libs().len() + 1
                        &&& step_libs(r).take(self.libs().len() as int) == self.libs()
                        &&& step_libs(r).last().0 == Target::Primitive(self.targets()[i as int])
                        &&& step_libs(r).last().1.bin == Library {
                            bin: LibraryBinary::Bundle(out),
                            types: ex,
                        }
                        &&& step_libs(r).last().1.deps@.len() == 0
                    },
                },
                Phase::ExeCompile(i) => {
                    let target = self.targets()[i as int];
                    let ws = spec_workspace(self.exe_root(), target);
                    let obj = spec_object(ws, self.meta().name@);
                    match event {
                        BuildEvent::Compiled(_) => {
                            let plan = spec_link_plan(target, true, self.meta().name@, ws, obj);
                            r matches BuildStep::Continue(b, BuildAction::Link(p)) && {
                                &&& p@ == plan
                                &&& b.same_config(self)
                                &&& b.libs() == self.libs()
                                &&& b.exes() == self.exes()
                                &&& (b.phase() matches Phase::ExeLink(k, out) && k == i && out@
                                    == plan.out)
                            }
                        },
                        _ => compile_failed(event, target, ws, obj, r),
                    }
                },
                Phase::ExeLink(i, out) => match event {
                    BuildEvent::LinkFailed(e) => r matches BuildStep::Failed(
                        ProjectBuildError::LinkFailed(p, x),
                    ) && p == out && x == e,
                    _ => {
                        &&& self.continues_at(r, false, i + 1)
                        &&& step_libs(r) == self.libs()
                        &&& step_exes(r).len() == self.exes().len() + 1
                        &&& step_exes(r).take(self.exes().len() as int) == self.exes()
                        &&& step_exes(r).last().0 == Target::Primitive(self.targets()[i as int])
                        &&& step_exes(r).last().1.bin == out
                        &&& step_exes(r).last().1.deps@.len() == 0
                    },
                },
            },
    {
        let Build { meta, targets, has_lib, has_exe, phase, mut libs, mut exes, lib_root, exe_root } =
            self;
        match phase {
            Phase::Start => {
                let b = Build {
                    meta,
                    targets,
                    has_lib,
                    has_exe,
                    phase: Phase::Start,
                    libs,
                    exes,
                    lib_root,
                    exe_root,
                };
                b.advance(true, 0)
            },
            Phase::LibCompile(i) => {
                let target = targets[i];
                let workspace = workspace_of(lib_root.as_str(), target);
                let object = object_of(workspace.as_str(), meta.name.as_str());
                match event {
                    BuildEvent::Compiled(exports) => {
                        let plan = link_plan(
                            target,
                            false,
                            meta.name.as_str(),
                            workspace.as_str(),
                            object.as_str(),
                        );
                        match target.os {
                            TargetOs::Win32 => {
                                let path = match &plan.def {
                                    Some(d) => d.clone(),
                                    None => String::new(),
                                };
                                let content = module_definition(exports.as_slice());
                                let b = Build {
                                    meta,
                                    targets,
                                    has_lib,
                                    has_exe,
                                    phase: Phase::LibModuleDefinition(i, plan, exports),
                                    libs,
                                    exes,
                                    lib_root,
                                    exe_root,
                                };
                                BuildStep::Continue(
                                    b,
                                    BuildAction::WriteModuleDefinition { path, content },
                                )
                            },
                            _ => {
                                let out = plan.out.clone();
                                let b = Build {
                                    meta,
                                    targets,
                                    has_lib,
                                    has_exe,
                                    phase: Phase::LibLink(i, out, exports),
                                    libs,
                                    exes,
                                    lib_root,
                                    exe_root,
                                };
                                BuildStep::Continue(b, BuildAction::Link(plan))
                            },
                        }
                    },
                    other => BuildStep::Failed(compile_failure_error(other, target, workspace, object)),
                }
            },
            Phase::LibModuleDefinition(i, plan, ex) => match event {
                BuildEvent::WriteFailed(e) => {
                    let path = match &plan.def {
                        Some(d) => d.clone(),
                        None => String::new(),
                    };
                    BuildStep::Failed(ProjectBuildError::CreateModuleDefinitionFailed(path, e))
                },
                _ => {
                    let out = plan.out.clone();
                    let b = Build {
                        meta,
                        targets,
                        has_lib,
                        has_exe,
                        phase: Phase::LibLink(i, out, ex),
                        libs,
                        exes,
                        lib_root,
                        exe_root,
                    };
                    BuildStep::Continue(b, BuildAction::Link(plan))
                },
            },
            Phase::LibLink(i, out, ex) => match event {
                BuildEvent::LinkFailed(e) => BuildStep::Failed(ProjectBuildError::LinkFailed(out, e)),
                _ => {
                    let n: usize = targets.len();
                    assert(i + 1 <= n);
                    let target = targets[i];
                    let bin = Binary::new(Library::new(LibraryBinary::Bundle(out), ex), Vec::new());
                    let ghost before = libs@;
                    libs.push((Target::Primitive(target), bin));
                    assert(libs@.take(before.len() as int) =~= before);
                    let b = Build {
                        meta,
                        targets,
                        has_lib,
                        has_exe,
                        phase: Phase::Start,
                        libs,
                        exes,
                        lib_root,
                        exe_root,
                    };
                    b.advance(true, i + 1)
                },
            },
            Phase::ExeCompile(i) => {
                let target = targets[i];
                let workspace = workspace_of(exe_root.as_str(), target);
                let object = object_of(workspace.as_str(), meta.name.as_str());
                match event {
                    BuildEvent::Compiled(_) => {
                        let plan = link_plan(
                            target,
                            true,
                            meta.name.as_str(),
                            workspace.as_str(),
                            object.as_str(),
                        );
                        let out = plan.out.clone();
                        let b = Build {
                            meta,
                            targets,
                            has_lib,
                            has_exe,
                            phase: Phase::ExeLink(i, out),
                            libs,
                            exes,
                            lib_root,
                            exe_root,
                        };
                        BuildStep::Continue(b, BuildAction::Link(plan))
                    },
                    other => BuildStep::Failed(compile_failure_error(other, target, workspace, object)),
                }
            },
            Phase::ExeLink(i, out) => match event {
                BuildEvent::LinkFailed(e) => BuildStep::Failed(ProjectBuildError::LinkFailed(out, e)),
                _ => {
                    let n: usize = targets.len();
                    assert(i + 1 <= n);
                    let target = targets[i];
                    let bin = Binary::new(out, Vec::new());
                    let ghost before = exes@;
                    exes.push((Target::Primitive(target), bin));
                    assert(exes@.take(before.len() as int) =~= before);
                    let b = Build {
                        meta,
                        targets,
                        has_lib,
                        has_exe,
                        phase: Phase::Start,
                        libs,
                        exes,
                        lib_root,
                        exe_root,
                    };
                    b.advance(false, i + 1)
                },
            },
        }
    }
}

/// The error that ends a build whose compile for `target`, in the workspace `workspace`
/// and into the object `object`, failed with `event`.
fn compile_failure_error(event: BuildEvent, target: PrimitiveTarget, workspace: String, object: String) -> (r:
    ProjectBuildError)
    requires
        is_compile_failure(event),
    ensures
        compile_failed(event, target, workspace@, object@, BuildStep::Failed(r)),
{
    match event {
        BuildEvent::DirectoryFailed(e) => ProjectBuildError::CreateDirectoryFailed(workspace, e),
        BuildEvent::ResolveFailed(e) => ProjectBuildError::ResolvePrimitiveTargetFailed(
            Target::Primitive(target),
            e,
        ),
        BuildEvent::SyntaxFailed(path, e) => ProjectBuildError::InvalidSyntax(path, e),
        BuildEvent::CodegenFailed(e) => ProjectBuildError::BuildFailed(object, e),
        _ => {
            assert(false);
            ProjectBuildError::BuildFailed(object, BuildError { reason: String::new() })
        },
    }
}

} // verus!
