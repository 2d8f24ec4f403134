use stage0::ast::{ParseError, SourceFile};
use stage0::lexer::{Identifier, Span, SyntaxError, Token};
use stage0::pkg::lib::LibraryBinary;
use stage0::pkg::meta::{PackageMeta, PackageName, PackageVersion};
use stage0::pkg::target::{PrimitiveTarget, Target, TargetArch, TargetOs};
use stage0::pkg::ty::{BasicType, TypeDeclaration};
use stage0::project::builder::{Build, BuildAction, BuildEvent, BuildStep, Phase};
use stage0::project::link::{link_plan, module_definition};
use stage0::project::meta::{ProjectBinary, ProjectMeta, ProjectPackage};
use stage0::project::source::{classify_entry, namespace, qualified_name, SourceEntry, SourceSet};
use stage0::project::{
    BuildError, LinkError, ManifestError, Project, ProjectBuildError, ProjectLoadError, ProjectOpenError,
    TargetResolveError,
};

fn package() -> ProjectPackage {
    ProjectPackage::new(PackageName::new(String::from("foo")).unwrap(), PackageVersion::new(1, 2, 3))
}

fn project(exe: Option<&str>, lib: Option<&str>) -> Project {
    let meta = ProjectMeta::new(
        package(),
        exe.map(|s| ProjectBinary::new(String::from(s))),
        lib.map(|s| ProjectBinary::new(String::from(s))),
    );
    Project::open(String::from("/p"), Ok(meta)).unwrap()
}

fn class_file(stem: &str) -> SourceFile {
    let sp = Span::new(1, 1);
    let toks = vec![
        Token::ClassKeyword(sp),
        Token::Identifier(Identifier::new(sp, String::from(stem))),
        Token::Semicolon(sp),
    ];
    SourceFile::parse_source(format!("/p/src/{}.nt", stem), String::from(stem), toks).unwrap()
}

fn strings(v: &[&str]) -> Vec<String> {
    v.iter().map(|s| String::from(*s)).collect()
}

#[test]
fn project_needs_a_binary() {
    let meta = ProjectMeta::new(package(), None, None);
    match Project::open(String::from("/p"), Ok(meta)) {
        Err(ProjectOpenError::MissingBinary(m)) => assert_eq!(m, "/p/Nitro.yml"),
        _ => panic!("expected MissingBinary"),
    }
    assert_eq!(Project::manifest_path("/p"), "/p/Nitro.yml");
    match Project::open(String::from("/q"), Err(ManifestError::OpenFailed(io_error("gone")))) {
        Err(ProjectOpenError::OpenFileFailed(m, e)) => {
            assert_eq!(m, "/q/Nitro.yml");
            assert_eq!(e.to_string(), "gone");
        }
        _ => panic!("expected OpenFileFailed"),
    }
    let yaml = serde_yaml::from_str::<u32>("[").unwrap_err();
    match Project::open(String::from("/q"), Err(ManifestError::ParseFailed(yaml))) {
        Err(ProjectOpenError::ParseProjectFailed(m, _)) => assert_eq!(m, "/q/Nitro.yml"),
        _ => panic!("expected ParseProjectFailed"),
    }
    let p = project(Some("src"), None);
    assert_eq!(p.path(), "/p");
    assert_eq!(p.meta().package().name().as_str(), "foo");
    assert!(p.meta().library().is_none());
    assert_eq!(p.meta().executable().unwrap().sources(), "src");
}

#[test]
fn source_roots() {
    let p = project(Some("src"), Some("/abs/lib"));
    assert_eq!(p.executable_root().unwrap(), "/p/src");
    assert_eq!(p.library_root().unwrap(), "/abs/lib");
    let q = project(None, Some("lib"));
    assert!(q.executable_root().is_none());
    assert_eq!(q.library_root().unwrap(), "/p/lib");
}

#[test]
fn qualified_names() {
    assert_eq!(qualified_name(&strings(&["a", "b", "Foo.nt"])), "a.b.Foo");
    assert_eq!(qualified_name(&strings(&["Foo.nt"])), "Foo");
    assert_eq!(qualified_name(&strings(&[])), "");
    assert_eq!(qualified_name(&strings(&["", "Foo.nt"])), "Foo");
    assert_eq!(qualified_name(&strings(&["nt"])), "");
}

#[test]
fn namespaces() {
    assert_eq!(namespace("a.b.Foo"), "a.b");
    assert_eq!(namespace("Foo"), "");
    assert_eq!(namespace(".Foo"), "");
}

#[test]
fn entries_of_source_directories() {
    assert_eq!(classify_entry(true, Some("nt")), SourceEntry::Directory);
    assert_eq!(classify_entry(false, Some("nt")), SourceEntry::Source);
    assert_eq!(classify_entry(false, Some("rs")), SourceEntry::Other);
    assert_eq!(classify_entry(false, None), SourceEntry::Other);
}

fn add(set: &mut SourceSet, components: &[&str], file: SourceFile) {
    let path = file.path().to_owned();
    Project::load_source(set, path, Ok(file), Some(strings(components))).unwrap();
}

fn io_error(m: &str) -> std::io::Error {
    std::io::Error::new(std::io::ErrorKind::Other, String::from(m))
}

#[test]
fn sources_are_named_by_their_type() {
    let mut set = SourceSet::new();
    assert!(set.is_empty());
    add(&mut set, &["a", "Foo.nt"], class_file("Foo"));
    assert_eq!(set.len(), 1);
    assert!(set.contains("a.Foo"));
    assert!(!set.contains("Foo"));
    assert_eq!(set.get("a.Foo").unwrap().path(), "/p/src/Foo.nt");
    assert!(set.get("b.Foo").is_none());
    assert_eq!(set.entries()[0].0, "a.Foo");

    // A file that defines no type is left out.
    let empty = SourceFile::parse_source(String::from("/p/src/Bar.nt"), String::from("Bar"), Vec::new()).unwrap();
    add(&mut set, &["Bar.nt"], empty);
    assert_eq!(set.len(), 1);

    // Each file is compiled in the namespace of its type.
    add(&mut set, &["Baz.nt"], class_file("Baz"));
    let units = set.units();
    assert_eq!(units.len(), 2);
    assert_eq!(units[0].0, "a");
    assert_eq!(units[0].1.path(), "/p/src/Foo.nt");
    assert_eq!(units[1].0, "");
}

#[test]
fn sources_that_cannot_be_loaded() {
    let mut set = SourceSet::new();

    // A file that could not be parsed.
    let parsed = Err(ParseError::ParseFailed(SyntaxError::new(Span::new(2, 3), "invalid type")));
    match Project::load_source(&mut set, String::from("/p/src/X.nt"), parsed, Some(strings(&["X.nt"]))) {
        Err(ProjectLoadError::ParseSourceFailed(p, ParseError::ParseFailed(e))) => {
            assert_eq!(p, "/p/src/X.nt");
            assert_eq!(e.reason(), "invalid type");
        }
        _ => panic!("expected ParseSourceFailed"),
    }
    let parsed = Err(ParseError::ReadFailed(io_error("gone")));
    assert!(matches!(
        Project::load_source(&mut set, String::from("/p/src/Y.nt"), parsed, None),
        Err(ProjectLoadError::ParseSourceFailed(..))
    ));

    // A type whose path is not UTF-8.
    let r = Project::load_source(&mut set, String::from("/p/src/Foo.nt"), Ok(class_file("Foo")), None);
    match r {
        Err(ProjectLoadError::NonUtf8Path(p)) => assert_eq!(p, "/p/src/Foo.nt"),
        _ => panic!("expected NonUtf8Path"),
    }

    // A file with no type needs no name.
    let empty = SourceFile::parse_source(String::from("/p/src/Bar.nt"), String::from("Bar"), Vec::new()).unwrap();
    assert!(Project::load_source(&mut set, String::from("/p/src/Bar.nt"), Ok(empty), None).is_ok());
    assert!(set.is_empty());
}

#[test]
fn load_keeps_declared_binaries_only() {
    let mut p = project(Some("src"), None);
    let mut exe = SourceSet::new();
    add(&mut exe, &["Foo.nt"], class_file("Foo"));
    let mut lib = SourceSet::new();
    add(&mut lib, &["Bar.nt"], class_file("Bar"));
    p.load(Ok(exe), Ok(lib)).unwrap();
    assert_eq!(p.exe().len(), 1);
    assert!(p.exe().contains("Foo"));
    assert_eq!(p.lib().len(), 0);
    assert_eq!(p.path(), "/p");
}

#[test]
fn load_stops_at_the_first_error() {
    // The executable's sources stay when the library's could not be read.
    let mut p = project(Some("src"), Some("lib"));
    let mut exe = SourceSet::new();
    add(&mut exe, &["Foo.nt"], class_file("Foo"));
    let e = ProjectLoadError::EnumerateFilesFailed(String::from("/p/lib"), io_error("denied"));
    match p.load(Ok(exe), Err(e)) {
        Err(ProjectLoadError::EnumerateFilesFailed(d, _)) => assert_eq!(d, "/p/lib"),
        _ => panic!("expected EnumerateFilesFailed"),
    }
    assert!(p.exe().contains("Foo"));
    assert!(p.lib().is_empty());

    // Nothing changes when the executable's could not be read.
    let mut lib = SourceSet::new();
    add(&mut lib, &["Bar.nt"], class_file("Bar"));
    let e = ProjectLoadError::NonUtf8Path(String::from("/p/src/x"));
    assert!(matches!(p.load(Err(e), Ok(lib)), Err(ProjectLoadError::NonUtf8Path(_))));
    assert_eq!(p.exe().len(), 1);
    assert!(p.lib().is_empty());
    assert_eq!(p.path(), "/p");
}

fn args(plan: &stage0::project::link::LinkPlan) -> Vec<&str> {
    plan.args.iter().map(|s| s.as_str()).collect()
}

#[test]
fn linking_on_darwin() {
    let t = PrimitiveTarget::new(TargetArch::AArch64, TargetOs::Darwin);
    let lib = link_plan(t, false, "foo", "/ws", "/ws/foo.o");
    assert_eq!(lib.linker, "ld64.lld");
    assert_eq!(lib.out, "/ws/libfoo.dylib");
    assert_eq!(
        args(&lib),
        vec!["-o", "/ws/libfoo.dylib", "-arch", "arm64", "-platform_version", "macos", "10", "11", "-dylib", "/ws/foo.o"]
    );
    assert!(lib.def.is_none());
    let t = PrimitiveTarget::new(TargetArch::X86_64, TargetOs::Darwin);
    let exe = link_plan(t, true, "foo", "/ws", "/ws/foo.o");
    assert_eq!(exe.out, "/ws/foo");
    assert_eq!(
        args(&exe),
        vec!["-o", "/ws/foo", "-arch", "x86_64", "-platform_version", "macos", "10", "11", "/ws/foo.o"]
    );
}

#[test]
fn linking_on_linux() {
    let t = PrimitiveTarget::new(TargetArch::X86_64, TargetOs::Linux);
    let lib = link_plan(t, false, "foo", "/ws", "/ws/foo.o");
    assert_eq!(lib.linker, "ld.lld");
    assert_eq!(args(&lib), vec!["-o", "/ws/libfoo.so", "--shared", "/ws/foo.o"]);
    let exe = link_plan(t, true, "foo", "/ws", "/ws/foo.o");
    assert_eq!(exe.linker, "ld.lld");
    assert_eq!(args(&exe), vec!["-o", "/ws/foo", "/ws/foo.o"]);
}

#[test]
fn linking_on_windows() {
    let t = PrimitiveTarget::new(TargetArch::X86_64, TargetOs::Win32);
    let lib = link_plan(t, false, "foo", "/ws", "/ws/foo.o");
    assert_eq!(lib.linker, "lld-link");
    assert_eq!(lib.out, "/ws/foo.dll");
    assert_eq!(lib.def.as_deref(), Some("/ws/foo.def"));
    assert_eq!(args(&lib), vec!["/out:/ws/foo.dll", "/dll", "/def:/ws/foo.def", "/ws/foo.o"]);
    let exe = link_plan(t, true, "foo", "/ws", "/ws/foo.o");
    assert_eq!(exe.out, "/ws/foo.exe");
    assert_eq!(args(&exe), vec!["/out:/ws/foo.exe", "/ws/foo.o"]);
    assert!(exe.def.is_none());
}

fn exports() -> Vec<TypeDeclaration> {
    vec![
        TypeDeclaration::Basic(BasicType::new(String::from("A"), strings(&["a1", "a2"]))),
        TypeDeclaration::Basic(BasicType::new(String::from("B"), strings(&[]))),
        TypeDeclaration::Basic(BasicType::new(String::from("C"), strings(&["c1"]))),
    ]
}

#[test]
fn module_definition_lists_every_function() {
    assert_eq!(module_definition(&exports()), "EXPORTS\n    a1\n    a2\n    c1\n");
    assert_eq!(module_definition(&[]), "EXPORTS\n");
}

#[test]
fn link_error_message() {
    assert_eq!(LinkError::new(String::from("undefined symbol")).message(), "undefined symbol");
}

fn compiled() -> BuildEvent {
    BuildEvent::Compiled(exports())
}

fn next(step: BuildStep) -> (Build, BuildAction) {
    match step {
        BuildStep::Continue(b, a) => (b, a),
        _ => panic!("the build should go on"),
    }
}

fn failure(step: BuildStep) -> ProjectBuildError {
    match step {
        BuildStep::Failed(e) => e,
        _ => panic!("the build should fail"),
    }
}

fn meta() -> PackageMeta {
    PackageMeta::new(PackageName::new(String::from("foo")).unwrap(), PackageVersion::new(1, 0, 0))
}

fn compile_action(a: &BuildAction) -> (PrimitiveTarget, bool, &str, &str) {
    match a {
        BuildAction::Compile { target, exe, workspace, object } => (*target, *exe, workspace, object),
        _ => panic!("expected a compile"),
    }
}

#[test]
fn build_library_then_executable() {
    let linux = PrimitiveTarget::new(TargetArch::X86_64, TargetOs::Linux);
    let windows = PrimitiveTarget::new(TargetArch::X86_64, TargetOs::Win32);
    let b = Build::new(meta(), vec![linux, windows], String::from("lib"), String::from("src"), true, true);
    assert_eq!(b.targets_of().len(), 2);

    // Library for Linux, in its workspace below the library's sources.
    let (b, a) = next(b.step(BuildEvent::Started));
    assert_eq!(
        compile_action(&a),
        (linux, false, "lib/.build/x86_64-unknown-linux-gnu", "lib/.build/x86_64-unknown-linux-gnu/foo.o")
    );
    let (b, a) = next(b.step(compiled()));
    match a {
        BuildAction::Link(p) => {
            assert_eq!(p.out, "lib/.build/x86_64-unknown-linux-gnu/libfoo.so");
            assert_eq!(p.args.last().unwrap(), "lib/.build/x86_64-unknown-linux-gnu/foo.o");
        }
        _ => panic!("expected a link"),
    }
    assert!(b.library(&linux).is_none());

    // Library for Windows: the module definition comes first.
    let (b, a) = next(b.step(BuildEvent::Completed));
    let ws = "lib/.build/x86_64-pc-windows-msvc";
    assert_eq!(compile_action(&a), (windows, false, ws, "lib/.build/x86_64-pc-windows-msvc/foo.o"));
    assert!(b.library(&linux).is_some());
    let (b, a) = next(b.step(compiled()));
    match a {
        BuildAction::WriteModuleDefinition { path, content } => {
            assert_eq!(path, "lib/.build/x86_64-pc-windows-msvc/foo.def");
            assert_eq!(content, "EXPORTS\n    a1\n    a2\n    c1\n");
        }
        _ => panic!("expected a module definition"),
    }
    let (b, a) = next(b.step(BuildEvent::Completed));
    match a {
        BuildAction::Link(p) => assert_eq!(p.args[0], "/out:lib/.build/x86_64-pc-windows-msvc/foo.dll"),
        _ => panic!("expected a link"),
    }

    // Executable for Linux: the library for each target is there.
    let (b, a) = next(b.step(BuildEvent::Completed));
    assert_eq!(compile_action(&a).0, linux);
    assert_eq!(compile_action(&a).1, true);
    assert_eq!(compile_action(&a).2, "src/.build/x86_64-unknown-linux-gnu");
    match b.library(&windows).unwrap().bin().bin() {
        LibraryBinary::Bundle(p) => assert_eq!(p, "lib/.build/x86_64-pc-windows-msvc/foo.dll"),
    }
    let (b, a) = next(b.step(compiled()));
    match a {
        BuildAction::Link(p) => assert_eq!(p.out, "src/.build/x86_64-unknown-linux-gnu/foo"),
        _ => panic!("expected a link"),
    }
    let (b, _) = next(b.step(BuildEvent::Completed));
    let (b, a) = next(b.step(compiled()));
    match a {
        BuildAction::Link(p) => assert_eq!(p.out, "src/.build/x86_64-pc-windows-msvc/foo.exe"),
        _ => panic!("expected a link"),
    }
    match b.step(BuildEvent::Completed) {
        BuildStep::Finished(pkg) => {
            assert_eq!(pkg.libs().len(), 2);
            assert_eq!(pkg.exes().len(), 2);
            assert!(pkg.libs()[0].0.same(&Target::Primitive(linux)));
            assert!(pkg.exes()[1].0.same(&Target::Primitive(windows)));
            assert_eq!(pkg.exes()[0].1.bin(), "src/.build/x86_64-unknown-linux-gnu/foo");
            assert_eq!(pkg.meta().name().as_str(), "foo");
        }
        _ => panic!("the build should be over"),
    }
}

#[test]
fn failed_compiles_end_the_build() {
    let linux = PrimitiveTarget::new(TargetArch::X86_64, TargetOs::Linux);
    let start = || {
        let b = Build::new(meta(), vec![linux], String::from("lib"), String::new(), true, false);
        next(b.step(BuildEvent::Started)).0
    };

    match failure(start().step(BuildEvent::DirectoryFailed(io_error("denied")))) {
        ProjectBuildError::CreateDirectoryFailed(p, e) => {
            assert_eq!(p, "lib/.build/x86_64-unknown-linux-gnu");
            assert_eq!(e.to_string(), "denied");
        }
        _ => panic!("expected CreateDirectoryFailed"),
    }
    let e = TargetResolveError { reason: String::from("unknown") };
    match failure(start().step(BuildEvent::ResolveFailed(e))) {
        ProjectBuildError::ResolvePrimitiveTargetFailed(t, e) => {
            assert!(t.same(&Target::Primitive(linux)));
            assert_eq!(e.reason, "unknown");
        }
        _ => panic!("expected ResolvePrimitiveTargetFailed"),
    }
    let e = SyntaxError::new(Span::new(1, 2), "invalid type");
    match failure(start().step(BuildEvent::SyntaxFailed(String::from("lib/Foo.nt"), e))) {
        ProjectBuildError::InvalidSyntax(p, e) => {
            assert_eq!(p, "lib/Foo.nt");
            assert_eq!(e.reason(), "invalid type");
        }
        _ => panic!("expected InvalidSyntax"),
    }
    let e = BuildError { reason: String::from("no memory") };
    match failure(start().step(BuildEvent::CodegenFailed(e))) {
        ProjectBuildError::BuildFailed(p, e) => {
            assert_eq!(p, "lib/.build/x86_64-unknown-linux-gnu/foo.o");
            assert_eq!(e.reason, "no memory");
        }
        _ => panic!("expected BuildFailed"),
    }
}

#[test]
fn failed_writes_and_links_end_the_build() {
    let linux = PrimitiveTarget::new(TargetArch::X86_64, TargetOs::Linux);
    let windows = PrimitiveTarget::new(TargetArch::X86_64, TargetOs::Win32);

    // The module definition of a Windows library could not be written: nothing is linked.
    let b = Build::new(meta(), vec![windows], String::from("lib"), String::new(), true, false);
    let (b, _) = next(b.step(BuildEvent::Started));
    let (b, _) = next(b.step(compiled()));
    match failure(b.step(BuildEvent::WriteFailed(io_error("full")))) {
        ProjectBuildError::CreateModuleDefinitionFailed(p, _) => {
            assert_eq!(p, "lib/.build/x86_64-pc-windows-msvc/foo.def")
        }
        _ => panic!("expected CreateModuleDefinitionFailed"),
    }

    // A library fails to link: no executable is built.
    let b = Build::new(meta(), vec![linux], String::from("lib"), String::from("src"), true, true);
    let (b, _) = next(b.step(BuildEvent::Started));
    let (b, _) = next(b.step(compiled()));
    let e = LinkError::new(String::from("undefined symbol: bar"));
    match failure(b.step(BuildEvent::LinkFailed(e))) {
        ProjectBuildError::LinkFailed(p, e) => {
            assert_eq!(p, "lib/.build/x86_64-unknown-linux-gnu/libfoo.so");
            assert_eq!(e.message(), "undefined symbol: bar");
        }
        _ => panic!("expected LinkFailed"),
    }

    // An executable fails to link.
    let b = Build::new(meta(), vec![linux], String::new(), String::from("src"), false, true);
    let (b, _) = next(b.step(BuildEvent::Started));
    let (b, _) = next(b.step(compiled()));
    match failure(b.step(BuildEvent::LinkFailed(LinkError::new(String::from("x"))))) {
        ProjectBuildError::LinkFailed(p, _) => assert_eq!(p, "src/.build/x86_64-unknown-linux-gnu/foo"),
        _ => panic!("expected LinkFailed"),
    }
}

#[test]
fn build_executable_only() {
    let mut p = project(Some("src"), None);
    let mut exe = SourceSet::new();
    add(&mut exe, &["Foo.nt"], class_file("Foo"));
    p.load(Ok(exe), Ok(SourceSet::new())).unwrap();
    let all = PrimitiveTarget::all();
    assert_eq!(all.len(), 6);
    let mut b = p.build();
    assert_eq!(b.targets_of(), &all[..]);
    let mut event = BuildEvent::Started;

    // The executable is built for every target in turn.
    for t in &all {
        let (next_b, a) = next(b.step(event));
        let (target, exe, ws, obj) = compile_action(&a);
        assert_eq!(target, *t);
        assert!(exe);
        assert_eq!(ws, format!("src/.build/{}", t.name()));
        assert_eq!(obj, format!("src/.build/{}/foo.o", t.name()));
        assert!(next_b.library(t).is_none());
        let (next_b, _) = next(next_b.step(compiled()));
        b = next_b;
        event = BuildEvent::Completed;
    }
    match b.step(event) {
        BuildStep::Finished(pkg) => {
            assert_eq!(pkg.libs().len(), 0);
            assert_eq!(pkg.exes().len(), 6);
            assert_eq!(pkg.exes()[0].1.bin(), "src/.build/aarch64-apple-darwin/foo");
            assert_eq!(pkg.exes()[5].1.bin(), "src/.build/x86_64-pc-windows-msvc/foo.exe");
            assert!(pkg.exes()[3].0.same(&Target::Primitive(PrimitiveTarget::new(TargetArch::X86_64, TargetOs::Linux))));
            assert_eq!(pkg.pack(0)[0..4], [0x7F, b'N', b'P', b'K']);
        }
        _ => panic!("the build should be over"),
    }
}

#[test]
fn phase_is_visible() {
    let t = PrimitiveTarget::new(TargetArch::X86_64, TargetOs::Linux);
    let b = Build::new(meta(), vec![t], String::from("lib"), String::new(), true, false);
    let p = Phase::Start;
    assert!(matches!(p, Phase::Start));
    let (_, a) = next(b.step(BuildEvent::Started));
    assert!(matches!(a, BuildAction::Compile { exe: false, .. }));
}
