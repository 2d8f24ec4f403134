//! What the linker is asked to do for each target.
use crate::pkg::target::{PrimitiveTarget, TargetArch, TargetOs};
use crate::pkg::ty::TypeDeclaration;
use crate::project::source::strings_view;
use vstd::prelude::*;

verus! {

/// The path `name` inside the directory `base`, as `std::path::Path::join` gives it.
pub uninterp spec fn joined_path(base: Seq<char>, name: Seq<char>) -> Seq<char>;

/// `base` joined with `name` by `std::path::Path::join`.
///
/// Its contract only names the result: how `join` places separators is not restated here.
#[verifier::external_body]
pub(crate) fn path_join(base: &str, name: &str) -> (r: String)
    ensures
        r@ == joined_path(base@, name@),
{
    std::path::Path::new(base).join(name).to_string_lossy().into_owned()
}

/// The name of an architecture as the Darwin linker knows it.
pub open spec fn darwin_arch(arch: TargetArch) -> Seq<char> {
    match arch {
        TargetArch::AArch64 => "arm64"@,
        TargetArch::X86_64 => "x86_64"@,
    }
}

/// The file name of a binary of the package `name` for `os`.
pub open spec fn output_file_name(os: TargetOs, exe: bool, name: Seq<char>) -> Seq<char> {
    if exe {
        match os {
            TargetOs::Win32 => name + ".exe"@,
            _ => name,
        }
    } else {
        match os {
            TargetOs::Darwin => "lib"@ + name + ".dylib"@,
            TargetOs::Linux => "lib"@ + name + ".so"@,
            TargetOs::Win32 => name + ".dll"@,
        }
    }
}

/// A link: the linker to run, its arguments, the file it makes and, for a Windows
/// library, the module definition file that it reads.
#[derive(Debug)]
pub struct LinkPlan {
    pub linker: &'static str,
    pub args: Vec<String>,
    pub out: String,
    pub def: Option<String>,
}

/// What a [`LinkPlan`] holds, as plain values.
pub struct SpecLinkPlan {
    pub linker: Seq<char>,
    pub args: Seq<Seq<char>>,
    pub out: Seq<char>,
    pub def: Option<Seq<char>>,
}

impl View for LinkPlan {
    type V = SpecLinkPlan;

    open spec fn view(&self) -> SpecLinkPlan {
        SpecLinkPlan {
            linker: self.linker@,
            args: strings_view(self.args@),
            out: self.out@,
            def: match self.def {
                Some(d) => Some(d@),
                None => None,
            },
        }
    }
}

/// The link of the object `object`, compiled in the directory `ws` for `target`, into the
/// executable (`exe`) or the library of the package `name`.
pub open spec fn spec_link_plan(
    target: PrimitiveTarget,
    exe: bool,
    name: Seq<char>,
    ws: Seq<char>,
    object: Seq<char>,
) -> SpecLinkPlan {
    let out = joined_path(ws, output_file_name(target.os, exe, name));
    match target.os {
        TargetOs::Darwin => SpecLinkPlan {
            linker: "ld64.lld"@,
            args: seq!["-o"@, out, "-arch"@, darwin_arch(target.arch), "-platform_version"@, "macos"@, "10"@, "11"@]
                + (if exe {
                seq![]
            } else {
                seq!["-dylib"@]
            }) + seq![object],
            out,
            def: None,
        },
        TargetOs::Linux => SpecLinkPlan {
            linker: "ld.lld"@,
            args: seq!["-o"@, out] + (if exe {
                seq![]
            } else {
                seq!["--shared"@]
            }) + seq![object],
            out,
            def: None,
        },
        TargetOs::Win32 => if exe {
            SpecLinkPlan {
                linker: "lld-link"@,
                args: seq!["/out:"@ + out, object],
                out,
                def: None,
            }
        } else {
            let def = joined_path(ws, name + ".def"@);
            SpecLinkPlan {
                linker: "lld-link"@,
                args: seq!["/out:"@ + out, "/dll"@, "/def:"@ + def, object],
                out,
                def: Some(def),
            }
        },
    }
}

fn push_arg(args: &mut Vec<String>, arg: &str)
    ensures
        strings_view(final(args)@) == strings_view(old(args)@).push(arg@),
{
    let ghost before = strings_view(args@);
    args.push(String::from_str(arg));
    assert(strings_view(args@) =~= before.push(arg@));
}

/// Builds the linker command for a binary of the package `name` for `target`, from the
/// object `object` compiled in the directory `ws`.
pub fn link_plan(target: PrimitiveTarget, exe: bool, name: &str, ws: &str, object: &str) -> (r:
    LinkPlan)
    ensures
        r@ == spec_link_plan(target, exe, name@, ws@, object@),
{
    let file = if exe {
        match target.os {
            TargetOs::Win32 => String::from_str(name).concat(".exe"),
            _ => String::from_str(name),
        }
    } else {
        match target.os {
            TargetOs::Darwin => String::from_str("lib").concat(name).concat(".dylib"),
            TargetOs::Linux => String::from_str("lib").concat(name).concat(".so"),
            TargetOs::Win32 => String::from_str(name).concat(".dll"),
        }
    };
    let out = path_join(ws, file.as_str());
    let mut args: Vec<String> = Vec::new();
    let mut def: Option<String> = None;
    let linker = match target.os {
        TargetOs::Darwin => {
            push_arg(&mut args, "-o");
            push_arg(&mut args, out.as_str());
            push_arg(&mut args, "-arch");
            match target.arch {
                TargetArch::AArch64 => push_arg(&mut args, "arm64"),
                TargetArch::X86_64 => push_arg(&mut args, "x86_64"),
            }
            push_arg(&mut args, "-platform_version");
            push_arg(&mut args, "macos");
            push_arg(&mut args, "10");
            push_arg(&mut args, "11");
            if !exe {
                push_arg(&mut args, "-dylib");
            }
            "ld64.lld"
        },
        TargetOs::Linux => {
            push_arg(&mut args, "-o");
            push_arg(&mut args, out.as_str());
            if !exe {
                push_arg(&mut args, "--shared");
            }
            "ld.lld"
        },
        TargetOs::Win32 => {
            let out_arg = String::from_str("/out:").concat(out.as_str());
            push_arg(&mut args, out_arg.as_str());
            if !exe {
                let d = path_join(ws, String::from_str(name).concat(".def").as_str());
                push_arg(&mut args, "/dll");
                let def_arg = String::from_str("/def:").concat(d.as_str());
                push_arg(&mut args, def_arg.as_str());
                def = Some(d);
            }
            "lld-link"
        },
    };
    push_arg(&mut args, object);
    let r = LinkPlan { linker, args, out, def };
    proof {
        let s = spec_link_plan(target, exe, name@, ws@, object@);
        assert(r@.args =~= s.args);
    }
    r
}

/// The module definition lines of the functions `funcs`: each name indented by four
/// spaces, on a line of its own.
pub open spec fn export_lines(funcs: Seq<Seq<char>>) -> Seq<char>
    decreases funcs.len(),
{
    if funcs.len() == 0 {
        seq![]
    } else {
        export_lines(funcs.drop_last()) + "    "@ + funcs.last() + "\n"@
    }
}

/// The names of the functions that a type exports.
pub open spec fn type_funcs(ty: TypeDeclaration) -> Seq<Seq<char>> {
    match ty {
        TypeDeclaration::Basic(b) => strings_view(b.funcs@),
    }
}

/// The module definition lines of all functions of the types `types`, type by type.
pub open spec fn types_export_lines(types: Seq<TypeDeclaration>) -> Seq<char>
    decreases types.len(),
{
    if types.len() == 0 {
        seq![]
    } else {
        types_export_lines(types.drop_last()) + export_lines(type_funcs(types.last()))
    }
}

/// The module definition of a Windows library that exports `types`.
pub open spec fn module_definition_text(types: Seq<TypeDeclaration>) -> Seq<char> {
    "EXPORTS\n"@ + types_export_lines(types)
}

/// Writes the module definition of a Windows library that exports `types`: `EXPORTS`,
/// then the name of every function of every type.
pub fn module_definition(types: &[TypeDeclaration]) -> (r: String)
    ensures
        r@ == module_definition_text(types@),
{
    let mut text = String::from_str("EXPORTS\n");
    let mut i: usize = 0;
    while i < types.len()
        invariant
            0 <= i <= types@.len(),
            text@ == "EXPORTS\n"@ + types_export_lines(types@.take(i as int)),
        decreases types@.len() - i,
    {
        assert(types@.take(i + 1).drop_last() =~= types@.take(i as int));
        let funcs = match &types[i] {
            TypeDeclaration::Basic(v) => v.funcs(),
        };
        let ghost fs = strings_view(funcs@);
        let ghost start = text@;
        let mut j: usize = 0;
        while j < funcs.len()
            invariant
                0 <= j <= funcs@.len(),
                fs == strings_view(funcs@),
                text@ == start + export_lines(fs.take(j as int)),
            decreases funcs@.len() - j,
        {
            assert(fs.take(j + 1).drop_last() =~= fs.take(j as int));
            text.append("    ");
            text.append(funcs[j].as_str());
            text.append("\n");
            proof {
                assert(start + export_lines(fs.take(j + 1)) =~= start + export_lines(
                    fs.take(j as int),
                ) + "    "@ + funcs@[j as int]@ + "\n"@);
            }
            j = j + 1;
        }
        assert(fs.take(funcs@.len() as int) =~= fs);
        assert(fs == type_funcs(types@[i as int]));
        proof {
            assert(types_export_lines(types@.take(i + 1)) =~= types_export_lines(
                types@.take(i as int),
            ) + export_lines(type_funcs(types@[i as int])));
        }
        i = i + 1;
    }
    assert(types@.take(types@.len() as int) =~= types@);
    text
}

/// A library is linked as a shared library on every target: with `--shared` on Linux,
/// `-dylib` on Darwin and `/dll` on Windows, whatever the architecture.
pub proof fn lemma_library_is_linked_shared(
    arch: TargetArch,
    name: Seq<char>,
    ws: Seq<char>,
    object: Seq<char>,
)
    ensures
        spec_link_plan(PrimitiveTarget { arch, os: TargetOs::Linux }, false, name, ws, object).args.contains(
            "--shared"@,
        ),
        spec_link_plan(PrimitiveTarget { arch, os: TargetOs::Darwin }, false, name, ws, object).args.contains(
            "-dylib"@,
        ),
        spec_link_plan(PrimitiveTarget { arch, os: TargetOs::Win32 }, false, name, ws, object).args.contains(
            "/dll"@,
        ),
{
    let linux = spec_link_plan(PrimitiveTarget { arch, os: TargetOs::Linux }, false, name, ws, object);
    assert(linux.args[2] == "--shared"@);
    let darwin = spec_link_plan(PrimitiveTarget { arch, os: TargetOs::Darwin }, false, name, ws, object);
    assert(darwin.args[8] == "-dylib"@);
    let win = spec_link_plan(PrimitiveTarget { arch, os: TargetOs::Win32 }, false, name, ws, object);
    assert(win.args[1] == "/dll"@);
}

/// Every link takes the object as its last argument; on Linux and Darwin a library is
/// linked with the arguments of an executable, its own output in place of the
/// executable's, and the shared-library flag just before the object.
pub proof fn lemma_library_and_executable_links(
    target: PrimitiveTarget,
    name: Seq<char>,
    ws: Seq<char>,
    object: Seq<char>,
)
    ensures
        ({
            let lib = spec_link_plan(target, false, name, ws, object);
            let exe = spec_link_plan(target, true, name, ws, object);
            &&& lib.args.last() == object
            &&& exe.args.last() == object
            &&& target.os == TargetOs::Linux ==> lib.args == exe.args.update(1, lib.out).insert(
                exe.args.len() - 1,
                "--shared"@,
            )
            &&& target.os == TargetOs::Darwin ==> lib.args == exe.args.update(1, lib.out).insert(
                exe.args.len() - 1,
                "-dylib"@,
            )
        }),
{
    let lib = spec_link_plan(target, false, name, ws, object);
    let exe = spec_link_plan(target, true, name, ws, object);
    if target.os == TargetOs::Linux || target.os == TargetOs::Darwin {
        assert(lib.args =~= exe.args.update(1, lib.out).insert(
            exe.args.len() - 1,
            if target.os == TargetOs::Linux {
                "--shared"@
            } else {
                "-dylib"@
            },
        ));
    }
}

/// The architecture changes nothing of a link on Linux and Windows; on Darwin it changes
/// only the value given to `-arch`.
pub proof fn lemma_link_plan_architecture(
    os: TargetOs,
    exe: bool,
    name: Seq<char>,
    ws: Seq<char>,
    object: Seq<char>,
)
    ensures
        ({
            let a = spec_link_plan(PrimitiveTarget { arch: TargetArch::AArch64, os }, exe, name, ws, object);
            let x = spec_link_plan(PrimitiveTarget { arch: TargetArch::X86_64, os }, exe, name, ws, object);
            &&& a.linker == x.linker
            &&& a.out == x.out
            &&& a.def == x.def
            &&& if os == TargetOs::Darwin {
                &&& a.args.len() == x.args.len()
                &&& a.args[2] == "-arch"@
                &&& a.args[3] == "arm64"@
                &&& x.args[3] == "x86_64"@
                &&& a.args.update(3, "x86_64"@) == x.args
            } else {
                a.args == x.args
            }
        }),
{
    let a = spec_link_plan(PrimitiveTarget { arch: TargetArch::AArch64, os }, exe, name, ws, object);
    let x = spec_link_plan(PrimitiveTarget { arch: TargetArch::X86_64, os }, exe, name, ws, object);
    if os == TargetOs::Darwin {
        assert(a.args.update(3, "x86_64"@) =~= x.args);
    }
}

/// The export lines of a list of functions are those of its parts, one after the other.
pub proof fn lemma_export_lines_concat(a: Seq<Seq<char>>, b: Seq<Seq<char>>)
    ensures
        export_lines(a + b) == export_lines(a) + export_lines(b),
    decreases b.len(),
{
    if b.len() == 0 {
        assert(a + b =~= a);
        assert(export_lines(a) + export_lines(b) =~= export_lines(a));
    } else {
        lemma_export_lines_concat(a, b.drop_last());
        assert((a + b).drop_last() =~= a + b.drop_last());
        assert((a + b).last() == b.last());
        assert(export_lines(a + b) =~= export_lines(a) + export_lines(b));
    }
}

/// A function is exported on a line of its own: four spaces, its name, a line break.
pub proof fn lemma_export_line(f: Seq<char>)
    ensures
        export_lines(seq![f]) == "    "@ + f + "\n"@,
{
    assert(seq![f].drop_last() =~= Seq::<Seq<char>>::empty());
    assert(export_lines(Seq::<Seq<char>>::empty()) =~= Seq::<char>::empty());
    assert(Seq::<char>::empty() + "    "@ + f + "\n"@ =~= "    "@ + f + "\n"@);
}

/// The module definition of a list of types: `EXPORTS`, then the lines of the first part's
/// functions, then those of the second part's; the lines of one type are those of all its
/// functions, each on its own line, so every function of every type is exported, in order.
pub proof fn lemma_module_definition_exports_all(
    a: Seq<TypeDeclaration>,
    b: Seq<TypeDeclaration>,
    t: TypeDeclaration,
)
    ensures
        module_definition_text(a + b) == module_definition_text(a) + types_export_lines(b),
        types_export_lines(seq![t]) == export_lines(type_funcs(t)),
        module_definition_text(seq![]) == "EXPORTS\n"@,
{
    lemma_types_export_lines_concat(a, b);
    assert(seq![t].drop_last() =~= Seq::<TypeDeclaration>::empty());
    assert(types_export_lines(Seq::<TypeDeclaration>::empty()) =~= Seq::<char>::empty());
    assert(Seq::<char>::empty() + export_lines(type_funcs(t)) =~= export_lines(type_funcs(t)));
    assert(module_definition_text(seq![]) =~= "EXPORTS\n"@);
    assert(module_definition_text(a + b) =~= module_definition_text(a) + types_export_lines(b));
}

proof fn lemma_types_export_lines_concat(a: Seq<TypeDeclaration>, b: Seq<TypeDeclaration>)
    ensures
        types_export_lines(a + b) == types_export_lines(a) + types_export_lines(b),
    decreases b.len(),
{
    if b.len() == 0 {
        assert(a + b =~= a);
        assert(types_export_lines(a) + types_export_lines(b) =~= types_export_lines(a));
    } else {
        lemma_types_export_lines_concat(a, b.drop_last());
        assert((a + b).drop_last() =~= a + b.drop_last());
        assert((a + b).last() == b.last());
        assert(types_export_lines(a + b) =~= types_export_lines(a) + types_export_lines(b));
    }
}

} // verus!
