//! Nitro packages.
pub mod dep;
pub mod lib;
pub mod meta;
pub mod target;
pub mod ty;

use crate::pkg::dep::Dependency;
use crate::pkg::lib::Library;
use crate::pkg::meta::{name_bin, version_bin, PackageMeta};
use crate::pkg::target::Target;
use vstd::prelude::*;

verus! {

/// The entry that ends the metadata of a package file.
pub const ENTRY_END: u8 = 0;

/// The entry that holds the package name.
pub const ENTRY_NAME: u8 = 1;

/// The entry that holds the package version.
pub const ENTRY_VERSION: u8 = 2;

/// The entry that holds when the package was made.
pub const ENTRY_DATE: u8 = 3;

/// The entry that holds a library.
pub const ENTRY_LIB: u8 = 4;

/// The bytes that a package file starts with: `\x7FNPK`.
pub open spec fn package_magic() -> Seq<u8> {
    seq![0x7Fu8, 0x4Eu8, 0x50u8, 0x4Bu8]
}

/// The eight bytes of `x`, most significant first.
pub open spec fn be_bytes(x: u64) -> Seq<u8> {
    Seq::new(8, |i: int| (x >> ((56 - 8 * i) as u64)) as u8)
}

/// A package file: the magic, then the name, version and date entries, then the end of
/// the metadata.
pub open spec fn package_file(name: Seq<u8>, version: u64, created: u64) -> Seq<u8> {
    package_magic() + seq![ENTRY_NAME] + name + seq![ENTRY_VERSION] + be_bytes(version) + seq![
        ENTRY_DATE,
    ] + be_bytes(created) + seq![ENTRY_END]
}

/// Appends the eight bytes of `x`, most significant first.
fn push_be_u64(out: &mut Vec<u8>, x: u64)
    ensures
        final(out)@ == old(out)@ + be_bytes(x),
{
    let ghost start = out@;
    let mut i: usize = 0;
    while i < 8
        invariant
            0 <= i <= 8,
            out@ == start + be_bytes(x).take(i as int),
        decreases 8 - i,
    {
        out.push((x >> ((56 - 8 * i) as u64)) as u8);
        assert(be_bytes(x).take(i + 1) =~= be_bytes(x).take(i as int).push(be_bytes(x)[i as int]));
        i = i + 1;
    }
    assert(be_bytes(x).take(8) =~= be_bytes(x));
}

/// Whether no two entries are for the same target.
pub open spec fn targets_distinct<T>(entries: Seq<(Target, T)>) -> bool {
    forall|i: int, j: int|
        0 <= i < j < entries.len() ==> #[trigger] entries[i].0 != #[trigger] entries[j].0
}

/// A compiled binary file and the packages it needs.
#[derive(Debug)]
pub struct Binary<T> {
    pub bin: T,
    pub deps: Vec<Dependency>,
}

impl<T> Binary<T> {
    pub fn new(bin: T, deps: Vec<Dependency>) -> (r: Binary<T>)
        ensures
            r.bin == bin,
            r.deps == deps,
    {
        Binary { bin, deps }
    }

    pub fn bin(&self) -> (r: &T)
        ensures
            *r == self.bin,
    {
        &self.bin
    }
}

/// An unpacked Nitro package.
///
/// One package can contains only a single executable and a single library, per architecture.
#[derive(Debug)]
pub struct Package {
    meta: PackageMeta,
    exes: Vec<(Target, Binary<String>)>,
    libs: Vec<(Target, Binary<Library>)>,
}

impl Package {
    pub closed spec fn spec_meta(&self) -> PackageMeta {
        self.meta
    }

    /// The executables, each with the target it is for.
    pub closed spec fn spec_exes(&self) -> Seq<(Target, Binary<String>)> {
        self.exes@
    }

    /// The libraries, each with the target it is for.
    pub closed spec fn spec_libs(&self) -> Seq<(Target, Binary<Library>)> {
        self.libs@
    }

    /// What every package keeps: at least one binary, and at most one executable and one
    /// library per target.
    pub open spec fn wf(&self) -> bool {
        &&& self.spec_exes().len() > 0 || self.spec_libs().len() > 0
        &&& targets_distinct(self.spec_exes())
        &&& targets_distinct(self.spec_libs())
    }

    pub fn new(
        meta: PackageMeta,
        exes: Vec<(Target, Binary<String>)>,
        libs: Vec<(Target, Binary<Library>)>,
    ) -> (r: Package)
        requires
            exes@.len() > 0 || libs@.len() > 0,
            targets_distinct(exes@),
            targets_distinct(libs@),
        ensures
            r.wf(),
            r.spec_meta() == meta,
            r.spec_exes() == exes@,
            r.spec_libs() == libs@,
    {
        Package { meta, exes, libs }
    }

    pub fn meta(&self) -> (r: &PackageMeta)
        ensures
            *r == self.spec_meta(),
    {
        &self.meta
    }

    pub fn exes(&self) -> (r: &[(Target, Binary<String>)])
        ensures
            r@ == self.spec_exes(),
    {
        self.exes.as_slice()
    }

    pub fn libs(&self) -> (r: &[(Target, Binary<Library>)])
        ensures
            r@ == self.spec_libs(),
    {
        self.libs.as_slice()
    }

    /// The content of the package file made at `created` (seconds since the Unix epoch):
    /// its magic and metadata.
    pub fn pack(&self, created: u64) -> (r: Vec<u8>)
        ensures
            r@ == package_file(
                name_bin(self.spec_meta().name.bytes()),
                version_bin(self.spec_meta().version),
                created,
            ),
    {
        let meta = &self.meta;
        let mut out: Vec<u8> = Vec::new();

        // Write file magic.
        out.push(0x7F);
        out.push(0x4E);
        out.push(0x50);
        out.push(0x4B);

        // Write package name.
        out.push(ENTRY_NAME);
        let mut name = meta.name().to_bin();
        out.append(&mut name);

        // Write package version.
        out.push(ENTRY_VERSION);
        push_be_u64(&mut out, meta.version().to_bin());

        // Write created date.
        out.push(ENTRY_DATE);
        push_be_u64(&mut out, created);

        // End of meta data.
        out.push(ENTRY_END);
        proof {
            let m = self.spec_meta();
            assert(out@ =~= package_file(
                name_bin(m.name.bytes()),
                version_bin(m.version),
                created,
            ));
        }
        out
    }
}

/// Represents an error when a package is failed to pack.
#[derive(Debug)]
pub enum PackagePackError {
    /// The package file cannot be created.
    CreateFileFailed(std::io::Error),
    /// The package file cannot be written.
    WriteFailed(std::io::Error),
}

} // verus!
