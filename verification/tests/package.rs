use stage0::pkg::lib::{Library, LibraryBinary};
use stage0::pkg::meta::{PackageMeta, PackageName, PackageVersion};
use stage0::pkg::target::{PrimitiveTarget, Target, TargetArch, TargetOs};
use stage0::pkg::ty::{BasicType, TypeDeclaration};
use stage0::pkg::{Binary, Package, ENTRY_DATE, ENTRY_END, ENTRY_NAME, ENTRY_VERSION};

fn linux() -> Target {
    Target::Primitive(PrimitiveTarget::new(TargetArch::X86_64, TargetOs::Linux))
}

fn darwin() -> Target {
    Target::Primitive(PrimitiveTarget::new(TargetArch::AArch64, TargetOs::Darwin))
}

#[test]
fn package_name_length() {
    assert!(PackageName::new(String::new()).is_none());
    assert!(PackageName::new("a".repeat(256)).is_none());
    assert!(PackageName::new("a".repeat(255)).is_some());
    let n = PackageName::new(String::from("abc")).unwrap();
    assert_eq!(n.as_str(), "abc");
    assert_eq!(n.to_bin(), vec![3, b'a', b'b', b'c']);
}

#[test]
fn package_name_counts_bytes() {
    // Two characters of two bytes each.
    let n = PackageName::new(String::from("éé")).unwrap();
    assert_eq!(n.to_bin(), vec![4, 0xC3, 0xA9, 0xC3, 0xA9]);
}

#[test]
fn package_version_bin() {
    let v = PackageVersion::new(1, 2, 3);
    assert_eq!(v.to_bin(), 0x0000_0001_0002_0003);
    assert_eq!(v.major(), 1);
    assert_eq!(PackageVersion::new(0xFFFF, 0xFFFF, 0xFFFF).to_bin(), 0x0000_FFFF_FFFF_FFFF);
}

fn meta() -> PackageMeta {
    PackageMeta::new(PackageName::new(String::from("foo")).unwrap(), PackageVersion::new(1, 0, 2))
}

#[test]
fn package_header_bytes() {
    let exes = vec![(linux(), Binary::new(String::from("/ws/foo"), Vec::new()))];
    let pkg = Package::new(meta(), exes, Vec::new());
    let h = pkg.pack(0x0102_0304_0506_0708);
    let mut want: Vec<u8> = vec![0x7F, b'N', b'P', b'K', ENTRY_NAME, 3, b'f', b'o', b'o', ENTRY_VERSION];
    want.extend_from_slice(&[0, 0, 0, 1, 0, 0, 0, 2]);
    want.push(ENTRY_DATE);
    want.extend_from_slice(&[1, 2, 3, 4, 5, 6, 7, 8]);
    want.push(ENTRY_END);
    assert_eq!(h, want);
    assert_eq!(ENTRY_END, 0);
    assert_eq!(ENTRY_NAME, 1);
    assert_eq!(ENTRY_VERSION, 2);
    assert_eq!(ENTRY_DATE, 3);
}

#[test]
fn package_holds_one_binary_per_target() {
    let lib = Library::new(LibraryBinary::Bundle(String::from("/ws/libfoo.so")), Vec::new());
    let libs = vec![(linux(), Binary::new(lib, Vec::new()))];
    let exes = vec![
        (linux(), Binary::new(String::from("/ws/foo"), Vec::new())),
        (darwin(), Binary::new(String::from("/ws2/foo"), Vec::new())),
    ];
    let pkg = Package::new(meta(), exes, libs);
    assert_eq!(pkg.exes().len(), 2);
    assert_eq!(pkg.libs().len(), 1);
    assert_eq!(pkg.meta().name().as_str(), "foo");
    assert_eq!(pkg.exes()[1].1.bin(), "/ws2/foo");
    assert!(!pkg.exes()[0].0.same(&pkg.exes()[1].0));
    assert!(pkg.exes()[0].0.same(&pkg.libs()[0].0));
}

#[test]
fn library_exports() {
    let ty = TypeDeclaration::Basic(BasicType::new(String::from("Foo"), vec![String::from("_F3Foo")]));
    let lib = Library::new(LibraryBinary::Bundle(String::from("x")), vec![ty]);
    assert_eq!(lib.types().len(), 1);
    match &lib.types()[0] {
        TypeDeclaration::Basic(b) => {
            assert_eq!(b.name(), "Foo");
            assert_eq!(b.funcs(), &[String::from("_F3Foo")][..]);
        }
    }
    match lib.bin() {
        LibraryBinary::Bundle(p) => assert_eq!(p, "x"),
    }
}
