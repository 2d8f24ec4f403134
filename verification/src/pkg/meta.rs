//! The name and version of a package.
use vstd::prelude::*;
use vstd::utf8::encode_utf8;

verus! {

/// The name of a package: between 1 and 255 bytes of UTF-8.
#[derive(Debug)]
pub struct PackageName {
    name: String,
}

impl View for PackageName {
    type V = Seq<char>;

    closed spec fn view(&self) -> Seq<char> {
        self.name@
    }
}

impl PackageName {
    /// The UTF-8 bytes of the name.
    pub closed spec fn bytes(&self) -> Seq<u8> {
        encode_utf8(self.name@)
    }

    /// A name is between 1 and 255 bytes long.
    #[verifier::type_invariant]
    spec fn inv(&self) -> bool {
        0 < encode_utf8(self.name@).len() <= 255
    }

    /// A package name, or `None` when `name` is empty or longer than 255 bytes.
    pub fn new(name: String) -> (r: Option<PackageName>)
        ensures
            match r {
                Some(n) => n@ == name@ && n.bytes() == encode_utf8(name@),
                None => !(0 < encode_utf8(name@).len() <= 255),
            },
    {
        let len = name.as_str().as_bytes().len();
        if 0 < len && len <= 255 {
            Some(PackageName { name })
        } else {
            None
        }
    }

    pub fn as_str(&self) -> (r: &str)
        ensures
            r@ == self@,
            encode_utf8(r@) == self.bytes(),
    {
        self.name.as_str()
    }

    /// A copy of this name.
    pub fn duplicate(&self) -> (r: PackageName)
        ensures
            r == *self,
    {
        proof {
            use_type_invariant(self);
        }
        PackageName { name: self.name.clone() }
    }

    /// The name as a package file stores it: its length in bytes, then its bytes.
    pub fn to_bin(&self) -> (r: Vec<u8>)
        ensures
            r@ == name_bin(self.bytes()),
    {
        proof {
            use_type_invariant(self);
        }
        let bytes = self.name.as_str().as_bytes();
        let mut r: Vec<u8> = Vec::new();
        r.push(bytes.len() as u8);
        let mut i: usize = 0;
        while i < bytes.len()
            invariant
                0 <= i <= bytes@.len(),
                bytes@ == self.bytes(),
                bytes@.len() <= 255,
                r@ == seq![bytes@.len() as u8] + bytes@.take(i as int),
            decreases bytes@.len() - i,
        {
            r.push(bytes[i]);
            assert(bytes@.take(i + 1) =~= bytes@.take(i as int).push(bytes@[i as int]));
            i = i + 1;
        }
        assert(bytes@.take(bytes@.len() as int) =~= bytes@);
        r
    }
}

/// How a package file stores a name whose UTF-8 bytes are `bytes`.
pub open spec fn name_bin(bytes: Seq<u8>) -> Seq<u8> {
    seq![bytes.len() as u8] + bytes
}

/// The version of a package.
#[derive(Clone, Copy, Debug, PartialEq, Eq, Structural)]
pub struct PackageVersion {
    pub major: u16,
    pub minor: u16,
    pub patch: u16,
}

/// How a package file stores a version: major, minor and patch in 16 bits each,
/// the major one highest.
pub open spec fn version_bin(v: PackageVersion) -> u64 {
    (v.major as int * 0x1_0000_0000 + v.minor as int * 0x1_0000 + v.patch as int) as u64
}

impl PackageVersion {
    pub fn new(major: u16, minor: u16, patch: u16) -> (r: PackageVersion)
        ensures
            r == (PackageVersion { major, minor, patch }),
    {
        PackageVersion { major, minor, patch }
    }

    pub fn major(&self) -> (r: u16)
        ensures
            r == self.major,
    {
        self.major
    }

    pub fn to_bin(&self) -> (r: u64)
        ensures
            r == version_bin(*self),
            r == self.major as int * 0x1_0000_0000 + self.minor as int * 0x1_0000
                + self.patch as int,
    {
        (self.major as u64) * 0x1_0000_0000 + (self.minor as u64) * 0x1_0000 + (self.patch as u64)
    }
}

/// The name and version of a package.
#[derive(Debug)]
pub struct PackageMeta {
    pub name: PackageName,
    pub version: PackageVersion,
}

impl PackageMeta {
    pub fn new(name: PackageName, version: PackageVersion) -> (r: PackageMeta)
        ensures
            r.name == name,
            r.version == version,
    {
        PackageMeta { name, version }
    }

    pub fn name(&self) -> (r: &PackageName)
        ensures
            *r == self.name,
    {
        &self.name
    }

    pub fn version(&self) -> (r: &PackageVersion)
        ensures
            *r == self.version,
    {
        &self.version
    }
}

} // verus!
