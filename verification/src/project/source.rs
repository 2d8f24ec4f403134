//! The source files of a binary, each under the full name of the type it defines.
use crate::ast::grammar::SpecSourceFile;
use crate::ast::SourceFile;
use vstd::prelude::*;

verus! {

/// What an entry of a source directory is to the loader.
#[derive(Clone, Copy, Debug, PartialEq, Eq, Structural)]
pub enum SourceEntry {
    /// A directory, whose entries are read in turn.
    Directory,
    /// A source file (its extension is `nt`).
    Source,
    /// Anything else, which is skipped.
    Other,
}

/// How the loader treats an entry: a directory is searched, a file with the extension `nt`
/// is loaded, and anything else is skipped.
pub fn classify_entry(is_dir: bool, extension: Option<&str>) -> (r: SourceEntry)
    ensures
        r == if is_dir {
            SourceEntry::Directory
        } else if extension matches Some(e) && e@ == "nt"@ {
            SourceEntry::Source
        } else {
            SourceEntry::Other
        },
{
    if is_dir {
        return SourceEntry::Directory;
    }
    match extension {
        Some(e) => {
            let ext = String::from_str(e);
            let nt = String::from_str("nt");
            if ext == nt {
                SourceEntry::Source
            } else {
                SourceEntry::Other
            }
        },
        None => SourceEntry::Other,
    }
}

/// The components of a path joined with `.`, a `.` standing only after a non-empty part.
pub open spec fn join_components(cs: Seq<Seq<char>>) -> Seq<char>
    decreases cs.len(),
{
    if cs.len() == 0 {
        seq![]
    } else {
        let init = join_components(cs.drop_last());
        if init.len() > 0 {
            init + seq!['.'] + cs.last()
        } else {
            cs.last()
        }
    }
}

/// The full name of the type that the file at `cs` (its path relative to the source
/// root, component by component) defines: the components joined with `.`, without the
/// last three characters (the `.nt` extension).
pub open spec fn qualified_name_of(cs: Seq<Seq<char>>) -> Seq<char> {
    let joined = join_components(cs);
    if joined.len() >= 3 {
        joined.take(joined.len() - 3)
    } else {
        seq![]
    }
}

pub open spec fn strings_view(v: Seq<String>) -> Seq<Seq<char>> {
    v.map_values(|s: String| s@)
}

/// The full name of the type defined by the source file whose path relative to the source
/// root has the components `components`.
pub fn qualified_name(components: &[String]) -> (r: String)
    ensures
        r@ == qualified_name_of(strings_view(components@)),
{
    let ghost cs = strings_view(components@);
    let mut fqtn = String::from_str("");
    proof {
        reveal_strlit("");
        reveal_strlit(".");
    }
    let mut i: usize = 0;
    while i < components.len()
        invariant
            0 <= i <= components@.len(),
            cs == strings_view(components@),
            fqtn@ == join_components(cs.take(i as int)),
            "."@ == seq!['.'],
        decreases components@.len() - i,
    {
        assert(cs.take(i + 1).drop_last() =~= cs.take(i as int));
        if !fqtn.as_str().is_empty() {
            fqtn.append(".");
        }
        fqtn.append(components[i].as_str());
        i = i + 1;
    }
    assert(cs.take(components@.len() as int) =~= cs);

    // Strip extension.
    let s = fqtn.as_str();
    let n = s.unicode_len();
    let cut = if n >= 3 {
        n - 3
    } else {
        0
    };
    let stem = s.substring_char(0, cut);
    String::from_str(stem)
}

/// Where the last `.` of `s` is, if it has one.
pub open spec fn last_dot(s: Seq<char>) -> Option<int>
    decreases s.len(),
{
    if s.len() == 0 {
        None
    } else if s.last() == '.' {
        Some(s.len() - 1)
    } else {
        last_dot(s.drop_last())
    }
}

/// The namespace of the full type name `s`: what stands before its last `.`, or nothing.
pub open spec fn namespace_of(s: Seq<char>) -> Seq<char> {
    match last_dot(s) {
        Some(i) => s.take(i),
        None => seq![],
    }
}

/// The namespace of the type with the full name `fqtn`.
pub fn namespace(fqtn: &str) -> (r: String)
    ensures
        r@ == namespace_of(fqtn@),
{
    let n = fqtn.unicode_len();
    let mut i: usize = n;
    assert(fqtn@.take(n as int) =~= fqtn@);
    while i > 0
        invariant
            i <= n,
            n == fqtn@.len(),
            last_dot(fqtn@) == last_dot(fqtn@.take(i as int)),
        decreases i,
    {
        if fqtn.get_char(i - 1) == '.' {
            return String::from_str(fqtn.substring_char(0, i - 1));
        }
        assert(fqtn@.take(i as int).drop_last() =~= fqtn@.take(i - 1));
        i = i - 1;
    }
    proof {
        reveal_strlit("");
    }
    String::from_str("")
}

/// The entries of a set: each name with what its file holds.
pub open spec fn entries_view(entries: Seq<(String, SourceFile)>) -> Seq<(Seq<char>, SpecSourceFile)> {
    entries.map_values(|e: (String, SourceFile)| (e.0@, e.1@))
}

/// Whether no two entries have the same name.
pub open spec fn names_distinct(entries: Seq<(Seq<char>, SpecSourceFile)>) -> bool {
    forall|i: int, j: int|
        0 <= i < j < entries.len() ==> #[trigger] entries[i].0 != #[trigger] entries[j].0
}

/// Whether some entry has the name `name`.
pub open spec fn has_name(entries: Seq<(Seq<char>, SpecSourceFile)>, name: Seq<char>) -> bool {
    exists|i: int| 0 <= i < entries.len() && #[trigger] entries[i].0 == name
}

/// The source files of a binary, each under the full name of the type it defines; no two
/// have the same name.
#[derive(Debug)]
pub struct SourceSet {
    entries: Vec<(String, SourceFile)>,
}

impl View for SourceSet {
    type V = Seq<(Seq<char>, SpecSourceFile)>;

    closed spec fn view(&self) -> Seq<(Seq<char>, SpecSourceFile)> {
        entries_view(self.entries@)
    }
}

impl SourceSet {
    pub open spec fn wf(&self) -> bool {
        names_distinct(self@)
    }

    pub fn new() -> (r: SourceSet)
        ensures
            r.wf(),
            r@ == Seq::<(Seq<char>, SpecSourceFile)>::empty(),
    {
        let r = SourceSet { entries: Vec::new() };
        assert(r@ =~= Seq::<(Seq<char>, SpecSourceFile)>::empty());
        r
    }

    pub fn len(&self) -> (r: usize)
        ensures
            r == self@.len(),
    {
        self.entries.len()
    }

    pub fn is_empty(&self) -> (r: bool)
        ensures
            r == (self@.len() == 0),
    {
        self.entries.len() == 0
    }

    /// What a compile takes: each file, in order, with the namespace of the type that it
    /// defines.
    pub fn units(&self) -> (r: Vec<(String, &SourceFile)>)
        ensures
            r@.len() == self@.len(),
            forall|i: int|
                0 <= i < r@.len() ==> (#[trigger] r@[i]).0@ == namespace_of(self@[i].0) && r@[i].1@
                    == self@[i].1,
    {
        let mut r: Vec<(String, &SourceFile)> = Vec::new();
        let mut i: usize = 0;
        while i < self.entries.len()
            invariant
                0 <= i <= self.entries@.len(),
                r@.len() == i,
                forall|k: int|
                    0 <= k < i ==> (#[trigger] r@[k]).0@ == namespace_of(self@[k].0) && r@[k].1@
                        == self@[k].1,
            decreases self.entries@.len() - i,
        {
            assert(self@[i as int] == (self.entries@[i as int].0@, self.entries@[i as int].1@));
            let ns = namespace(self.entries[i].0.as_str());
            r.push((ns, &self.entries[i].1));
            i = i + 1;
        }
        r
    }

    /// Whether a file is held under `name`.
    pub fn contains(&self, name: &str) -> (r: bool)
        ensures
            r == has_name(self@, name@),
    {
        let key = String::from_str(name);
        let mut i: usize = 0;
        while i < self.entries.len()
            invariant
                0 <= i <= self.entries@.len(),
                key@ == name@,
                forall|k: int| 0 <= k < i ==> #[trigger] self@[k].0 != name@,
            decreases self.entries@.len() - i,
        {
            assert(self@[i as int].0 == self.entries@[i as int].0@);
            if self.entries[i].0 == key {
                return true;
            }
            i = i + 1;
        }
        false
    }

    /// The file held under `name`, if there is one.
    pub fn get(&self, name: &str) -> (r: Option<&SourceFile>)
        requires
            self.wf(),
        ensures
            match r {
                Some(f) => exists|i: int|
                    0 <= i < self@.len() && #[trigger] self@[i] == (name@, f@),
                None => !has_name(self@, name@),
            },
    {
        let key = String::from_str(name);
        let mut i: usize = 0;
        while i < self.entries.len()
            invariant
                0 <= i <= self.entries@.len(),
                key@ == name@,
                forall|k: int| 0 <= k < i ==> #[trigger] self@[k].0 != name@,
            decreases self.entries@.len() - i,
        {
            assert(self@[i as int] == (self.entries@[i as int].0@, self.entries@[i as int].1@));
            if self.entries[i].0 == key {
                return Some(&self.entries[i].1);
            }
            i = i + 1;
        }
        None
    }

    /// Adds `file` under `name`, which no file holds yet.
    pub fn insert(&mut self, name: String, file: SourceFile)
        requires
            old(self).wf(),
            !has_name(old(self)@, name@),
        ensures
            final(self).wf(),
            final(self)@ == old(self)@.push((name@, file@)),
    {
        let ghost before = self@;
        let ghost entry = (name@, file@);
        self.entries.push((name, file));
        assert(self@ =~= before.push(entry));
        assert forall|i: int, j: int| 0 <= i < j < self@.len() implies #[trigger] self@[i].0
            != #[trigger] self@[j].0 by {
            if j == before.len() {
                assert(before[i].0 != name@);
            } else {
                assert(before[i].0 != before[j].0);
            }
        }
    }

    pub fn entries(&self) -> (r: &[(String, SourceFile)])
        ensures
            entries_view(r@) == self@,
    {
        self.entries.as_slice()
    }
}

/// Whether every component is non-empty.
pub open spec fn components_non_empty(cs: Seq<Seq<char>>) -> bool {
    forall|i: int| 0 <= i < cs.len() ==> #[trigger] cs[i].len() > 0
}

proof fn lemma_join_components_len(cs: Seq<Seq<char>>)
    requires
        cs.len() > 0,
    ensures
        join_components(cs).len() >= cs.last().len(),
        components_non_empty(cs) ==> join_components(cs).len() > 0,
{
}

proof fn lemma_join_components_first(cs: Seq<Seq<char>>)
    requires
        cs.len() >= 2,
        components_non_empty(cs),
    ensures
        join_components(cs) == cs[0] + seq!['.'] + join_components(cs.drop_first()),
    decreases cs.len(),
{
    let init = cs.drop_last();
    assert(components_non_empty(init)) by {
        assert forall|i: int| 0 <= i < init.len() implies #[trigger] init[i].len() > 0 by {
            assert(init[i] == cs[i]);
        }
    }
    lemma_join_components_len(init);
    let rest = cs.drop_first();
    assert(rest.last() == cs.last());
    if cs.len() == 2 {
        assert(init.drop_last() =~= Seq::<Seq<char>>::empty());
        assert(join_components(init.drop_last()).len() == 0);
        assert(join_components(init) == init.last());
        assert(rest.drop_last() =~= Seq::<Seq<char>>::empty());
        assert(join_components(rest.drop_last()).len() == 0);
        assert(join_components(rest) == rest.last());
    } else {
        lemma_join_components_first(init);
        assert(init.drop_first() =~= rest.drop_last());
        assert(components_non_empty(rest.drop_last())) by {
            assert forall|i: int| 0 <= i < rest.drop_last().len() implies #[trigger] rest.drop_last()[i].len()
                > 0 by {
                assert(rest.drop_last()[i] == cs[i + 1]);
            }
        }
        lemma_join_components_len(rest.drop_last());
        assert(join_components(cs) =~= cs[0] + seq!['.'] + join_components(rest));
    }
}

/// The full name of a type holds every directory that its file is in: for non-empty
/// components, the name is the first component, a `.`, then the name made of the others.
/// With the name of a single file (its stem, without `.nt`), this fixes the name of every
/// path: `a/b/Foo.nt` gives `a.b.Foo`.
pub proof fn lemma_qualified_name_keeps_every_component(cs: Seq<Seq<char>>)
    requires
        components_non_empty(cs),
        cs.len() > 0,
        cs.last().len() >= 3,
    ensures
        cs.len() == 1 ==> qualified_name_of(cs) == cs[0].take(cs[0].len() - 3),
        cs.len() >= 2 ==> qualified_name_of(cs) == cs[0] + seq!['.'] + qualified_name_of(
            cs.drop_first(),
        ),
{
    if cs.len() == 1 {
        assert(cs.drop_last() =~= Seq::<Seq<char>>::empty());
        assert(join_components(cs.drop_last()).len() == 0);
        assert(join_components(cs) == cs[0]);
    } else {
        lemma_join_components_first(cs);
        let rest = cs.drop_first();
        assert(rest.last() == cs.last());
        lemma_join_components_len(rest);
        let j = join_components(rest);
        assert((cs[0] + seq!['.'] + j).take(cs[0].len() + 1 + j.len() - 3) =~= cs[0] + seq!['.']
            + j.take(j.len() - 3));
    }
}

} // verus!
