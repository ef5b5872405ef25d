//! The manifest data model: packages, their version entries, and the
//! user-supplied package reference, together with the parser that splits a
//! reference string into a name and an optional version.

use vstd::prelude::*;

verus! {

/// One build of a package: its version string, whether the manifest marks
/// it as the latest build, and the download URL of its binary, when one is
/// published. An entry without a binary URL is not installable.
#[derive(Debug, PartialEq)]
pub struct VersionEntry {
    pub version_number: String,
    pub latest: Option<bool>,
    pub binary: Option<String>,
}

/// Mathematical model of a [`VersionEntry`].
pub struct SpecVersionEntry {
    pub version_number: Seq<char>,
    pub latest: Option<bool>,
    pub binary: Option<Seq<char>>,
}

impl View for VersionEntry {
    type V = SpecVersionEntry;

    open spec fn view(&self) -> SpecVersionEntry {
        SpecVersionEntry {
            version_number: self.version_number@,
            latest: self.latest,
            binary: match self.binary {
                Some(b) => Some(b@),
                None => None,
            },
        }
    }
}

/// A package as a manifest declares it: a name, an optional executable
/// name used when installing (the package name is used when absent), and
/// the declared builds in declaration order.
#[derive(Debug, PartialEq)]
pub struct Package {
    pub name: String,
    pub exec_name: Option<String>,
    pub versions: Vec<VersionEntry>,
}

/// Mathematical model of a [`Package`].
pub struct SpecPackage {
    pub name: Seq<char>,
    pub exec_name: Option<Seq<char>>,
    pub versions: Seq<SpecVersionEntry>,
}

impl View for Package {
    type V = SpecPackage;

    open spec fn view(&self) -> SpecPackage {
        SpecPackage {
            name: self.name@,
            exec_name: match self.exec_name {
                Some(e) => Some(e@),
                None => None,
            },
            versions: self.versions@.map_values(|v: VersionEntry| v@),
        }
    }
}

/// A parsed manifest: the packages one source declares, in declaration
/// order. Duplicate names are kept; resolution takes the first.
#[derive(Debug, PartialEq)]
pub struct Manifest {
    pub packages: Vec<Package>,
}

/// Mathematical model of a [`Manifest`].
pub struct SpecManifest {
    pub packages: Seq<SpecPackage>,
}

impl View for Manifest {
    type V = SpecManifest;

    open spec fn view(&self) -> SpecManifest {
        SpecManifest { packages: self.packages@.map_values(|p: Package| p@) }
    }
}

/// What the user asked for: a package name and, when the input carried an
/// explicit `@version`, that version. No version means "latest".
#[derive(Debug, PartialEq)]
pub struct PackageReference {
    pub name: String,
    pub version: Option<String>,
}

/// Mathematical model of a [`PackageReference`].
pub struct SpecPackageReference {
    pub name: Seq<char>,
    pub version: Option<Seq<char>>,
}

impl View for PackageReference {
    type V = SpecPackageReference;

    open spec fn view(&self) -> SpecPackageReference {
        SpecPackageReference {
            name: self.name@,
            version: match self.version {
                Some(v) => Some(v@),
                None => None,
            },
        }
    }
}

/// Index of the first occurrence of `c` in `s`, if any.
pub open spec fn find_char(s: Seq<char>, c: char) -> Option<int>
    decreases s.len(),
{
    if s.len() == 0 {
        None
    } else if s[0] == c {
        Some(0)
    } else {
        match find_char(s.drop_first(), c) {
            None => None,
            Some(i) => Some(i + 1),
        }
    }
}

/// The name part of a reference string: everything before the first `@`,
/// or the whole string when there is none.
pub open spec fn spec_reference_name(s: Seq<char>) -> Seq<char> {
    match find_char(s, '@') {
        None => s,
        Some(i) => s.subrange(0, i),
    }
}

/// The version part of a reference string: the segment between the first
/// `@` and the next `@` (or the end), or nothing when no `@` occurs.
pub open spec fn spec_reference_version(s: Seq<char>) -> Option<Seq<char>> {
    match find_char(s, '@') {
        None => None,
        Some(i) => {
            let rest = s.subrange(i + 1, s.len() as int);
            match find_char(rest, '@') {
                None => Some(rest),
                Some(j) => Some(rest.subrange(0, j)),
            }
        },
    }
}

/// What a `find_char` result means: a found index is in range, holds `c`,
/// and no earlier index does; `None` means `c` does not occur.
pub proof fn lemma_find_char_props(s: Seq<char>, c: char)
    ensures
        match find_char(s, c) {
            None => forall|j: int| 0 <= j < s.len() ==> s[j] != c,
            Some(i) => 0 <= i < s.len() && s[i] == c && (forall|j: int|
                0 <= j < i ==> s[j] != c),
        },
    decreases s.len(),
{
    if s.len() > 0 && s[0] != c {
        lemma_find_char_props(s.drop_first(), c);
        assert forall|j: int| 1 <= j < s.len() implies s.drop_first()[j - 1] == s[j] by {}
    }
}

/// A first occurrence determines `find_char`.
pub proof fn lemma_find_char_is(s: Seq<char>, c: char, i: int)
    requires
        0 <= i < s.len(),
        s[i] == c,
        forall|j: int| 0 <= j < i ==> s[j] != c,
    ensures
        find_char(s, c) == Some(i),
    decreases s.len(),
{
    if i > 0 {
        lemma_find_char_is(s.drop_first(), c, i - 1);
    }
}

/// If `c` occurs nowhere in `s`, `find_char` finds nothing.
pub proof fn lemma_find_char_none(s: Seq<char>, c: char)
    requires
        forall|j: int| 0 <= j < s.len() ==> s[j] != c,
    ensures
        find_char(s, c) is None,
    decreases s.len(),
{
    if s.len() > 0 {
        lemma_find_char_none(s.drop_first(), c);
    }
}

/// Executable search for the first occurrence of a character, mirroring
/// [`find_char`].
fn find_char_exec(s: &str, c: char) -> (r: Option<usize>)
    ensures
        match r {
            None => find_char(s@, c) is None,
            Some(i) => find_char(s@, c) == Some(i as int),
        },
{
    let len = s.unicode_len();
    let mut i: usize = 0;
    while i < len
        invariant
            len == s@.len(),
            0 <= i <= len,
            forall|j: int| 0 <= j < i ==> s@[j] != c,
        decreases len - i,
    {
        if s.get_char(i) == c {
            proof {
                lemma_find_char_is(s@, c, i as int);
            }
            return Some(i);
        }
        i += 1;
    }
    proof {
        lemma_find_char_none(s@, c);
    }
    None
}

/// Splits a reference string into its package name and optional explicit
/// version: the separator is `@`, the name is everything before the first
/// one, the version the segment that follows it.
pub fn parse_reference(s: &str) -> (r: PackageReference)
    ensures
        r@.name == spec_reference_name(s@),
        r@.version == spec_reference_version(s@),
{
    let len = s.unicode_len();
    match find_char_exec(s, '@') {
        None => PackageReference { name: s.to_owned(), version: None },
        Some(i) => {
            proof {
                lemma_find_char_props(s@, '@');
            }
            let name = s.substring_char(0, i).to_owned();
            let rest = s.substring_char(i + 1, len);
            let version = match find_char_exec(rest, '@') {
                None => rest.to_owned(),
                Some(j) => {
                    proof {
                        lemma_find_char_props(rest@, '@');
                    }
                    rest.substring_char(0, j).to_owned()
                },
            };
            PackageReference { name, version: Some(version) }
        },
    }
}

} // verus!
