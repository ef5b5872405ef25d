//! The resolution algorithm: given one manifest and a package reference,
//! select the version entry the reference denotes, or say exactly why none
//! could be selected. Matching is case-sensitive and exact; version numbers
//! are opaque strings; the first match in declaration order always wins.

use vstd::prelude::*;

use crate::manifest::{
    Manifest, Package, PackageReference, SpecManifest, SpecPackage, SpecPackageReference,
    SpecVersionEntry, VersionEntry,
};
use crate::search::{find_first, lemma_find_first_is, lemma_find_first_none};

verus! {

/// Why a reference did not resolve against a manifest.
#[derive(Debug, PartialEq)]
pub enum NotFound {
    /// No package in the manifest bears the requested name.
    PackageAbsent,
    /// The package exists but declares no entry with the requested version
    /// number; `available` lists every version number it does declare.
    VersionAbsent { available: Vec<String> },
    /// The reference asked for "latest" but no entry is marked latest.
    NoLatestMarked,
    /// The selected entry has no binary download URL, so it cannot be
    /// installed.
    BinaryMissing,
}

/// Mathematical model of a [`NotFound`].
pub enum SpecNotFound {
    PackageAbsent,
    VersionAbsent { available: Seq<Seq<char>> },
    NoLatestMarked,
    BinaryMissing,
}

impl View for NotFound {
    type V = SpecNotFound;

    open spec fn view(&self) -> SpecNotFound {
        match self {
            NotFound::PackageAbsent => SpecNotFound::PackageAbsent,
            NotFound::VersionAbsent { available } => SpecNotFound::VersionAbsent {
                available: available@.map_values(|s: String| s@),
            },
            NotFound::NoLatestMarked => SpecNotFound::NoLatestMarked,
            NotFound::BinaryMissing => SpecNotFound::BinaryMissing,
        }
    }
}

/// A successful resolution: the selected version entry, and the file name
/// the installed binary should bear (the package's declared executable
/// name, or its package name when none is declared).
#[derive(Debug, PartialEq)]
pub struct Resolved {
    pub entry: VersionEntry,
    pub exec_name: String,
}

/// Mathematical model of a [`Resolved`].
pub struct SpecResolved {
    pub entry: SpecVersionEntry,
    pub exec_name: Seq<char>,
}

impl View for Resolved {
    type V = SpecResolved;

    open spec fn view(&self) -> SpecResolved {
        SpecResolved { entry: self.entry@, exec_name: self.exec_name@ }
    }
}

/// Holds of packages bearing `name`.
pub open spec fn name_pred(name: Seq<char>) -> spec_fn(SpecPackage) -> bool {
    |p: SpecPackage| p.name == name
}

/// Holds of entries declaring version number `version`.
pub open spec fn version_pred(version: Seq<char>) -> spec_fn(SpecVersionEntry) -> bool {
    |e: SpecVersionEntry| e.version_number == version
}

/// Holds of entries the manifest marks as the latest build.
pub open spec fn latest_pred() -> spec_fn(SpecVersionEntry) -> bool {
    |e: SpecVersionEntry| e.latest == Some(true)
}

/// The first package in `m` bearing `name`, if any.
pub open spec fn spec_find_package(m: SpecManifest, name: Seq<char>) -> Option<SpecPackage> {
    match find_first(m.packages, name_pred(name)) {
        None => None,
        Some(i) => Some(m.packages[i]),
    }
}

/// The entry a reference's version part selects within a package: the
/// first entry with exactly the requested version number, or — when no
/// version was requested — the first entry marked latest.
pub open spec fn spec_selected_entry(p: SpecPackage, version: Option<Seq<char>>) -> Option<
    SpecVersionEntry,
> {
    match version {
        Some(v) => match find_first(p.versions, version_pred(v)) {
            None => None,
            Some(i) => Some(p.versions[i]),
        },
        None => match find_first(p.versions, latest_pred()) {
            None => None,
            Some(i) => Some(p.versions[i]),
        },
    }
}

/// The file name an installed binary of `p` bears: the declared executable
/// name, or the package name when none is declared.
pub open spec fn spec_target_name(p: SpecPackage) -> Seq<char> {
    match p.exec_name {
        Some(e) => e,
        None => p.name,
    }
}

/// All version numbers a package declares, in declaration order.
pub open spec fn spec_version_numbers(p: SpecPackage) -> Seq<Seq<char>> {
    p.versions.map_values(|e: SpecVersionEntry| e.version_number)
}

/// The resolution algorithm over the mathematical model: find the first
/// package bearing the referenced name, select its entry by explicit
/// version or by the latest mark, and demand a binary URL of the selected
/// entry. Each failure names its exact cause.
pub open spec fn spec_resolve(m: SpecManifest, r: SpecPackageReference) -> Result<
    SpecResolved,
    SpecNotFound,
> {
    match spec_find_package(m, r.name) {
        None => Err(SpecNotFound::PackageAbsent),
        Some(p) => match spec_selected_entry(p, r.version) {
            None => if r.version is Some {
                Err(SpecNotFound::VersionAbsent { available: spec_version_numbers(p) })
            } else {
                Err(SpecNotFound::NoLatestMarked)
            },
            Some(e) => if e.binary is Some {
                Ok(SpecResolved { entry: e, exec_name: spec_target_name(p) })
            } else {
                Err(SpecNotFound::BinaryMissing)
            },
        },
    }
}

/// The model of an executable resolution result.
pub open spec fn resolution_view(r: Result<Resolved, NotFound>) -> Result<
    SpecResolved,
    SpecNotFound,
> {
    match r {
        Ok(res) => Ok(res@),
        Err(e) => Err(e@),
    }
}

/// Index of the first package bearing `name`, if any.
pub(crate) fn find_package_index(manifest: &Manifest, name: &String) -> (r: Option<usize>)
    ensures
        match r {
            None => spec_find_package(manifest@, name@) is None,
            Some(i) => i < manifest.packages.len() && spec_find_package(manifest@, name@)
                == Some(manifest@.packages[i as int]),
        },
{
    let n = manifest.packages.len();
    let mut i: usize = 0;
    while i < n
        invariant
            n == manifest.packages.len(),
            0 <= i <= n,
            manifest@.packages.len() == n,
            forall|j: int| 0 <= j < i ==> !(name_pred(name@)(manifest@.packages[j])),
        decreases n - i,
    {
        if manifest.packages[i].name == *name {
            proof {
                lemma_find_first_is(manifest@.packages, name_pred(name@), i as int);
            }
            return Some(i);
        }
        i += 1;
    }
    proof {
        lemma_find_first_none(manifest@.packages, name_pred(name@));
    }
    None
}

/// Index of the first entry of `p` declaring version number `version`.
fn find_version_index(p: &Package, version: &String) -> (r: Option<usize>)
    ensures
        match r {
            None => spec_selected_entry(p@, Some(version@)) is None,
            Some(i) => i < p.versions.len() && spec_selected_entry(p@, Some(version@))
                == Some(p@.versions[i as int]),
        },
{
    let n = p.versions.len();
    let mut i: usize = 0;
    while i < n
        invariant
            n == p.versions.len(),
            0 <= i <= n,
            p@.versions.len() == n,
            forall|j: int| 0 <= j < i ==> !(version_pred(version@)(p@.versions[j])),
        decreases n - i,
    {
        if p.versions[i].version_number == *version {
            proof {
                lemma_find_first_is(p@.versions, version_pred(version@), i as int);
            }
            return Some(i);
        }
        i += 1;
    }
    proof {
        lemma_find_first_none(p@.versions, version_pred(version@));
    }
    None
}

/// Index of the first entry of `p` marked as the latest build.
fn find_latest_index(p: &Package) -> (r: Option<usize>)
    ensures
        match r {
            None => spec_selected_entry(p@, None) is None,
            Some(i) => i < p.versions.len() && spec_selected_entry(p@, None) == Some(
                p@.versions[i as int],
            ),
        },
{
    let n = p.versions.len();
    let mut i: usize = 0;
    while i < n
        invariant
            n == p.versions.len(),
            0 <= i <= n,
            p@.versions.len() == n,
            forall|j: int| 0 <= j < i ==> !(latest_pred()(p@.versions[j])),
        decreases n - i,
    {
        let is_latest = match p.versions[i].latest {
            Some(l) => l,
            None => false,
        };
        if is_latest {
            proof {
                lemma_find_first_is(p@.versions, latest_pred(), i as int);
            }
            return Some(i);
        }
        i += 1;
    }
    proof {
        lemma_find_first_none(p@.versions, latest_pred());
    }
    None
}

/// Every version number `p` declares, in declaration order.
pub fn version_numbers(p: &Package) -> (r: Vec<String>)
    ensures
        r@.map_values(|s: String| s@) == spec_version_numbers(p@),
{
    let n = p.versions.len();
    let mut out: Vec<String> = Vec::new();
    let mut i: usize = 0;
    while i < n
        invariant
            n == p.versions.len(),
            0 <= i <= n,
            p@.versions.len() == n,
            out@.len() == i,
            forall|j: int| 0 <= j < i ==> out@[j]@ == p@.versions[j].version_number,
        decreases n - i,
    {
        out.push(p.versions[i].version_number.clone());
        i += 1;
    }
    proof {
        assert(out@.map_values(|s: String| s@) =~= spec_version_numbers(p@));
    }
    out
}

/// An owned copy of a version entry, equal in the model to the entry it
/// copies.
fn copy_entry(e: &VersionEntry) -> (r: VersionEntry)
    ensures
        r@ == e@,
{
    VersionEntry {
        version_number: e.version_number.clone(),
        latest: e.latest,
        binary: match &e.binary {
            Some(b) => Some(b.clone()),
            None => None,
        },
    }
}

/// Resolves `reference` against `manifest`: returns the selected version
/// entry together with the target executable name, or the exact reason no
/// entry could be selected, as [`spec_resolve`] states.
pub fn resolve(manifest: &Manifest, reference: &PackageReference) -> (r: Result<
    Resolved,
    NotFound,
>)
    ensures
        resolution_view(r) == spec_resolve(manifest@, reference@),
{
    let pi = match find_package_index(manifest, &reference.name) {
        None => {
            return Err(NotFound::PackageAbsent);
        },
        Some(i) => i,
    };
    let p = &manifest.packages[pi];
    let selected = match &reference.version {
        Some(v) => find_version_index(p, v),
        None => find_latest_index(p),
    };
    let vi = match selected {
        None => {
            return match &reference.version {
                Some(_) => Err(NotFound::VersionAbsent { available: version_numbers(p) }),
                None => Err(NotFound::NoLatestMarked),
            };
        },
        Some(i) => i,
    };
    let entry = &p.versions[vi];
    if entry.binary.is_none() {
        return Err(NotFound::BinaryMissing);
    }
    let exec_name = match &p.exec_name {
        Some(e) => e.clone(),
        None => p.name.clone(),
    };
    Ok(Resolved { entry: copy_entry(entry), exec_name })
}

/// An explicit version declared by the referenced package resolves to
/// exactly the first entry bearing that version number and to no other:
/// that entry is returned when it carries a binary URL, and resolution
/// fails as `BinaryMissing` when it carries none.
pub proof fn lemma_resolve_explicit_version(
    m: SpecManifest,
    r: SpecPackageReference,
    p: SpecPackage,
    i: int,
)
    requires
        r.version is Some,
        spec_find_package(m, r.name) == Some(p),
        0 <= i < p.versions.len(),
        p.versions[i].version_number == r.version.unwrap(),
        forall|j: int| 0 <= j < i ==> p.versions[j].version_number != r.version.unwrap(),
    ensures
        p.versions[i].binary is Some ==> (spec_resolve(m, r) matches Ok(res) && res.entry
            == p.versions[i] && res.entry.version_number == r.version.unwrap() && res.exec_name
            == spec_target_name(p)),
        p.versions[i].binary is None ==> spec_resolve(m, r) == Err::<SpecResolved, SpecNotFound>(
            SpecNotFound::BinaryMissing,
        ),
{
    lemma_find_first_is(p.versions, version_pred(r.version.unwrap()), i);
}

/// A reference without a version resolves to exactly the first entry the
/// manifest marks as latest: that entry is returned when it carries a
/// binary URL, and resolution fails as `BinaryMissing` when it carries
/// none.
pub proof fn lemma_resolve_latest(
    m: SpecManifest,
    r: SpecPackageReference,
    p: SpecPackage,
    i: int,
)
    requires
        r.version is None,
        spec_find_package(m, r.name) == Some(p),
        0 <= i < p.versions.len(),
        p.versions[i].latest == Some(true),
        forall|j: int| 0 <= j < i ==> (#[trigger] p.versions[j]).latest != Some(true),
    ensures
        p.versions[i].binary is Some ==> (spec_resolve(m, r) matches Ok(res) && res.entry
            == p.versions[i] && res.exec_name == spec_target_name(p)),
        p.versions[i].binary is None ==> spec_resolve(m, r) == Err::<SpecResolved, SpecNotFound>(
            SpecNotFound::BinaryMissing,
        ),
{
    lemma_find_first_is(p.versions, latest_pred(), i);
}

/// A reference without a version fails as `NoLatestMarked` when the
/// referenced package marks no entry as latest.
pub proof fn lemma_resolve_no_latest(m: SpecManifest, r: SpecPackageReference, p: SpecPackage)
    requires
        r.version is None,
        spec_find_package(m, r.name) == Some(p),
        forall|j: int|
            0 <= j < p.versions.len() ==> (#[trigger] p.versions[j]).latest != Some(true),
    ensures
        spec_resolve(m, r) == Err::<SpecResolved, SpecNotFound>(SpecNotFound::NoLatestMarked),
{
    lemma_find_first_none(p.versions, latest_pred());
}

} // verus!
