//! The diagnostics reporter: when resolution fails everywhere, it inspects
//! the last manifest that contained the requested package name and lists
//! every version that package declares, flagging the one the user asked
//! for, so the surrounding layer can render "requested vs. available"
//! guidance. It reads the manifest and never changes it.

use vstd::prelude::*;

use crate::manifest::{Manifest, Package, PackageReference, SpecManifest, SpecPackageReference};
use crate::resolve::{find_package_index, spec_find_package};

verus! {

/// One line of version guidance: a version number the package declares,
/// and whether it is textually the version the user requested.
#[derive(Debug, PartialEq)]
pub struct VersionInfo {
    pub version_number: String,
    pub requested: bool,
}

/// Mathematical model of a [`VersionInfo`].
pub struct SpecVersionInfo {
    pub version_number: Seq<char>,
    pub requested: bool,
}

impl View for VersionInfo {
    type V = SpecVersionInfo;

    open spec fn view(&self) -> SpecVersionInfo {
        SpecVersionInfo { version_number: self.version_number@, requested: self.requested }
    }
}

/// What the reporter hands the surrounding layer: either a plain
/// "package not found" outcome, or the full list of versions the package
/// declares in some manifest.
#[derive(Debug, PartialEq)]
pub enum Diagnostic {
    /// No configured source's manifest contains the requested name.
    PackageNotFound,
    /// The package exists; these are its declared versions in order.
    AvailableVersions(Vec<VersionInfo>),
}

/// Mathematical model of a [`Diagnostic`].
pub enum SpecDiagnostic {
    PackageNotFound,
    AvailableVersions(Seq<SpecVersionInfo>),
}

impl View for Diagnostic {
    type V = SpecDiagnostic;

    open spec fn view(&self) -> SpecDiagnostic {
        match self {
            Diagnostic::PackageNotFound => SpecDiagnostic::PackageNotFound,
            Diagnostic::AvailableVersions(vs) => SpecDiagnostic::AvailableVersions(
                vs@.map_values(|v: VersionInfo| v@),
            ),
        }
    }
}

/// The guidance list for one package: every declared version number in
/// declaration order, flagged as requested exactly when it equals the
/// version the reference carries.
pub open spec fn spec_version_report(
    p: crate::manifest::SpecPackage,
    version: Option<Seq<char>>,
) -> Seq<SpecVersionInfo> {
    p.versions.map_values(
        |e: crate::manifest::SpecVersionEntry|
            SpecVersionInfo {
                version_number: e.version_number,
                requested: version == Some(e.version_number),
            },
    )
}

/// What the reporter produces: version guidance when a manifest containing
/// the requested name is at hand, a plain "package not found" otherwise.
pub open spec fn spec_diagnose(m: Option<SpecManifest>, r: SpecPackageReference) -> SpecDiagnostic {
    match m {
        None => SpecDiagnostic::PackageNotFound,
        Some(m) => match spec_find_package(m, r.name) {
            None => SpecDiagnostic::PackageNotFound,
            Some(p) => SpecDiagnostic::AvailableVersions(spec_version_report(p, r.version)),
        },
    }
}

/// The guidance list for one package, flagging the requested version.
fn package_version_report(p: &Package, version: &Option<String>) -> (r: Vec<VersionInfo>)
    ensures
        r@.map_values(|v: VersionInfo| v@) == spec_version_report(
            p@,
            match version {
                Some(v) => Some(v@),
                None => None,
            },
        ),
{
    let n = p.versions.len();
    let mut out: Vec<VersionInfo> = Vec::new();
    let mut i: usize = 0;
    while i < n
        invariant
            n == p.versions.len(),
            0 <= i <= n,
            p@.versions.len() == n,
            out@.len() == i,
            forall|j: int| 0 <= j < i ==> out@[j]@.version_number == p@.versions[j].version_number,
            forall|j: int|
                0 <= j < i ==> out@[j]@.requested == ((match version {
                    Some(v) => Some(v@),
                    None => None,
                }) == Some(p@.versions[j].version_number)),
        decreases n - i,
    {
        let requested = match version {
            Some(v) => p.versions[i].version_number == *v,
            None => false,
        };
        out.push(
            VersionInfo { version_number: p.versions[i].version_number.clone(), requested },
        );
        i += 1;
    }
    proof {
        assert(out@.map_values(|v: VersionInfo| v@) =~= spec_version_report(
            p@,
            match version {
                Some(v) => Some(v@),
                None => None,
            },
        ));
    }
    out
}

/// Reports why `reference` could not be installed: when a manifest that
/// contains the referenced package is at hand, the full list of that
/// package's versions, each flagged as requested exactly when it equals
/// the referenced version; otherwise a plain "package not found".
pub fn report(manifest: Option<&Manifest>, reference: &PackageReference) -> (r: Diagnostic)
    ensures
        match manifest {
            None => r@ == spec_diagnose(None, reference@),
            Some(m) => r@ == spec_diagnose(Some(m@), reference@),
        },
{
    let m = match manifest {
        None => {
            return Diagnostic::PackageNotFound;
        },
        Some(m) => m,
    };
    match find_package_index(m, &reference.name) {
        None => Diagnostic::PackageNotFound,
        Some(k) => Diagnostic::AvailableVersions(
            package_version_report(&m.packages[k], &reference.version),
        ),
    }
}

/// The reporter's guidance is faithful: for a reference whose package is
/// declared in the manifest, the version list contains exactly the version
/// numbers that package declares, in order, and an element is flagged as
/// requested precisely when it textually equals the referenced version.
pub proof fn lemma_report_versions_exact(
    m: SpecManifest,
    r: SpecPackageReference,
    p: crate::manifest::SpecPackage,
)
    requires
        spec_find_package(m, r.name) == Some(p),
    ensures
        spec_diagnose(Some(m), r) matches SpecDiagnostic::AvailableVersions(infos) && {
            &&& infos.len() == p.versions.len()
            &&& forall|i: int|
                0 <= i < p.versions.len() ==> (#[trigger] infos[i]).version_number
                    == p.versions[i].version_number
            &&& forall|i: int|
                0 <= i < p.versions.len() ==> ((#[trigger] infos[i]).requested <==> r.version
                    == Some(p.versions[i].version_number))
        },
{
}

} // verus!
