use pot::diagnostics::{report, Diagnostic, VersionInfo};
use pot::manifest::{Manifest, Package, PackageReference, VersionEntry};
use pot::resolve::{resolve, NotFound, Resolved};

fn entry(version: &str, latest: Option<bool>, binary: Option<&str>) -> VersionEntry {
    VersionEntry {
        version_number: version.to_string(),
        latest,
        binary: binary.map(|b| b.to_string()),
    }
}

fn chrome_pie_manifest() -> Manifest {
    Manifest {
        packages: vec![Package {
            name: "chrome-pie".to_string(),
            exec_name: None,
            versions: vec![
                entry("0.0.1", Some(true), Some("http://x/a")),
                entry("2.0.0", None, Some("http://x/b")),
            ],
        }],
    }
}

fn reference(name: &str, version: Option<&str>) -> PackageReference {
    PackageReference { name: name.to_string(), version: version.map(|v| v.to_string()) }
}

#[test]
fn test_resolve_latest_entry() {
    let m = chrome_pie_manifest();
    let r = resolve(&m, &reference("chrome-pie", None));
    assert_eq!(
        r,
        Ok(Resolved {
            entry: entry("0.0.1", Some(true), Some("http://x/a")),
            exec_name: "chrome-pie".to_string(),
        })
    );
}

#[test]
fn test_resolve_explicit_version() {
    let m = chrome_pie_manifest();
    let r = resolve(&m, &reference("chrome-pie", Some("2.0.0")));
    assert_eq!(
        r,
        Ok(Resolved {
            entry: entry("2.0.0", None, Some("http://x/b")),
            exec_name: "chrome-pie".to_string(),
        })
    );
}

#[test]
fn test_resolve_version_absent_lists_available() {
    let m = chrome_pie_manifest();
    let r = resolve(&m, &reference("chrome-pie", Some("9.9.9")));
    assert_eq!(
        r,
        Err(NotFound::VersionAbsent {
            available: vec!["0.0.1".to_string(), "2.0.0".to_string()],
        })
    );
}

#[test]
fn test_resolve_package_absent() {
    let m = chrome_pie_manifest();
    assert_eq!(resolve(&m, &reference("ghost-package", None)), Err(NotFound::PackageAbsent));
    assert_eq!(
        resolve(&m, &reference("invalid-package", None)),
        Err(NotFound::PackageAbsent)
    );
}

#[test]
fn test_resolve_no_latest_marked() {
    let m = Manifest {
        packages: vec![Package {
            name: "p".to_string(),
            exec_name: None,
            versions: vec![entry("1.0", None, Some("http://x/1"))],
        }],
    };
    assert_eq!(resolve(&m, &reference("p", None)), Err(NotFound::NoLatestMarked));
}

#[test]
fn test_resolve_binary_missing() {
    let m = Manifest {
        packages: vec![Package {
            name: "p".to_string(),
            exec_name: None,
            versions: vec![entry("1.0", Some(true), None)],
        }],
    };
    assert_eq!(resolve(&m, &reference("p", None)), Err(NotFound::BinaryMissing));
    assert_eq!(resolve(&m, &reference("p", Some("1.0"))), Err(NotFound::BinaryMissing));
}

#[test]
fn test_resolve_duplicate_package_first_wins() {
    let m = Manifest {
        packages: vec![
            Package {
                name: "p".to_string(),
                exec_name: None,
                versions: vec![entry("1.0", Some(true), Some("http://first"))],
            },
            Package {
                name: "p".to_string(),
                exec_name: None,
                versions: vec![entry("1.0", Some(true), Some("http://second"))],
            },
        ],
    };
    let r = resolve(&m, &reference("p", None)).unwrap();
    assert_eq!(r.entry.binary, Some("http://first".to_string()));
}

#[test]
fn test_resolve_duplicate_latest_first_wins() {
    let m = Manifest {
        packages: vec![Package {
            name: "p".to_string(),
            exec_name: None,
            versions: vec![
                entry("1.0", Some(true), Some("http://x/1")),
                entry("2.0", Some(true), Some("http://x/2")),
            ],
        }],
    };
    let r = resolve(&m, &reference("p", None)).unwrap();
    assert_eq!(r.entry.version_number, "1.0".to_string());
}

#[test]
fn test_resolve_uses_declared_exec_name() {
    let m = Manifest {
        packages: vec![Package {
            name: "p".to_string(),
            exec_name: Some("tool".to_string()),
            versions: vec![entry("1.0", Some(true), Some("http://x/1"))],
        }],
    };
    let r = resolve(&m, &reference("p", None)).unwrap();
    assert_eq!(r.exec_name, "tool".to_string());
}

#[test]
fn test_report_flags_requested_version() {
    let m = chrome_pie_manifest();
    let d = report(Some(&m), &reference("chrome-pie", Some("2.0.0")));
    assert_eq!(
        d,
        Diagnostic::AvailableVersions(vec![
            VersionInfo { version_number: "0.0.1".to_string(), requested: false },
            VersionInfo { version_number: "2.0.0".to_string(), requested: true },
        ])
    );
}

#[test]
fn test_report_absent_version_flags_nothing() {
    let m = chrome_pie_manifest();
    let d = report(Some(&m), &reference("chrome-pie", Some("9.9.9")));
    assert_eq!(
        d,
        Diagnostic::AvailableVersions(vec![
            VersionInfo { version_number: "0.0.1".to_string(), requested: false },
            VersionInfo { version_number: "2.0.0".to_string(), requested: false },
        ])
    );
}

#[test]
fn test_report_without_manifest() {
    let d = report(None, &reference("ghost-package", None));
    assert_eq!(d, Diagnostic::PackageNotFound);
}

#[test]
fn test_report_name_absent_from_manifest() {
    let m = chrome_pie_manifest();
    let d = report(Some(&m), &reference("ghost-package", None));
    assert_eq!(d, Diagnostic::PackageNotFound);
}
