use pot::aggregate::{resolve_across, Aggregation, FetchOutcome, InstallDecision};
use pot::diagnostics::{Diagnostic, VersionInfo};
use pot::install::{install_path, plan_install, FileState};
use pot::json::body_outcome;
use pot::manifest::{Manifest, Package, PackageReference, VersionEntry};

fn entry(version: &str, latest: Option<bool>, binary: Option<&str>) -> VersionEntry {
    VersionEntry {
        version_number: version.to_string(),
        latest,
        binary: binary.map(|b| b.to_string()),
    }
}

fn single_package_manifest(name: &str, binary: &str) -> Manifest {
    Manifest {
        packages: vec![Package {
            name: name.to_string(),
            exec_name: None,
            versions: vec![entry("1.0", Some(true), Some(binary))],
        }],
    }
}

fn reference(name: &str, version: Option<&str>) -> PackageReference {
    PackageReference { name: name.to_string(), version: version.map(|v| v.to_string()) }
}

#[test]
fn test_priority_earlier_source_wins() {
    let outcomes = vec![
        FetchOutcome::Document(single_package_manifest("p", "http://source-a/p")),
        FetchOutcome::Document(single_package_manifest("p", "http://source-b/p")),
    ];
    let d = resolve_across(&outcomes, &reference("p", None));
    match d {
        InstallDecision::Install { source_index, resolved } => {
            assert_eq!(source_index, 0);
            assert_eq!(resolved.entry.binary, Some("http://source-a/p".to_string()));
        },
        other => panic!("expected an installation, got {:?}", other),
    }
}

#[test]
fn test_package_absent_everywhere() {
    let outcomes = vec![
        FetchOutcome::Document(single_package_manifest("other", "http://a")),
        FetchOutcome::Unavailable,
        FetchOutcome::Document(single_package_manifest("another", "http://b")),
    ];
    let d = resolve_across(&outcomes, &reference("ghost-package", None));
    assert_eq!(d, InstallDecision::Failed(Diagnostic::PackageNotFound));
}

#[test]
fn test_fetch_failures_skip_to_next_source() {
    let outcomes = vec![
        FetchOutcome::Unavailable,
        FetchOutcome::Malformed,
        FetchOutcome::Document(single_package_manifest("p", "http://late/p")),
    ];
    let d = resolve_across(&outcomes, &reference("p", None));
    match d {
        InstallDecision::Install { source_index, resolved } => {
            assert_eq!(source_index, 2);
            assert_eq!(resolved.entry.binary, Some("http://late/p".to_string()));
        },
        other => panic!("expected an installation, got {:?}", other),
    }
}

#[test]
fn test_no_sources_configured() {
    let d = resolve_across(&Vec::new(), &reference("p", None));
    assert_eq!(d, InstallDecision::NoSources);
}

#[test]
fn test_diagnostics_use_last_manifest_with_name() {
    let outcomes = vec![
        FetchOutcome::Document(single_package_manifest("p", "http://a")),
        FetchOutcome::Document(single_package_manifest("other", "http://b")),
    ];
    let d = resolve_across(&outcomes, &reference("p", Some("9.9.9")));
    assert_eq!(
        d,
        InstallDecision::Failed(Diagnostic::AvailableVersions(vec![VersionInfo {
            version_number: "1.0".to_string(),
            requested: false,
        }]))
    );
}

#[test]
fn test_aggregation_steps_in_source_order() {
    let mut agg = Aggregation::new(reference("p", None));
    assert_eq!(agg.observe(FetchOutcome::Unavailable), None);
    assert_eq!(agg.observe(FetchOutcome::Malformed), None);
    let won = agg.observe(FetchOutcome::Document(single_package_manifest("p", "http://x/p")));
    let resolved = won.expect("a resolving manifest must win");
    assert_eq!(resolved.entry.binary, Some("http://x/p".to_string()));
    assert_eq!(resolved.exec_name, "p".to_string());
}

#[test]
fn test_aggregation_finish_reports_versions() {
    let mut agg = Aggregation::new(reference("p", Some("2.0")));
    assert_eq!(
        agg.observe(FetchOutcome::Document(single_package_manifest("p", "http://x/p"))),
        None
    );
    assert_eq!(
        agg.finish(),
        Diagnostic::AvailableVersions(vec![VersionInfo {
            version_number: "1.0".to_string(),
            requested: false,
        }])
    );
}

#[test]
fn test_aggregation_finish_without_any_match() {
    let mut agg = Aggregation::new(reference("ghost-package", None));
    assert_eq!(agg.observe(FetchOutcome::Unavailable), None);
    assert_eq!(agg.finish(), Diagnostic::PackageNotFound);
}

#[test]
fn test_body_outcome_distinguishes_malformed() {
    assert_eq!(body_outcome("not json"), FetchOutcome::Malformed);
    let good = "{\"packages\":[]}";
    assert_eq!(
        body_outcome(good),
        FetchOutcome::Document(Manifest { packages: Vec::new() })
    );
}

#[test]
fn test_plan_install_bytes_and_mode() {
    let plan = plan_install(vec![1u8, 2, 3]);
    assert_eq!(plan, FileState { bytes: vec![1u8, 2, 3], mode: 0o755 });
}

#[test]
fn test_plan_install_twice_is_identical() {
    let payload = vec![7u8, 8, 9];
    let first = plan_install(payload.clone());
    let second = plan_install(payload);
    assert_eq!(first.bytes, second.bytes);
    assert_eq!(first.mode, second.mode);
}

#[test]
fn test_install_path_joins_root_and_name() {
    assert_eq!(install_path("/usr/bin", "chrome-pie"), "/usr/bin/chrome-pie".to_string());
}
