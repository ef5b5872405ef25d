use pot::manifest::{Manifest, Package, PackageReference, VersionEntry};
use pot::json::parse_manifest;
use pot::sources::{add_source, decode_sources};

fn entry(version: &str, latest: Option<bool>, binary: Option<&str>) -> VersionEntry {
    VersionEntry {
        version_number: version.to_string(),
        latest,
        binary: binary.map(|b| b.to_string()),
    }
}

#[test]
fn test_parse_reference_with_version() {
    let r = pot::manifest::parse_reference("chrome-pie@2.0.0");
    assert_eq!(
        r,
        PackageReference { name: "chrome-pie".to_string(), version: Some("2.0.0".to_string()) }
    );
}

#[test]
fn test_parse_reference_without_version() {
    let r = pot::manifest::parse_reference("chrome-pie");
    assert_eq!(r, PackageReference { name: "chrome-pie".to_string(), version: None });
}

#[test]
fn test_parse_reference_trailing_separator() {
    let r = pot::manifest::parse_reference("pkg@");
    assert_eq!(r, PackageReference { name: "pkg".to_string(), version: Some(String::new()) });
}

#[test]
fn test_parse_reference_second_separator_ends_version() {
    let r = pot::manifest::parse_reference("a@b@c");
    assert_eq!(r, PackageReference { name: "a".to_string(), version: Some("b".to_string()) });
}

#[test]
fn test_parse_reference_empty_input() {
    let r = pot::manifest::parse_reference("");
    assert_eq!(r, PackageReference { name: String::new(), version: None });
}

#[test]
fn test_parse_manifest_example() {
    let body = "{\"packages\":[{\"name\":\"chrome-pie\",\"versions\":[\
                 {\"versionNumber\":\"0.0.1\",\"latest\":true,\"binary\":\"http://x/a\"},\
                 {\"versionNumber\":\"2.0.0\",\"binary\":\"http://x/b\"}]}]}";
    let m = parse_manifest(body).expect("well-formed manifest must parse");
    let expected = Manifest {
        packages: vec![Package {
            name: "chrome-pie".to_string(),
            exec_name: None,
            versions: vec![
                entry("0.0.1", Some(true), Some("http://x/a")),
                entry("2.0.0", None, Some("http://x/b")),
            ],
        }],
    };
    assert_eq!(m, expected);
}

#[test]
fn test_parse_manifest_keeps_exec_name() {
    let body = "{\"packages\":[{\"name\":\"tool\",\"exec-name\":\"t\",\"versions\":[]}]}";
    let m = parse_manifest(body).expect("manifest must parse");
    assert_eq!(m.packages[0].exec_name, Some("t".to_string()));
}

#[test]
fn test_parse_manifest_rejects_non_json() {
    assert!(parse_manifest("not json at all").is_none());
}

#[test]
fn test_parse_manifest_rejects_missing_packages() {
    assert!(parse_manifest("{}").is_none());
}

#[test]
fn test_parse_manifest_rejects_missing_version_number() {
    let body = "{\"packages\":[{\"name\":\"p\",\"versions\":[{\"latest\":true}]}]}";
    assert!(parse_manifest(body).is_none());
}

#[test]
fn test_parse_manifest_rejects_missing_name() {
    let body = "{\"packages\":[{\"versions\":[]}]}";
    assert!(parse_manifest(body).is_none());
}

#[test]
fn test_parse_manifest_wrong_typed_optional_counts_as_absent() {
    let body = "{\"packages\":[{\"name\":\"p\",\"versions\":[\
                 {\"versionNumber\":\"1\",\"latest\":\"yes\",\"binary\":7}]}]}";
    let m = parse_manifest(body).expect("manifest must parse");
    assert_eq!(m.packages[0].versions[0], entry("1", None, None));
}

#[test]
fn test_decode_sources_list() {
    let s = decode_sources("[\"http://a\", \"http://b\"]");
    assert_eq!(s, vec!["http://a".to_string(), "http://b".to_string()]);
}

#[test]
fn test_decode_sources_bad_text_yields_empty() {
    assert_eq!(decode_sources("garbage"), Vec::<String>::new());
    assert_eq!(decode_sources("{\"not\":\"a list\"}"), Vec::<String>::new());
}

#[test]
fn test_add_source_appends() {
    let mut sources = vec!["http://a".to_string()];
    add_source(&mut sources, "http://b".to_string());
    assert_eq!(sources, vec!["http://a".to_string(), "http://b".to_string()]);
}

#[test]
fn test_add_source_keeps_entries_distinct() {
    let mut sources = vec!["http://a".to_string(), "http://b".to_string()];
    add_source(&mut sources, "http://a".to_string());
    assert_eq!(sources, vec!["http://a".to_string(), "http://b".to_string()]);
}
