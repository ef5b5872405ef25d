//! The manifest's JSON boundary. A fetched body is parsed by serde_json
//! into a document tree, and the verified extraction below walks that tree
//! into the crate's own [`Manifest`] model: required keys of the manifest
//! shape (`packages`, `name`, `versions`, `versionNumber`) must be present
//! with their required types, while the optional keys (`exec-name`,
//! `latest`, `binary`) count as absent when they bear the wrong type.
//! serde_json values are opaque to verification, so nothing is claimed of
//! what the tree holds; all decision logic downstream operates on the
//! extracted plain model, where it is verified.

use vstd::prelude::*;

use crate::aggregate::FetchOutcome;
use crate::manifest::{Manifest, Package, VersionEntry};

verus! {

#[verifier::external_type_specification]
#[verifier::external_body]
pub struct ExValue(serde_json::Value);

/// Relies on serde_json::from_str for `Value`: parses JSON text into a
/// document tree, failing on text that is not JSON.
#[verifier::external_body]
fn parse_json_text(s: &str) -> (r: Option<serde_json::Value>) {
    serde_json::from_str(s).ok()
}

/// Relies on serde_json::Value::get: looks a key up when the value is a
/// JSON object, and answers nothing otherwise.
#[verifier::external_body]
fn json_get<'a>(v: &'a serde_json::Value, key: &str) -> (r: Option<&'a serde_json::Value>) {
    v.get(key)
}

/// Relies on serde_json::Value::as_array: the element vector of a JSON
/// array, and nothing otherwise.
#[verifier::external_body]
fn json_as_array<'a>(v: &'a serde_json::Value) -> (r: Option<&'a Vec<serde_json::Value>>) {
    v.as_array()
}

/// Relies on serde_json::Value::as_str: the text of a JSON string, and
/// nothing otherwise.
#[verifier::external_body]
fn json_as_str(v: &serde_json::Value) -> (r: Option<String>) {
    match v.as_str() {
        Some(s) => Some(s.to_string()),
        None => None,
    }
}

/// Relies on serde_json::Value::as_bool: the value of a JSON boolean, and
/// nothing otherwise.
#[verifier::external_body]
fn json_as_bool(v: &serde_json::Value) -> (r: Option<bool>) {
    v.as_bool()
}

/// One version entry from its JSON object: `versionNumber` is required
/// and must be a string; `latest` and `binary` are kept when present with
/// the right type.
fn version_entry_from_json(v: &serde_json::Value) -> Option<VersionEntry> {
    let version_number = match json_get(v, "versionNumber") {
        Some(n) => match json_as_str(n) {
            Some(s) => s,
            None => {
                return None;
            },
        },
        None => {
            return None;
        },
    };
    let latest = match json_get(v, "latest") {
        Some(l) => json_as_bool(l),
        None => None,
    };
    let binary = match json_get(v, "binary") {
        Some(b) => json_as_str(b),
        None => None,
    };
    Some(VersionEntry { version_number, latest, binary })
}

/// One package from its JSON object: `name` (a string) and `versions` (an
/// array of well-formed version entries) are required; `exec-name` is
/// kept when present as a string.
fn package_from_json(v: &serde_json::Value) -> Option<Package> {
    let name = match json_get(v, "name") {
        Some(n) => match json_as_str(n) {
            Some(s) => s,
            None => {
                return None;
            },
        },
        None => {
            return None;
        },
    };
    let exec_name = match json_get(v, "exec-name") {
        Some(e) => json_as_str(e),
        None => None,
    };
    let entries = match json_get(v, "versions") {
        Some(vs) => match json_as_array(vs) {
            Some(a) => a,
            None => {
                return None;
            },
        },
        None => {
            return None;
        },
    };
    let mut versions: Vec<VersionEntry> = Vec::new();
    let mut i: usize = 0;
    while i < entries.len()
        decreases entries.len() - i,
    {
        match version_entry_from_json(&entries[i]) {
            Some(e) => versions.push(e),
            None => {
                return None;
            },
        }
        i += 1;
    }
    Some(Package { name, exec_name, versions })
}

/// The whole manifest from its JSON document: the required `packages` key
/// must hold an array of well-formed packages.
fn manifest_from_json(v: &serde_json::Value) -> Option<Manifest> {
    let arr = match json_get(v, "packages") {
        Some(p) => match json_as_array(p) {
            Some(a) => a,
            None => {
                return None;
            },
        },
        None => {
            return None;
        },
    };
    let mut packages: Vec<Package> = Vec::new();
    let mut i: usize = 0;
    while i < arr.len()
        decreases arr.len() - i,
    {
        match package_from_json(&arr[i]) {
            Some(p) => packages.push(p),
            None => {
                return None;
            },
        }
        i += 1;
    }
    Some(Manifest { packages })
}

/// Parses a fetched body into a manifest: the body must be JSON and
/// conform to the manifest shape, else nothing is returned and the source
/// counts as malformed.
pub fn parse_manifest(body: &str) -> Option<Manifest> {
    let root = match parse_json_text(body) {
        Some(v) => v,
        None => {
            return None;
        },
    };
    manifest_from_json(&root)
}

/// The fetch outcome of a successfully transported body: the manifest it
/// holds, or a malformed-manifest outcome — never a transport failure.
pub fn body_outcome(body: &str) -> (r: FetchOutcome)
    ensures
        !(r@ is Unavailable),
{
    match parse_manifest(body) {
        Some(m) => FetchOutcome::Document(m),
        None => FetchOutcome::Malformed,
    }
}

} // verus!
