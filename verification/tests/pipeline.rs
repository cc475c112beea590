//! Upload framing, checksum, index records and shard paths, exercised on
//! concrete values.

use caesium::errors::{PublishError, StorageError};
use caesium::json::append_json_string;
use caesium::parser::{encode_crate_upload, parse_crate_upload};
use caesium::registry::{
    CargoManifest, CargoManifestDependency, Registry, RegistryIndexDependency, RegistryIndexEntry,
    commit_message, entry_json_line, index_rel_path, push_outcome,
};
use caesium::storage::{
    ArtifactoryCrateStorage, CrateStorage, FileCrateStorage, StorageRequest,
    artifactory_upload_outcome, download_rel_path, file_upload_outcome,
};

fn manifest(name: &str, vers: &str) -> CargoManifest {
    CargoManifest {
        name: name.to_string(),
        vers: vers.to_string(),
        deps: Vec::new(),
        features: Vec::new(),
        authors: vec!["someone".to_string()],
        description: None,
        documentation: None,
        homepage: None,
        readme: None,
        keywords: Vec::new(),
        categories: Vec::new(),
        license: None,
        license_file: None,
        repository: None,
        badges: Vec::new(),
    }
}

#[test]
fn roundtrip_encode_then_parse() {
    let manifest_text = "{\"name\":\"foo\",\"vers\":\"1.0.0\"}";
    let archive: Vec<u8> = vec![1, 2, 3, 4, 5];
    let wire = encode_crate_upload(manifest_text, archive.as_slice());
    let (m, t) = parse_crate_upload(wire.as_slice()).expect("well-framed upload must decode");
    assert_eq!(m, manifest_text);
    assert_eq!(t, archive.as_slice());
}

#[test]
fn roundtrip_empty_segments() {
    let wire = encode_crate_upload("", &[]);
    assert_eq!(wire, vec![0, 0, 0, 0, 0, 0, 0, 0]);
    let (m, t) = parse_crate_upload(wire.as_slice()).unwrap();
    assert_eq!(m, "");
    assert_eq!(t.len(), 0);
}

#[test]
fn parse_hand_built_frame() {
    // manifest "ab", archive 0xff 0x00
    let wire: Vec<u8> = vec![2, 0, 0, 0, b'a', b'b', 2, 0, 0, 0, 0xff, 0x00];
    let (m, t) = parse_crate_upload(wire.as_slice()).unwrap();
    assert_eq!(m, "ab");
    assert_eq!(t, &[0xff, 0x00]);
}

#[test]
fn parse_ignores_trailing_bytes() {
    let wire: Vec<u8> = vec![1, 0, 0, 0, b'x', 1, 0, 0, 0, 7, 99, 99];
    let (m, t) = parse_crate_upload(wire.as_slice()).unwrap();
    assert_eq!(m, "x");
    assert_eq!(t, &[7]);
}

#[test]
fn parse_fails_on_short_header() {
    assert_eq!(parse_crate_upload(&[]), Err(PublishError::MalformedUpload));
    assert_eq!(parse_crate_upload(&[1, 0, 0]), Err(PublishError::MalformedUpload));
}

#[test]
fn parse_fails_when_manifest_length_exceeds_buffer() {
    let wire: Vec<u8> = vec![10, 0, 0, 0, b'a', b'b'];
    assert_eq!(parse_crate_upload(wire.as_slice()), Err(PublishError::MalformedUpload));
}

#[test]
fn parse_fails_when_archive_length_exceeds_buffer() {
    let wire: Vec<u8> = vec![1, 0, 0, 0, b'a', 5, 0, 0, 0, 1, 2];
    assert_eq!(parse_crate_upload(wire.as_slice()), Err(PublishError::MalformedUpload));
}

#[test]
fn parse_fails_on_missing_archive_length() {
    let wire: Vec<u8> = vec![1, 0, 0, 0, b'a', 5, 0];
    assert_eq!(parse_crate_upload(wire.as_slice()), Err(PublishError::MalformedUpload));
}

#[test]
fn parse_fails_on_invalid_utf8_manifest() {
    let wire: Vec<u8> = vec![2, 0, 0, 0, 0xff, 0xfe, 0, 0, 0, 0];
    assert_eq!(parse_crate_upload(wire.as_slice()), Err(PublishError::MalformedUpload));
}

#[test]
fn checksum_is_deterministic_and_sensitive() {
    let registry = Registry::new("url");
    let a: Vec<u8> = vec![10, 20, 30, 40];
    let mut b = a.clone();
    let first = registry.add_crate(&manifest("foo", "1.0.0"), a.as_slice()).entry.cksum;
    let second = registry.add_crate(&manifest("foo", "1.0.0"), a.as_slice()).entry.cksum;
    assert_eq!(first, second);
    b[2] ^= 1;
    let changed = registry.add_crate(&manifest("foo", "1.0.0"), b.as_slice()).entry.cksum;
    assert_ne!(first, changed);
    assert_eq!(changed.len(), 64);
}

#[test]
fn checksum_known_vectors() {
    let registry = Registry::new("url");
    let empty = registry.add_crate(&manifest("foo", "1.0.0"), &[]).entry.cksum;
    assert_eq!(empty, "e3b0c44298fc1c149afbf4c8996fb92427ae41e4649b934ca495991b7852b855");
    let abc = registry.add_crate(&manifest("foo", "1.0.0"), b"abc").entry.cksum;
    assert_eq!(abc, "ba7816bf8f01cfea414140de5dae2223b00361a396177a9cb410ff61f20015ad");
}

#[test]
fn shard_paths_by_name_length() {
    assert_eq!(index_rel_path("a"), "1/a");
    assert_eq!(index_rel_path("ab"), "2/ab");
    assert_eq!(index_rel_path("abc"), "3/a/abc");
    assert_eq!(index_rel_path("abcd"), "ab/cd/abcd");
}

#[test]
fn shard_path_folds_case() {
    assert_eq!(index_rel_path("ABCD"), "ab/cd/abcd");
    assert_eq!(index_rel_path("ABCD"), index_rel_path("abcd"));
}

#[test]
fn shard_paths_of_distinct_names_differ() {
    assert_ne!(index_rel_path("foo"), index_rel_path("bar"));
    assert_ne!(index_rel_path("foo"), index_rel_path("foob"));
}

#[test]
fn json_string_escaping_matches_reference_encoder() {
    let cases = [
        "plain",
        "with \"quotes\" and \\backslash\\",
        "line\nbreak\ttab\rret",
        "control \u{1} \u{8} \u{c} \u{1f} chars",
        "unicode \u{e9}\u{4e2d}",
        "",
    ];
    for case in cases {
        let mut mine = String::new();
        append_json_string(&mut mine, case);
        let reference = serde_json::to_string(&serde_json::Value::String(case.to_string()))
            .unwrap();
        assert_eq!(mine, reference, "escaping differs on {:?}", case);
    }
}

#[test]
fn entry_line_pins_record_shape() {
    let mut m = manifest("foo", "1.0.0");
    m.features.push(("default".to_string(), vec!["extra".to_string()]));
    m.deps.push(CargoManifestDependency {
        optional: false,
        default_features: true,
        name: "dep1".to_string(),
        features: vec!["f1".to_string(), "f2".to_string()],
        version_req: "^1.0".to_string(),
        target: None,
        kind: "normal".to_string(),
        registry: None,
    });
    let entry = RegistryIndexEntry::new(&m, "00".repeat(32));
    let line = entry_json_line(&entry);
    let expected = "{\"name\":\"foo\",\"vers\":\"1.0.0\",\"deps\":[{\"name\":\"dep1\",\"vers\":\"^1.0\",\"registry\":null,\"features\":[\"f1\",\"f2\"],\"optional\":false,\"default_features\":true,\"target\":null,\"kind\":\"normal\"}],\"cksum\":\"0000000000000000000000000000000000000000000000000000000000000000\",\"features\":{\"default\":[\"extra\"]},\"yanked\":false}";
    assert_eq!(line, expected);
}

#[test]
fn entry_copies_manifest_fields() {
    let m = manifest("foo", "1.2.3");
    let entry = RegistryIndexEntry::new(&m, "c".repeat(64));
    assert_eq!(entry.name, "foo");
    assert_eq!(entry.vers, "1.2.3");
    assert_eq!(entry.cksum, "c".repeat(64));
    assert!(!entry.yanked);
    assert!(entry.deps.is_empty());
}

#[test]
fn index_dependency_renames_version_requirement() {
    let dep = CargoManifestDependency {
        optional: true,
        default_features: false,
        name: "serde".to_string(),
        features: Vec::new(),
        version_req: ">=1".to_string(),
        target: Some("cfg(unix)".to_string()),
        kind: "dev".to_string(),
        registry: Some("other".to_string()),
    };
    let r = RegistryIndexDependency::new(&dep);
    assert_eq!(r.name, "serde");
    assert_eq!(r.vers, ">=1");
    assert_eq!(r.registry.as_deref(), Some("other"));
    assert_eq!(r.target.as_deref(), Some("cfg(unix)"));
    assert!(r.optional);
    assert!(!r.default_features);
    assert_eq!(r.kind, "dev");
}

#[test]
fn two_publishes_append_two_lines() {
    let registry = Registry::new("ssh://git@example.test/index.git");
    let tar1: Vec<u8> = vec![1, 1, 1];
    let tar2: Vec<u8> = vec![2, 2, 2];
    let plan1 = registry.add_crate(&manifest("foo", "1.0.0"), tar1.as_slice());
    let plan2 = registry.add_crate(&manifest("foo", "1.1.0"), tar2.as_slice());
    assert_eq!(plan1.index_rel_path, "3/f/foo");
    assert_eq!(plan1.index_rel_path, plan2.index_rel_path);
    assert_eq!(plan1.index_file, "./repo/3/f/foo");

    let content1 = registry.update_crate_index(None, &plan1.entry);
    assert_eq!(content1, format!("{}\n", plan1.entry_line));
    let content2 = registry.update_crate_index(Some(&content1), &plan2.entry);
    assert_eq!(content2, format!("{}\n{}\n", plan1.entry_line, plan2.entry_line));
    let lines: Vec<&str> = content2.lines().collect();
    assert_eq!(lines.len(), 2);
    assert!(lines[0].contains("\"vers\":\"1.0.0\""));
    assert!(lines[1].contains("\"vers\":\"1.1.0\""));

    assert_eq!(plan1.commit_message, "Adding foo 1.0.0");
    assert_eq!(plan2.commit_message, "Adding foo 1.1.0");

    // the two archives are retrievable at distinct paths
    assert_eq!(download_rel_path("foo", "1.0.0"), "foo/1.0.0/download");
    assert_eq!(download_rel_path("foo", "1.1.0"), "foo/1.1.0/download");
}

#[test]
fn checksum_lands_in_index_record() {
    let registry = Registry::new("url");
    let tar: Vec<u8> = vec![9, 9, 9];
    let plan = registry.add_crate(&manifest("foo", "1.0.0"), tar.as_slice());
    assert_eq!(plan.entry.cksum.len(), 64);
    assert!(plan.entry_line.contains(&plan.entry.cksum));
}

#[test]
fn commit_message_format() {
    assert_eq!(commit_message("foo", "0.3.1"), "Adding foo 0.3.1");
}

#[test]
fn commit_stages_path_relative_to_workdir() {
    let registry = Registry::new("url");
    assert_eq!(
        registry.strip_workdir_prefix("./repo/3/f/foo").as_deref(),
        Some("3/f/foo")
    );
    assert_eq!(registry.strip_workdir_prefix("./elsewhere/3/f/foo"), None);
    assert_eq!(registry.strip_workdir_prefix("./repo"), None);
}

#[test]
fn file_storage_builds_rooted_download_path() {
    let storage = CrateStorage::File(FileCrateStorage::new(&"/var/crates".to_string()));
    let req = storage.upload_request(&manifest("foo", "1.0.0"));
    match req {
        StorageRequest::WriteFile { path } => assert_eq!(path, "/var/crates/foo/1.0.0/download"),
        _ => panic!("file backend must write a file"),
    }
}

#[test]
fn artifactory_storage_builds_authenticated_put() {
    let storage = CrateStorage::Artifactory(ArtifactoryCrateStorage::new(
        &"https://example.test/crates".to_string(),
        &"test-api-key".to_string(),
    ));
    let req = storage.upload_request(&manifest("foo", "1.0.0"));
    match req {
        StorageRequest::HttpPut { url, header_name, header_value } => {
            assert_eq!(url, "https://example.test/crates/foo/1.0.0/download");
            assert_eq!(header_name, "X-JFrog-Art-Api");
            assert_eq!(header_value, "test-api-key");
        },
        _ => panic!("remote backend must issue a PUT"),
    }
}

#[test]
fn remote_upload_fails_on_non_created_status() {
    assert_eq!(
        artifactory_upload_outcome(Some(500)),
        Err(StorageError::UnexpectedStatus(500))
    );
    assert_eq!(
        artifactory_upload_outcome(Some(200)),
        Err(StorageError::UnexpectedStatus(200))
    );
    assert_eq!(artifactory_upload_outcome(Some(201)), Ok(()));
    assert_eq!(artifactory_upload_outcome(None), Err(StorageError::Transport));
}

#[test]
fn file_upload_outcome_maps_to_io() {
    assert_eq!(file_upload_outcome(true), Ok(()));
    assert_eq!(file_upload_outcome(false), Err(StorageError::Io));
}

#[test]
fn push_rejection_is_its_own_error() {
    assert_eq!(push_outcome(true, None), Ok(()));
    assert_eq!(
        push_outcome(true, Some("refs/heads/master rejected".to_string())),
        Err(PublishError::PushRejected)
    );
    assert_eq!(push_outcome(false, None), Err(PublishError::PushRejected));
    assert_ne!(Err::<(), PublishError>(PublishError::PushRejected), Err(PublishError::Index));
}
