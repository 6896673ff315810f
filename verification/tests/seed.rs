use github_client::seed::{
    check_blob, is_seed_candidate, seed_commit_message, select_seed_entries, should_write_file,
    BlobCheck, TreeEntry,
};
use github_client::text::strip_newlines;

fn entry(path: &str, kind: &str) -> TreeEntry {
    TreeEntry {
        path: path.to_string(),
        kind: kind.to_string(),
        sha: "0000000000000000000000000000000000000000".to_string(),
    }
}

fn prefixes() -> Vec<String> {
    vec![
        "terraform/".to_string(),
        "helm/".to_string(),
        "kustomize/".to_string(),
    ]
}

#[test]
fn existing_destination_file_is_never_written() {
    // The destination contents probe answered 200 for this path: the
    // seeder issues no write for it.
    assert!(!should_write_file(200));
    // An absent file (404 probe) is written.
    assert!(should_write_file(404));
}

#[test]
fn only_matching_blobs_are_selected() {
    let entries = vec![
        entry("helm/values.yaml", "blob"),
        entry("docs/guide.md", "blob"),
        entry("terraform/main.tf", "blob"),
        entry("helm", "tree"),
        entry("kustomize/base/kustomization.yaml", "blob"),
        entry("src/main.rs", "blob"),
    ];
    let picked = select_seed_entries(&entries, &prefixes());
    assert_eq!(picked, vec![0usize, 2, 4]);
}

#[test]
fn candidate_test_requires_blob_and_prefix() {
    let p = prefixes();
    assert!(is_seed_candidate(&entry("helm/values.yaml", "blob"), &p));
    assert!(!is_seed_candidate(&entry("helm/values.yaml", "tree"), &p));
    assert!(!is_seed_candidate(&entry("helmet/values.yaml", "blob"), &p));
    assert!(!is_seed_candidate(&entry("docs/helm/values.yaml", "blob"), &p));
}

#[test]
fn blob_checks_gate_the_write() {
    assert_eq!(check_blob(200, "base64"), BlobCheck::Usable);
    assert_eq!(check_blob(200, "BASE64"), BlobCheck::Usable);
    assert_eq!(check_blob(200, "utf-8"), BlobCheck::UnsupportedEncoding);
    assert_eq!(check_blob(404, "base64"), BlobCheck::FetchFailed);
    assert_eq!(check_blob(500, "utf-8"), BlobCheck::FetchFailed);
}

#[test]
fn base64_payload_newlines_are_stripped() {
    assert_eq!(strip_newlines("QUJD\nREVG\n"), "QUJDREVG");
    assert_eq!(strip_newlines("nonewlines"), "nonewlines");
    assert_eq!(strip_newlines("\n\n"), "");
}

#[test]
fn seeded_files_get_the_fixed_commit_message() {
    assert_eq!(
        seed_commit_message("helm/values.yaml"),
        "chore: seed helm/values.yaml from service-template"
    );
}
