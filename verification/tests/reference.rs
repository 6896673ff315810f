use github_client::reference::{owner_of, service_seed_source};
use github_client::{is_service_template, split_template_name};

#[test]
fn split_template_name_ok() {
    let (o, r) = split_template_name("owner/repo").unwrap();
    assert_eq!(o, "owner");
    assert_eq!(r, "repo");
}

#[test]
fn split_template_name_err() {
    assert!(split_template_name("invalid").is_err());
    assert!(split_template_name("owner/").is_err());
    assert!(split_template_name("/repo").is_err());
}

#[test]
fn split_keeps_later_slashes_in_repo() {
    let (o, r) = split_template_name("owner/group/repo").unwrap();
    assert_eq!(o, "owner");
    assert_eq!(r, "group/repo");
}

#[test]
fn split_rejects_empty_and_bare_slash() {
    assert!(split_template_name("").is_err());
    assert!(split_template_name("/").is_err());
}

#[test]
fn split_error_message_names_expected_shape() {
    let e = split_template_name("invalid").unwrap_err();
    assert_eq!(e.message(), "Invalid template name; expected 'owner/repo'");
}

#[test]
fn service_template_detected_by_last_segment() {
    assert!(is_service_template("owner/service-template"));
    assert!(is_service_template("owner/service-billing"));
    assert!(is_service_template("service-standalone"));
    assert!(!is_service_template("owner/web-template"));
    assert!(!is_service_template("owner/"));
    assert!(!is_service_template("service/other"));
}

#[test]
fn split_allows_slash_only_repo_segment() {
    let (o, r) = split_template_name("a//").unwrap();
    assert_eq!(o, "a");
    assert_eq!(r, "/");
}

#[test]
fn service_detection_is_case_sensitive() {
    assert!(!is_service_template("owner/Service-template"));
    assert!(!is_service_template("owner/SERVICE-template"));
}

#[test]
fn owner_of_takes_first_segment() {
    assert_eq!(owner_of("owner/new-repo"), "owner");
    assert_eq!(owner_of("solo"), "solo");
    assert_eq!(owner_of("a/b/c"), "a");
}

#[test]
fn seed_source_derived_or_overridden() {
    assert_eq!(service_seed_source(None, "owner"), "owner/service-template");
    assert_eq!(
        service_seed_source(Some("org/custom-seed"), "owner"),
        "org/custom-seed"
    );
}
