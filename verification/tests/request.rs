use github_client::config::resolve_token;
use github_client::request::{
    accept_header_value, api_url, api_version_header_name, api_version_value,
    base_branch_failure_report, bearer_header_value, blob_path, branch_path,
    branch_policies_path, contents_probe_path, contents_put_path, create_branch_failure_report,
    environment_failure_report, environment_path, generate_path, git_ref_path, protection_path,
    protection_failure_report, ref_name, refs_path, repo_info_failure_report, repo_path,
    source_tree_failure_report, tree_path,
};
use github_client::text::decimal_string;
use github_client::{success_summary, RepoResponse};

#[test]
fn fixed_headers_are_pinned() {
    assert_eq!(bearer_header_value("testtoken"), "Bearer testtoken");
    assert_eq!(accept_header_value(), "application/vnd.github+json");
    assert_eq!(api_version_header_name(), "x-github-api-version");
    assert_eq!(api_version_value(), "2022-11-28");
}

#[test]
fn request_paths_are_pinned() {
    assert_eq!(
        generate_path("owner", "template"),
        "/repos/owner/template/generate"
    );
    assert_eq!(repo_path("owner", "repo"), "/repos/owner/repo");
    assert_eq!(
        branch_path("me", "new-repo", "main"),
        "/repos/me/new-repo/branches/main"
    );
    assert_eq!(
        protection_path("me", "new-repo", "main"),
        "/repos/me/new-repo/branches/main/protection"
    );
    assert_eq!(
        git_ref_path("me", "new-repo", "main"),
        "/repos/me/new-repo/git/ref/heads/main"
    );
    assert_eq!(refs_path("me", "new-repo"), "/repos/me/new-repo/git/refs");
    assert_eq!(
        tree_path("owner", "service-template", "main"),
        "/repos/owner/service-template/git/trees/main?recursive=1"
    );
    assert_eq!(
        blob_path("owner", "service-template", "abc123"),
        "/repos/owner/service-template/git/blobs/abc123"
    );
    assert_eq!(
        contents_probe_path("me", "new-repo", "helm/values.yaml", "main"),
        "/repos/me/new-repo/contents/helm/values.yaml?ref=main"
    );
    assert_eq!(
        contents_put_path("me", "new-repo", "helm/values.yaml"),
        "/repos/me/new-repo/contents/helm/values.yaml"
    );
    assert_eq!(
        environment_path("me", "new-repo", "dev"),
        "/repos/me/new-repo/environments/dev"
    );
    assert_eq!(
        branch_policies_path("me", "new-repo", "release"),
        "/repos/me/new-repo/environments/release/deployment-branch-policies"
    );
}

#[test]
fn base_address_loses_trailing_slashes() {
    assert_eq!(
        api_url("https://api.github.com", "/repos/a/b"),
        "https://api.github.com/repos/a/b"
    );
    assert_eq!(
        api_url("https://api.github.com/", "/repos/a/b"),
        "https://api.github.com/repos/a/b"
    );
    assert_eq!(
        api_url("https://ghe.example.com/api/v3///", "/repos/a/b"),
        "https://ghe.example.com/api/v3/repos/a/b"
    );
}

#[test]
fn operation_failure_reports_are_pinned() {
    assert_eq!(
        protection_failure_report(false, 403, " forbidden \n"),
        "Failed to apply branch protection (status 403): forbidden"
    );
    assert_eq!(
        protection_failure_report(true, 422, "bad"),
        "Failed to apply branch protection (with checks) (status 422): bad"
    );
    assert_eq!(
        base_branch_failure_report("main", "gone"),
        "Failed to read base branch 'main': gone"
    );
    assert_eq!(
        create_branch_failure_report("dev", "exists"),
        "Failed to create branch 'dev': exists"
    );
    assert_eq!(
        environment_failure_report("dev", "denied"),
        "Failed to create/update environment 'dev': denied"
    );
    assert_eq!(
        repo_info_failure_report("owner/seed", "missing"),
        "Failed to read repo info for 'owner/seed': missing"
    );
    assert_eq!(
        source_tree_failure_report("bad tree"),
        "Failed to read source tree: bad tree"
    );
}

#[test]
fn decimal_rendering_is_exact() {
    assert_eq!(decimal_string(0), "0");
    assert_eq!(decimal_string(7), "7");
    assert_eq!(decimal_string(201), "201");
    assert_eq!(decimal_string(65535), "65535");
    assert_eq!(decimal_string(1000000), "1000000");
}

#[test]
fn token_resolution_prefers_the_explicit_token() {
    assert_eq!(resolve_token(Some("abc"), Some("xyz")).unwrap(), "abc");
    assert_eq!(resolve_token(Some(""), Some("xyz")).unwrap(), "xyz");
    assert_eq!(resolve_token(None, Some("xyz")).unwrap(), "xyz");
    let e = resolve_token(None, None).unwrap_err();
    assert_eq!(
        e.message(),
        "Missing token. Provide via --token, GITHUB_TOKEN, or GH_TOKEN env var"
    );
    assert!(resolve_token(Some(""), Some("")).is_err());
    assert!(resolve_token(None, Some("")).is_err());
}

#[test]
fn success_summary_is_one_structured_line() {
    let repo = RepoResponse {
        full_name: "owner/new-repo".to_string(),
        html_url: "https://github.com/owner/new-repo".to_string(),
        default_branch: "main".to_string(),
    };
    assert_eq!(
        success_summary(&repo),
        "{\"full_name\":\"owner/new-repo\",\"html_url\":\"https://github.com/owner/new-repo\",\"default_branch\":\"main\"}"
    );
}
