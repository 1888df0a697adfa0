use check_for_license::util::{extract_gh_info, starts_with_self};

#[test]
fn test_extract_gh_info_valid() {
    let url = "https://github.com/Celeo/check_for_license/actions";
    let (org, repo) = extract_gh_info(url).unwrap();
    assert_eq!(org, "Celeo");
    assert_eq!(repo, "check_for_license");
}

#[test]
fn test_extract_gh_info_invalid() {
    let url = "https://github.com/Celeo";
    let data = extract_gh_info(url);
    assert_eq!(data, None);
}

#[test]
fn extract_two_segments_exactly() {
    let (org, repo) = extract_gh_info("https://github.com/Org/Repo/actions").unwrap();
    assert_eq!(org, "Org");
    assert_eq!(repo, "Repo");
}

#[test]
fn extract_single_segment_is_no_match() {
    assert_eq!(extract_gh_info("https://github.com/OnlyOrg"), None);
}

#[test]
fn extract_without_marker_is_no_match() {
    assert_eq!(extract_gh_info("https://example.com/a/b"), None);
    assert_eq!(extract_gh_info(""), None);
}

#[test]
fn extract_trailing_slash_is_no_match() {
    assert_eq!(extract_gh_info("https://github.com/a/"), None);
}

#[test]
fn extract_skips_empty_segments() {
    let (org, repo) = extract_gh_info("https://github.com//x//y/").unwrap();
    assert_eq!(org, "x");
    assert_eq!(repo, "y");
}

#[test]
fn extract_plain_repository_url() {
    let (org, repo) = extract_gh_info("https://github.com/a/b").unwrap();
    assert_eq!(org, "a");
    assert_eq!(repo, "b");
}

#[test]
fn self_domain_prefix() {
    assert!(starts_with_self("self.programming"));
    assert!(!starts_with_self("github.com"));
    assert!(!starts_with_self("self"));
}
