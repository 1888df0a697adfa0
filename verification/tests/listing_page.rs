use check_for_license::listing::parse_listing;

fn page(children: &str, after: &str) -> String {
    format!("{{\"data\": {{\"children\": [{}], \"after\": {}}}}}", children, after)
}

fn child(name: &str, domain: &str, url: &str) -> String {
    format!(
        "{{\"data\": {{\"name\": \"{}\", \"domain\": \"{}\", \"url\": \"{}\"}}}}",
        name, domain, url
    )
}

#[test]
fn listing_with_one_post() {
    let body = page(&child("t3_x", "github.com", "https://github.com/A/B"), "\"t3_x\"");
    let (posts, after) = parse_listing(&body).unwrap();
    assert_eq!(posts.len(), 1);
    assert_eq!(posts[0].name, "t3_x");
    assert_eq!(posts[0].domain, "github.com");
    assert_eq!(posts[0].url, "https://github.com/A/B");
    assert_eq!(after, Some("t3_x".to_owned()));
}

#[test]
fn listing_keeps_page_order() {
    let children = format!(
        "{},{}",
        child("t3_a", "self.test", "u1"),
        child("t3_b", "github.com", "u2")
    );
    let (posts, after) = parse_listing(&page(&children, "null")).unwrap();
    assert_eq!(posts.len(), 2);
    assert_eq!(posts[0].name, "t3_a");
    assert_eq!(posts[1].name, "t3_b");
    assert_eq!(after, None);
}

#[test]
fn listing_without_posts() {
    let (posts, after) = parse_listing(&page("", "null")).unwrap();
    assert!(posts.is_empty());
    assert_eq!(after, None);
}

#[test]
fn listing_with_broken_shape_is_rejected() {
    assert!(parse_listing("not json").is_none());
    assert!(parse_listing("{}").is_none());
    assert!(parse_listing("{\"data\": {\"children\": 3}}").is_none());
    let missing_name = "{\"data\": {\"children\": [{\"data\": {\"domain\": \"d\", \"url\": \"u\"}}], \"after\": null}}";
    assert!(parse_listing(missing_name).is_none());
}
