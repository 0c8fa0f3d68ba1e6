use asset_sync::link::{classify_link, classify_parts, LinkParts, Repository};
use asset_sync::outcome::{FatalError, SkipReason, Step};

fn repository(owner: &str, name: &str) -> Step<Repository> {
    Step::Proceed(Repository { owner: owner.to_string(), name: name.to_string() })
}

fn parts(host: Option<&str>, segments: Option<&[&str]>) -> LinkParts {
    LinkParts {
        host: host.map(String::from),
        segments: segments.map(|s| s.iter().map(|x| x.to_string()).collect()),
    }
}

#[test]
fn repository_link_names_owner_and_repository() {
    assert_eq!(classify_link("https://github.com/acme/foo"), repository("acme", "foo"));
    assert_eq!(classify_link("https://github.com/acme/foo/tree/main"), repository("acme", "foo"));
    assert_eq!(classify_link("https://github.com/acme/foo/"), repository("acme", "foo"));
    assert_eq!(classify_link("https://github.com/acme/foo?tab=readme#top"), repository("acme", "foo"));
}

#[test]
fn host_is_compared_in_the_form_the_url_holds() {
    assert_eq!(classify_link("https://GitHub.com/acme/foo"), repository("acme", "foo"));
    assert_eq!(classify_link("http://github.com:8080/acme/foo"), repository("acme", "foo"));
}

#[test]
fn other_hosts_are_passed_over() {
    assert_eq!(classify_link("https://gitlab.com/acme/foo"), Step::Skip(SkipReason::ForeignHost));
    assert_eq!(classify_link("https://www.github.com/acme/foo"), Step::Skip(SkipReason::ForeignHost));
    assert_eq!(classify_link("https://crates.io/crates/foo"), Step::Skip(SkipReason::ForeignHost));
    assert_eq!(classify_link("mailto:someone@github.com"), Step::Skip(SkipReason::ForeignHost));
    assert_eq!(classify_link("file:///github.com/acme/foo"), Step::Skip(SkipReason::ForeignHost));
}

#[test]
fn short_paths_are_passed_over() {
    assert_eq!(classify_link("https://github.com"), Step::Skip(SkipReason::NoRepository));
    assert_eq!(classify_link("https://github.com/"), Step::Skip(SkipReason::NoRepository));
    assert_eq!(classify_link("https://github.com/acme"), Step::Skip(SkipReason::NoRepository));
}

#[test]
fn empty_segments_are_taken_as_they_are() {
    assert_eq!(classify_link("https://github.com/acme/"), repository("acme", ""));
    assert_eq!(classify_link("https://github.com//"), repository("", ""));
}

#[test]
fn unparsable_link_is_fatal() {
    assert_eq!(classify_link("not a url"), Step::Abort(FatalError::InvalidLink));
    assert_eq!(classify_link(""), Step::Abort(FatalError::InvalidLink));
    assert_eq!(classify_link("github.com/acme/foo"), Step::Abort(FatalError::InvalidLink));
    assert_eq!(classify_link("https://"), Step::Abort(FatalError::InvalidLink));
}

#[test]
fn parts_decide_the_target() {
    assert_eq!(
        classify_parts(&parts(Some("github.com"), Some(&["a", "b", "c"]))),
        repository("a", "b")
    );
    assert_eq!(
        classify_parts(&parts(Some("github.com"), Some(&["a"]))),
        Step::Skip(SkipReason::NoRepository)
    );
    assert_eq!(
        classify_parts(&parts(Some("github.com"), Some(&[]))),
        Step::Skip(SkipReason::NoRepository)
    );
    assert_eq!(
        classify_parts(&parts(Some("github.com"), None)),
        Step::Skip(SkipReason::NoRepository)
    );
    assert_eq!(
        classify_parts(&parts(Some("github.org"), Some(&["a", "b"]))),
        Step::Skip(SkipReason::ForeignHost)
    );
    assert_eq!(classify_parts(&parts(None, Some(&["a", "b"]))), Step::Skip(SkipReason::ForeignHost));
    assert_eq!(classify_parts(&parts(None, None)), Step::Skip(SkipReason::ForeignHost));
}
