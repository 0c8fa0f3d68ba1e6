use asset_sync::asset::AssetDescription;
use asset_sync::content::ContentReply;
use asset_sync::link::Repository;
use asset_sync::manifest::{Dependency, DependencyDetail, DependencyEntry, Manifest};
use asset_sync::outcome::{FatalError, SkipReason, Step};
use asset_sync::request::{manifest_request, manifest_url, FetchRequest};
use asset_sync::sync::{
    apply_manifest, is_asset_file, merge_manifest, plan_fetch, plan_request, settle, update_asset,
    update_entry, FetchReply, Loaded,
};
use std::cell::RefCell;

fn asset(link: &str) -> AssetDescription {
    AssetDescription {
        name: "Foo".to_string(),
        description: "A thing".to_string(),
        link: link.to_string(),
        bevy_versions: Some(vec!["0.9".to_string(), "0.10".to_string()]),
        licenses: Some(vec!["Zlib".to_string()]),
    }
}

fn content(text: &str) -> FetchReply {
    FetchReply::Content(ContentReply {
        encoding: "base64".to_string(),
        content: base64::encode(text),
    })
}

#[test]
fn only_toml_files_are_read() {
    assert!(is_asset_file(false, Some("toml")));
    assert!(!is_asset_file(true, Some("toml")));
    assert!(!is_asset_file(false, Some("md")));
    assert!(!is_asset_file(false, Some("TOML")));
    assert!(!is_asset_file(false, Some(".toml")));
    assert!(!is_asset_file(false, Some("")));
    assert!(!is_asset_file(false, None));
    assert!(!is_asset_file(true, None));
}

#[test]
fn request_names_the_manifest_of_the_repository() {
    let repo = Repository { owner: "acme".to_string(), name: "foo".to_string() };
    assert_eq!(manifest_url(&repo), "https://api.github.com/repos/acme/foo/contents/Cargo.toml");
    assert_eq!(
        manifest_request(&repo, "secret"),
        FetchRequest {
            url: "https://api.github.com/repos/acme/foo/contents/Cargo.toml".to_string(),
            accept: "application/json".to_string(),
            user_agent: "bevy-tools".to_string(),
            bearer_token: "secret".to_string(),
        }
    );
}

#[test]
fn repository_link_is_fetched() {
    let plan = plan_fetch(Some(&asset("https://github.com/acme/foo")), Some("t0k3n"));
    assert_eq!(
        plan,
        Step::Proceed(FetchRequest {
            url: "https://api.github.com/repos/acme/foo/contents/Cargo.toml".to_string(),
            accept: "application/json".to_string(),
            user_agent: "bevy-tools".to_string(),
            bearer_token: "t0k3n".to_string(),
        })
    );
}

#[test]
fn foreign_host_is_never_fetched() {
    for link in ["https://gitlab.com/acme/foo", "https://example.org", "https://github.io/a/b"] {
        assert_eq!(plan_fetch(Some(&asset(link)), Some("t")), Step::Skip(SkipReason::ForeignHost));
        assert_eq!(plan_fetch(Some(&asset(link)), None), Step::Skip(SkipReason::ForeignHost));
    }
}

#[test]
fn malformed_asset_is_passed_over() {
    assert_eq!(plan_fetch(None, Some("t")), Step::Skip(SkipReason::MalformedAsset));
    assert_eq!(plan_fetch(None, None), Step::Skip(SkipReason::MalformedAsset));
}

#[test]
fn unparsable_link_ends_the_run() {
    assert_eq!(plan_fetch(Some(&asset("nowhere")), Some("t")), Step::Abort(FatalError::InvalidLink));
    assert_eq!(plan_fetch(Some(&asset("nowhere")), None), Step::Abort(FatalError::InvalidLink));
}

#[test]
fn missing_token_ends_the_run_at_first_use() {
    assert_eq!(
        plan_fetch(Some(&asset("https://github.com/acme/foo")), None),
        Step::Abort(FatalError::MissingToken)
    );
    assert_eq!(
        plan_fetch(Some(&asset("https://github.com/acme")), None),
        Step::Skip(SkipReason::NoRepository)
    );
}

#[test]
fn plan_request_passes_earlier_decisions_on() {
    assert_eq!(
        plan_request(Step::Skip(SkipReason::NoRepository), Some("t")),
        Step::Skip(SkipReason::NoRepository)
    );
    assert_eq!(
        plan_request(Step::Abort(FatalError::InvalidLink), Some("t")),
        Step::Abort(FatalError::InvalidLink)
    );
    let repo = Repository { owner: "o".to_string(), name: "r".to_string() };
    assert_eq!(
        plan_request(Step::Proceed(repo.clone()), Some("t")),
        Step::Proceed(manifest_request(&repo, "t"))
    );
    assert_eq!(plan_request(Step::Proceed(repo), None), Step::Abort(FatalError::MissingToken));
}

#[test]
fn manifest_replaces_licenses_and_versions() {
    let mut a = asset("https://github.com/acme/foo");
    let manifest = Manifest {
        license: Some("MIT OR Apache-2.0".to_string()),
        dependencies: vec![DependencyEntry {
            name: "bevy".to_string(),
            declaration: Dependency::Simple("0.11".to_string()),
        }],
    };
    apply_manifest(&mut a, &manifest);
    assert_eq!(a.name, "Foo");
    assert_eq!(a.description, "A thing");
    assert_eq!(a.link, "https://github.com/acme/foo");
    assert_eq!(a.licenses, Some(vec!["MIT".to_string(), "Apache-2.0".to_string()]));
    assert_eq!(a.bevy_versions, Some(vec!["0.11".to_string()]));
}

#[test]
fn manifest_without_news_changes_nothing() {
    let mut a = asset("https://github.com/acme/foo");
    let manifest = Manifest {
        license: None,
        dependencies: vec![DependencyEntry {
            name: "bevy".to_string(),
            declaration: Dependency::Detailed(DependencyDetail {
                version: None,
                git: Some("https://github.com/bevyengine/bevy".to_string()),
                branch: Some("dev".to_string()),
            }),
        }],
    };
    apply_manifest(&mut a, &manifest);
    assert_eq!(a, asset("https://github.com/acme/foo"));
}

#[test]
fn manifest_fills_missing_fields() {
    let mut a = asset("https://github.com/acme/foo");
    a.bevy_versions = None;
    a.licenses = None;
    let manifest = Manifest {
        license: Some("MIT".to_string()),
        dependencies: vec![DependencyEntry {
            name: "bevy_app".to_string(),
            declaration: Dependency::Detailed(DependencyDetail {
                version: None,
                git: Some("https://github.com/bevyengine/bevy".to_string()),
                branch: Some("main".to_string()),
            }),
        }],
    };
    apply_manifest(&mut a, &manifest);
    assert_eq!(a.licenses, Some(vec!["MIT".to_string()]));
    assert_eq!(a.bevy_versions, Some(vec!["main".to_string()]));
}

#[test]
fn fetched_manifest_updates_the_asset() {
    let before = asset("https://github.com/acme/foo");
    let plan = plan_fetch(Some(&before), Some("token"));
    assert!(matches!(plan, Step::Proceed(_)));
    let manifest = "[package]\nname = \"foo\"\nversion = \"1.0.0\"\nlicense = \"MIT OR Apache-2.0\"\n\n[dependencies]\nbevy = \"0.11\"\n";
    let after = settle(before, &content(manifest));
    let mut expected = asset("https://github.com/acme/foo");
    expected.licenses = Some(vec!["MIT".to_string(), "Apache-2.0".to_string()]);
    expected.bevy_versions = Some(vec!["0.11".to_string()]);
    assert_eq!(after, Step::Proceed(expected));
}

#[test]
fn reply_in_lines_is_accepted() {
    let manifest = "[package]\nname = \"foo\"\nversion = \"1.0.0\"\nlicense = \"MIT\"\n";
    let encoded = base64::encode(manifest);
    let (head, tail) = encoded.split_at(20);
    let reply = FetchReply::Content(ContentReply {
        encoding: "base64".to_string(),
        content: format!("{}\n{}\n", head, tail),
    });
    let mut expected = asset("https://github.com/acme/foo");
    expected.licenses = Some(vec!["MIT".to_string()]);
    assert_eq!(settle(asset("https://github.com/acme/foo"), &reply), Step::Proceed(expected));
}

#[test]
fn failed_request_leaves_the_file() {
    let a = asset("https://github.com/acme/foo");
    assert_eq!(settle(a.clone(), &FetchReply::Failed), Step::Skip(SkipReason::FetchFailed));
    assert_eq!(settle(a, &FetchReply::Unreadable), Step::Skip(SkipReason::MalformedReply));
}

#[test]
fn reply_in_another_encoding_leaves_the_file() {
    let reply = FetchReply::Content(ContentReply {
        encoding: "none".to_string(),
        content: String::new(),
    });
    assert_eq!(
        settle(asset("https://github.com/acme/foo"), &reply),
        Step::Skip(SkipReason::UnknownEncoding)
    );
}

#[test]
fn undecodable_reply_ends_the_run() {
    let a = asset("https://github.com/acme/foo");
    let bad_base64 = FetchReply::Content(ContentReply {
        encoding: "base64".to_string(),
        content: "***".to_string(),
    });
    assert_eq!(settle(a.clone(), &bad_base64), Step::Abort(FatalError::InvalidBase64));
    let bad_text = FetchReply::Content(ContentReply {
        encoding: "base64".to_string(),
        content: base64::encode([0xFFu8, 0xFE]),
    });
    assert_eq!(settle(a.clone(), &bad_text), Step::Abort(FatalError::InvalidUtf8));
    assert_eq!(settle(a, &content("[package")), Step::Abort(FatalError::InvalidManifest));
}

#[test]
fn merge_passes_earlier_decisions_on() {
    let a = asset("https://github.com/acme/foo");
    assert_eq!(
        merge_manifest(a.clone(), Step::Skip(SkipReason::UnknownEncoding)),
        Step::Skip(SkipReason::UnknownEncoding)
    );
    assert_eq!(
        merge_manifest(a.clone(), Step::Abort(FatalError::InvalidUtf8)),
        Step::Abort(FatalError::InvalidUtf8)
    );
    assert_eq!(merge_manifest(a.clone(), Step::Proceed(String::new())), Step::Proceed(a));
}

#[test]
fn update_fetches_the_manifest_and_merges_it() {
    let manifest = "[package]\nname = \"foo\"\nversion = \"1.0.0\"\nlicense = \"MIT OR Apache-2.0\"\n\n[dependencies]\nbevy = \"0.11\"\n";
    let asked: RefCell<Vec<FetchRequest>> = RefCell::new(Vec::new());
    let result = update_asset(Some(asset("https://github.com/acme/foo")), Some("token"), |request| {
        asked.borrow_mut().push(request.clone());
        content(manifest)
    });
    let mut expected = asset("https://github.com/acme/foo");
    expected.licenses = Some(vec!["MIT".to_string(), "Apache-2.0".to_string()]);
    expected.bevy_versions = Some(vec!["0.11".to_string()]);
    assert_eq!(result, Step::Proceed(expected));
    assert_eq!(
        asked.into_inner(),
        vec![FetchRequest {
            url: "https://api.github.com/repos/acme/foo/contents/Cargo.toml".to_string(),
            accept: "application/json".to_string(),
            user_agent: "bevy-tools".to_string(),
            bearer_token: "token".to_string(),
        }]
    );
}

#[test]
fn update_asks_nothing_for_a_foreign_host() {
    let result = update_asset(Some(asset("https://gitlab.com/acme/foo")), Some("token"), |_| {
        panic!("no request is due")
    });
    assert_eq!(result, Step::Skip(SkipReason::ForeignHost));
}

#[test]
fn update_asks_nothing_for_a_malformed_asset() {
    let result = update_asset(None, Some("token"), |_| panic!("no request is due"));
    assert_eq!(result, Step::Skip(SkipReason::MalformedAsset));
}

#[test]
fn update_asks_nothing_without_a_token() {
    let result = update_asset(Some(asset("https://github.com/acme/foo")), None, |_| {
        panic!("no request is due")
    });
    assert_eq!(result, Step::Abort(FatalError::MissingToken));
    let result = update_asset(Some(asset("::")), Some("token"), |_| panic!("no request is due"));
    assert_eq!(result, Step::Abort(FatalError::InvalidLink));
}

#[test]
fn update_settles_on_what_came_back() {
    let a = asset("https://github.com/acme/foo");
    assert_eq!(
        update_asset(Some(a.clone()), Some("t"), |_| FetchReply::Failed),
        Step::Skip(SkipReason::FetchFailed)
    );
    assert_eq!(
        update_asset(Some(a.clone()), Some("t"), |_| FetchReply::Unreadable),
        Step::Skip(SkipReason::MalformedReply)
    );
    assert_eq!(
        update_asset(Some(a), Some("t"), |_| content("not = [a manifest")),
        Step::Abort(FatalError::InvalidManifest)
    );
}

#[test]
fn reasons_are_said_in_words() {
    assert_eq!(SkipReason::NotAnAsset.describe(), "entry is no asset description");
    assert_eq!(SkipReason::MalformedAsset.describe(), "asset description is not a valid document");
    assert_eq!(FatalError::UnreadableFile.describe(), "file could not be read");
    assert_eq!(SkipReason::ForeignHost.describe(), "link does not lead to github.com");
    assert_eq!(SkipReason::NoRepository.describe(), "link does not name an owner and a repository");
    assert_eq!(SkipReason::FetchFailed.describe(), "request failed");
    assert_eq!(SkipReason::MalformedReply.describe(), "reply could not be read");
    assert_eq!(SkipReason::UnknownEncoding.describe(), "content is not in base64");
    assert_eq!(FatalError::InvalidLink.describe(), "link is not a valid URL");
    assert_eq!(FatalError::MissingToken.describe(), "access token is not set");
    assert_eq!(FatalError::InvalidBase64.describe(), "content is not valid base64");
    assert_eq!(FatalError::InvalidUtf8.describe(), "content is not valid UTF-8");
    assert_eq!(FatalError::InvalidManifest.describe(), "content is not a package manifest");
}

#[test]
fn reasons_without_a_message_of_their_own_are_reported() {
    assert!(SkipReason::NoRepository.is_reported());
    assert!(SkipReason::UnknownEncoding.is_reported());
    assert!(!SkipReason::NotAnAsset.is_reported());
    assert!(!SkipReason::MalformedAsset.is_reported());
    assert!(!SkipReason::ForeignHost.is_reported());
    assert!(!SkipReason::FetchFailed.is_reported());
    assert!(!SkipReason::MalformedReply.is_reported());
}

#[test]
fn manifest_that_nests_too_deep_ends_the_run() {
    let deep = format!("x = {}", "[".repeat(10_000));
    assert_eq!(
        settle(asset("https://github.com/acme/foo"), &content(&deep)),
        Step::Abort(FatalError::InvalidManifest)
    );
    assert_eq!(
        merge_manifest(asset("https://github.com/acme/foo"), Step::Proceed(deep)),
        Step::Abort(FatalError::InvalidManifest)
    );
}

#[test]
fn entry_of_another_kind_is_neither_read_nor_fetched_for() {
    for (is_dir, extension) in [
        (false, None),
        (false, Some("md")),
        (false, Some("bak")),
        (false, Some("gitignore")),
        (false, Some("TOML")),
        (true, Some("toml")),
        (true, None),
    ] {
        for token in [None, Some("token")] {
            let step = update_entry(
                is_dir,
                extension,
                || panic!("the file is not to be read"),
                token,
                |_| panic!("no request is due"),
            );
            assert_eq!(step, Step::Skip(SkipReason::NotAnAsset));
        }
    }
}

#[test]
fn malformed_entry_is_passed_over_and_the_next_one_is_updated() {
    let manifest = "[package]\nname = \"foo\"\nversion = \"1.0.0\"\nlicense = \"MIT\"\n\n[dependencies]\nbevy = \"0.11\"\n";
    let asked = RefCell::new(0);
    let mut steps = Vec::new();
    for loaded in [Loaded::Malformed, Loaded::Parsed(asset("https://github.com/acme/foo"))] {
        steps.push(update_entry(false, Some("toml"), || loaded, Some("token"), |_| {
            *asked.borrow_mut() += 1;
            content(manifest)
        }));
    }
    let mut expected = asset("https://github.com/acme/foo");
    expected.licenses = Some(vec!["MIT".to_string()]);
    expected.bevy_versions = Some(vec!["0.11".to_string()]);
    assert_eq!(steps, vec![Step::Skip(SkipReason::MalformedAsset), Step::Proceed(expected)]);
    assert_eq!(asked.into_inner(), 1);
}

#[test]
fn entry_with_a_foreign_host_is_not_fetched_for() {
    for link in ["https://gitlab.com/acme/foo", "https://www.github.com/acme/foo"] {
        for token in [None, Some("token")] {
            let step = update_entry(
                false,
                Some("toml"),
                || Loaded::Parsed(asset(link)),
                token,
                |_| panic!("no request is due"),
            );
            assert_eq!(step, Step::Skip(SkipReason::ForeignHost));
        }
    }
}

#[test]
fn unreadable_entry_ends_the_run() {
    let step =
        update_entry(false, Some("toml"), || Loaded::Unreadable, Some("token"), |_| {
            panic!("no request is due")
        });
    assert_eq!(step, Step::Abort(FatalError::UnreadableFile));
}
