use majsoul_max_rs::descriptor::{validate_descriptor, DescriptorError};
use majsoul_max_rs::settings::LiqiUpdateStatus;
use majsoul_max_rs::update::{
    already_downloaded, authorization_header, check_downloads, check_github_response,
    decide_release, plan_downloads, update_status, AssetInfo, AssetKind, GithubError,
    ReleaseDecision, ReleaseInfo, UpdateError,
};

// A FileDescriptorSet with one file whose package is `lq`.
const LQ_SET: [u8; 6] = [0x0a, 0x04, 0x12, 0x02, b'l', b'q'];

const MAX_DATA: &str = "character:
- 200001
skin:
- 400101
title:
- 1
item:
- 2
loading_image:
- 3
emoji:
  200001:
  - 4
endings:
- 5
";

fn asset(name: &str, url: Option<&str>) -> AssetInfo {
    AssetInfo { name: Some(name.to_owned()), download_url: url.map(|u| u.to_owned()) }
}

#[test]
fn validates_protocol_descriptors() {
    validate_descriptor(&LQ_SET).unwrap();
    // An empty set decodes successfully but has no lq package.
    assert!(validate_descriptor(&[]).is_err());
    assert!(validate_descriptor(&[0xff]).is_err());
}

#[test]
fn descriptor_refusals_name_their_reason() {
    assert_eq!(validate_descriptor(&[]), Err(DescriptorError::MissingLqPackage));
    assert_eq!(validate_descriptor(&[0xff]), Err(DescriptorError::Malformed));
    // A file of package `lz` is not enough.
    assert_eq!(
        validate_descriptor(&[0x0a, 0x04, 0x12, 0x02, b'l', b'z']),
        Err(DescriptorError::MissingLqPackage)
    );
}

#[test]
fn a_release_is_new_when_its_tag_differs() {
    let release = ReleaseInfo { tag_name: Some("v2".to_owned()), assets: None };
    assert!(matches!(decide_release("v1", &release), Ok(ReleaseDecision::NewVersion(ref v)) if v == "v2"));
    assert!(matches!(decide_release("v2", &release), Ok(ReleaseDecision::UpToDate)));
    let untagged = ReleaseInfo { tag_name: None, assets: None };
    assert!(matches!(decide_release("v1", &untagged), Err(UpdateError::NoTagName)));
    assert!(already_downloaded("v2", Some("v2")));
    assert!(!already_downloaded("v2", Some("v1")));
    assert!(!already_downloaded("v2", None));
}

#[test]
fn only_the_two_data_files_are_downloaded() {
    let release = ReleaseInfo {
        tag_name: Some("v2".to_owned()),
        assets: Some(vec![
            asset("README.md", None),
            asset("max_data.yaml", Some("https://x/max")),
            asset("liqi.desc", Some("https://x/desc")),
        ]),
    };
    let plan = plan_downloads(&release).unwrap();
    assert_eq!(plan.len(), 2);
    assert_eq!(plan[0].kind, AssetKind::MaxData);
    assert_eq!(plan[0].url, "https://x/max");
    assert_eq!(plan[1].kind, AssetKind::Descriptor);
    let missing_url = ReleaseInfo {
        tag_name: Some("v2".to_owned()),
        assets: Some(vec![asset("liqi.desc", None)]),
    };
    assert!(matches!(plan_downloads(&missing_url), Err(UpdateError::NoAssetUrl)));
    let no_assets = ReleaseInfo { tag_name: Some("v2".to_owned()), assets: None };
    assert!(matches!(plan_downloads(&no_assets), Err(UpdateError::NoAssets)));
}

#[test]
fn downloads_are_checked_before_they_replace_anything() {
    let data = check_downloads(Some(&LQ_SET), Some(MAX_DATA.as_bytes())).unwrap();
    assert_eq!(data.character, vec![200001]);
    assert!(matches!(check_downloads(None, Some(MAX_DATA.as_bytes())), Err(UpdateError::MissingDescriptor)));
    assert!(matches!(check_downloads(Some(&LQ_SET), None), Err(UpdateError::MissingMaxData)));
    assert!(matches!(
        check_downloads(Some(&[0xff]), Some(MAX_DATA.as_bytes())),
        Err(UpdateError::Descriptor(DescriptorError::Malformed))
    ));
    assert!(matches!(check_downloads(Some(&LQ_SET), Some(&[0xff, 0xfe])), Err(UpdateError::MaxDataNotUtf8)));
    assert!(matches!(check_downloads(Some(&LQ_SET), Some(b"x")), Err(UpdateError::MaxData(_))));
}

#[test]
fn update_outcomes_become_statuses() {
    assert!(matches!(update_status(Ok(Some("v3".to_owned())), "v2"), LiqiUpdateStatus::Updated(ref v) if v == "v3"));
    assert!(matches!(update_status(Ok(None), "v2"), LiqiUpdateStatus::Latest(ref v) if v == "v2"));
    assert!(matches!(update_status(Err("boom".to_owned()), "v2"), LiqiUpdateStatus::Failed(ref e) if e == "boom"));
}

#[test]
fn github_responses_and_headers() {
    assert_eq!(check_github_response(true, Some("0"), 200), Ok(()));
    assert_eq!(check_github_response(false, Some("0"), 403), Err(GithubError::RateLimited));
    assert_eq!(check_github_response(false, Some("5"), 403), Err(GithubError::Status(403)));
    assert_eq!(check_github_response(false, None, 500), Err(GithubError::Status(500)));
    assert_eq!(authorization_header(""), None);
    assert_eq!(authorization_header("abc"), Some("Bearer abc".to_owned()));
}
