//! The decisions of a protocol-data update: whether the latest MajsoulData
//! release is new, which of its assets to download, and whether what was
//! downloaded may replace the files in use. The HTTP requests and the file
//! writes are made by the caller between these steps.

use crate::descriptor::{spec_validate_descriptor, validate_descriptor, DescriptorError};
use crate::max_data::{parse_max_data, spec_parse_max_data, MaxData, MaxDataError};
use crate::settings::LiqiUpdateStatus;
use crate::text::{append_chars, chars_eq, chars_of};
use vstd::prelude::*;
use vstd::utf8::{decode_utf8, valid_utf8};

verus! {

/// What the update logic reads of a release: its tag and its assets.
pub struct ReleaseInfo {
    pub tag_name: Option<String>,
    /// `None` when the release lists no `assets` array.
    pub assets: Option<Vec<AssetInfo>>,
}

pub struct AssetInfo {
    pub name: Option<String>,
    pub download_url: Option<String>,
}

/// Why an update failed.
#[derive(Debug, Clone, Copy, PartialEq, Eq, Structural)]
pub enum UpdateError {
    NoTagName,
    NoAssets,
    /// A wanted asset has no download URL.
    NoAssetUrl,
    MissingDescriptor,
    MissingMaxData,
    Descriptor(DescriptorError),
    MaxDataNotUtf8,
    MaxData(MaxDataError),
}

/// The two files a release provides.
#[derive(Debug, Clone, Copy, PartialEq, Eq, Structural)]
pub enum AssetKind {
    Descriptor,
    MaxData,
}

pub open spec fn asset_kind(name: Option<String>) -> Option<AssetKind> {
    match name {
        Some(n) => if n@ == "liqi.desc"@ {
            Some(AssetKind::Descriptor)
        } else if n@ == "max_data.yaml"@ {
            Some(AssetKind::MaxData)
        } else {
            None
        },
        None => None,
    }
}

/// What to do after reading the release.
pub enum ReleaseDecision {
    /// The release is the version already in use.
    UpToDate,
    /// The release `version` differs from the one in use.
    NewVersion(String),
}

/// Compares the release tag with the version in use.
pub fn decide_release(current_version: &str, release: &ReleaseInfo) -> (r: Result<
    ReleaseDecision,
    UpdateError,
>)
    ensures
        match release.tag_name {
            None => r == Err::<ReleaseDecision, UpdateError>(UpdateError::NoTagName),
            Some(tag) => if tag@ == current_version@ {
                r matches Ok(ReleaseDecision::UpToDate)
            } else {
                r matches Ok(ReleaseDecision::NewVersion(v)) && v@ == tag@
            },
        },
{
    match &release.tag_name {
        None => Err(UpdateError::NoTagName),
        Some(tag) => {
            if chars_eq(&chars_of(tag.as_str()), current_version) {
                Ok(ReleaseDecision::UpToDate)
            } else {
                Ok(ReleaseDecision::NewVersion(tag.clone()))
            }
        },
    }
}

/// Whether the new version was already downloaded: the settings file records it.
pub fn already_downloaded(version: &str, stored_version: Option<&str>) -> (r: bool)
    ensures
        r == (stored_version matches Some(s) && s@ == version@),
{
    match stored_version {
        Some(s) => chars_eq(&chars_of(s), version),
        None => false,
    }
}

/// One download to make.
pub struct PlannedDownload {
    pub kind: AssetKind,
    pub url: String,
}

/// The downloads a release calls for, in asset order: one for each asset
/// named `liqi.desc` or `max_data.yaml`, which must have a URL; other assets
/// are skipped.
pub open spec fn spec_plan(assets: Seq<AssetInfo>) -> Result<Seq<(AssetKind, Seq<char>)>, UpdateError>
    decreases assets.len(),
{
    if assets.len() == 0 {
        Ok(Seq::empty())
    } else {
        match spec_plan(assets.drop_last()) {
            Err(e) => Err(e),
            Ok(p) => match asset_kind(assets.last().name) {
                None => Ok(p),
                Some(k) => match assets.last().download_url {
                    None => Err(UpdateError::NoAssetUrl),
                    Some(u) => Ok(p.push((k, u@))),
                },
            },
        }
    }
}

pub open spec fn plan_view(p: Seq<PlannedDownload>) -> Seq<(AssetKind, Seq<char>)> {
    p.map_values(|d: PlannedDownload| (d.kind, d.url@))
}

proof fn lemma_plan_error_sticks(assets: Seq<AssetInfo>, j: int)
    requires
        0 <= j <= assets.len(),
        spec_plan(assets.take(j)) == Err::<Seq<(AssetKind, Seq<char>)>, UpdateError>(
            UpdateError::NoAssetUrl,
        ),
    ensures
        spec_plan(assets) == Err::<Seq<(AssetKind, Seq<char>)>, UpdateError>(UpdateError::NoAssetUrl),
    decreases assets.len() - j,
{
    if j < assets.len() {
        assert(assets.take(j + 1).drop_last() == assets.take(j));
        lemma_plan_error_sticks(assets, j + 1);
    } else {
        assert(assets.take(j) == assets);
    }
}

fn kind_of(name: &Option<String>) -> (r: Option<AssetKind>)
    ensures
        r == asset_kind(*name),
{
    match name {
        Some(n) => {
            let c = chars_of(n.as_str());
            if chars_eq(&c, "liqi.desc") {
                Some(AssetKind::Descriptor)
            } else if chars_eq(&c, "max_data.yaml") {
                Some(AssetKind::MaxData)
            } else {
                None
            }
        },
        None => None,
    }
}

/// Lists the downloads of a release: each wanted asset's kind and URL, in
/// order. A release without assets, or a wanted asset without a URL, fails.
pub fn plan_downloads(release: &ReleaseInfo) -> (r: Result<Vec<PlannedDownload>, UpdateError>)
    ensures
        match release.assets {
            None => r == Err::<Vec<PlannedDownload>, UpdateError>(UpdateError::NoAssets),
            Some(assets) => match spec_plan(assets@) {
                Ok(p) => r matches Ok(plan) && plan_view(plan@) == p,
                Err(e) => r == Err::<Vec<PlannedDownload>, UpdateError>(e),
            },
        },
{
    let assets = match &release.assets {
        None => {
            return Err(UpdateError::NoAssets);
        },
        Some(a) => a,
    };
    let mut plan: Vec<PlannedDownload> = Vec::new();
    let mut i: usize = 0;
    assert(assets@.take(0) =~= Seq::<AssetInfo>::empty());
    assert(plan_view(plan@) =~= Seq::<(AssetKind, Seq<char>)>::empty());
    while i < assets.len()
        invariant
            i <= assets@.len(),
            release.assets is Some,
            release.assets->0@ == assets@,
            spec_plan(assets@.take(i as int)) == Ok::<Seq<(AssetKind, Seq<char>)>, UpdateError>(
                plan_view(plan@),
            ),
        decreases assets@.len() - i,
    {
        proof {
            assert(assets@.take(i + 1).drop_last() =~= assets@.take(i as int));
            assert(assets@.take(i + 1).last() == assets@[i as int]);
        }
        let asset = &assets[i];
        match kind_of(&asset.name) {
            None => {},
            Some(kind) => {
                match &asset.download_url {
                    None => {
                        proof {
                            lemma_plan_error_sticks(assets@, i + 1);
                        }
                        return Err(UpdateError::NoAssetUrl);
                    },
                    Some(url) => {
                        let ghost before = plan@;
                        plan.push(PlannedDownload { kind, url: url.clone() });
                        assert(plan_view(plan@) =~= plan_view(before).push((kind, url@)));
                    },
                }
            },
        }
        i += 1;
    }
    assert(assets@.take(i as int) =~= assets@);
    Ok(plan)
}

/// The characters that the UTF-8 bytes `bytes` encode (std's
/// `str::from_utf8`): `None` exactly when the bytes are not valid UTF-8.
#[verifier::external_body]
fn utf8_text(bytes: &[u8]) -> (r: Option<&str>)
    ensures
        r is Some <==> valid_utf8(bytes@),
        r is Some ==> r->0@ == decode_utf8(bytes@),
{
    std::str::from_utf8(bytes).ok()
}

pub open spec fn spec_check_downloads(descriptor: Option<Seq<u8>>, max_data: Option<Seq<u8>>) -> Result<
    crate::max_data::MaxDataView,
    UpdateError,
> {
    match descriptor {
        None => Err(UpdateError::MissingDescriptor),
        Some(d) => match max_data {
            None => Err(UpdateError::MissingMaxData),
            Some(m) => match spec_validate_descriptor(d) {
                Err(e) => Err(UpdateError::Descriptor(e)),
                Ok(_) => if !valid_utf8(m) {
                    Err(UpdateError::MaxDataNotUtf8)
                } else {
                    match spec_parse_max_data(decode_utf8(m)) {
                        Ok(v) => Ok(v),
                        Err(e) => Err(UpdateError::MaxData(e)),
                    }
                },
            },
        },
    }
}

/// Whether the downloaded files may replace the ones in use: both were
/// downloaded, the descriptor is valid and the data file parses. On success
/// the parsed data is returned.
pub fn check_downloads(descriptor: Option<&[u8]>, max_data: Option<&[u8]>) -> (r: Result<MaxData, UpdateError>)
    ensures
        match spec_check_downloads(
            match descriptor {
                Some(d) => Some(d@),
                None => None,
            },
            match max_data {
                Some(m) => Some(m@),
                None => None,
            },
        ) {
            Ok(v) => r matches Ok(d) && d@ == v,
            Err(e) => r == Err::<MaxData, UpdateError>(e),
        },
{
    let d = match descriptor {
        None => {
            return Err(UpdateError::MissingDescriptor);
        },
        Some(d) => d,
    };
    let m = match max_data {
        None => {
            return Err(UpdateError::MissingMaxData);
        },
        Some(m) => m,
    };
    match validate_descriptor(d) {
        Err(e) => {
            return Err(UpdateError::Descriptor(e));
        },
        Ok(()) => {},
    }
    let text = match utf8_text(m) {
        None => {
            return Err(UpdateError::MaxDataNotUtf8);
        },
        Some(t) => t,
    };
    match parse_max_data(text) {
        Ok(data) => Ok(data),
        Err(e) => Err(UpdateError::MaxData(e)),
    }
}

/// The status shown after an update attempt: the downloaded version, the
/// version in use when nothing was new, or the failure.
pub fn update_status(outcome: Result<Option<String>, String>, current_version: &str) -> (r: LiqiUpdateStatus)
    ensures
        match outcome {
            Ok(Some(v)) => r matches LiqiUpdateStatus::Updated(w) && w@ == v@,
            Ok(None) => r matches LiqiUpdateStatus::Latest(w) && w@ == current_version@,
            Err(m) => r matches LiqiUpdateStatus::Failed(w) && w@ == m@,
        },
{
    match outcome {
        Ok(Some(v)) => LiqiUpdateStatus::Updated(v),
        Ok(None) => LiqiUpdateStatus::Latest(current_version.to_owned()),
        Err(m) => LiqiUpdateStatus::Failed(m),
    }
}

/// Why a GitHub request failed.
#[derive(Debug, Clone, Copy, PartialEq, Eq, Structural)]
pub enum GithubError {
    /// The hourly API quota is used up.
    RateLimited,
    /// Any other failure status.
    Status(u16),
}

/// The verdict on a GitHub response: a success status passes (even with no
/// quota left); otherwise an `X-RateLimit-Remaining` of `0` means the quota is
/// used up, and anything else is reported with its status.
pub fn check_github_response(success: bool, rate_limit_remaining: Option<&str>, status: u16) -> (r: Result<
    (),
    GithubError,
>)
    ensures
        success ==> r == Ok::<(), GithubError>(()),
        !success ==> r == Err::<(), GithubError>(
            if rate_limit_remaining matches Some(v) && v@ == "0"@ {
                GithubError::RateLimited
            } else {
                GithubError::Status(status)
            },
        ),
{
    if success {
        return Ok(());
    }
    let limited = match rate_limit_remaining {
        Some(v) => chars_eq(&chars_of(v), "0"),
        None => false,
    };
    if limited {
        Err(GithubError::RateLimited)
    } else {
        Err(GithubError::Status(status))
    }
}

/// The `Authorization` header of GitHub requests: `Bearer <token>`, or none
/// without a token.
pub fn authorization_header(token: &str) -> (r: Option<String>)
    ensures
        token@.len() == 0 ==> r is None,
        token@.len() > 0 ==> (r matches Some(h) && h@ == "Bearer "@ + token@),
{
    if token.is_empty() {
        return None;
    }
    let mut header = "Bearer ".to_owned();
    append_chars(&mut header, &chars_of(token));
    Some(header)
}

} // verus!
