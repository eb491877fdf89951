//! Version information, and what an update check found.

use vstd::prelude::*;

verus! {

/// The version of this crate.
pub const VERSION: &'static str = "0.2.0";

/// The owner of the repository that publishes the releases.
pub const REPO_OWNER: &'static str = "serkanyersen";

/// The name of the repository that publishes the releases.
pub const REPO_NAME: &'static str = "dotstate";

/// Information about an available update.
#[derive(Debug)]
pub struct UpdateInfo {
    /// The installed version.
    pub current_version: String,
    /// The latest available version.
    pub latest_version: String,
    /// The page of the release.
    pub release_url: String,
}

/// The mathematical value of an `UpdateInfo`.
pub struct UpdateInfoView {
    pub current_version: Seq<char>,
    pub latest_version: Seq<char>,
    pub release_url: Seq<char>,
}

impl View for UpdateInfo {
    type V = UpdateInfoView;

    open spec fn view(&self) -> UpdateInfoView {
        UpdateInfoView {
            current_version: self.current_version@,
            latest_version: self.latest_version@,
            release_url: self.release_url@,
        }
    }
}

impl Clone for UpdateInfo {
    fn clone(&self) -> (r: Self)
        ensures
            r@ == self@,
    {
        UpdateInfo {
            current_version: self.current_version.clone(),
            latest_version: self.latest_version.clone(),
            release_url: self.release_url.clone(),
        }
    }
}

/// The address of the releases of the repository `owner/name`.
pub open spec fn releases_address(owner: Seq<char>, name: Seq<char>) -> Seq<char> {
    "https://github.com/"@ + owner + "/"@ + name + "/releases"@
}

impl UpdateInfo {
    /// The address of the install script for a self-update.
    pub fn install_script_url() -> (r: &'static str)
        ensures
            r@ == "https://dotstate.serkan.dev/install.sh"@,
    {
        "https://dotstate.serkan.dev/install.sh"
    }

    /// The address of the releases page.
    pub fn releases_url() -> (r: String)
        ensures
            r@ == releases_address(REPO_OWNER@, REPO_NAME@),
    {
        let mut r = "https://github.com/".to_owned();
        r.append(REPO_OWNER);
        r.append("/");
        r.append(REPO_NAME);
        r.append("/releases");
        r
    }

    /// The update from `current` to `latest`, with the page of that
    /// release.
    pub fn for_release(current: &str, latest: &str) -> (r: Self)
        ensures
            r@ == (UpdateInfoView {
                current_version: current@,
                latest_version: latest@,
                release_url: releases_address(REPO_OWNER@, REPO_NAME@) + "/tag/v"@ + latest@,
            }),
    {
        let mut url = UpdateInfo::releases_url();
        url.append("/tag/v");
        url.append(latest);
        UpdateInfo {
            current_version: current.to_owned(),
            latest_version: latest.to_owned(),
            release_url: url,
        }
    }
}

/// What an update check found.
#[derive(Debug)]
pub enum UpdateCheck {
    /// A newer version is available.
    Available(UpdateInfo),
    /// The installed version is the latest.
    UpToDate,
    /// The check failed, with the reason.
    Failed(String),
}

/// The mathematical value of an `UpdateCheck`.
pub enum UpdateCheckView {
    Available(UpdateInfoView),
    UpToDate,
    Failed(Seq<char>),
}

impl View for UpdateCheck {
    type V = UpdateCheckView;

    open spec fn view(&self) -> UpdateCheckView {
        match self {
            UpdateCheck::Available(info) => UpdateCheckView::Available(info@),
            UpdateCheck::UpToDate => UpdateCheckView::UpToDate,
            UpdateCheck::Failed(reason) => UpdateCheckView::Failed(reason@),
        }
    }
}

/// Settles what the registry answered: a version (`Ok(Some(..))`) is an
/// available update, none means up to date, and an error is handed on with
/// its text.
pub fn update_check(current: &str, answer: Result<Option<String>, String>) -> (r: UpdateCheck)
    ensures
        r@ == match answer {
            Ok(Some(latest)) => UpdateCheckView::Available(
                UpdateInfoView {
                    current_version: current@,
                    latest_version: latest@,
                    release_url: releases_address(REPO_OWNER@, REPO_NAME@) + "/tag/v"@ + latest@,
                },
            ),
            Ok(None) => UpdateCheckView::UpToDate,
            Err(e) => UpdateCheckView::Failed(e@),
        },
{
    match answer {
        Ok(Some(latest)) => UpdateCheck::Available(UpdateInfo::for_release(current, latest.as_str())),
        Ok(None) => UpdateCheck::UpToDate,
        Err(e) => UpdateCheck::Failed(e),
    }
}

/// The update to report, if any: an available one.
pub fn available_update(check: UpdateCheck) -> (r: Option<UpdateInfo>)
    ensures
        match check@ {
            UpdateCheckView::Available(info) => r matches Some(i) && i@ == info,
            _ => r is None,
        },
{
    match check {
        UpdateCheck::Available(info) => Some(info),
        _ => None,
    }
}

/// The version of this crate.
pub fn current_version() -> (r: &'static str)
    ensures
        r@ == VERSION@,
{
    VERSION
}

} // verus!
