//! The checks of the category Profiles: the manifest, the active profile
//! and the files in storage.

use vstd::prelude::*;
use crate::config::ConfigView;
use crate::doctor::clock_now;
use crate::doctor::finding;
use crate::doctor::when_verbose;
use crate::doctor::Doctor;
use crate::doctor::ResultView;
use crate::doctor::ValidationStatus;
use crate::fsview::FsModel;
use crate::fsview::FsView;
use crate::manifest::profile_names;
use crate::manifest::ManifestError;
use crate::manifest::ManifestView;
use crate::manifest::Profile;
use crate::manifest::ProfileManifest;
use crate::manifest::ProfileView;
use crate::paths::join;
use crate::paths::joined;
use crate::scan::first_strings;
use crate::scan::leading;
use crate::strings::join2;
use crate::strings::decimal;
use crate::strings::decimal_digits;
use crate::strings::first_index;
use crate::strings::lemma_filter_next;
use crate::strings::lemma_first_index;

verus! {

/// What is said of a manifest that could not be had.
pub open spec fn manifest_error_text(e: ManifestError) -> Seq<char> {
    match e {
        ManifestError::NotFound => "manifest file not found"@,
        ManifestError::Corrupt => "manifest file is corrupt"@,
        ManifestError::DuplicateName => "a profile of that name exists already"@,
        ManifestError::UnknownProfile => "no profile has that name"@,
    }
}

impl ManifestError {
    /// What is said of this error.
    pub fn message(&self) -> (r: &'static str)
        ensures
            r@ == manifest_error_text(*self),
    {
        match self {
            ManifestError::NotFound => "manifest file not found",
            ManifestError::Corrupt => "manifest file is corrupt",
            ManifestError::DuplicateName => "a profile of that name exists already",
            ManifestError::UnknownProfile => "no profile has that name",
        }
    }
}

/// The mathematical value of a manifest that was loaded, or not.
pub open spec fn loaded_view(loaded: Result<ProfileManifest, ManifestError>) -> Result<
    ManifestView,
    ManifestError,
> {
    match loaded {
        Ok(m) => Ok(m@),
        Err(e) => Err(e),
    }
}

/// The line that lists one profile with the number of its files.
pub open spec fn profile_line(p: ProfileView) -> Seq<char> {
    "  "@ + p.name + " ("@ + decimal_digits(p.synced_files.len()) + " files)"@
}

/// The lines that list `profiles`, in order.
pub open spec fn profile_lines(profiles: Seq<ProfileView>) -> Seq<Seq<char>> {
    Seq::new(profiles.len(), |i: int| profile_line(profiles[i]))
}

/// Those of `files` that are not on disk below `dir`.
pub open spec fn missing_from(fs: FsModel, dir: Seq<char>, files: Seq<Seq<char>>) -> Seq<Seq<char>> {
    files.filter(|f: Seq<char>| !fs.present(joined(dir, f)))
}

/// What the files `files` of one kind (`profile` or `common`), stored
/// below `dir`, give: a pass where all are on disk, an error with the
/// first five missing ones otherwise.
pub open spec fn storage_findings(
    fs: FsModel,
    dir: Seq<char>,
    kind: Seq<char>,
    check_name: Seq<char>,
    files: Seq<Seq<char>>,
) -> Seq<ResultView> {
    let missing = missing_from(fs, dir, files);
    if missing.len() == 0 {
        seq![
            finding(
                "Profiles"@,
                check_name,
                "All "@ + decimal_digits(files.len()) + " "@ + kind + " files exist in storage"@,
                ValidationStatus::Pass,
                None,
                None,
            ),
        ]
    } else {
        seq![
            finding(
                "Profiles"@,
                check_name,
                decimal_digits(missing.len()) + " "@ + kind + " files missing from storage"@,
                ValidationStatus::Error,
                None,
                Some(leading(missing, 5)),
            ),
        ]
    }
}

/// What the files of the profile `profile_name` give.
pub open spec fn profile_files_findings(
    fs: FsModel,
    repo: Seq<char>,
    profile_name: Seq<char>,
    files: Seq<Seq<char>>,
) -> Seq<ResultView> {
    storage_findings(fs, joined(repo, profile_name), "profile"@, "profile_files"@, files)
}

/// What the common files give.
pub open spec fn common_files_findings(fs: FsModel, repo: Seq<char>, files: Seq<Seq<char>>) -> Seq<
    ResultView,
> {
    storage_findings(fs, joined(repo, "common"@), "common"@, "common_files"@, files)
}

/// The files of the profile `p` that are common as well, each as a line
/// that names the profile and the path.
pub open spec fn overlap_lines_of(p: ProfileView, common: Seq<Seq<char>>) -> Seq<Seq<char>> {
    p.synced_files.filter(|f: Seq<char>| common.contains(f)).map_values(
        |f: Seq<char>| p.name + ": "@ + f,
    )
}

/// The files that are both common and in a profile, in the order of the
/// profiles and of their files.
pub open spec fn overlap_lines(profiles: Seq<ProfileView>, common: Seq<Seq<char>>) -> Seq<Seq<char>>
    decreases profiles.len(),
{
    if profiles.len() == 0 {
        Seq::empty()
    } else {
        overlap_lines(profiles.drop_last(), common) + overlap_lines_of(profiles.last(), common)
    }
}

/// What the manifest gives against its own rule that no path is both
/// common and in a profile: a pass where the rule holds, an error with
/// the first five offenders where it does not.
pub open spec fn overlap_findings(m: ManifestView) -> Seq<ResultView> {
    let lines = overlap_lines(m.profiles, m.common);
    if lines.len() == 0 {
        seq![
            finding(
                "Profiles"@,
                "common_overlap"@,
                "No file is both common and in a profile"@,
                ValidationStatus::Pass,
                None,
                None,
            ),
        ]
    } else {
        seq![
            finding(
                "Profiles"@,
                "common_overlap"@,
                decimal_digits(lines.len()) + " files are both common and in a profile"@,
                ValidationStatus::Error,
                None,
                Some(leading(lines, 5)),
            ),
        ]
    }
}

/// What the active profile gives in a manifest that was loaded: nothing
/// where none is chosen, a pass and the findings for its files where the
/// manifest has it, an error where it has not.
pub open spec fn active_profile_findings(config: ConfigView, m: ManifestView, fs: FsModel) -> Seq<
    ResultView,
> {
    if config.active_profile.len() == 0 {
        Seq::empty()
    } else if profile_names(m.profiles).contains(config.active_profile) {
        let p = m.profiles[first_index(profile_names(m.profiles), config.active_profile)];
        seq![
            finding(
                "Profiles"@,
                "active_profile_exists"@,
                "Active profile exists in manifest"@,
                ValidationStatus::Pass,
                None,
                None,
            ),
        ] + profile_files_findings(fs, config.repo_path, p.name, p.synced_files)
    } else {
        seq![
            finding(
                "Profiles"@,
                "active_profile_exists"@,
                "Active profile '"@ + config.active_profile + "' not found in manifest"@,
                ValidationStatus::Error,
                None,
                None,
            ),
        ]
    }
}

/// The findings of the category Profiles, in order. A manifest that could
/// not be loaded is an error, with the repair `Rebuild manifest`.
pub open spec fn profiles_findings(
    verbose: bool,
    config: ConfigView,
    loaded: Result<ManifestView, ManifestError>,
    fs: FsModel,
) -> Seq<ResultView> {
    match loaded {
        Ok(m) => seq![
            finding(
                "Profiles"@,
                "manifest"@,
                "Manifest loaded: "@ + decimal_digits(m.profiles.len()) + " profiles, "@
                    + decimal_digits(m.common.len()) + " common files"@,
                ValidationStatus::Pass,
                None,
                when_verbose(verbose, profile_lines(m.profiles)),
            ),
        ] + overlap_findings(m) + active_profile_findings(config, m, fs) + if m.common.len() > 0 {
            common_files_findings(fs, config.repo_path, m.common)
        } else {
            Seq::empty()
        },
        Err(e) => seq![
            finding(
                "Profiles"@,
                "manifest"@,
                "Failed to load manifest: "@ + manifest_error_text(e),
                ValidationStatus::Error,
                Some("Rebuild manifest"@),
                None,
            ),
        ],
    }
}

fn list_profiles(profiles: &Vec<Profile>) -> (lines: Vec<String>)
    ensures
        lines.deep_view() == profile_lines(profiles.deep_view()),
{
    let mut lines: Vec<String> = Vec::new();
    let mut i: usize = 0;
    let ghost all = profile_lines(profiles.deep_view());
    assert(lines.deep_view() =~= all.take(0));
    while i < profiles.len()
        invariant
            i <= profiles.len(),
            all == profile_lines(profiles.deep_view()),
            lines.deep_view() == all.take(i as int),
        decreases profiles.len() - i,
    {
        let p = &profiles[i];
        let mut line = "  ".to_owned();
        line.append(p.name.as_str());
        line.append(" (");
        line.append(decimal(p.synced_files.len() as u64).as_str());
        line.append(" files)");
        let ghost before = lines.deep_view();
        assert(line@ == profile_line(profiles.deep_view()[i as int]));
        lines.push(line);
        assert(lines.deep_view() =~= before.push(line@));
        assert(all.take(i + 1) =~= all.take(i as int).push(all[i as int]));
        i += 1;
    }
    assert(all.take(profiles.len() as int) =~= all);
    lines
}

fn find_missing(fs: &FsView, dir: &str, files: &Vec<String>) -> (missing: Vec<String>)
    ensures
        missing.deep_view() == missing_from(fs@, dir@, files.deep_view()),
{
    let mut missing: Vec<String> = Vec::new();
    let ghost all = files.deep_view();
    let ghost absent = |f: Seq<char>| !fs@.present(joined(dir@, f));
    let mut i: usize = 0;
    assert(all.take(0) =~= Seq::<Seq<char>>::empty());
    assert(missing.deep_view() =~= all.take(0).filter(absent));
    while i < files.len()
        invariant
            i <= files.len(),
            all == files.deep_view(),
            absent == |f: Seq<char>| !fs@.present(joined(dir@, f)),
            missing.deep_view() == all.take(i as int).filter(absent),
        decreases files.len() - i,
    {
        proof {
            lemma_filter_next(all, absent, i as int);
        }
        let ghost before = missing.deep_view();
        if !fs.is_present(join(dir, files[i].as_str()).as_str()) {
            missing.push(files[i].clone());
            assert(missing.deep_view() =~= before.push(all[i as int]));
        }
        i += 1;
    }
    assert(all.take(files.len() as int) =~= all);
    missing
}

fn find_overlaps(manifest: &ProfileManifest) -> (lines: Vec<String>)
    ensures
        lines.deep_view() == overlap_lines(manifest@.profiles, manifest@.common),
{
    let mut lines: Vec<String> = Vec::new();
    let ghost profiles = manifest@.profiles;
    let ghost common = manifest@.common;
    let mut i: usize = 0;
    assert(profiles.take(0) =~= Seq::<ProfileView>::empty());
    assert(lines.deep_view() =~= overlap_lines(profiles.take(0), common));
    while i < manifest.profiles.len()
        invariant
            i <= manifest.profiles.len(),
            profiles == manifest@.profiles,
            common == manifest@.common,
            lines.deep_view() == overlap_lines(profiles.take(i as int), common),
        decreases manifest.profiles.len() - i,
    {
        assert(profiles.take(i + 1).drop_last() =~= profiles.take(i as int));
        assert(profiles.take(i + 1).last() == manifest.profiles@[i as int]@);
        let p = &manifest.profiles[i];
        let ghost start = lines.deep_view();
        let ghost files = p@.synced_files;
        let ghost shared = |f: Seq<char>| common.contains(f);
        let ghost line_of = |f: Seq<char>| p@.name + ": "@ + f;
        let mut k: usize = 0;
        assert(files.take(0) =~= Seq::<Seq<char>>::empty());
        assert(lines.deep_view() =~= start + files.take(0).filter(shared).map_values(line_of));
        while k < p.synced_files.len()
            invariant
                k <= p.synced_files.len(),
                files == p@.synced_files,
                common == manifest@.common,
                shared == |f: Seq<char>| common.contains(f),
                line_of == |f: Seq<char>| p@.name + ": "@ + f,
                lines.deep_view() == start + files.take(k as int).filter(shared).map_values(line_of),
            decreases p.synced_files.len() - k,
        {
            proof {
                lemma_filter_next(files, shared, k as int);
            }
            let ghost before = lines.deep_view();
            if crate::strings::contains_string(
                &manifest.common.synced_files,
                p.synced_files[k].as_str(),
            ) {
                let mut line = p.name.clone();
                line.append(": ");
                line.append(p.synced_files[k].as_str());
                lines.push(line);
                assert(lines.deep_view() =~= before.push(line@));
                assert(start + files.take(k as int).filter(shared).push(files[k as int]).map_values(
                    line_of,
                ) =~= before.push(line@));
            }
            k += 1;
        }
        assert(files.take(p.synced_files.len() as int) =~= files);
        i += 1;
    }
    assert(profiles.take(manifest.profiles.len() as int) =~= profiles);
    lines
}

impl Doctor {
    /// Reports the files that are both common and in a profile.
    pub fn check_common_overlap(&mut self, manifest: &ProfileManifest)
        ensures
            final(self).extends(old(self), overlap_findings(manifest@)),
    {
        let start = clock_now();
        let lines = find_overlaps(manifest);
        if lines.len() == 0 {
            self.add_result(
                "Profiles",
                "common_overlap",
                "No file is both common and in a profile",
                ValidationStatus::Pass,
                None,
                None,
                start,
            );
        } else {
            let mut message = decimal(lines.len() as u64);
            message.append(" files are both common and in a profile");
            self.add_result(
                "Profiles",
                "common_overlap",
                message.as_str(),
                ValidationStatus::Error,
                None,
                Some(first_strings(&lines, 5)),
                start,
            );
        }
        assert(self.findings() =~= old(self).findings() + overlap_findings(manifest@));
    }

    fn check_stored_files(
        &mut self,
        fs: &FsView,
        dir: &str,
        kind: &str,
        check_name: &str,
        files: &Vec<String>,
    )
        ensures
            final(self).extends(
                old(self),
                storage_findings(fs@, dir@, kind@, check_name@, files.deep_view()),
            ),
    {
        let start = clock_now();
        let missing = find_missing(fs, dir, files);
        if missing.len() == 0 {
            let mut message = "All ".to_owned();
            message.append(decimal(files.len() as u64).as_str());
            message.append(" ");
            message.append(kind);
            message.append(" files exist in storage");
            self.add_result(
                "Profiles",
                check_name,
                message.as_str(),
                ValidationStatus::Pass,
                None,
                None,
                start,
            );
        } else {
            let mut message = decimal(missing.len() as u64);
            message.append(" ");
            message.append(kind);
            message.append(" files missing from storage");
            self.add_result(
                "Profiles",
                check_name,
                message.as_str(),
                ValidationStatus::Error,
                None,
                Some(first_strings(&missing, 5)),
                start,
            );
        }
        assert(self.findings() =~= old(self).findings() + storage_findings(
            fs@,
            dir@,
            kind@,
            check_name@,
            files.deep_view(),
        ));
    }

    /// Reports whether the files of the profile `profile_name` are in the
    /// repository.
    pub fn check_profile_files(&mut self, fs: &FsView, profile_name: &str, files: &Vec<String>)
        ensures
            final(self).extends(
                old(self),
                profile_files_findings(
                    fs@,
                    old(self).config@.repo_path,
                    profile_name@,
                    files.deep_view(),
                ),
            ),
    {
        let profile_path = join(self.config.repo_path.as_str(), profile_name);
        self.check_stored_files(fs, profile_path.as_str(), "profile", "profile_files", files);
    }

    /// Reports whether the common files are in the repository.
    pub fn check_common_files(&mut self, fs: &FsView, files: &Vec<String>)
        ensures
            final(self).extends(
                old(self),
                common_files_findings(fs@, old(self).config@.repo_path, files.deep_view()),
            ),
    {
        let common_path = join(self.config.repo_path.as_str(), "common");
        self.check_stored_files(fs, common_path.as_str(), "common", "common_files", files);
    }

    fn check_active_profile(&mut self, manifest: &ProfileManifest, fs: &FsView)
        ensures
            final(self).extends(
                old(self),
                active_profile_findings(old(self).config@, manifest@, fs@),
            ),
    {
        let active = self.config.active_profile.clone();
        if active.as_str().unicode_len() == 0 {
            assert(self.findings() =~= old(self).findings() + active_profile_findings(
                old(self).config@,
                manifest@,
                fs@,
            ));
            return ;
        }
        let start = clock_now();
        match manifest.find_profile(active.as_str()) {
            Some(i) => {
                proof {
                    lemma_first_index(profile_names(manifest@.profiles), active@, i as int);
                }
                self.add_result(
                    "Profiles",
                    "active_profile_exists",
                    "Active profile exists in manifest",
                    ValidationStatus::Pass,
                    None,
                    None,
                    start,
                );
                let profile = &manifest.profiles[i];
                self.check_profile_files(fs, profile.name.as_str(), &profile.synced_files);
            },
            None => {
                let mut message = "Active profile '".to_owned();
                message.append(active.as_str());
                message.append("' not found in manifest");
                self.add_result(
                    "Profiles",
                    "active_profile_exists",
                    message.as_str(),
                    ValidationStatus::Error,
                    None,
                    None,
                    start,
                );
            },
        }
        assert(self.findings() =~= old(self).findings() + active_profile_findings(
            old(self).config@,
            manifest@,
            fs@,
        ));
    }

    /// Runs the checks of the category Profiles on the manifest that was
    /// loaded, or on the reason why none was.
    pub fn check_profiles(&mut self, loaded: &Result<ProfileManifest, ManifestError>, fs: &FsView)
        ensures
            final(self).extends(
                old(self),
                profiles_findings(
                    old(self).options.verbose,
                    old(self).config@,
                    loaded_view(*loaded),
                    fs@,
                ),
            ),
    {
        let start = clock_now();
        match loaded {
            Ok(manifest) => {
                let mut message = "Manifest loaded: ".to_owned();
                message.append(decimal(manifest.profiles.len() as u64).as_str());
                message.append(" profiles, ");
                message.append(decimal(manifest.common.synced_files.len() as u64).as_str());
                message.append(" common files");
                let details = if self.options.verbose {
                    Some(list_profiles(&manifest.profiles))
                } else {
                    None
                };
                self.add_result(
                    "Profiles",
                    "manifest",
                    message.as_str(),
                    ValidationStatus::Pass,
                    None,
                    details,
                    start,
                );
                self.check_common_overlap(manifest);
                self.check_active_profile(manifest, fs);
                if manifest.common.synced_files.len() > 0 {
                    self.check_common_files(fs, &manifest.common.synced_files);
                }
            },
            Err(e) => {
                self.add_result(
                    "Profiles",
                    "manifest",
                    join2("Failed to load manifest: ", e.message()).as_str(),
                    ValidationStatus::Error,
                    Some("Rebuild manifest"),
                    None,
                    start,
                );
            },
        }
        assert(self.findings() =~= old(self).findings() + profiles_findings(
            old(self).options.verbose,
            old(self).config@,
            loaded_view(*loaded),
            fs@,
        ));
    }
}

} // verus!
