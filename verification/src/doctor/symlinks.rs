//! The checks of the category Symlinks: settings against ledger, ledger
//! against manifest, ledger against disk.

use vstd::prelude::*;
use crate::config::ConfigView;
use crate::doctor::clock_now;
use crate::doctor::finding;
use crate::doctor::one_detail;
use crate::doctor::profiles::loaded_view;
use crate::doctor::when_verbose;
use crate::doctor::Doctor;
use crate::doctor::ResultView;
use crate::doctor::ValidationStatus;
use crate::fsview::FsModel;
use crate::fsview::FsView;
use crate::fsview::Node;
use crate::fsview::NodeView;
use crate::ledger::RecordView;
use crate::ledger::SymlinkRecord;
use crate::ledger::TrackingLedger;
use crate::manifest::profile_names;
use crate::manifest::ManifestError;
use crate::manifest::ManifestView;
use crate::manifest::ProfileManifest;
use crate::paths::ends_with;
use crate::paths::path_ends_with;
use crate::scan::first_strings;
use crate::scan::leading;
use crate::strings::append_strings;
use crate::strings::decimal;
use crate::strings::decimal_digits;
use crate::strings::distinct;
use crate::strings::distinct_strings;
use crate::strings::first_index;
use crate::strings::lemma_filter_next;
use crate::strings::lemma_first_index;
use crate::strings::str_eq;

verus! {

/// What settings and ledger give together. They agree, and the finding
/// is a pass, where the settings say "activated" and the ledger names the
/// settings' active profile, or the settings say "not activated" and the
/// ledger names none. Anything else is a warning with the repair `Sync
/// activation state`.
pub open spec fn activation_findings(config: ConfigView, ledger_profile: Seq<char>) -> Seq<
    ResultView,
> {
    if !config.profile_activated {
        if ledger_profile.len() == 0 {
            seq![
                finding(
                    "Symlinks"@,
                    "activation_status"@,
                    "No profile currently active"@,
                    ValidationStatus::Pass,
                    None,
                    Some(seq!["Run 'dotstate activate' to enable symlinks"@]),
                ),
            ]
        } else {
            seq![
                finding(
                    "Symlinks"@,
                    "activation_status"@,
                    "Config says inactive, but tracking says '"@ + ledger_profile + "' is active"@,
                    ValidationStatus::Warning,
                    Some("Sync activation state"@),
                    None,
                ),
            ]
        }
    } else if ledger_profile == config.active_profile {
        seq![
            finding(
                "Symlinks"@,
                "activation_status"@,
                "Profile '"@ + config.active_profile + "' is active"@,
                ValidationStatus::Pass,
                None,
                None,
            ),
        ]
    } else if ledger_profile.len() == 0 {
        seq![
            finding(
                "Symlinks"@,
                "activation_status"@,
                "Config says active, but tracking says inactive"@,
                ValidationStatus::Warning,
                Some("Sync activation state"@),
                None,
            ),
        ]
    } else {
        seq![
            finding(
                "Symlinks"@,
                "activation_status"@,
                "Profile mismatch: config='"@ + config.active_profile + "', tracking='"@
                    + ledger_profile + "'"@,
                ValidationStatus::Warning,
                Some("Sync activation state"@),
                None,
            ),
        ]
    }
}

/// Those of `records` whose target is not on disk.
pub open spec fn orphaned(records: Seq<RecordView>, fs: FsModel) -> Seq<RecordView> {
    records.filter(|r: RecordView| !fs.present(r.target))
}

/// What the records give against the disk: a warning with the repair
/// `Clean up missing symlinks` where targets are gone, a pass otherwise.
pub open spec fn orphan_findings(records: Seq<RecordView>, fs: FsModel) -> Seq<ResultView> {
    let n = orphaned(records, fs).len();
    if n > 0 {
        seq![
            finding(
                "Symlinks"@,
                "orphaned"@,
                decimal_digits(n) + " tracked symlinks missing from disk"@,
                ValidationStatus::Warning,
                Some("Clean up missing symlinks"@),
                None,
            ),
        ]
    } else {
        seq![
            finding(
                "Symlinks"@,
                "orphaned"@,
                "All tracked symlinks exist on disk"@,
                ValidationStatus::Pass,
                None,
                None,
            ),
        ]
    }
}

/// The files that should be linked: those of the active profile, then the
/// common ones, each once.
pub open spec fn expected_files(active_profile: Seq<char>, m: ManifestView) -> Seq<Seq<char>> {
    let own = if profile_names(m.profiles).contains(active_profile) {
        m.profiles[first_index(profile_names(m.profiles), active_profile)].synced_files
    } else {
        Seq::empty()
    };
    distinct(own + m.common)
}

/// Whether a record covers `file`: its source ends with that path.
pub open spec fn is_covered(records: Seq<RecordView>, file: Seq<char>) -> bool {
    exists|i: int| 0 <= i < records.len() && path_ends_with(records[i].source, file)
}

/// The expected files that no record covers.
pub open spec fn untracked_files(
    active_profile: Seq<char>,
    m: ManifestView,
    records: Seq<RecordView>,
) -> Seq<Seq<char>> {
    expected_files(active_profile, m).filter(|f: Seq<char>| !is_covered(records, f))
}

/// What the ledger gives against the manifest: a pass where every
/// expected file is covered, an error with the repair `Re-activate
/// profile` otherwise, and nothing where no manifest was loaded.
pub open spec fn coverage_findings(
    active_profile: Seq<char>,
    loaded: Result<ManifestView, ManifestError>,
    records: Seq<RecordView>,
) -> Seq<ResultView> {
    match loaded {
        Ok(m) => {
            let untracked = untracked_files(active_profile, m, records);
            if untracked.len() == 0 {
                seq![
                    finding(
                        "Symlinks"@,
                        "coverage"@,
                        "All expected files are tracked"@,
                        ValidationStatus::Pass,
                        None,
                        None,
                    ),
                ]
            } else {
                seq![
                    finding(
                        "Symlinks"@,
                        "coverage"@,
                        decimal_digits(untracked.len()) + " expected files not tracked"@,
                        ValidationStatus::Error,
                        Some("Re-activate profile"@),
                        Some(leading(untracked, 5)),
                    ),
                ]
            }
        },
        Err(_) => Seq::empty(),
    }
}

/// What the ledger gives. An empty ledger is a warning with the repair
/// `Re-activate profile` where the settings say "activated", and a pass
/// where they do not. Any other ledger gives a pass with the number of its
/// records, and what the records give against the disk and against the
/// manifest.
pub open spec fn tracking_findings(
    activated: bool,
    active_profile: Seq<char>,
    loaded: Result<ManifestView, ManifestError>,
    records: Seq<RecordView>,
    fs: FsModel,
) -> Seq<ResultView> {
    if records.len() == 0 {
        if activated {
            seq![
                finding(
                    "Symlinks"@,
                    "tracking"@,
                    "No symlinks tracked (profile may need re-activation)"@,
                    ValidationStatus::Warning,
                    Some("Re-activate profile"@),
                    None,
                ),
            ]
        } else {
            seq![
                finding(
                    "Symlinks"@,
                    "tracking"@,
                    "No symlinks tracked"@,
                    ValidationStatus::Pass,
                    None,
                    None,
                ),
            ]
        }
    } else {
        seq![
            finding(
                "Symlinks"@,
                "tracking"@,
                decimal_digits(records.len()) + " symlinks tracked"@,
                ValidationStatus::Pass,
                None,
                None,
            ),
        ] + orphan_findings(records, fs) + coverage_findings(active_profile, loaded, records)
    }
}

/// Whether what stands at the target of `r` is wrong: a link to anywhere
/// but the source of `r`, or no link at all.
pub open spec fn is_invalid(r: RecordView, fs: FsModel) -> bool {
    fs.present(r.target) && fs.node(r.target) != NodeView::Symlink(r.source)
}

/// What is said of a wrong target.
pub open spec fn invalid_line(r: RecordView, fs: FsModel) -> Seq<char> {
    match fs.node(r.target) {
        NodeView::Symlink(dest) => r.target + " -> "@ + dest + " (expected "@ + r.source + ")"@,
        _ => r.target + " exists but is not a symlink"@,
    }
}

/// The lines for the wrong targets among `records`, in order.
pub open spec fn invalid_lines(records: Seq<RecordView>, fs: FsModel) -> Seq<Seq<char>> {
    records.filter(|r: RecordView| is_invalid(r, fs)).map_values(
        |r: RecordView| invalid_line(r, fs),
    )
}

/// The targets among `records` that are not on disk, in order.
pub open spec fn broken_targets(records: Seq<RecordView>, fs: FsModel) -> Seq<Seq<char>> {
    orphaned(records, fs).map_values(|r: RecordView| r.target)
}

/// What the targets give: a pass where each is a link to its source;
/// otherwise an error for the wrong ones and a warning for the missing
/// ones, both with the repair `Re-activate profile`.
pub open spec fn validity_findings(verbose: bool, records: Seq<RecordView>, fs: FsModel) -> Seq<
    ResultView,
> {
    let invalid = invalid_lines(records, fs);
    let broken = broken_targets(records, fs);
    if invalid.len() == 0 && broken.len() == 0 {
        seq![
            finding(
                "Symlinks"@,
                "validity"@,
                "All symlinks are valid and point to correct targets"@,
                ValidationStatus::Pass,
                None,
                None,
            ),
        ]
    } else {
        (if invalid.len() > 0 {
            seq![
                finding(
                    "Symlinks"@,
                    "invalid"@,
                    decimal_digits(invalid.len()) + " symlinks point to wrong targets"@,
                    ValidationStatus::Error,
                    Some("Re-activate profile"@),
                    when_verbose(verbose, leading(invalid, 3)),
                ),
            ]
        } else {
            Seq::empty()
        }) + (if broken.len() > 0 {
            seq![
                finding(
                    "Symlinks"@,
                    "broken"@,
                    decimal_digits(broken.len()) + " symlinks are broken/missing"@,
                    ValidationStatus::Warning,
                    Some("Re-activate profile"@),
                    when_verbose(verbose, leading(broken, 3)),
                ),
            ]
        } else {
            Seq::empty()
        })
    }
}

/// The findings of the category Symlinks, in order: settings against
/// ledger, ledger against manifest and disk, and every target against its
/// source. All of them are found whatever the settings say of activation.
pub open spec fn symlinks_findings(
    verbose: bool,
    config: ConfigView,
    ledger_profile: Seq<char>,
    records: Seq<RecordView>,
    loaded: Result<ManifestView, ManifestError>,
    fs: FsModel,
) -> Seq<ResultView> {
    activation_findings(config, ledger_profile) + tracking_findings(
        config.profile_activated,
        config.active_profile,
        loaded,
        records,
        fs,
    ) + validity_findings(verbose, records, fs)
}

fn count_orphaned(records: &Vec<SymlinkRecord>, fs: &FsView) -> (n: usize)
    ensures
        n == orphaned(records.deep_view(), fs@).len(),
{
    let mut n: usize = 0;
    let ghost all = records.deep_view();
    let ghost gone = |r: RecordView| !fs@.present(r.target);
    let mut i: usize = 0;
    assert(all.take(0) =~= Seq::<RecordView>::empty());
    while i < records.len()
        invariant
            i <= records.len(),
            all == records.deep_view(),
            gone == |r: RecordView| !fs@.present(r.target),
            n == all.take(i as int).filter(gone).len(),
            n <= i,
        decreases records.len() - i,
    {
        proof {
            lemma_filter_next(all, gone, i as int);
        }
        if !fs.is_present(records[i].target.as_str()) {
            n += 1;
        }
        i += 1;
    }
    assert(all.take(records.len() as int) =~= all);
    n
}

/// Whether a record of `records` covers `file`.
pub fn covers_file(records: &Vec<SymlinkRecord>, file: &str) -> (r: bool)
    ensures
        r == is_covered(records.deep_view(), file@),
{
    let mut i: usize = 0;
    while i < records.len()
        invariant
            i <= records.len(),
            forall|j: int| 0 <= j < i ==> !path_ends_with(records.deep_view()[j].source, file@),
        decreases records.len() - i,
    {
        if ends_with(records[i].source.as_str(), file) {
            assert(path_ends_with(records.deep_view()[i as int].source, file@));
            return true;
        }
        i += 1;
    }
    false
}

/// The files that should be linked under the active profile
/// `active_profile`.
pub fn files_to_link(active_profile: &str, manifest: &ProfileManifest) -> (r: Vec<String>)
    ensures
        r.deep_view() == expected_files(active_profile@, manifest@),
{
    let mut all: Vec<String> = Vec::new();
    assert(all.deep_view() =~= Seq::<Seq<char>>::empty());
    match manifest.find_profile(active_profile) {
        Some(i) => {
            proof {
                lemma_first_index(profile_names(manifest@.profiles), active_profile@, i as int);
            }
            append_strings(&mut all, &manifest.profiles[i].synced_files);
            assert(all.deep_view() =~= manifest@.profiles[i as int].synced_files);
        },
        None => {},
    }
    append_strings(&mut all, &manifest.common.synced_files);
    distinct_strings(&all)
}

fn find_untracked(expected: &Vec<String>, records: &Vec<SymlinkRecord>) -> (r: Vec<String>)
    ensures
        r.deep_view() == expected.deep_view().filter(
            |f: Seq<char>| !is_covered(records.deep_view(), f),
        ),
{
    let mut out: Vec<String> = Vec::new();
    let ghost all = expected.deep_view();
    let ghost open_file = |f: Seq<char>| !is_covered(records.deep_view(), f);
    let mut i: usize = 0;
    assert(all.take(0) =~= Seq::<Seq<char>>::empty());
    assert(out.deep_view() =~= all.take(0).filter(open_file));
    while i < expected.len()
        invariant
            i <= expected.len(),
            all == expected.deep_view(),
            open_file == |f: Seq<char>| !is_covered(records.deep_view(), f),
            out.deep_view() == all.take(i as int).filter(open_file),
        decreases expected.len() - i,
    {
        proof {
            lemma_filter_next(all, open_file, i as int);
        }
        let ghost before = out.deep_view();
        if !covers_file(records, expected[i].as_str()) {
            out.push(expected[i].clone());
            assert(out.deep_view() =~= before.push(all[i as int]));
        }
        i += 1;
    }
    assert(all.take(expected.len() as int) =~= all);
    out
}

fn describe_invalid(record: &SymlinkRecord, node: &Node) -> (line: String)
    requires
        !(node@ is Missing),
    ensures
        forall|fs: FsModel| fs.node(record@.target) == node@ ==> line@ == invalid_line(record@, fs),
{
    let mut line = record.target.clone();
    match node {
        Node::Symlink(dest) => {
            line.append(" -> ");
            line.append(dest.as_str());
            line.append(" (expected ");
            line.append(record.source.as_str());
            line.append(")");
        },
        _ => {
            line.append(" exists but is not a symlink");
        },
    }
    line
}

fn collect_invalid(records: &Vec<SymlinkRecord>, fs: &FsView) -> (r: Vec<String>)
    ensures
        r.deep_view() == invalid_lines(records.deep_view(), fs@),
{
    let mut out: Vec<String> = Vec::new();
    let ghost all = records.deep_view();
    let ghost wrong = |r: RecordView| is_invalid(r, fs@);
    let ghost line_of = |r: RecordView| invalid_line(r, fs@);
    let mut i: usize = 0;
    assert(all.take(0) =~= Seq::<RecordView>::empty());
    assert(out.deep_view() =~= all.take(0).filter(wrong).map_values(line_of));
    while i < records.len()
        invariant
            i <= records.len(),
            all == records.deep_view(),
            wrong == |r: RecordView| is_invalid(r, fs@),
            line_of == |r: RecordView| invalid_line(r, fs@),
            out.deep_view() == all.take(i as int).filter(wrong).map_values(line_of),
        decreases records.len() - i,
    {
        proof {
            lemma_filter_next(all, wrong, i as int);
        }
        let ghost before = out.deep_view();
        let record = &records[i];
        let node = fs.node_at(record.target.as_str());
        let is_wrong = match &node {
            Node::Missing => false,
            Node::Symlink(dest) => !str_eq(dest.as_str(), record.source.as_str()),
            _ => true,
        };
        if is_wrong {
            let line = describe_invalid(record, &node);
            out.push(line);
            assert(out.deep_view() =~= before.push(invalid_line(all[i as int], fs@)));
            assert(all.take(i as int).filter(wrong).push(all[i as int]).map_values(line_of)
                =~= before.push(invalid_line(all[i as int], fs@)));
        }
        i += 1;
    }
    assert(all.take(records.len() as int) =~= all);
    out
}

fn collect_broken(records: &Vec<SymlinkRecord>, fs: &FsView) -> (r: Vec<String>)
    ensures
        r.deep_view() == broken_targets(records.deep_view(), fs@),
{
    let mut out: Vec<String> = Vec::new();
    let ghost all = records.deep_view();
    let ghost gone = |r: RecordView| !fs@.present(r.target);
    let ghost target_of = |r: RecordView| r.target;
    let mut i: usize = 0;
    assert(all.take(0) =~= Seq::<RecordView>::empty());
    assert(out.deep_view() =~= all.take(0).filter(gone).map_values(target_of));
    while i < records.len()
        invariant
            i <= records.len(),
            all == records.deep_view(),
            gone == |r: RecordView| !fs@.present(r.target),
            target_of == |r: RecordView| r.target,
            out.deep_view() == all.take(i as int).filter(gone).map_values(target_of),
        decreases records.len() - i,
    {
        proof {
            lemma_filter_next(all, gone, i as int);
        }
        let ghost before = out.deep_view();
        if !fs.is_present(records[i].target.as_str()) {
            out.push(records[i].target.clone());
            assert(out.deep_view() =~= before.push(all[i as int].target));
            assert(all.take(i as int).filter(gone).push(all[i as int]).map_values(target_of)
                =~= before.push(all[i as int].target));
        }
        i += 1;
    }
    assert(all.take(records.len() as int) =~= all);
    out
}

impl Doctor {
    /// Reports whether settings and ledger agree on the active profile.
    pub fn check_activation_status(&mut self, tracking: &TrackingLedger)
        ensures
            final(self).extends(
                old(self),
                activation_findings(old(self).config@, tracking@.active_profile),
            ),
    {
        let start = clock_now();
        let active = self.config.active_profile.clone();
        if !self.config.profile_activated {
            if tracking.active_profile.as_str().unicode_len() == 0 {
                self.add_result(
                    "Symlinks",
                    "activation_status",
                    "No profile currently active",
                    ValidationStatus::Pass,
                    None,
                    one_detail("Run 'dotstate activate' to enable symlinks".to_owned()),
                    start,
                );
            } else {
                let mut message = "Config says inactive, but tracking says '".to_owned();
                message.append(tracking.active_profile.as_str());
                message.append("' is active");
                self.add_result(
                    "Symlinks",
                    "activation_status",
                    message.as_str(),
                    ValidationStatus::Warning,
                    Some("Sync activation state"),
                    None,
                    start,
                );
            }
        } else if str_eq(tracking.active_profile.as_str(), active.as_str()) {
            let mut message = "Profile '".to_owned();
            message.append(active.as_str());
            message.append("' is active");
            self.add_result(
                "Symlinks",
                "activation_status",
                message.as_str(),
                ValidationStatus::Pass,
                None,
                None,
                start,
            );
        } else if tracking.active_profile.as_str().unicode_len() == 0 {
            self.add_result(
                "Symlinks",
                "activation_status",
                "Config says active, but tracking says inactive",
                ValidationStatus::Warning,
                Some("Sync activation state"),
                None,
                start,
            );
        } else {
            let mut message = "Profile mismatch: config='".to_owned();
            message.append(active.as_str());
            message.append("', tracking='");
            message.append(tracking.active_profile.as_str());
            message.append("'");
            self.add_result(
                "Symlinks",
                "activation_status",
                message.as_str(),
                ValidationStatus::Warning,
                Some("Sync activation state"),
                None,
                start,
            );
        }
        assert(self.findings() =~= old(self).findings() + activation_findings(
            old(self).config@,
            tracking@.active_profile,
        ));
    }

    /// Reports the expected files that the ledger does not cover. Nothing
    /// is reported where no manifest was loaded.
    pub fn check_untracked_files(
        &mut self,
        tracking: &TrackingLedger,
        loaded: &Result<ProfileManifest, ManifestError>,
    )
        ensures
            final(self).extends(
                old(self),
                coverage_findings(
                    old(self).config@.active_profile,
                    loaded_view(*loaded),
                    tracking@.symlinks,
                ),
            ),
    {
        let start = clock_now();
        match loaded {
            Ok(manifest) => {
                let expected = files_to_link(self.config.active_profile.as_str(), manifest);
                let untracked = find_untracked(&expected, &tracking.symlinks);
                if untracked.len() == 0 {
                    self.add_result(
                        "Symlinks",
                        "coverage",
                        "All expected files are tracked",
                        ValidationStatus::Pass,
                        None,
                        None,
                        start,
                    );
                } else {
                    let mut message = decimal(untracked.len() as u64);
                    message.append(" expected files not tracked");
                    self.add_result(
                        "Symlinks",
                        "coverage",
                        message.as_str(),
                        ValidationStatus::Error,
                        Some("Re-activate profile"),
                        Some(first_strings(&untracked, 5)),
                        start,
                    );
                }
            },
            Err(_) => {},
        }
        assert(self.findings() =~= old(self).findings() + coverage_findings(
            old(self).config@.active_profile,
            loaded_view(*loaded),
            tracking@.symlinks,
        ));
    }

    /// Reports what the ledger holds, which of its targets are gone from
    /// disk, and which expected files it does not cover.
    pub fn check_symlink_tracking(
        &mut self,
        tracking: &TrackingLedger,
        loaded: &Result<ProfileManifest, ManifestError>,
        fs: &FsView,
    )
        ensures
            final(self).extends(
                old(self),
                tracking_findings(
                    old(self).config.profile_activated,
                    old(self).config@.active_profile,
                    loaded_view(*loaded),
                    tracking@.symlinks,
                    fs@,
                ),
            ),
    {
        let start = clock_now();
        if tracking.symlinks.len() == 0 {
            if self.config.profile_activated {
                self.add_result(
                    "Symlinks",
                    "tracking",
                    "No symlinks tracked (profile may need re-activation)",
                    ValidationStatus::Warning,
                    Some("Re-activate profile"),
                    None,
                    start,
                );
            } else {
                self.add_result(
                    "Symlinks",
                    "tracking",
                    "No symlinks tracked",
                    ValidationStatus::Pass,
                    None,
                    None,
                    start,
                );
            }
            assert(self.findings() =~= old(self).findings() + tracking_findings(
                old(self).config.profile_activated,
                old(self).config@.active_profile,
                loaded_view(*loaded),
                tracking@.symlinks,
                fs@,
            ));
            return ;
        }
        let mut message = decimal(tracking.symlinks.len() as u64);
        message.append(" symlinks tracked");
        self.add_result(
            "Symlinks",
            "tracking",
            message.as_str(),
            ValidationStatus::Pass,
            None,
            None,
            start,
        );
        let start = clock_now();
        let gone = count_orphaned(&tracking.symlinks, fs);
        if gone > 0 {
            let mut message = decimal(gone as u64);
            message.append(" tracked symlinks missing from disk");
            self.add_result(
                "Symlinks",
                "orphaned",
                message.as_str(),
                ValidationStatus::Warning,
                Some("Clean up missing symlinks"),
                None,
                start,
            );
        } else {
            self.add_result(
                "Symlinks",
                "orphaned",
                "All tracked symlinks exist on disk",
                ValidationStatus::Pass,
                None,
                None,
                start,
            );
        }
        self.check_untracked_files(tracking, loaded);
        assert(self.findings() =~= old(self).findings() + tracking_findings(
            old(self).config.profile_activated,
            old(self).config@.active_profile,
            loaded_view(*loaded),
            tracking@.symlinks,
            fs@,
        ));
    }

    /// Reports the targets that are no link to their source, and those
    /// that are gone.
    pub fn check_symlink_validity(&mut self, tracking: &TrackingLedger, fs: &FsView)
        ensures
            final(self).extends(
                old(self),
                validity_findings(old(self).options.verbose, tracking@.symlinks, fs@),
            ),
    {
        let start = clock_now();
        let verbose = self.options.verbose;
        let invalid = collect_invalid(&tracking.symlinks, fs);
        let broken = collect_broken(&tracking.symlinks, fs);
        if invalid.len() == 0 && broken.len() == 0 {
            self.add_result(
                "Symlinks",
                "validity",
                "All symlinks are valid and point to correct targets",
                ValidationStatus::Pass,
                None,
                None,
                start,
            );
        } else {
            if invalid.len() > 0 {
                let mut message = decimal(invalid.len() as u64);
                message.append(" symlinks point to wrong targets");
                let details = if verbose {
                    Some(first_strings(&invalid, 3))
                } else {
                    None
                };
                self.add_result(
                    "Symlinks",
                    "invalid",
                    message.as_str(),
                    ValidationStatus::Error,
                    Some("Re-activate profile"),
                    details,
                    start,
                );
            }
            if broken.len() > 0 {
                let start = clock_now();
                let mut message = decimal(broken.len() as u64);
                message.append(" symlinks are broken/missing");
                let details = if verbose {
                    Some(first_strings(&broken, 3))
                } else {
                    None
                };
                self.add_result(
                    "Symlinks",
                    "broken",
                    message.as_str(),
                    ValidationStatus::Warning,
                    Some("Re-activate profile"),
                    details,
                    start,
                );
            }
        }
        assert(self.findings() =~= old(self).findings() + validity_findings(
            verbose,
            tracking@.symlinks,
            fs@,
        ));
    }

    /// Runs the checks of the category Symlinks.
    pub fn check_symlinks(
        &mut self,
        tracking: &TrackingLedger,
        loaded: &Result<ProfileManifest, ManifestError>,
        fs: &FsView,
    )
        ensures
            final(self).extends(
                old(self),
                symlinks_findings(
                    old(self).options.verbose,
                    old(self).config@,
                    tracking@.active_profile,
                    tracking@.symlinks,
                    loaded_view(*loaded),
                    fs@,
                ),
            ),
    {
        self.check_activation_status(tracking);
        self.check_symlink_tracking(tracking, loaded, fs);
        self.check_symlink_validity(tracking, fs);
        assert(self.findings() =~= old(self).findings() + symlinks_findings(
            old(self).options.verbose,
            old(self).config@,
            tracking@.active_profile,
            tracking@.symlinks,
            loaded_view(*loaded),
            fs@,
        ));
    }
}

} // verus!
