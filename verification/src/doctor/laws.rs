//! What holds of the audit and of the repairs, whatever was observed.

use vstd::prelude::*;
use crate::config::ConfigView;
use crate::doctor::backups::backups_findings;
use crate::doctor::filesystem::filesystem_findings;
use crate::doctor::filesystem::write_option_view;
use crate::doctor::filesystem::write_view;
use crate::doctor::finding;
use crate::doctor::fixes::after_fix;
use crate::doctor::fixes::after_fixes;
use crate::doctor::fixes::audit_findings;
use crate::doctor::fixes::fix_for;
use crate::doctor::fixes::pending_fixes;
use crate::doctor::fixes::reactivated;
use crate::doctor::fixes::repair_settings;
use crate::doctor::fixes::Case;
use crate::doctor::fixes::FixAction;
use crate::doctor::fixes::Observations;
use crate::doctor::needs_fix;
use crate::doctor::profiles::loaded_view;
use crate::doctor::profiles::overlap_findings;
use crate::doctor::profiles::overlap_lines;
use crate::doctor::profiles::overlap_lines_of;
use crate::doctor::symlinks::broken_targets;
use crate::doctor::symlinks::orphan_findings;
use crate::doctor::symlinks::orphaned;
use crate::doctor::symlinks::symlinks_findings;
use crate::doctor::symlinks::tracking_findings;
use crate::doctor::symlinks::validity_findings;
use crate::doctor::when_verbose;
use crate::doctor::ResultView;
use crate::doctor::ValidationStatus;
use crate::engine_laws::all_targets_present;
use crate::engine_laws::lemma_activation_keeps_targets_present;
use crate::fsview::FsModel;
use crate::ledger::with_target_present;
use crate::ledger::RecordView;
use crate::manifest::profile_names;
use crate::manifest::ManifestView;
use crate::manifest::ProfileView;
use crate::scan::leading;
use crate::strings::decimal_digits;
use crate::strings::first_index;
use crate::symlink_manager::World;

verus! {

/// Whether no target that the ledger records is missing from disk.
pub open spec fn none_missing(c: Case) -> bool {
    all_targets_present(World { fs: c.fs, symlinks: c.ledger.symlinks })
}

/// The Symlinks findings of a run on the case `c`.
pub open spec fn case_findings(verbose: bool, config: ConfigView, c: Case) -> Seq<ResultView> {
    symlinks_findings(
        verbose,
        config,
        c.ledger.active_profile,
        c.ledger.symlinks,
        c.manifest,
        c.fs,
    )
}

/// The warning for `n` recorded targets that are missing from disk.
pub open spec fn broken_warning(verbose: bool, records: Seq<RecordView>, fs: FsModel) -> ResultView {
    finding(
        "Symlinks"@,
        "broken"@,
        decimal_digits(broken_targets(records, fs).len()) + " symlinks are broken/missing"@,
        ValidationStatus::Warning,
        Some("Re-activate profile"@),
        when_verbose(verbose, leading(broken_targets(records, fs), 3)),
    )
}

/// No target is missing exactly where none is orphaned.
pub proof fn lemma_none_orphaned(records: Seq<RecordView>, fs: FsModel)
    ensures
        (orphaned(records, fs).len() == 0) == all_targets_present(World { fs, symlinks: records }),
        broken_targets(records, fs).len() == orphaned(records, fs).len(),
{
    let gone = |r: RecordView| !fs.present(r.target);
    if orphaned(records, fs).len() == 0 {
        assert forall|i: int| 0 <= i < records.len() implies fs.present(
            #[trigger] records[i].target,
        ) by {
            if !fs.present(records[i].target) {
                records.lemma_filter_contains(gone, i);
            }
        }
    } else {
        records.lemma_filter_pred(gone, 0);
        records.lemma_filter_contains_rev(gone, records.filter(gone)[0]);
    }
}

/// The clean-up of the ledger leaves no recorded target missing.
pub proof fn lemma_cleanup_leaves_none_missing(config: ConfigView, c: Case)
    ensures
        fix_for("Clean up missing symlinks"@) == Some(FixAction::CleanUpMissingSymlinks),
        none_missing(after_fix(config, c, "Clean up missing symlinks"@).1),
{
    reveal_strlit("Clean up missing symlinks");
    reveal_strlit("Sync activation state");
    assert("Clean up missing symlinks"@.len() != "Sync activation state"@.len());
    let here = |r: RecordView| c.fs.present(r.target);
    let kept = with_target_present(c.ledger.symlinks, c.fs);
    assert forall|i: int| 0 <= i < kept.len() implies c.fs.present(#[trigger] kept[i].target) by {
        c.ledger.symlinks.lemma_filter_pred(here, i);
    }
}

/// No repair makes a recorded target go missing.
pub proof fn lemma_fix_keeps_none_missing(config: ConfigView, c: Case, label: Seq<char>)
    requires
        none_missing(c),
    ensures
        none_missing(after_fix(config, c, label).1),
{
    match fix_for(label) {
        Some(FixAction::CleanUpMissingSymlinks) => {
            let here = |r: RecordView| c.fs.present(r.target);
            let kept = with_target_present(c.ledger.symlinks, c.fs);
            assert forall|i: int| 0 <= i < kept.len() implies c.fs.present(
                #[trigger] kept[i].target,
            ) by {
                c.ledger.symlinks.lemma_filter_pred(here, i);
            }
        },
        Some(FixAction::ReactivateProfile) => {
            if reactivated(config, c).1 {
                let m = c.manifest->Ok_0;
                let home = c.home_dir->0;
                let files = m.profiles[first_index(
                    profile_names(m.profiles),
                    config.active_profile,
                )].synced_files;
                lemma_activation_keeps_targets_present(
                    repair_settings(config, home),
                    c.session,
                    World { fs: c.fs, symlinks: c.ledger.symlinks },
                    config.active_profile,
                    files,
                    m.common,
                );
            }
        },
        _ => {},
    }
}

/// Repairs that include the clean-up of the ledger leave no recorded
/// target missing.
pub proof fn lemma_fixes_leave_none_missing(config: ConfigView, c: Case, labels: Seq<Seq<char>>)
    requires
        labels.contains("Clean up missing symlinks"@),
    ensures
        none_missing(after_fixes(config, c, labels).1),
    decreases labels.len(),
{
    let before = after_fixes(config, c, labels.drop_last());
    if labels.last() == "Clean up missing symlinks"@ {
        lemma_cleanup_leaves_none_missing(before.0, before.1);
    } else {
        let k = choose|k: int| 0 <= k < labels.len() && labels[k] == "Clean up missing symlinks"@;
        assert(labels.drop_last()[k] == labels[k]);
        lemma_fixes_leave_none_missing(config, c, labels.drop_last());
        lemma_fix_keeps_none_missing(before.0, before.1, labels.last());
    }
}

/// A run on a case without missing targets has no finding named `broken`
/// among its Symlinks findings.
pub proof fn lemma_no_broken_finding(verbose: bool, config: ConfigView, c: Case)
    requires
        none_missing(c),
    ensures
        forall|k: int|
            0 <= k < case_findings(verbose, config, c).len() ==> (#[trigger] case_findings(
                verbose,
                config,
                c,
            )[k]).check_name != "broken"@,
{
    reveal_strlit("broken");
    reveal_strlit("activation_status");
    reveal_strlit("tracking");
    reveal_strlit("orphaned");
    reveal_strlit("coverage");
    reveal_strlit("validity");
    reveal_strlit("invalid");
    lemma_none_orphaned(c.ledger.symlinks, c.fs);
    let all = case_findings(verbose, config, c);
    assert forall|k: int| 0 <= k < all.len() implies (#[trigger] all[k]).check_name.len() != 6 by {}
}

/// Each Symlinks finding of a run is among the findings of the run.
pub proof fn lemma_part_of_audit(verbose: bool, config: ConfigView, obs: &Observations, k: int)
    requires
        0 <= k < case_findings(verbose, config, obs.case()).len(),
    ensures
        audit_findings(verbose, config, obs).contains(
            case_findings(verbose, config, obs.case())[k],
        ),
{
    let all = audit_findings(verbose, config, obs);
    let own = case_findings(verbose, config, obs.case());
    let before = all.len() - own.len() - backups_findings(
        verbose,
        config.backup_enabled,
        obs.backups@,
    ).len() - filesystem_findings(
        write_view(obs.repo_write),
        write_option_view(obs.home_write),
        obs.disk_usage.deep_view(),
    ).len();
    assert(all[before + k] == own[k]);
}

/// A second run confirms the repair of broken links: where a run finds a
/// recorded target missing from disk, it reports the warning `broken`,
/// which can be fixed, and after its repairs were applied the Symlinks
/// findings of another run hold no finding named `broken`.
pub proof fn lemma_second_run_finds_no_broken_link(
    verbose: bool,
    again_verbose: bool,
    config: ConfigView,
    obs: &Observations,
)
    requires
        orphaned(obs.tracking@.symlinks, obs.fs@).len() > 0,
    ensures
        audit_findings(verbose, config, obs).contains(
            broken_warning(verbose, obs.tracking@.symlinks, obs.fs@),
        ),
        broken_warning(verbose, obs.tracking@.symlinks, obs.fs@).fixable,
        ({
            let repaired = after_fixes(
                config,
                obs.case(),
                pending_fixes(audit_findings(verbose, config, obs)),
            );
            forall|k: int|
                0 <= k < case_findings(again_verbose, repaired.0, repaired.1).len() ==> (
                #[trigger] case_findings(again_verbose, repaired.0, repaired.1)[k]).check_name
                    != "broken"@
        }),
{
    let records = obs.tracking@.symlinks;
    let fs = obs.fs@;
    let all = audit_findings(verbose, config, obs);
    let own = symlinks_findings(
        verbose,
        config,
        obs.tracking@.active_profile,
        records,
        loaded_view(obs.manifest),
        fs,
    );
    lemma_none_orphaned(records, fs);
    records.lemma_filter_len(|r: RecordView| !fs.present(r.target));
    let validity = validity_findings(verbose, records, fs);
    let tracking = tracking_findings(
        config.profile_activated,
        config.active_profile,
        loaded_view(obs.manifest),
        records,
        fs,
    );
    let warning = broken_warning(verbose, records, fs);
    let cleanup = orphan_findings(records, fs)[0];
    assert(validity.last() == warning);
    assert(own.last() == warning);
    assert(tracking[1] == cleanup);
    assert(own[2] == cleanup);
    lemma_part_of_audit(verbose, config, obs, 2);
    lemma_part_of_audit(verbose, config, obs, own.len() - 1);
    let due = |r: ResultView| needs_fix(r) && r.fix_action is Some;
    let i = choose|i: int| 0 <= i < all.len() && all[i] == cleanup;
    all.lemma_filter_contains(due, i);
    let j = choose|j: int| 0 <= j < all.filter(due).len() && all.filter(due)[j] == cleanup;
    assert(pending_fixes(all)[j] == "Clean up missing symlinks"@);
    let labels = pending_fixes(all);
    lemma_fixes_leave_none_missing(config, obs.case(), labels);
    let repaired = after_fixes(config, obs.case(), labels);
    lemma_no_broken_finding(again_verbose, repaired.0, repaired.1);
}

/// A profile that holds a common path has a line for it.
pub proof fn lemma_overlap_has_a_line(p: ProfileView, common: Seq<Seq<char>>, f: Seq<char>)
    requires
        p.synced_files.contains(f),
        common.contains(f),
    ensures
        overlap_lines_of(p, common).len() > 0,
{
    let shared = |f: Seq<char>| common.contains(f);
    let k = choose|k: int| 0 <= k < p.synced_files.len() && p.synced_files[k] == f;
    p.synced_files.lemma_filter_contains(shared, k);
    assert(p.synced_files.filter(shared).len() > 0);
}

/// The lines of one profile are among the lines of all.
pub proof fn lemma_overlap_lines_grow(profiles: Seq<ProfileView>, common: Seq<Seq<char>>, i: int)
    requires
        0 <= i < profiles.len(),
    ensures
        overlap_lines(profiles, common).len() >= overlap_lines_of(profiles[i], common).len(),
    decreases profiles.len(),
{
    if i < profiles.len() - 1 {
        assert(profiles.drop_last()[i] == profiles[i]);
        lemma_overlap_lines_grow(profiles.drop_last(), common, i);
    }
}

/// A path that is both common and in a profile is flagged: whatever
/// else the manifest holds, its check against this rule ends in one
/// finding, an error.
pub proof fn lemma_double_listing_is_an_error(m: ManifestView, i: int, f: Seq<char>)
    requires
        0 <= i < m.profiles.len(),
        m.profiles[i].synced_files.contains(f),
        m.common.contains(f),
    ensures
        overlap_findings(m).len() == 1,
        overlap_findings(m)[0].status == ValidationStatus::Error,
{
    lemma_overlap_has_a_line(m.profiles[i], m.common, f);
    lemma_overlap_lines_grow(m.profiles, m.common, i);
}

} // verus!
