//! What holds of activation and deactivation, whatever the file system
//! and the ledger.

use vstd::prelude::*;
use crate::fsview::FsActionView;
use crate::fsview::FsModel;
use crate::fsview::NodeView;
use crate::ledger::in_scope;
use crate::ledger::recorded;
use crate::ledger::targets;
use crate::ledger::RecordView;
use crate::ledger::ScopeView;
use crate::strings::first_index;
use crate::strings::is_first_index;
use crate::strings::lemma_has_first_index;
use crate::strings::lemma_text_le_antisymmetric;
use crate::symlink_manager::activated;
use crate::symlink_manager::activation_outcomes;
use crate::symlink_manager::backup_path;
use crate::symlink_manager::can_restore;
use crate::symlink_manager::deactivated;
use crate::symlink_manager::deactivation_outcomes;
use crate::symlink_manager::decide_unlink;
use crate::symlink_manager::is_latest_session;
use crate::symlink_manager::link_decision;
use crate::symlink_manager::link_outcome;
use crate::symlink_manager::link_outcomes;
use crate::symlink_manager::linked;
use crate::symlink_manager::linked_all;
use crate::symlink_manager::source_path;
use crate::symlink_manager::target_path;
use crate::symlink_manager::unlink_outcome;
use crate::symlink_manager::unlink_outcomes;
use crate::symlink_manager::unlinked;
use crate::symlink_manager::unlinked_all;
use crate::symlink_manager::LinkDecision;
use crate::symlink_manager::OperationView;
use crate::symlink_manager::Settings;
use crate::symlink_manager::StatusView;
use crate::symlink_manager::World;

verus! {

/// Entering a record keeps every target that was recorded and records
/// the new one.
pub proof fn lemma_recorded_keeps_targets(records: Seq<RecordView>, record: RecordView)
    ensures
        targets(recorded(records, record)).contains(record.target),
        forall|t: Seq<char>|
            targets(records).contains(t) ==> targets(recorded(records, record)).contains(t),
        targets(records).contains(record.target) ==> recorded(records, record).len()
            == records.len(),
        targets(records).no_duplicates() ==> targets(recorded(records, record)).no_duplicates(),
{
    let old_targets = targets(records);
    let new_targets = targets(recorded(records, record));
    if old_targets.contains(record.target) {
        let w = choose|i: int| 0 <= i < old_targets.len() && old_targets[i] == record.target;
        lemma_has_first_index(old_targets, record.target, w);
        let i = first_index(old_targets, record.target);
        assert(is_first_index(old_targets, record.target, i));
        assert(new_targets =~= old_targets);
    } else {
        assert(new_targets =~= old_targets.push(record.target));
        assert(new_targets[old_targets.len() as int] == record.target);
        assert forall|t: Seq<char>| old_targets.contains(t) implies new_targets.contains(t) by {
            let k = choose|k: int| 0 <= k < old_targets.len() && old_targets[k] == t;
            assert(new_targets[k] == t);
        }
    }
}

/// Whether an action touches the path `t`.
pub open spec fn touches(action: FsActionView, t: Seq<char>) -> bool {
    match action {
        FsActionView::CreateSymlink { source, target } => target == t,
        FsActionView::MoveToBackup { target, location } => target == t || location == t,
        FsActionView::RestoreBackup { location, target } => location == t || target == t,
        FsActionView::RemoveSymlink { path } => path == t,
    }
}

/// Whether the path `t` was left alone between `before` and `after`: what
/// is known of it is the same, and no action planned in between touches
/// it.
pub open spec fn left_alone(before: FsModel, after: FsModel, t: Seq<char>) -> bool {
    &&& after.paths[t] == before.paths[t]
    &&& before.journal.len() <= after.journal.len()
    &&& after.journal.take(before.journal.len() as int) == before.journal
    &&& forall|k: int|
        before.journal.len() <= k < after.journal.len() ==> !touches(#[trigger] after.journal[k], t)
}

proof fn lemma_left_alone_chain(a: FsModel, b: FsModel, c: FsModel, t: Seq<char>)
    requires
        left_alone(a, b, t),
        left_alone(b, c, t),
    ensures
        left_alone(a, c, t),
{
    assert(c.journal.take(a.journal.len() as int) =~= a.journal) by {
        assert forall|k: int| 0 <= k < a.journal.len() implies c.journal[k] == a.journal[k] by {
            assert(c.journal.take(b.journal.len() as int)[k] == b.journal[k]);
            assert(b.journal.take(a.journal.len() as int)[k] == a.journal[k]);
        }
    }
    assert forall|k: int| a.journal.len() <= k < c.journal.len() implies !touches(
        #[trigger] c.journal[k],
        t,
    ) by {
        if k < b.journal.len() {
            assert(c.journal.take(b.journal.len() as int)[k] == b.journal[k]);
        }
    }
}

/// Whether something other than a symbolic link stands at `t`.
pub open spec fn holds_user_data(fs: FsModel, t: Seq<char>) -> bool {
    fs.node(t) is File || fs.node(t) is Directory
}

/// One step without backups leaves user data alone, and fails where it is
/// in the way.
pub proof fn lemma_step_spares_user_data(
    cfg: Settings,
    session: Seq<char>,
    w: World,
    rel: Seq<char>,
    scope: ScopeView,
    t: Seq<char>,
)
    requires
        !cfg.backup_enabled,
        holds_user_data(w.fs, t),
    ensures
        left_alone(w.fs, linked(cfg, session, w, rel, scope).fs, t),
        target_path(cfg, rel) == t ==> link_outcome(cfg, session, w, rel, scope).status
            is Failed && linked(cfg, session, w, rel, scope) == w,
{
    let after = linked(cfg, session, w, rel, scope).fs;
    let target = target_path(cfg, rel);
    match link_decision(cfg, session, w, rel, scope) {
        LinkDecision::Create => {
            assert(target != t);
            assert(after.journal.take(w.fs.journal.len() as int) =~= w.fs.journal);
        },
        _ => {
            assert(after == w.fs);
            assert(after.journal.take(w.fs.journal.len() as int) =~= w.fs.journal);
        },
    }
}

proof fn lemma_steps_spare_user_data(
    cfg: Settings,
    session: Seq<char>,
    w: World,
    rels: Seq<Seq<char>>,
    scope: ScopeView,
    t: Seq<char>,
)
    requires
        !cfg.backup_enabled,
        holds_user_data(w.fs, t),
    ensures
        left_alone(w.fs, linked_all(cfg, session, w, rels, scope).fs, t),
        link_outcomes(cfg, session, w, rels, scope).len() == rels.len(),
        forall|i: int|
            0 <= i < rels.len() ==> (#[trigger] link_outcomes(
                cfg,
                session,
                w,
                rels,
                scope,
            )[i]).target == target_path(cfg, rels[i]),
        forall|i: int|
            0 <= i < rels.len() && target_path(cfg, rels[i]) == t ==> (#[trigger] link_outcomes(
                cfg,
                session,
                w,
                rels,
                scope,
            )[i]).status is Failed,
    decreases rels.len(),
{
    if rels.len() == 0 {
        assert(w.fs.journal.take(w.fs.journal.len() as int) =~= w.fs.journal);
    } else {
        let init = rels.drop_last();
        lemma_steps_spare_user_data(cfg, session, w, init, scope, t);
        let mid = linked_all(cfg, session, w, init, scope);
        lemma_step_spares_user_data(cfg, session, mid, rels.last(), scope, t);
        lemma_left_alone_chain(
            w.fs,
            mid.fs,
            linked(cfg, session, mid, rels.last(), scope).fs,
            t,
        );
        let ops = link_outcomes(cfg, session, w, rels, scope);
        let before = link_outcomes(cfg, session, w, init, scope);
        assert(ops == before.push(link_outcome(cfg, session, mid, rels.last(), scope)));
        assert forall|i: int| 0 <= i < rels.len() implies (#[trigger] ops[i]).target == target_path(
            cfg,
            rels[i],
        ) && (target_path(cfg, rels[i]) == t ==> ops[i].status is Failed) by {
            if i < init.len() {
                assert(ops[i] == before[i]);
                assert(init[i] == rels[i]);
            }
        }
    }
}

/// No destructive overwrite without backup: with backups disabled, a
/// file or directory that stands where a link should go is left exactly
/// as it is, no planned action touches it, and every outcome for that
/// target is a failure.
pub proof fn lemma_no_overwrite_without_backup(
    cfg: Settings,
    session: Seq<char>,
    w: World,
    profile: Seq<char>,
    files: Seq<Seq<char>>,
    common_files: Seq<Seq<char>>,
    t: Seq<char>,
)
    requires
        !cfg.backup_enabled,
        holds_user_data(w.fs, t),
    ensures
        left_alone(w.fs, activated(cfg, session, w, profile, files, common_files).fs, t),
        forall|i: int|
            0 <= i < activation_outcomes(cfg, session, w, profile, files, common_files).len() && (
            #[trigger] activation_outcomes(cfg, session, w, profile, files, common_files)[i]).target
                == t ==> activation_outcomes(
                cfg,
                session,
                w,
                profile,
                files,
                common_files,
            )[i].status is Failed,
{
    let scope = ScopeView::Profile(profile);
    lemma_steps_spare_user_data(cfg, session, w, files, scope, t);
    let mid = linked_all(cfg, session, w, files, scope);
    lemma_steps_spare_user_data(cfg, session, mid, common_files, ScopeView::Common, t);
    lemma_left_alone_chain(
        w.fs,
        mid.fs,
        linked_all(cfg, session, mid, common_files, ScopeView::Common).fs,
        t,
    );
    let first = link_outcomes(cfg, session, w, files, scope);
    let second = link_outcomes(cfg, session, mid, common_files, ScopeView::Common);
    let ops = activation_outcomes(cfg, session, w, profile, files, common_files);
    assert(ops == first + second);
    assert forall|i: int| 0 <= i < ops.len() && (#[trigger] ops[i]).target == t implies ops[i].status
        is Failed by {
        if i < first.len() {
            assert(ops[i] == first[i]);
        } else {
            assert(ops[i] == second[i - first.len()]);
        }
    }
}

/// Whether the file `rel` of `scope` is linked in `w`: its target is a
/// link to its source, the source is there, and the ledger knows the
/// target.
pub open spec fn is_linked(cfg: Settings, w: World, rel: Seq<char>, scope: ScopeView) -> bool {
    &&& w.fs.node(target_path(cfg, rel)) == NodeView::Symlink(source_path(cfg, scope, rel))
    &&& w.fs.present(source_path(cfg, scope, rel))
    &&& targets(w.symlinks).contains(target_path(cfg, rel))
}

/// Activating a file that is linked changes nothing and reports that it
/// was already correct.
pub proof fn lemma_linked_file_is_skipped(
    cfg: Settings,
    session: Seq<char>,
    w: World,
    rel: Seq<char>,
    scope: ScopeView,
)
    requires
        is_linked(cfg, w, rel, scope),
    ensures
        linked(cfg, session, w, rel, scope) == w,
        link_outcome(cfg, session, w, rel, scope).status == StatusView::Skipped(
            "already correct"@,
        ),
{
}

/// A step that does not fail leaves its file linked.
pub proof fn lemma_step_links(
    cfg: Settings,
    session: Seq<char>,
    w: World,
    rel: Seq<char>,
    scope: ScopeView,
)
    requires
        !(link_outcome(cfg, session, w, rel, scope).status is Failed),
    ensures
        is_linked(cfg, linked(cfg, session, w, rel, scope), rel, scope),
{
    let source = source_path(cfg, scope, rel);
    let target = target_path(cfg, rel);
    let record = RecordView { source, target, scope };
    lemma_recorded_keeps_targets(w.symlinks, record);
    match link_decision(cfg, session, w, rel, scope) {
        LinkDecision::Create => {},
        LinkDecision::AlreadyCorrect => {
            if !targets(w.symlinks).contains(target) {
                assert(targets(w.symlinks.push(record)) =~= targets(w.symlinks).push(target));
                assert(targets(w.symlinks.push(record))[w.symlinks.len() as int] == target);
            }
        },
        LinkDecision::BackupThenCreate => {},
        _ => {},
    }
}

/// Whether the step for `rel` of `scope` can disturb the link of `other`
/// of `other_scope`: it goes to the same target from another source, or
/// its backup would lie at that target.
pub open spec fn disturbs(
    cfg: Settings,
    session: Seq<char>,
    rel: Seq<char>,
    scope: ScopeView,
    other: Seq<char>,
    other_scope: ScopeView,
) -> bool {
    ||| target_path(cfg, rel) == target_path(cfg, other) && source_path(cfg, scope, rel)
        != source_path(cfg, other_scope, other)
    ||| cfg.backup_enabled && backup_path(cfg, session, rel) == target_path(cfg, other)
}

/// A step leaves the link of another file as it is, unless it disturbs
/// it.
pub proof fn lemma_step_keeps_links(
    cfg: Settings,
    session: Seq<char>,
    w: World,
    rel: Seq<char>,
    scope: ScopeView,
    other: Seq<char>,
    other_scope: ScopeView,
)
    requires
        is_linked(cfg, w, other, other_scope),
        !disturbs(cfg, session, rel, scope, other, other_scope),
    ensures
        is_linked(cfg, linked(cfg, session, w, rel, scope), other, other_scope),
{
    let source = source_path(cfg, scope, rel);
    let target = target_path(cfg, rel);
    let record = RecordView { source, target, scope };
    lemma_recorded_keeps_targets(w.symlinks, record);
    let other_target = target_path(cfg, other);
    match link_decision(cfg, session, w, rel, scope) {
        LinkDecision::Create => {},
        LinkDecision::AlreadyCorrect => {
            if !targets(w.symlinks).contains(target) {
                let k = choose|k: int|
                    0 <= k < targets(w.symlinks).len() && targets(w.symlinks)[k] == other_target;
                assert(targets(w.symlinks.push(record))[k] == other_target);
            }
        },
        LinkDecision::BackupThenCreate => {},
        _ => {},
    }
}

proof fn lemma_steps_keep_links(
    cfg: Settings,
    session: Seq<char>,
    w: World,
    rels: Seq<Seq<char>>,
    scope: ScopeView,
    other: Seq<char>,
    other_scope: ScopeView,
)
    requires
        is_linked(cfg, w, other, other_scope),
        forall|i: int|
            0 <= i < rels.len() ==> !disturbs(
                cfg,
                session,
                #[trigger] rels[i],
                scope,
                other,
                other_scope,
            ),
    ensures
        is_linked(cfg, linked_all(cfg, session, w, rels, scope), other, other_scope),
    decreases rels.len(),
{
    if rels.len() > 0 {
        let init = rels.drop_last();
        assert forall|i: int| 0 <= i < init.len() implies !disturbs(
            cfg,
            session,
            #[trigger] init[i],
            scope,
            other,
            other_scope,
        ) by {
            assert(init[i] == rels[i]);
        }
        lemma_steps_keep_links(cfg, session, w, init, scope, other, other_scope);
        assert(rels.last() == rels[rels.len() - 1]);
        lemma_step_keeps_links(
            cfg,
            session,
            linked_all(cfg, session, w, init, scope),
            rels.last(),
            scope,
            other,
            other_scope,
        );
    }
}

proof fn lemma_steps_link(
    cfg: Settings,
    session: Seq<char>,
    w: World,
    rels: Seq<Seq<char>>,
    scope: ScopeView,
)
    requires
        forall|i: int|
            0 <= i < link_outcomes(cfg, session, w, rels, scope).len() ==> !((
            #[trigger] link_outcomes(cfg, session, w, rels, scope)[i]).status is Failed),
        forall|i: int, j: int|
            0 <= i < rels.len() && 0 <= j < rels.len() ==> !disturbs(
                cfg,
                session,
                #[trigger] rels[i],
                scope,
                #[trigger] rels[j],
                scope,
            ),
    ensures
        link_outcomes(cfg, session, w, rels, scope).len() == rels.len(),
        forall|i: int|
            0 <= i < rels.len() ==> is_linked(
                cfg,
                linked_all(cfg, session, w, rels, scope),
                #[trigger] rels[i],
                scope,
            ),
    decreases rels.len(),
{
    if rels.len() > 0 {
        let init = rels.drop_last();
        let mid = linked_all(cfg, session, w, init, scope);
        let ops = link_outcomes(cfg, session, w, rels, scope);
        let before = link_outcomes(cfg, session, w, init, scope);
        assert(ops == before.push(link_outcome(cfg, session, mid, rels.last(), scope)));
        assert forall|i: int| 0 <= i < before.len() implies !((#[trigger] before[i]).status
            is Failed) by {
            assert(ops[i] == before[i]);
        }
        assert forall|i: int, j: int| 0 <= i < init.len() && 0 <= j < init.len() implies !disturbs(
            cfg,
            session,
            #[trigger] init[i],
            scope,
            #[trigger] init[j],
            scope,
        ) by {
            assert(init[i] == rels[i]);
            assert(init[j] == rels[j]);
        }
        lemma_steps_link(cfg, session, w, init, scope);
        assert(ops[before.len() as int] == link_outcome(cfg, session, mid, rels.last(), scope));
        lemma_step_links(cfg, session, mid, rels.last(), scope);
        let end = linked_all(cfg, session, w, rels, scope);
        assert forall|i: int| 0 <= i < rels.len() implies is_linked(
            cfg,
            end,
            #[trigger] rels[i],
            scope,
        ) by {
            if i < init.len() {
                assert(init[i] == rels[i]);
                assert(rels.last() == rels[rels.len() - 1]);
                lemma_step_keeps_links(cfg, session, mid, rels.last(), scope, rels[i], scope);
            }
        }
    }
}

proof fn lemma_linked_files_are_skipped(
    cfg: Settings,
    session: Seq<char>,
    w: World,
    rels: Seq<Seq<char>>,
    scope: ScopeView,
)
    requires
        forall|i: int| 0 <= i < rels.len() ==> is_linked(cfg, w, #[trigger] rels[i], scope),
    ensures
        linked_all(cfg, session, w, rels, scope) == w,
        link_outcomes(cfg, session, w, rels, scope).len() == rels.len(),
        forall|i: int|
            0 <= i < rels.len() ==> (#[trigger] link_outcomes(
                cfg,
                session,
                w,
                rels,
                scope,
            )[i]).status == StatusView::Skipped("already correct"@),
    decreases rels.len(),
{
    if rels.len() > 0 {
        let init = rels.drop_last();
        assert forall|i: int| 0 <= i < init.len() implies is_linked(
            cfg,
            w,
            #[trigger] init[i],
            scope,
        ) by {
            assert(init[i] == rels[i]);
        }
        lemma_linked_files_are_skipped(cfg, session, w, init, scope);
        assert(rels.last() == rels[rels.len() - 1]);
        lemma_linked_file_is_skipped(cfg, session, w, rels.last(), scope);
        let ops = link_outcomes(cfg, session, w, rels, scope);
        let before = link_outcomes(cfg, session, w, init, scope);
        assert(ops == before.push(link_outcome(cfg, session, w, rels.last(), scope)));
        assert forall|i: int| 0 <= i < rels.len() implies (#[trigger] ops[i]).status
            == StatusView::Skipped("already correct"@) by {
            if i < init.len() {
                assert(ops[i] == before[i]);
            }
        }
    }
}

/// Whether no file of an activation disturbs the link of another: files
/// with the same target have the same source, and, with backups enabled,
/// no backup would lie at a target.
pub open spec fn undisturbed(
    cfg: Settings,
    session: Seq<char>,
    profile: Seq<char>,
    files: Seq<Seq<char>>,
    common_files: Seq<Seq<char>>,
) -> bool {
    let own = ScopeView::Profile(profile);
    &&& forall|i: int, j: int|
        0 <= i < files.len() && 0 <= j < files.len() ==> !disturbs(
            cfg,
            session,
            #[trigger] files[i],
            own,
            #[trigger] files[j],
            own,
        )
    &&& forall|i: int, j: int|
        0 <= i < common_files.len() && 0 <= j < common_files.len() ==> !disturbs(
            cfg,
            session,
            #[trigger] common_files[i],
            ScopeView::Common,
            #[trigger] common_files[j],
            ScopeView::Common,
        )
    &&& forall|i: int, j: int|
        0 <= i < common_files.len() && 0 <= j < files.len() ==> !disturbs(
            cfg,
            session,
            #[trigger] common_files[i],
            ScopeView::Common,
            #[trigger] files[j],
            own,
        )
}

/// Idempotence of activation: after an activation in which no file
/// failed and none disturbed another, a second activation of the same
/// files reports "already correct" for every file and changes nothing,
/// neither on disk nor in the ledger.
pub proof fn lemma_activation_is_idempotent(
    cfg: Settings,
    session: Seq<char>,
    again: Seq<char>,
    w: World,
    profile: Seq<char>,
    files: Seq<Seq<char>>,
    common_files: Seq<Seq<char>>,
)
    requires
        forall|i: int|
            0 <= i < activation_outcomes(cfg, session, w, profile, files, common_files).len() ==> !((
            #[trigger] activation_outcomes(
                cfg,
                session,
                w,
                profile,
                files,
                common_files,
            )[i]).status is Failed),
        undisturbed(cfg, session, profile, files, common_files),
    ensures
        ({
            let once = activated(cfg, session, w, profile, files, common_files);
            let ops = activation_outcomes(cfg, again, once, profile, files, common_files);
            &&& activated(cfg, again, once, profile, files, common_files) == once
            &&& ops.len() == files.len() + common_files.len()
            &&& forall|i: int|
                0 <= i < ops.len() ==> (#[trigger] ops[i]).status == StatusView::Skipped(
                    "already correct"@,
                )
        }),
{
    let own = ScopeView::Profile(profile);
    let first = link_outcomes(cfg, session, w, files, own);
    let mid = linked_all(cfg, session, w, files, own);
    let second = link_outcomes(cfg, session, mid, common_files, ScopeView::Common);
    let once = linked_all(cfg, session, mid, common_files, ScopeView::Common);
    let all = activation_outcomes(cfg, session, w, profile, files, common_files);
    assert(all == first + second);
    assert forall|i: int| 0 <= i < first.len() implies !((#[trigger] first[i]).status is Failed) by {
        assert(all[i] == first[i]);
    }
    assert forall|i: int| 0 <= i < second.len() implies !((#[trigger] second[i]).status
        is Failed) by {
        assert(all[first.len() + i] == second[i]);
    }
    lemma_steps_link(cfg, session, w, files, own);
    lemma_steps_link(cfg, session, mid, common_files, ScopeView::Common);
    assert forall|j: int| 0 <= j < files.len() implies is_linked(
        cfg,
        once,
        #[trigger] files[j],
        own,
    ) by {
        lemma_steps_keep_links(
            cfg,
            session,
            mid,
            common_files,
            ScopeView::Common,
            files[j],
            own,
        );
    }
    lemma_linked_files_are_skipped(cfg, again, once, files, own);
    lemma_linked_files_are_skipped(cfg, again, once, common_files, ScopeView::Common);
    let ops = activation_outcomes(cfg, again, once, profile, files, common_files);
    let a = link_outcomes(cfg, again, once, files, own);
    let b = link_outcomes(cfg, again, once, common_files, ScopeView::Common);
    assert(ops == a + b);
    assert forall|i: int| 0 <= i < ops.len() implies (#[trigger] ops[i]).status
        == StatusView::Skipped("already correct"@) by {
        if i < a.len() {
            assert(ops[i] == a[i]);
        } else {
            assert(ops[i] == b[i - a.len()]);
        }
    }
}

/// Entering a record changes no other record: each record afterwards is
/// the new one or stood at its place before.
pub proof fn lemma_recorded_elements(records: Seq<RecordView>, record: RecordView)
    ensures
        forall|i: int|
            0 <= i < recorded(records, record).len() ==> (#[trigger] recorded(records, record)[i])
                == record || (i < records.len() && recorded(records, record)[i] == records[i]),
{
    let old_targets = targets(records);
    if old_targets.contains(record.target) {
        let w = choose|i: int| 0 <= i < old_targets.len() && old_targets[i] == record.target;
        lemma_has_first_index(old_targets, record.target, w);
        assert(is_first_index(old_targets, record.target, first_index(old_targets, record.target)));
    }
}

/// Whether every target that the world records is on disk.
pub open spec fn all_targets_present(w: World) -> bool {
    forall|i: int| 0 <= i < w.symlinks.len() ==> w.fs.present(#[trigger] w.symlinks[i].target)
}

/// Activating a file takes nothing off the disk: what was on disk before
/// is on disk after, and where every recorded target was on disk, every
/// recorded target is.
pub proof fn lemma_step_keeps_present(
    cfg: Settings,
    session: Seq<char>,
    w: World,
    rel: Seq<char>,
    scope: ScopeView,
)
    ensures
        forall|p: Seq<char>| w.fs.present(p) ==> linked(cfg, session, w, rel, scope).fs.present(p),
        all_targets_present(w) ==> all_targets_present(linked(cfg, session, w, rel, scope)),
{
    let after = linked(cfg, session, w, rel, scope);
    let source = source_path(cfg, scope, rel);
    let target = target_path(cfg, rel);
    let record = RecordView { source, target, scope };
    assert forall|p: Seq<char>| w.fs.present(p) implies after.fs.present(p) by {}
    if all_targets_present(w) {
        lemma_recorded_elements(w.symlinks, record);
        assert forall|i: int| 0 <= i < after.symlinks.len() implies after.fs.present(
            #[trigger] after.symlinks[i].target,
        ) by {
            if after.symlinks[i] == record {
                assert(after.fs.present(target));
            } else {
                assert(i < w.symlinks.len() && after.symlinks[i] == w.symlinks[i]);
                assert(w.fs.present(w.symlinks[i].target));
            }
        }
    }
}

/// Activating files takes nothing off the disk.
pub proof fn lemma_steps_keep_present(
    cfg: Settings,
    session: Seq<char>,
    w: World,
    rels: Seq<Seq<char>>,
    scope: ScopeView,
)
    ensures
        forall|p: Seq<char>|
            w.fs.present(p) ==> linked_all(cfg, session, w, rels, scope).fs.present(p),
        all_targets_present(w) ==> all_targets_present(linked_all(cfg, session, w, rels, scope)),
    decreases rels.len(),
{
    if rels.len() > 0 {
        lemma_steps_keep_present(cfg, session, w, rels.drop_last(), scope);
        lemma_step_keeps_present(
            cfg,
            session,
            linked_all(cfg, session, w, rels.drop_last(), scope),
            rels.last(),
            scope,
        );
    }
}

/// An activation leaves no recorded target missing that was not missing
/// before it.
pub proof fn lemma_activation_keeps_targets_present(
    cfg: Settings,
    session: Seq<char>,
    w: World,
    profile: Seq<char>,
    files: Seq<Seq<char>>,
    common_files: Seq<Seq<char>>,
)
    requires
        all_targets_present(w),
    ensures
        all_targets_present(activated(cfg, session, w, profile, files, common_files)),
{
    let mid = linked_all(cfg, session, w, files, ScopeView::Profile(profile));
    lemma_steps_keep_present(cfg, session, w, files, ScopeView::Profile(profile));
    lemma_steps_keep_present(cfg, session, mid, common_files, ScopeView::Common);
}

/// A recorded target that holds anything but the link to its source is
/// left as it is and reported as not ours.
pub proof fn lemma_foreign_link_is_skipped(
    fs: FsModel,
    record: RecordView,
    restore: bool,
    held: Seq<Seq<char>>,
)
    requires
        decide_unlink(fs.node(record.target), record.source) is NotOurs,
    ensures
        unlinked(fs, record, restore, held) == fs,
        unlink_outcome(fs, record).status == StatusView::Skipped("not our symlink"@),
{
}

/// The step for a record leaves alone every other target that the ledger
/// holds.
pub proof fn lemma_unlink_step_spares(
    fs: FsModel,
    record: RecordView,
    restore: bool,
    held: Seq<Seq<char>>,
    t: Seq<char>,
)
    requires
        record.target != t,
        held.contains(t),
    ensures
        left_alone(fs, unlinked(fs, record, restore, held), t),
{
    let after = unlinked(fs, record, restore, held);
    assert(after.journal.take(fs.journal.len() as int) =~= fs.journal);
}

/// Whether what stands at the target of the record at position `i` is
/// foreign to the ledger: no record of that target names it as its link.
pub open spec fn is_foreign(fs: FsModel, records: Seq<RecordView>, i: int) -> bool {
    forall|j: int|
        0 <= j < records.len() && (#[trigger] records[j]).target == records[i].target
            ==> decide_unlink(fs.node(records[i].target), records[j].source) is NotOurs
}

proof fn lemma_unlink_steps_spare(
    fs: FsModel,
    records: Seq<RecordView>,
    profile: Seq<char>,
    restore: bool,
    i: int,
    n: int,
)
    requires
        0 <= i < records.len(),
        0 <= n <= records.len(),
        is_foreign(fs, records, i),
    ensures
        left_alone(
            fs,
            unlinked_all(fs, records.take(n), profile, restore, targets(records)),
            records[i].target,
        ),
        forall|k: int|
            0 <= k < unlink_outcomes(fs, records.take(n), profile, restore, targets(records)).len()
                && (#[trigger] unlink_outcomes(
                fs,
                records.take(n),
                profile,
                restore,
                targets(records),
            )[k]).target == records[i].target ==> unlink_outcomes(
                fs,
                records.take(n),
                profile,
                restore,
                targets(records),
            )[k].status == StatusView::Skipped("not our symlink"@),
        i < n && in_scope(records[i].scope, profile) ==> unlink_outcomes(
            fs,
            records.take(n),
            profile,
            restore,
            targets(records),
        ).contains(
            OperationView {
                target: records[i].target,
                status: StatusView::Skipped("not our symlink"@),
            },
        ),
    decreases n,
{
    let t = records[i].target;
    let held = targets(records);
    assert(held[i] == t);
    if n == 0 {
        assert(records.take(0) =~= Seq::<RecordView>::empty());
        assert(fs.journal.take(fs.journal.len() as int) =~= fs.journal);
    } else {
        lemma_unlink_steps_spare(fs, records, profile, restore, i, n - 1);
        assert(records.take(n).drop_last() =~= records.take(n - 1));
        assert(records.take(n).last() == records[n - 1]);
        let r = records[n - 1];
        let mid = unlinked_all(fs, records.take(n - 1), profile, restore, held);
        let before = unlink_outcomes(fs, records.take(n - 1), profile, restore, held);
        let ops = unlink_outcomes(fs, records.take(n), profile, restore, held);
        let end = unlinked_all(fs, records.take(n), profile, restore, held);
        if in_scope(r.scope, profile) {
            assert(end == unlinked(mid, r, restore, held));
            assert(ops == before.push(unlink_outcome(mid, r)));
            if r.target == t {
                assert(mid.node(t) == fs.node(t));
                lemma_foreign_link_is_skipped(mid, r, restore, held);
                assert(ops[before.len() as int] == unlink_outcome(mid, r));
                assert(end.journal.take(mid.journal.len() as int) =~= mid.journal);
                lemma_left_alone_chain(fs, mid, end, t);
            } else {
                lemma_unlink_step_spares(mid, r, restore, held, t);
                lemma_left_alone_chain(fs, mid, end, t);
            }
            assert forall|k: int| 0 <= k < ops.len() && (#[trigger] ops[k]).target
                == t implies ops[k].status == StatusView::Skipped("not our symlink"@) by {
                if k < before.len() {
                    assert(ops[k] == before[k]);
                }
            }
            if i < n && in_scope(records[i].scope, profile) {
                let want = OperationView {
                    target: t,
                    status: StatusView::Skipped("not our symlink"@),
                };
                if n - 1 == i {
                    assert(ops[before.len() as int] == want);
                } else {
                    let k = choose|k: int| 0 <= k < before.len() && before[k] == want;
                    assert(ops[k] == want);
                }
            }
        } else {
            assert(end == mid);
            assert(ops == before);
        }
    }
}

/// Deactivation never deletes foreign links: a recorded target that holds
/// what no record of the ledger names as its link, such as a link that
/// was pointed at another source, is left exactly as it is, no planned
/// action touches it, and every outcome for it is "not our symlink".
pub proof fn lemma_deactivate_spares_foreign_links(
    fs: FsModel,
    records: Seq<RecordView>,
    profile: Seq<char>,
    restore: bool,
    i: int,
)
    requires
        0 <= i < records.len(),
        in_scope(records[i].scope, profile),
        is_foreign(fs, records, i),
    ensures
        left_alone(fs, deactivated(fs, records, profile, restore), records[i].target),
        deactivation_outcomes(fs, records, profile, restore).contains(
            OperationView {
                target: records[i].target,
                status: StatusView::Skipped("not our symlink"@),
            },
        ),
        forall|k: int|
            0 <= k < deactivation_outcomes(fs, records, profile, restore).len() && (
            #[trigger] deactivation_outcomes(fs, records, profile, restore)[k]).target
                == records[i].target ==> deactivation_outcomes(
                fs,
                records,
                profile,
                restore,
            )[k].status == StatusView::Skipped("not our symlink"@),
{
    lemma_unlink_steps_spare(fs, records, profile, restore, i, records.len() as int);
    assert(records.take(records.len() as int) =~= records);
}

/// In a ledger that records no target twice, a recorded link that was
/// pointed at another source is foreign to the ledger.
pub proof fn lemma_repointed_link_is_foreign(
    fs: FsModel,
    records: Seq<RecordView>,
    i: int,
    dest: Seq<char>,
)
    requires
        targets(records).no_duplicates(),
        0 <= i < records.len(),
        fs.node(records[i].target) == NodeView::Symlink(dest),
        dest != records[i].source,
    ensures
        is_foreign(fs, records, i),
{
    assert forall|j: int|
        0 <= j < records.len() && (#[trigger] records[j]).target
            == records[i].target implies decide_unlink(
        fs.node(records[i].target),
        records[j].source,
    ) is NotOurs by {
        assert(targets(records)[j] == targets(records)[i]);
    }
}

/// Whether a backup waits for the record at position `i`: the target is
/// the record's link, a backup is noted for it and stands at its place,
/// and that place is no recorded target and the noted backup of no other
/// record.
pub open spec fn backup_waits(fs: FsModel, records: Seq<RecordView>, i: int) -> bool {
    let t = records[i].target;
    &&& fs.node(t) == NodeView::Symlink(records[i].source)
    &&& fs.backup_of(t) is Some
    &&& fs.present(fs.backup_of(t)->0)
    &&& !targets(records).contains(fs.backup_of(t)->0)
    &&& forall|j: int|
        0 <= j < records.len() && j != i ==> fs.backup_of((#[trigger] records[j]).target)
            != fs.backup_of(t)
}

proof fn lemma_unlink_steps_restore(
    fs: FsModel,
    records: Seq<RecordView>,
    profile: Seq<char>,
    i: int,
    n: int,
)
    requires
        targets(records).no_duplicates(),
        0 <= i < records.len(),
        0 <= n <= records.len(),
        in_scope(records[i].scope, profile),
        backup_waits(fs, records, i),
    ensures
        ({
            let now = unlinked_all(fs, records.take(n), profile, true, targets(records));
            let ops = unlink_outcomes(fs, records.take(n), profile, true, targets(records));
            let t = records[i].target;
            let place = fs.backup_of(t)->0;
            &&& n <= i ==> now.paths[t] == fs.paths[t] && now.paths[place] == fs.paths[place]
            &&& forall|k: int|
                n <= k < records.len() ==> now.backup_of((#[trigger] records[k]).target)
                    == fs.backup_of(records[k].target)
            &&& n > i ==> now.node(t) == fs.node(place)
            &&& n > i ==> ops.contains(OperationView { target: t, status: StatusView::Success })
        }),
    decreases n,
{
    let held = targets(records);
    let t = records[i].target;
    let place = fs.backup_of(t)->0;
    assert(held[i] == t);
    assert(place != t);
    if n == 0 {
        assert(records.take(0) =~= Seq::<RecordView>::empty());
    } else {
        lemma_unlink_steps_restore(fs, records, profile, i, n - 1);
        assert(records.take(n).drop_last() =~= records.take(n - 1));
        assert(records.take(n).last() == records[n - 1]);
        let r = records[n - 1];
        let mid = unlinked_all(fs, records.take(n - 1), profile, true, held);
        let now = unlinked_all(fs, records.take(n), profile, true, held);
        let before = unlink_outcomes(fs, records.take(n - 1), profile, true, held);
        let ops = unlink_outcomes(fs, records.take(n), profile, true, held);
        let done = OperationView { target: t, status: StatusView::Success };
        assert(held[n - 1] == r.target);
        if in_scope(r.scope, profile) {
            assert(now == unlinked(mid, r, true, held));
            assert(ops == before.push(unlink_outcome(mid, r)));
            if n - 1 == i {
                assert(mid.backup_of(t) == Some(place));
                assert(now.node(t) == fs.node(place));
                assert(ops[before.len() as int] == done);
            } else {
                assert(held[n - 1] != held[i]);
                assert(r.target != place);
                assert(mid.backup_of(r.target) == fs.backup_of(r.target));
                assert(mid.backup_of(r.target) != Some(place));
                if mid.backup_of(r.target) is Some && can_restore(
                    mid,
                    r,
                    mid.backup_of(r.target)->0,
                    held,
                ) {
                    assert(mid.backup_of(r.target)->0 != t);
                }
                assert(now.paths[t] == mid.paths[t]);
                if n - 1 < i {
                    assert(now.paths[place] == mid.paths[place]);
                } else {
                    let k = choose|k: int| 0 <= k < before.len() && before[k] == done;
                    assert(ops[k] == done);
                }
            }
            assert forall|k: int| n <= k < records.len() implies now.backup_of(
                (#[trigger] records[k]).target,
            ) == fs.backup_of(records[k].target) by {
                assert(held[k] != held[n - 1]);
                assert(records[k].target != r.target);
                assert(now.backup_of(records[k].target) == mid.backup_of(records[k].target));
            }
        } else {
            assert(now == mid);
            assert(ops == before);
        }
    }
}

/// Deactivation gives the backup back: in a ledger that records no
/// target twice, a recorded link for which a backup waits is removed by
/// the deactivation with `restore`, which reports success for it, and its
/// target then holds what the backup held, whatever else the ledger holds
/// and whatever became of the other links.
pub proof fn lemma_deactivate_restores_backup(
    fs: FsModel,
    records: Seq<RecordView>,
    profile: Seq<char>,
    i: int,
)
    requires
        targets(records).no_duplicates(),
        0 <= i < records.len(),
        in_scope(records[i].scope, profile),
        backup_waits(fs, records, i),
    ensures
        deactivated(fs, records, profile, true).node(records[i].target) == fs.node(
            fs.backup_of(records[i].target)->0,
        ),
        deactivation_outcomes(fs, records, profile, true).contains(
            OperationView { target: records[i].target, status: StatusView::Success },
        ),
{
    lemma_unlink_steps_restore(fs, records, profile, i, records.len() as int);
    assert(records.take(records.len() as int) =~= records);
}

proof fn lemma_unlink_steps_remove(
    fs: FsModel,
    records: Seq<RecordView>,
    profile: Seq<char>,
    restore: bool,
    i: int,
    n: int,
)
    requires
        targets(records).no_duplicates(),
        0 <= i < records.len(),
        0 <= n <= records.len(),
        in_scope(records[i].scope, profile),
        fs.node(records[i].target) == NodeView::Symlink(records[i].source),
        !restore || fs.backup_of(records[i].target) is None,
    ensures
        ({
            let now = unlinked_all(fs, records.take(n), profile, restore, targets(records));
            let ops = unlink_outcomes(fs, records.take(n), profile, restore, targets(records));
            let t = records[i].target;
            &&& n <= i ==> now.paths[t] == fs.paths[t]
            &&& n > i ==> now.node(t) is Missing
            &&& n > i ==> ops.contains(OperationView { target: t, status: StatusView::Success })
        }),
    decreases n,
{
    let held = targets(records);
    let t = records[i].target;
    assert(held[i] == t);
    if n == 0 {
        assert(records.take(0) =~= Seq::<RecordView>::empty());
    } else {
        lemma_unlink_steps_remove(fs, records, profile, restore, i, n - 1);
        assert(records.take(n).drop_last() =~= records.take(n - 1));
        assert(records.take(n).last() == records[n - 1]);
        let r = records[n - 1];
        let mid = unlinked_all(fs, records.take(n - 1), profile, restore, held);
        let now = unlinked_all(fs, records.take(n), profile, restore, held);
        let before = unlink_outcomes(fs, records.take(n - 1), profile, restore, held);
        let ops = unlink_outcomes(fs, records.take(n), profile, restore, held);
        let done = OperationView { target: t, status: StatusView::Success };
        if in_scope(r.scope, profile) {
            assert(now == unlinked(mid, r, restore, held));
            assert(ops == before.push(unlink_outcome(mid, r)));
            if n - 1 == i {
                assert(ops[before.len() as int] == done);
            } else {
                assert(held[n - 1] != held[i]);
                assert(r.target != t);
                assert(now.paths[t] == mid.paths[t]);
                if n - 1 > i {
                    let k = choose|k: int| 0 <= k < before.len() && before[k] == done;
                    assert(ops[k] == done);
                }
            }
        } else {
            assert(now == mid);
            assert(ops == before);
        }
    }
}

/// Deactivation removes our links: in a ledger that records no target
/// twice, a recorded link that stands at its target is removed, with
/// success reported for it, and where no backup is to return, nothing
/// stands at its target afterwards, whatever else the ledger holds.
pub proof fn lemma_deactivate_removes_link(
    fs: FsModel,
    records: Seq<RecordView>,
    profile: Seq<char>,
    restore: bool,
    i: int,
)
    requires
        targets(records).no_duplicates(),
        0 <= i < records.len(),
        in_scope(records[i].scope, profile),
        fs.node(records[i].target) == NodeView::Symlink(records[i].source),
        !restore || fs.backup_of(records[i].target) is None,
    ensures
        deactivated(fs, records, profile, restore).node(records[i].target) is Missing,
        deactivation_outcomes(fs, records, profile, restore).contains(
            OperationView { target: records[i].target, status: StatusView::Success },
        ),
{
    lemma_unlink_steps_remove(fs, records, profile, restore, i, records.len() as int);
    assert(records.take(records.len() as int) =~= records);
}

/// The latest session with a backup is one: two positions that both are
/// the latest hold the same name, and so name the same backup.
pub proof fn lemma_latest_session_is_one(
    fs: FsModel,
    cfg: Settings,
    sessions: Seq<Seq<char>>,
    rel: Seq<char>,
    a: int,
    b: int,
)
    requires
        is_latest_session(fs, cfg, sessions, rel, a),
        is_latest_session(fs, cfg, sessions, rel, b),
    ensures
        sessions[a] == sessions[b],
        backup_path(cfg, sessions[a], rel) == backup_path(cfg, sessions[b], rel),
{
    lemma_text_le_antisymmetric(sessions[a], sessions[b]);
}

} // verus!
