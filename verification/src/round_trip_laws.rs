//! What holds of an activation that is followed by a deactivation.

use vstd::prelude::*;
use crate::engine_laws::lemma_deactivate_removes_link;
use crate::engine_laws::lemma_deactivate_restores_backup;
use crate::engine_laws::lemma_recorded_elements;
use crate::engine_laws::lemma_recorded_keeps_targets;
use crate::fsview::FsModel;
use crate::fsview::NodeView;
use crate::ledger::in_scope;
use crate::ledger::out_of_scope;
use crate::ledger::recorded;
use crate::ledger::targets;
use crate::ledger::RecordView;
use crate::ledger::ScopeView;
use crate::strings::first_index;
use crate::strings::is_first_index;
use crate::strings::lemma_has_first_index;
use crate::symlink_manager::activated;
use crate::symlink_manager::activation_outcomes;
use crate::symlink_manager::backup_path;
use crate::symlink_manager::deactivated;
use crate::symlink_manager::deactivation_outcomes;
use crate::symlink_manager::link_outcome;
use crate::symlink_manager::link_outcomes;
use crate::symlink_manager::linked;
use crate::symlink_manager::linked_all;
use crate::symlink_manager::source_path;
use crate::symlink_manager::target_path;
use crate::symlink_manager::OperationView;
use crate::symlink_manager::Settings;
use crate::symlink_manager::StatusView;
use crate::symlink_manager::World;

verus! {

/// Where the links for the files `rels` are placed, in their order.
pub open spec fn file_targets(cfg: Settings, rels: Seq<Seq<char>>) -> Seq<Seq<char>> {
    Seq::new(rels.len(), |k: int| target_path(cfg, rels[k]))
}

/// Where the session `session` keeps what stood in the way of the files
/// `rels`, in their order.
pub open spec fn backup_places(cfg: Settings, session: Seq<char>, rels: Seq<Seq<char>>) -> Seq<
    Seq<char>,
> {
    Seq::new(rels.len(), |k: int| backup_path(cfg, session, rels[k]))
}

/// Whether every backup that `fs` knows is that of one of the files
/// `rels` at its backup place.
pub open spec fn backups_in_place(
    cfg: Settings,
    session: Seq<char>,
    rels: Seq<Seq<char>>,
    fs: FsModel,
) -> bool {
    forall|p: Seq<char>|
        (#[trigger] fs.backup_of(p)) is Some ==> exists|k: int|
            0 <= k < rels.len() && p == #[trigger] file_targets(cfg, rels)[k] && fs.backup_of(p)
                == Some(backup_places(cfg, session, rels)[k])
}

/// Whether every target in `records` is the target of one of the files
/// `rels`.
pub open spec fn targets_among(cfg: Settings, rels: Seq<Seq<char>>, records: Seq<RecordView>) -> bool {
    forall|m: int|
        0 <= m < records.len() ==> file_targets(cfg, rels).contains((#[trigger] records[m]).target)
}

/// Whether the world is in order for the files `rels`: its backups are
/// theirs, its records are theirs, and no target is recorded twice.
pub open spec fn in_order(cfg: Settings, session: Seq<char>, rels: Seq<Seq<char>>, w: World) -> bool {
    &&& backups_in_place(cfg, session, rels, w.fs)
    &&& targets_among(cfg, rels, w.symlinks)
    &&& targets(w.symlinks).no_duplicates()
}

/// Activating one of the files leaves the world in order.
pub proof fn lemma_step_keeps_order(
    cfg: Settings,
    session: Seq<char>,
    rels: Seq<Seq<char>>,
    w: World,
    k: int,
    scope: ScopeView,
)
    requires
        in_order(cfg, session, rels, w),
        0 <= k < rels.len(),
    ensures
        in_order(cfg, session, rels, linked(cfg, session, w, rels[k], scope)),
{
    let after = linked(cfg, session, w, rels[k], scope);
    let source = source_path(cfg, scope, rels[k]);
    let target = target_path(cfg, rels[k]);
    let record = RecordView { source, target, scope };
    let ts = file_targets(cfg, rels);
    let bs = backup_places(cfg, session, rels);
    assert(ts[k] == target);
    assert(bs[k] == backup_path(cfg, session, rels[k]));
    lemma_recorded_elements(w.symlinks, record);
    lemma_recorded_keeps_targets(w.symlinks, record);
    assert forall|p: Seq<char>| (#[trigger] after.fs.backup_of(p)) is Some implies exists|j: int|
        0 <= j < rels.len() && p == #[trigger] ts[j] && after.fs.backup_of(p) == Some(bs[j]) by {
        if after.fs.backup_of(p) != w.fs.backup_of(p) {
            assert(p == ts[k] && after.fs.backup_of(p) == Some(bs[k]));
        } else {
            assert(w.fs.backup_of(p) is Some);
        }
    }
    assert forall|m: int| 0 <= m < after.symlinks.len() implies ts.contains(
        (#[trigger] after.symlinks[m]).target,
    ) by {
        if after.symlinks[m] == record {
        } else {
            assert(m < w.symlinks.len() && after.symlinks[m] == w.symlinks[m]);
        }
    }
    assert(targets(after.symlinks).no_duplicates()) by {
        if !(after.symlinks == w.symlinks) && !(after.symlinks == recorded(
            w.symlinks,
            record,
        )) {
            assert(after.symlinks == w.symlinks.push(record));
            assert(targets(after.symlinks) =~= targets(w.symlinks).push(target));
        }
    }
}

/// Activating some of the files leaves the world in order.
pub proof fn lemma_steps_keep_order(
    cfg: Settings,
    session: Seq<char>,
    rels: Seq<Seq<char>>,
    w: World,
    some: Seq<Seq<char>>,
    scope: ScopeView,
)
    requires
        in_order(cfg, session, rels, w),
        forall|k: int| 0 <= k < some.len() ==> rels.contains(#[trigger] some[k]),
    ensures
        in_order(cfg, session, rels, linked_all(cfg, session, w, some, scope)),
    decreases some.len(),
{
    if some.len() > 0 {
        assert forall|k: int| 0 <= k < some.drop_last().len() implies rels.contains(
            #[trigger] some.drop_last()[k],
        ) by {
            assert(some.drop_last()[k] == some[k]);
        }
        lemma_steps_keep_order(cfg, session, rels, w, some.drop_last(), scope);
        assert(rels.contains(some[some.len() - 1]));
        let k = choose|k: int| 0 <= k < rels.len() && rels[k] == some.last();
        lemma_step_keeps_order(
            cfg,
            session,
            rels,
            linked_all(cfg, session, w, some.drop_last(), scope),
            k,
            scope,
        );
    }
}

/// Whether the link for the file `rel` of `scope` is in place in `w`, and
/// what stood at its target in `start` is set aside: the link stands, the
/// ledger records it, and what stood there is kept at the backup place
/// and noted as the target's backup; where nothing stood there, no backup
/// is noted.
pub open spec fn set_aside(
    cfg: Settings,
    session: Seq<char>,
    start: FsModel,
    w: World,
    rel: Seq<char>,
    scope: ScopeView,
) -> bool {
    let target = target_path(cfg, rel);
    let place = backup_path(cfg, session, rel);
    let source = source_path(cfg, scope, rel);
    &&& w.fs.node(target) == NodeView::Symlink(source)
    &&& w.symlinks.contains(RecordView { source, target, scope })
    &&& if start.present(target) {
        &&& place != target
        &&& w.fs.backup_of(target) == Some(place)
        &&& w.fs.node(place) == start.node(target)
    } else {
        w.fs.backup_of(target) is None
    }
}

/// Whether target and backup place of the file `rel` are in `w` as they
/// were in `start`.
pub open spec fn untouched(
    cfg: Settings,
    session: Seq<char>,
    start: FsModel,
    w: World,
    rel: Seq<char>,
) -> bool {
    &&& w.fs.paths[target_path(cfg, rel)] == start.paths[target_path(cfg, rel)]
    &&& w.fs.paths[backup_path(cfg, session, rel)] == start.paths[backup_path(cfg, session, rel)]
}

/// Whether target and backup place of the file `other` are neither
/// target nor backup place of the file `rel`.
pub open spec fn clear_of(cfg: Settings, session: Seq<char>, other: Seq<char>, rel: Seq<char>) -> bool {
    &&& target_path(cfg, other) != target_path(cfg, rel)
    &&& target_path(cfg, other) != backup_path(cfg, session, rel)
    &&& backup_path(cfg, session, other) != target_path(cfg, rel)
    &&& backup_path(cfg, session, other) != backup_path(cfg, session, rel)
}

/// The successful activation of a file whose target and backup place
/// are untouched puts its link in place and sets aside what stood there.
pub proof fn lemma_own_step_sets_aside(
    cfg: Settings,
    session: Seq<char>,
    start: FsModel,
    w: World,
    rel: Seq<char>,
    scope: ScopeView,
)
    requires
        untouched(cfg, session, start, w, rel),
        start.backup_of(target_path(cfg, rel)) is None,
        link_outcome(cfg, session, w, rel, scope).status is Success,
    ensures
        set_aside(cfg, session, start, linked(cfg, session, w, rel, scope), rel, scope),
{
    let after = linked(cfg, session, w, rel, scope);
    let source = source_path(cfg, scope, rel);
    let target = target_path(cfg, rel);
    let record = RecordView { source, target, scope };
    let old_targets = targets(w.symlinks);
    if old_targets.contains(target) {
        let at = choose|i: int| 0 <= i < old_targets.len() && old_targets[i] == target;
        lemma_has_first_index(old_targets, target, at);
        let i = first_index(old_targets, target);
        assert(is_first_index(old_targets, target, i));
        assert(after.symlinks[i] == record);
    } else {
        assert(after.symlinks[w.symlinks.len() as int] == record);
    }
}

/// Entering a record leaves the records of other targets as they are.
pub proof fn lemma_recorded_keeps_others(records: Seq<RecordView>, record: RecordView, kept: RecordView)
    requires
        records.contains(kept),
        kept.target != record.target,
    ensures
        recorded(records, record).contains(kept),
{
    let m = choose|m: int| 0 <= m < records.len() && records[m] == kept;
    let old_targets = targets(records);
    if old_targets.contains(record.target) {
        let at = choose|i: int| 0 <= i < old_targets.len() && old_targets[i] == record.target;
        lemma_has_first_index(old_targets, record.target, at);
        let i = first_index(old_targets, record.target);
        assert(is_first_index(old_targets, record.target, i));
        assert(old_targets[m] == kept.target);
        assert(recorded(records, record)[m] == kept);
    } else {
        assert(recorded(records, record)[m] == kept);
    }
}

/// The activation of another file, clear of the file `rel`, changes
/// nothing for `rel`.
pub proof fn lemma_other_step_keeps(
    cfg: Settings,
    session: Seq<char>,
    start: FsModel,
    w: World,
    other: Seq<char>,
    other_scope: ScopeView,
    rel: Seq<char>,
    scope: ScopeView,
)
    requires
        clear_of(cfg, session, other, rel),
    ensures
        untouched(cfg, session, start, w, rel) ==> untouched(
            cfg,
            session,
            start,
            linked(cfg, session, w, other, other_scope),
            rel,
        ),
        set_aside(cfg, session, start, w, rel, scope) ==> set_aside(
            cfg,
            session,
            start,
            linked(cfg, session, w, other, other_scope),
            rel,
            scope,
        ),
{
    let after = linked(cfg, session, w, other, other_scope);
    let target = target_path(cfg, rel);
    let place = backup_path(cfg, session, rel);
    assert(after.fs.paths[target] == w.fs.paths[target]);
    assert(after.fs.paths[place] == w.fs.paths[place]);
    if set_aside(cfg, session, start, w, rel, scope) {
        let kept = RecordView { source: source_path(cfg, scope, rel), target, scope };
        let entered = RecordView {
            source: source_path(cfg, other_scope, other),
            target: target_path(cfg, other),
            scope: other_scope,
        };
        lemma_recorded_keeps_others(w.symlinks, entered, kept);
        let m = choose|m: int| 0 <= m < w.symlinks.len() && w.symlinks[m] == kept;
        assert(w.symlinks.push(entered)[m] == kept);
        assert(after.symlinks.contains(kept));
    }
}

/// The activation of other files, all clear of the file `rel`, changes
/// nothing for `rel`.
pub proof fn lemma_other_steps_keep(
    cfg: Settings,
    session: Seq<char>,
    start: FsModel,
    w: World,
    others: Seq<Seq<char>>,
    other_scope: ScopeView,
    rel: Seq<char>,
    scope: ScopeView,
)
    requires
        forall|k: int| 0 <= k < others.len() ==> clear_of(cfg, session, #[trigger] others[k], rel),
    ensures
        untouched(cfg, session, start, w, rel) ==> untouched(
            cfg,
            session,
            start,
            linked_all(cfg, session, w, others, other_scope),
            rel,
        ),
        set_aside(cfg, session, start, w, rel, scope) ==> set_aside(
            cfg,
            session,
            start,
            linked_all(cfg, session, w, others, other_scope),
            rel,
            scope,
        ),
    decreases others.len(),
{
    if others.len() > 0 {
        assert forall|k: int| 0 <= k < others.drop_last().len() implies clear_of(
            cfg,
            session,
            #[trigger] others.drop_last()[k],
            rel,
        ) by {
            assert(others.drop_last()[k] == others[k]);
        }
        lemma_other_steps_keep(cfg, session, start, w, others.drop_last(), other_scope, rel, scope);
        assert(clear_of(cfg, session, others[others.len() - 1], rel));
        lemma_other_step_keeps(
            cfg,
            session,
            start,
            linked_all(cfg, session, w, others.drop_last(), other_scope),
            others.last(),
            other_scope,
            rel,
            scope,
        );
    }
}

/// The outcomes are as many as the files.
pub proof fn lemma_one_outcome_each(
    cfg: Settings,
    session: Seq<char>,
    w: World,
    rels: Seq<Seq<char>>,
    scope: ScopeView,
)
    ensures
        link_outcomes(cfg, session, w, rels, scope).len() == rels.len(),
    decreases rels.len(),
{
    if rels.len() > 0 {
        lemma_one_outcome_each(cfg, session, w, rels.drop_last(), scope);
    }
}

/// Of files that are clear of the file at position `i`, whose target and
/// backup place are untouched: where the activation of the files reports
/// success for that file, its link is in place afterwards and what stood
/// at its target is set aside.
pub proof fn lemma_steps_set_aside(
    cfg: Settings,
    session: Seq<char>,
    start: FsModel,
    w: World,
    rels: Seq<Seq<char>>,
    scope: ScopeView,
    i: int,
)
    requires
        0 <= i < rels.len(),
        forall|k: int|
            0 <= k < rels.len() && k != i ==> clear_of(cfg, session, #[trigger] rels[k], rels[i]),
        untouched(cfg, session, start, w, rels[i]),
        start.backup_of(target_path(cfg, rels[i])) is None,
    ensures
        link_outcomes(cfg, session, w, rels, scope).len() == rels.len(),
        link_outcomes(cfg, session, w, rels, scope)[i].status is Success ==> set_aside(
            cfg,
            session,
            start,
            linked_all(cfg, session, w, rels, scope),
            rels[i],
            scope,
        ),
    decreases rels.len(),
{
    lemma_one_outcome_each(cfg, session, w, rels, scope);
    lemma_one_outcome_each(cfg, session, w, rels.drop_last(), scope);
    let before = linked_all(cfg, session, w, rels.drop_last(), scope);
    if i == rels.len() - 1 {
        assert forall|k: int| 0 <= k < rels.drop_last().len() implies clear_of(
            cfg,
            session,
            #[trigger] rels.drop_last()[k],
            rels[i],
        ) by {
            assert(rels.drop_last()[k] == rels[k]);
        }
        lemma_other_steps_keep(cfg, session, start, w, rels.drop_last(), scope, rels[i], scope);
        if link_outcomes(cfg, session, w, rels, scope)[i].status is Success {
            lemma_own_step_sets_aside(cfg, session, start, before, rels[i], scope);
        }
    } else {
        assert(rels.drop_last()[i] == rels[i]);
        assert forall|k: int| 0 <= k < rels.drop_last().len() && k != i implies clear_of(
            cfg,
            session,
            #[trigger] rels.drop_last()[k],
            rels.drop_last()[i],
        ) by {
            assert(rels.drop_last()[k] == rels[k]);
        }
        lemma_steps_set_aside(cfg, session, start, w, rels.drop_last(), scope, i);
        assert(clear_of(cfg, session, rels[rels.len() - 1], rels[i]));
        lemma_other_step_keeps(cfg, session, start, before, rels.last(), scope, rels[i], scope);
    }
}

/// Deactivation gives back what activation set aside. A fresh ledger
/// activates files on a file system in which no backup is noted, and the
/// deactivation of the same profile with `restore` follows: then, for
/// every file for which the activation reported success and of which all
/// other files are clear, the deactivation reports success and the file's
/// target holds what it held at the start.
pub proof fn lemma_round_trip_gives_back(
    cfg: Settings,
    session: Seq<char>,
    fs: FsModel,
    profile: Seq<char>,
    files: Seq<Seq<char>>,
    common_files: Seq<Seq<char>>,
    i: int,
)
    requires
        forall|p: Seq<char>| (#[trigger] fs.backup_of(p)) is None,
        0 <= i < files.len() + common_files.len(),
        forall|k: int|
            0 <= k < files.len() + common_files.len() && k != i ==> clear_of(
                cfg,
                session,
                #[trigger] (files + common_files)[k],
                (files + common_files)[i],
            ),
        activation_outcomes(
            cfg,
            session,
            World { fs, symlinks: Seq::empty() },
            profile,
            files,
            common_files,
        )[i].status is Success,
    ensures
        ({
            let w = activated(
                cfg,
                session,
                World { fs, symlinks: Seq::empty() },
                profile,
                files,
                common_files,
            );
            let target = target_path(cfg, (files + common_files)[i]);
            &&& deactivated(w.fs, w.symlinks, profile, true).node(target) == fs.node(target)
            &&& deactivation_outcomes(w.fs, w.symlinks, profile, true).contains(
                OperationView { target, status: StatusView::Success },
            )
        }),
{
    let all = files + common_files;
    let rel = all[i];
    let ts = file_targets(cfg, all);
    let bs = backup_places(cfg, session, all);
    let t = target_path(cfg, rel);
    let b = backup_path(cfg, session, rel);
    let own = ScopeView::Profile(profile);
    let w0 = World { fs, symlinks: Seq::<RecordView>::empty() };
    let w1 = linked_all(cfg, session, w0, files, own);
    let w2 = activated(cfg, session, w0, profile, files, common_files);
    assert(targets(w0.symlinks) =~= Seq::<Seq<char>>::empty());
    assert(in_order(cfg, session, all, w0));
    assert forall|k: int| 0 <= k < files.len() implies all.contains(#[trigger] files[k]) by {
        assert(all[k] == files[k]);
    }
    assert forall|k: int| 0 <= k < common_files.len() implies all.contains(
        #[trigger] common_files[k],
    ) by {
        assert(all[files.len() + k] == common_files[k]);
    }
    lemma_steps_keep_order(cfg, session, all, w0, files, own);
    lemma_steps_keep_order(cfg, session, all, w1, common_files, ScopeView::Common);
    lemma_one_outcome_each(cfg, session, w0, files, own);
    lemma_one_outcome_each(cfg, session, w1, common_files, ScopeView::Common);
    let scope = if i < files.len() {
        own
    } else {
        ScopeView::Common
    };
    if i < files.len() {
        assert forall|k: int| 0 <= k < files.len() && k != i implies clear_of(
            cfg,
            session,
            #[trigger] files[k],
            files[i],
        ) by {
            assert(all[k] == files[k]);
        }
        lemma_steps_set_aside(cfg, session, fs, w0, files, own, i);
        assert forall|k: int| 0 <= k < common_files.len() implies clear_of(
            cfg,
            session,
            #[trigger] common_files[k],
            rel,
        ) by {
            assert(all[files.len() + k] == common_files[k]);
        }
        lemma_other_steps_keep(cfg, session, fs, w1, common_files, ScopeView::Common, rel, own);
    } else {
        let at = i - files.len();
        assert(common_files[at] == rel);
        assert forall|k: int| 0 <= k < files.len() implies clear_of(
            cfg,
            session,
            #[trigger] files[k],
            rel,
        ) by {
            assert(all[k] == files[k]);
        }
        lemma_other_steps_keep(cfg, session, fs, w0, files, own, rel, ScopeView::Common);
        assert forall|k: int| 0 <= k < common_files.len() && k != at implies clear_of(
            cfg,
            session,
            #[trigger] common_files[k],
            common_files[at],
        ) by {
            assert(all[files.len() + k] == common_files[k]);
        }
        lemma_steps_set_aside(cfg, session, fs, w1, common_files, ScopeView::Common, at);
    }
    assert(set_aside(cfg, session, fs, w2, rel, scope));
    let record = RecordView { source: source_path(cfg, scope, rel), target: t, scope };
    let records = w2.symlinks;
    let m = choose|m: int| 0 <= m < records.len() && records[m] == record;
    if fs.present(t) {
        assert(!targets(records).contains(b)) by {
            if targets(records).contains(b) {
                let j = choose|j: int| 0 <= j < records.len() && targets(records)[j] == b;
                assert(ts.contains(records[j].target));
                let q = choose|q: int| 0 <= q < ts.len() && ts[q] == records[j].target;
                if q != i {
                    assert(clear_of(cfg, session, all[q], rel));
                }
            }
        }
        assert forall|j: int| 0 <= j < records.len() && j != m implies w2.fs.backup_of(
            (#[trigger] records[j]).target,
        ) != w2.fs.backup_of(t) by {
            let p = records[j].target;
            assert(targets(records)[j] != targets(records)[m]);
            if w2.fs.backup_of(p) is Some {
                let k = choose|k: int|
                    0 <= k < all.len() && p == #[trigger] ts[k] && w2.fs.backup_of(p) == Some(bs[k]);
                assert(k != i);
                assert(clear_of(cfg, session, all[k], rel));
            }
        }
        lemma_deactivate_restores_backup(w2.fs, records, profile, m);
    } else {
        lemma_deactivate_removes_link(w2.fs, records, profile, true, m);
    }
}

/// Whether the deactivation of `profile` reaches every one of `records`.
pub open spec fn all_in_scope(records: Seq<RecordView>, profile: Seq<char>) -> bool {
    forall|m: int| 0 <= m < records.len() ==> in_scope((#[trigger] records[m]).scope, profile)
}

/// Activating files of the profile, or common files, enters no record
/// that the deactivation of the profile would not reach.
pub proof fn lemma_steps_stay_in_scope(
    cfg: Settings,
    session: Seq<char>,
    w: World,
    rels: Seq<Seq<char>>,
    scope: ScopeView,
    profile: Seq<char>,
)
    requires
        all_in_scope(w.symlinks, profile),
        in_scope(scope, profile),
    ensures
        all_in_scope(linked_all(cfg, session, w, rels, scope).symlinks, profile),
    decreases rels.len(),
{
    if rels.len() > 0 {
        lemma_steps_stay_in_scope(cfg, session, w, rels.drop_last(), scope, profile);
        let before = linked_all(cfg, session, w, rels.drop_last(), scope);
        let after = linked(cfg, session, before, rels.last(), scope);
        let record = RecordView {
            source: source_path(cfg, scope, rels.last()),
            target: target_path(cfg, rels.last()),
            scope,
        };
        lemma_recorded_elements(before.symlinks, record);
        assert forall|m: int| 0 <= m < after.symlinks.len() implies in_scope(
            (#[trigger] after.symlinks[m]).scope,
            profile,
        ) by {
            if after.symlinks[m] != record {
                assert(m < before.symlinks.len() && after.symlinks[m] == before.symlinks[m]);
            }
        }
    }
}

/// A ledger that was empty before an activation is empty again after
/// the deactivation of the same profile.
pub proof fn lemma_round_trip_empties_ledger(
    cfg: Settings,
    session: Seq<char>,
    fs: FsModel,
    profile: Seq<char>,
    files: Seq<Seq<char>>,
    common_files: Seq<Seq<char>>,
)
    ensures
        out_of_scope(
            activated(
                cfg,
                session,
                World { fs, symlinks: Seq::empty() },
                profile,
                files,
                common_files,
            ).symlinks,
            profile,
        ).len() == 0,
{
    let w0 = World { fs, symlinks: Seq::<RecordView>::empty() };
    let own = ScopeView::Profile(profile);
    let w1 = linked_all(cfg, session, w0, files, own);
    let w2 = activated(cfg, session, w0, profile, files, common_files);
    lemma_steps_stay_in_scope(cfg, session, w0, files, own, profile);
    lemma_steps_stay_in_scope(cfg, session, w1, common_files, ScopeView::Common, profile);
    let beyond = |r: RecordView| !in_scope(r.scope, profile);
    let left = w2.symlinks.filter(beyond);
    if left.len() > 0 {
        w2.symlinks.lemma_filter_pred(beyond, 0);
        w2.symlinks.lemma_filter_contains_rev(beyond, left[0]);
        let m = choose|m: int| 0 <= m < w2.symlinks.len() && w2.symlinks[m] == left[0];
        assert(in_scope(w2.symlinks[m].scope, profile));
    }
}

} // verus!
