//! The activation engine: places and removes the symbolic links of a
//! profile and of the common files, keeps the ledger, and reports one
//! outcome per file.
//!
//! The engine reads and changes an `FsView`. What it plans there is carried
//! out afterwards from the view's journal; a step that then fails on disk is
//! reported back with `note_failure`.

use vstd::prelude::*;
use crate::fsview::FsModel;
use crate::fsview::FsView;
use crate::fsview::Node;
use crate::fsview::NodeView;
use crate::ledger::in_scope;
use crate::ledger::out_of_scope;
use crate::ledger::recorded;
use crate::ledger::targets;
use crate::ledger::RecordView;
use crate::ledger::ScopeView;
use crate::ledger::SymlinkRecord;
use crate::ledger::SymlinkScope;
use crate::ledger::TrackingLedger;
use crate::manifest::common_name;
use crate::paths::join;
use crate::paths::joined;
use crate::scan::matches_at;
use crate::scan::strip_prefix;
use crate::strings::lemma_text_le_total;
use crate::strings::lemma_text_le_transitive;
use crate::strings::str_eq;
use crate::strings::text_le;
use crate::strings::text_precedes;

verus! {

/// How one file fared.
#[derive(Debug, PartialEq, Eq)]
pub enum OperationStatus {
    /// The link was placed, or removed.
    Success,
    /// Nothing had to be done, for the reason given.
    Skipped(String),
    /// Nothing was done, for the reason given.
    Failed(String),
}

/// The mathematical value of an `OperationStatus`.
pub enum StatusView {
    Success,
    Skipped(Seq<char>),
    Failed(Seq<char>),
}

impl View for OperationStatus {
    type V = StatusView;

    open spec fn view(&self) -> StatusView {
        match self {
            OperationStatus::Success => StatusView::Success,
            OperationStatus::Skipped(reason) => StatusView::Skipped(reason@),
            OperationStatus::Failed(reason) => StatusView::Failed(reason@),
        }
    }
}

impl Clone for OperationStatus {
    fn clone(&self) -> (r: Self)
        ensures
            r@ == self@,
    {
        match self {
            OperationStatus::Success => OperationStatus::Success,
            OperationStatus::Skipped(reason) => OperationStatus::Skipped(reason.clone()),
            OperationStatus::Failed(reason) => OperationStatus::Failed(reason.clone()),
        }
    }
}

/// The outcome for one target.
#[derive(Debug, PartialEq, Eq)]
pub struct SymlinkOperation {
    pub target: String,
    pub status: OperationStatus,
}

/// The mathematical value of a `SymlinkOperation`.
pub struct OperationView {
    pub target: Seq<char>,
    pub status: StatusView,
}

impl View for SymlinkOperation {
    type V = OperationView;

    open spec fn view(&self) -> OperationView {
        OperationView { target: self.target@, status: self.status@ }
    }
}

impl DeepView for SymlinkOperation {
    type V = OperationView;

    open spec fn deep_view(&self) -> OperationView {
        self@
    }
}

impl Clone for SymlinkOperation {
    fn clone(&self) -> (r: Self)
        ensures
            r@ == self@,
    {
        SymlinkOperation { target: self.target.clone(), status: self.status.clone() }
    }
}

/// What activation does with one file.
#[derive(Debug, PartialEq, Eq, Structural, Clone, Copy)]
pub enum LinkDecision {
    /// The file is not in the repository: fail.
    SourceMissing,
    /// Nothing stands at the target: place the link.
    Create,
    /// The target is a link to the source already: skip.
    AlreadyCorrect,
    /// Something else stands at the target: move it to the backup, then
    /// place the link.
    BackupThenCreate,
    /// Something else stands at the target and cannot be backed up: fail
    /// and leave it.
    RefuseOverwrite,
}

/// What deactivation does with one recorded link.
#[derive(Debug, PartialEq, Eq, Structural, Clone, Copy)]
pub enum UnlinkDecision {
    /// The target is our link: remove it.
    Remove,
    /// Nothing stands at the target: skip.
    AlreadyAbsent,
    /// The target is no link, or a link to somewhere else: skip and leave
    /// it.
    NotOurs,
}

/// The decision for a file whose source holds `source_node` and whose target
/// holds `target_node`. `can_backup` says whether what stands at the target
/// may be moved to a backup. A missing source fails the file whatever
/// stands at the target, so that no link is placed that leads
/// nowhere.
pub open spec fn decide_link(
    source_node: NodeView,
    target_node: NodeView,
    source: Seq<char>,
    can_backup: bool,
) -> LinkDecision {
    if source_node is Missing {
        LinkDecision::SourceMissing
    } else if target_node is Missing {
        LinkDecision::Create
    } else if target_node == NodeView::Symlink(source) {
        LinkDecision::AlreadyCorrect
    } else if can_backup {
        LinkDecision::BackupThenCreate
    } else {
        LinkDecision::RefuseOverwrite
    }
}

/// The outcome that a decision reports.
pub open spec fn link_status(d: LinkDecision) -> StatusView {
    match d {
        LinkDecision::SourceMissing => StatusView::Failed("source missing in repository"@),
        LinkDecision::Create => StatusView::Success,
        LinkDecision::AlreadyCorrect => StatusView::Skipped("already correct"@),
        LinkDecision::BackupThenCreate => StatusView::Success,
        LinkDecision::RefuseOverwrite => StatusView::Failed("would overwrite existing file"@),
    }
}

/// The decision for a recorded link to `source` whose target holds
/// `target_node`.
pub open spec fn decide_unlink(target_node: NodeView, source: Seq<char>) -> UnlinkDecision {
    if target_node is Missing {
        UnlinkDecision::AlreadyAbsent
    } else if target_node == NodeView::Symlink(source) {
        UnlinkDecision::Remove
    } else {
        UnlinkDecision::NotOurs
    }
}

/// The outcome that a decision reports.
pub open spec fn unlink_status(d: UnlinkDecision) -> StatusView {
    match d {
        UnlinkDecision::Remove => StatusView::Success,
        UnlinkDecision::AlreadyAbsent => StatusView::Skipped("already absent"@),
        UnlinkDecision::NotOurs => StatusView::Skipped("not our symlink"@),
    }
}

/// Where the engine works.
pub struct Settings {
    /// The repository's root.
    pub repo_path: Seq<char>,
    /// The home directory, in which the links are placed.
    pub home_dir: Seq<char>,
    /// The directory that holds the backups, one directory per session.
    pub backup_root: Seq<char>,
    /// Whether what stands in a link's way may be moved to a backup.
    pub backup_enabled: bool,
}

/// What the engine reads and changes: the file system and the ledger's
/// records.
pub struct World {
    pub fs: FsModel,
    pub symlinks: Seq<RecordView>,
}

/// The directory of the repository that holds the files of `scope`.
pub open spec fn scope_dir(scope: ScopeView) -> Seq<char> {
    match scope {
        ScopeView::Profile(name) => name,
        ScopeView::Common => common_name(),
    }
}

/// Where the file `rel` of `scope` lies in the repository.
pub open spec fn source_path(cfg: Settings, scope: ScopeView, rel: Seq<char>) -> Seq<char> {
    joined(joined(cfg.repo_path, scope_dir(scope)), rel)
}

/// Where the link for the file `rel` is placed.
pub open spec fn target_path(cfg: Settings, rel: Seq<char>) -> Seq<char> {
    joined(cfg.home_dir, rel)
}

/// Where the session `session` keeps what stood in the way of `rel`.
pub open spec fn backup_path(cfg: Settings, session: Seq<char>, rel: Seq<char>) -> Seq<char> {
    joined(joined(cfg.backup_root, session), rel)
}

/// The path of `target` below the home directory: what follows the home
/// directory and a slash, where `target` starts with them.
pub open spec fn home_relative(cfg: Settings, target: Seq<char>) -> Option<Seq<char>> {
    let prefix = joined(cfg.home_dir, Seq::empty());
    if matches_at(target, prefix, 0) {
        Some(target.skip(prefix.len() as int))
    } else {
        None
    }
}

/// Whether the session `session` holds a backup of the file `rel`.
pub open spec fn holds_backup(fs: FsModel, cfg: Settings, session: Seq<char>, rel: Seq<char>) -> bool {
    fs.present(backup_path(cfg, session, rel))
}

/// Whether the session at position `k` is the latest of `sessions` that
/// holds a backup of `rel`: no session that holds one comes after it in
/// the order of texts.
pub open spec fn is_latest_session(
    fs: FsModel,
    cfg: Settings,
    sessions: Seq<Seq<char>>,
    rel: Seq<char>,
    k: int,
) -> bool {
    &&& 0 <= k < sessions.len()
    &&& holds_backup(fs, cfg, sessions[k], rel)
    &&& forall|j: int|
        0 <= j < sessions.len() && holds_backup(fs, cfg, #[trigger] sessions[j], rel) ==> text_le(
            sessions[j],
            sessions[k],
        )
}

/// The decision for the file `rel` of `scope` in the world `w`. What stands
/// in the way can be backed up where backups are enabled and the backup
/// would not lie at the target itself.
pub open spec fn link_decision(
    cfg: Settings,
    session: Seq<char>,
    w: World,
    rel: Seq<char>,
    scope: ScopeView,
) -> LinkDecision {
    let source = source_path(cfg, scope, rel);
    let target = target_path(cfg, rel);
    decide_link(
        w.fs.node(source),
        w.fs.node(target),
        source,
        cfg.backup_enabled && backup_path(cfg, session, rel) != target,
    )
}

/// `records` with a record for `record.target` in any case: unchanged where
/// it has one, with `record` at the end where it has none.
pub open spec fn ensured(records: Seq<RecordView>, record: RecordView) -> Seq<RecordView> {
    if targets(records).contains(record.target) {
        records
    } else {
        records.push(record)
    }
}

/// The world after the file `rel` of `scope` was activated.
pub open spec fn linked(
    cfg: Settings,
    session: Seq<char>,
    w: World,
    rel: Seq<char>,
    scope: ScopeView,
) -> World {
    let source = source_path(cfg, scope, rel);
    let target = target_path(cfg, rel);
    let record = RecordView { source, target, scope };
    match link_decision(cfg, session, w, rel, scope) {
        LinkDecision::Create => World {
            fs: w.fs.with_symlink(source, target),
            symlinks: recorded(w.symlinks, record),
        },
        LinkDecision::AlreadyCorrect => World { fs: w.fs, symlinks: ensured(w.symlinks, record) },
        LinkDecision::BackupThenCreate => World {
            fs: w.fs.moved_to_backup(target, backup_path(cfg, session, rel)).with_symlink(
                source,
                target,
            ),
            symlinks: recorded(w.symlinks, record),
        },
        _ => w,
    }
}

/// The outcome reported for the file `rel` of `scope`.
pub open spec fn link_outcome(
    cfg: Settings,
    session: Seq<char>,
    w: World,
    rel: Seq<char>,
    scope: ScopeView,
) -> OperationView {
    OperationView {
        target: target_path(cfg, rel),
        status: link_status(link_decision(cfg, session, w, rel, scope)),
    }
}

/// The world after the files `rels` of `scope` were activated, first to
/// last.
pub open spec fn linked_all(
    cfg: Settings,
    session: Seq<char>,
    w: World,
    rels: Seq<Seq<char>>,
    scope: ScopeView,
) -> World
    decreases rels.len(),
{
    if rels.len() == 0 {
        w
    } else {
        linked(cfg, session, linked_all(cfg, session, w, rels.drop_last(), scope), rels.last(), scope)
    }
}

/// The outcomes reported for the files `rels` of `scope`, in their order.
pub open spec fn link_outcomes(
    cfg: Settings,
    session: Seq<char>,
    w: World,
    rels: Seq<Seq<char>>,
    scope: ScopeView,
) -> Seq<OperationView>
    decreases rels.len(),
{
    if rels.len() == 0 {
        Seq::empty()
    } else {
        link_outcomes(cfg, session, w, rels.drop_last(), scope).push(
            link_outcome(
                cfg,
                session,
                linked_all(cfg, session, w, rels.drop_last(), scope),
                rels.last(),
                scope,
            ),
        )
    }
}

/// Whether the backup at `location` may be moved back to the target of
/// `record`: the place holds something, and it is no target that the
/// ledger tracks, `held` being those targets.
pub open spec fn can_restore(
    fs: FsModel,
    record: RecordView,
    location: Seq<char>,
    held: Seq<Seq<char>>,
) -> bool {
    fs.present(location) && location != record.target && !held.contains(location)
}

/// The file system after the recorded link `record` was deactivated. Where
/// `restore` is set and a backup of the target is known and can be
/// restored, it is moved back to the target.
pub open spec fn unlinked(
    fs: FsModel,
    record: RecordView,
    restore: bool,
    held: Seq<Seq<char>>,
) -> FsModel {
    match decide_unlink(fs.node(record.target), record.source) {
        UnlinkDecision::Remove => {
            let removed = fs.without_symlink(record.target);
            match fs.backup_of(record.target) {
                Some(location) => if restore && can_restore(fs, record, location, held) {
                    removed.restored(record.target, location)
                } else {
                    removed
                },
                None => removed,
            }
        },
        _ => fs,
    }
}

/// The outcome reported for the recorded link `record`.
pub open spec fn unlink_outcome(fs: FsModel, record: RecordView) -> OperationView {
    OperationView {
        target: record.target,
        status: unlink_status(decide_unlink(fs.node(record.target), record.source)),
    }
}

/// The file system after those of `records` that the deactivation of
/// `profile` touches were deactivated, first to last, `held` being the
/// targets that the ledger tracks.
pub open spec fn unlinked_all(
    fs: FsModel,
    records: Seq<RecordView>,
    profile: Seq<char>,
    restore: bool,
    held: Seq<Seq<char>>,
) -> FsModel
    decreases records.len(),
{
    if records.len() == 0 {
        fs
    } else {
        let before = unlinked_all(fs, records.drop_last(), profile, restore, held);
        if in_scope(records.last().scope, profile) {
            unlinked(before, records.last(), restore, held)
        } else {
            before
        }
    }
}

/// The outcomes reported for those of `records` that the deactivation of
/// `profile` touches, in their order.
pub open spec fn unlink_outcomes(
    fs: FsModel,
    records: Seq<RecordView>,
    profile: Seq<char>,
    restore: bool,
    held: Seq<Seq<char>>,
) -> Seq<OperationView>
    decreases records.len(),
{
    if records.len() == 0 {
        Seq::empty()
    } else {
        let ops = unlink_outcomes(fs, records.drop_last(), profile, restore, held);
        if in_scope(records.last().scope, profile) {
            ops.push(
                unlink_outcome(
                    unlinked_all(fs, records.drop_last(), profile, restore, held),
                    records.last(),
                ),
            )
        } else {
            ops
        }
    }
}

/// The file system after the profile `profile` was deactivated with the
/// ledger holding `records`.
pub open spec fn deactivated(
    fs: FsModel,
    records: Seq<RecordView>,
    profile: Seq<char>,
    restore: bool,
) -> FsModel {
    unlinked_all(fs, records, profile, restore, targets(records))
}

/// The outcomes that the deactivation of `profile` reports with the ledger
/// holding `records`.
pub open spec fn deactivation_outcomes(
    fs: FsModel,
    records: Seq<RecordView>,
    profile: Seq<char>,
    restore: bool,
) -> Seq<OperationView> {
    unlink_outcomes(fs, records, profile, restore, targets(records))
}

/// Whether an outcome counts as done: it did not fail.
pub open spec fn is_done(op: OperationView) -> bool {
    !(op.status is Failed)
}

/// How many of `ops` have the status `Success`.
pub open spec fn count_created(ops: Seq<OperationView>) -> nat {
    ops.filter(|op: OperationView| op.status is Success).len()
}

/// How many of `ops` were skipped.
pub open spec fn count_skipped(ops: Seq<OperationView>) -> nat {
    ops.filter(|op: OperationView| op.status is Skipped).len()
}

/// How many of `ops` failed.
pub open spec fn count_failed(ops: Seq<OperationView>) -> nat {
    ops.filter(|op: OperationView| op.status is Failed).len()
}

/// The counts of a list of outcomes.
#[derive(Debug, PartialEq, Eq, Structural, Clone, Copy)]
pub struct OperationTally {
    pub created: usize,
    pub skipped: usize,
    pub failed: usize,
}

/// Counts the outcomes of each kind.
pub fn tally(ops: &Vec<SymlinkOperation>) -> (t: OperationTally)
    ensures
        t.created == count_created(ops.deep_view()),
        t.skipped == count_skipped(ops.deep_view()),
        t.failed == count_failed(ops.deep_view()),
        t.created + t.skipped + t.failed == ops.len(),
{
    let mut created: usize = 0;
    let mut skipped: usize = 0;
    let mut failed: usize = 0;
    let mut i: usize = 0;
    let ghost all = ops.deep_view();
    assert(all.take(0) =~= Seq::<OperationView>::empty());
    while i < ops.len()
        invariant
            i <= ops.len(),
            all == ops.deep_view(),
            created == count_created(all.take(i as int)),
            skipped == count_skipped(all.take(i as int)),
            failed == count_failed(all.take(i as int)),
            created + skipped + failed == i,
        decreases ops.len() - i,
    {
        proof {
            crate::strings::lemma_filter_next(
                all,
                |op: OperationView| op.status is Success,
                i as int,
            );
            crate::strings::lemma_filter_next(
                all,
                |op: OperationView| op.status is Skipped,
                i as int,
            );
            crate::strings::lemma_filter_next(
                all,
                |op: OperationView| op.status is Failed,
                i as int,
            );
        }
        match &ops[i].status {
            OperationStatus::Success => {
                created += 1;
            },
            OperationStatus::Skipped(_) => {
                skipped += 1;
            },
            OperationStatus::Failed(_) => {
                failed += 1;
            },
        }
        i += 1;
    }
    assert(all.take(ops.len() as int) =~= all);
    OperationTally { created, skipped, failed }
}

/// Decides what activation does with one file.
pub fn decide_link_for(source_node: &Node, target_node: &Node, source: &str, can_backup: bool) -> (d:
    LinkDecision)
    ensures
        d == decide_link(source_node@, target_node@, source@, can_backup),
{
    match source_node {
        Node::Missing => {
            return LinkDecision::SourceMissing;
        },
        _ => {},
    }
    match target_node {
        Node::Missing => LinkDecision::Create,
        Node::Symlink(dest) => {
            if str_eq(dest.as_str(), source) {
                LinkDecision::AlreadyCorrect
            } else if can_backup {
                LinkDecision::BackupThenCreate
            } else {
                LinkDecision::RefuseOverwrite
            }
        },
        _ => {
            if can_backup {
                LinkDecision::BackupThenCreate
            } else {
                LinkDecision::RefuseOverwrite
            }
        },
    }
}

/// Decides what deactivation does with one recorded link.
pub fn decide_unlink_for(target_node: &Node, source: &str) -> (d: UnlinkDecision)
    ensures
        d == decide_unlink(target_node@, source@),
{
    match target_node {
        Node::Missing => UnlinkDecision::AlreadyAbsent,
        Node::Symlink(dest) => {
            if str_eq(dest.as_str(), source) {
                UnlinkDecision::Remove
            } else {
                UnlinkDecision::NotOurs
            }
        },
        _ => UnlinkDecision::NotOurs,
    }
}

fn status_of_link(d: LinkDecision) -> (s: OperationStatus)
    ensures
        s@ == link_status(d),
{
    match d {
        LinkDecision::SourceMissing => OperationStatus::Failed(
            "source missing in repository".to_owned(),
        ),
        LinkDecision::Create => OperationStatus::Success,
        LinkDecision::AlreadyCorrect => OperationStatus::Skipped("already correct".to_owned()),
        LinkDecision::BackupThenCreate => OperationStatus::Success,
        LinkDecision::RefuseOverwrite => OperationStatus::Failed(
            "would overwrite existing file".to_owned(),
        ),
    }
}

fn status_of_unlink(d: UnlinkDecision) -> (s: OperationStatus)
    ensures
        s@ == unlink_status(d),
{
    match d {
        UnlinkDecision::Remove => OperationStatus::Success,
        UnlinkDecision::AlreadyAbsent => OperationStatus::Skipped("already absent".to_owned()),
        UnlinkDecision::NotOurs => OperationStatus::Skipped("not our symlink".to_owned()),
    }
}

/// The engine with its ledger.
#[derive(Debug)]
pub struct SymlinkManager {
    pub repo_path: String,
    pub home_dir: String,
    pub backup_root: String,
    pub backup_enabled: bool,
    pub tracking: TrackingLedger,
}

impl SymlinkManager {
    /// Where this engine works.
    pub open spec fn settings(&self) -> Settings {
        Settings {
            repo_path: self.repo_path@,
            home_dir: self.home_dir@,
            backup_root: self.backup_root@,
            backup_enabled: self.backup_enabled,
        }
    }

    /// The world that this engine and `fs` make up.
    pub open spec fn world(&self, fs: FsModel) -> World {
        World { fs, symlinks: self.tracking@.symlinks }
    }

    /// An engine with backups enabled. The backups lie under
    /// `.dotstate-backups` in the home directory.
    pub fn new(repo_path: String, home_dir: String, tracking: TrackingLedger) -> (m: Self)
        ensures
            m.repo_path@ == repo_path@,
            m.home_dir@ == home_dir@,
            m.backup_root@ == joined(home_dir@, ".dotstate-backups"@),
            m.backup_enabled,
            m.tracking@ == tracking@,
    {
        SymlinkManager::new_with_backup(repo_path, home_dir, tracking, true)
    }

    /// An engine with backups enabled or not. The backups lie under
    /// `.dotstate-backups` in the home directory.
    pub fn new_with_backup(
        repo_path: String,
        home_dir: String,
        tracking: TrackingLedger,
        backup_enabled: bool,
    ) -> (m: Self)
        ensures
            m.repo_path@ == repo_path@,
            m.home_dir@ == home_dir@,
            m.backup_root@ == joined(home_dir@, ".dotstate-backups"@),
            m.backup_enabled == backup_enabled,
            m.tracking@ == tracking@,
    {
        let backup_root = join(home_dir.as_str(), ".dotstate-backups");
        SymlinkManager { repo_path, home_dir, backup_root, backup_enabled, tracking }
    }

    fn scope_dir_of(scope: &SymlinkScope) -> (r: String)
        ensures
            r@ == scope_dir(scope@),
    {
        proof {
            reveal_strlit("common");
            assert("common"@ =~= common_name());
        }
        match scope {
            SymlinkScope::Profile(name) => name.clone(),
            SymlinkScope::Common => "common".to_owned(),
        }
    }

    /// Activates one file: decides by what stands at its source and its
    /// target, plans the change in `fs`, enters the link in the ledger, and
    /// reports the outcome.
    pub fn link_file(&mut self, fs: &mut FsView, rel: &str, scope: &SymlinkScope, session: &str) -> (op:
        SymlinkOperation)
        ensures
            final(self).settings() == old(self).settings(),
            old(self).tracking.wf() ==> final(self).tracking.wf(),
            final(self).tracking@.active_profile == old(self).tracking@.active_profile,
            final(self).world(final(fs)@) == linked(
                old(self).settings(),
                session@,
                old(self).world(old(fs)@),
                rel@,
                scope@,
            ),
            op@ == link_outcome(
                old(self).settings(),
                session@,
                old(self).world(old(fs)@),
                rel@,
                scope@,
            ),
    {
        let dir = SymlinkManager::scope_dir_of(scope);
        let source = join(join(self.repo_path.as_str(), dir.as_str()).as_str(), rel);
        let target = join(self.home_dir.as_str(), rel);
        let location = join(join(self.backup_root.as_str(), session).as_str(), rel);
        let can_backup = self.backup_enabled && !str_eq(location.as_str(), target.as_str());
        let source_node = fs.node_at(source.as_str());
        let target_node = fs.node_at(target.as_str());
        let d = decide_link_for(&source_node, &target_node, source.as_str(), can_backup);
        match d {
            LinkDecision::Create => {
                fs.create_symlink(source.as_str(), target.as_str());
                self.tracking.record(
                    SymlinkRecord { source, target: target.clone(), scope: scope.clone() },
                );
            },
            LinkDecision::AlreadyCorrect => {
                if self.tracking.find_target(target.as_str()).is_none() {
                    let record = SymlinkRecord { source, target: target.clone(), scope: scope.clone() };
                    self.tracking.record(record);
                }
            },
            LinkDecision::BackupThenCreate => {
                fs.move_to_backup(target.as_str(), location.as_str());
                fs.create_symlink(source.as_str(), target.as_str());
                self.tracking.record(
                    SymlinkRecord { source, target: target.clone(), scope: scope.clone() },
                );
            },
            _ => {},
        }
        SymlinkOperation { target, status: status_of_link(d) }
    }

    fn link_files(&mut self, fs: &mut FsView, files: &Vec<String>, scope: &SymlinkScope, session: &str) -> (ops:
        Vec<SymlinkOperation>)
        ensures
            final(self).settings() == old(self).settings(),
            old(self).tracking.wf() ==> final(self).tracking.wf(),
            final(self).tracking@.active_profile == old(self).tracking@.active_profile,
            final(self).world(final(fs)@) == linked_all(
                old(self).settings(),
                session@,
                old(self).world(old(fs)@),
                files.deep_view(),
                scope@,
            ),
            ops.deep_view() == link_outcomes(
                old(self).settings(),
                session@,
                old(self).world(old(fs)@),
                files.deep_view(),
                scope@,
            ),
    {
        let mut ops: Vec<SymlinkOperation> = Vec::new();
        let mut i: usize = 0;
        let ghost cfg = self.settings();
        let ghost start = self.world(fs@);
        let ghost rels = files.deep_view();
        assert(rels.take(0) =~= Seq::<Seq<char>>::empty());
        assert(ops.deep_view() =~= Seq::<OperationView>::empty());
        while i < files.len()
            invariant
                i <= files.len(),
                rels == files.deep_view(),
                self.settings() == cfg,
                self.tracking@.active_profile == old(self).tracking@.active_profile,
                old(self).tracking.wf() ==> self.tracking.wf(),
                self.world(fs@) == linked_all(cfg, session@, start, rels.take(i as int), scope@),
                ops.deep_view() == link_outcomes(cfg, session@, start, rels.take(i as int), scope@),
            decreases files.len() - i,
        {
            assert(rels.take(i + 1).drop_last() =~= rels.take(i as int));
            assert(rels.take(i + 1).last() == files@[i as int]@);
            let ghost before = ops.deep_view();
            let op = self.link_file(fs, files[i].as_str(), scope, session);
            ops.push(op);
            assert(ops.deep_view() =~= before.push(op@));
            i += 1;
        }
        assert(rels.take(files.len() as int) =~= rels);
        ops
    }

    /// Activates the files of the profile `profile_name`, in the order
    /// given, and makes that profile the active one.
    pub fn activate_profile(
        &mut self,
        fs: &mut FsView,
        profile_name: &str,
        files: &Vec<String>,
        session: &str,
    ) -> (ops: Vec<SymlinkOperation>)
        ensures
            final(self).settings() == old(self).settings(),
            old(self).tracking.wf() ==> final(self).tracking.wf(),
            final(self).tracking@.active_profile == profile_name@,
            final(self).world(final(fs)@) == linked_all(
                old(self).settings(),
                session@,
                old(self).world(old(fs)@),
                files.deep_view(),
                ScopeView::Profile(profile_name@),
            ),
            ops.deep_view() == link_outcomes(
                old(self).settings(),
                session@,
                old(self).world(old(fs)@),
                files.deep_view(),
                ScopeView::Profile(profile_name@),
            ),
    {
        let scope = SymlinkScope::Profile(profile_name.to_owned());
        let ops = self.link_files(fs, files, &scope, session);
        self.tracking.active_profile = profile_name.to_owned();
        ops
    }

    /// Activates the common files, in the order given.
    pub fn activate_common_files(&mut self, fs: &mut FsView, files: &Vec<String>, session: &str) -> (ops:
        Vec<SymlinkOperation>)
        ensures
            final(self).settings() == old(self).settings(),
            old(self).tracking.wf() ==> final(self).tracking.wf(),
            final(self).tracking@.active_profile == old(self).tracking@.active_profile,
            final(self).world(final(fs)@) == linked_all(
                old(self).settings(),
                session@,
                old(self).world(old(fs)@),
                files.deep_view(),
                ScopeView::Common,
            ),
            ops.deep_view() == link_outcomes(
                old(self).settings(),
                session@,
                old(self).world(old(fs)@),
                files.deep_view(),
                ScopeView::Common,
            ),
    {
        self.link_files(fs, files, &SymlinkScope::Common, session)
    }

    /// Activates the files of the profile `profile_name`, then the common
    /// files, and makes that profile the active one. Every file is worked
    /// on, whatever became of the ones before it; the outcomes come in the
    /// order of the files.
    pub fn activate(
        &mut self,
        fs: &mut FsView,
        profile_name: &str,
        files: &Vec<String>,
        common_files: &Vec<String>,
        session: &str,
    ) -> (ops: Vec<SymlinkOperation>)
        ensures
            final(self).settings() == old(self).settings(),
            old(self).tracking.wf() ==> final(self).tracking.wf(),
            final(self).tracking@.active_profile == profile_name@,
            final(self).world(final(fs)@) == activated(
                old(self).settings(),
                session@,
                old(self).world(old(fs)@),
                profile_name@,
                files.deep_view(),
                common_files.deep_view(),
            ),
            ops.deep_view() == activation_outcomes(
                old(self).settings(),
                session@,
                old(self).world(old(fs)@),
                profile_name@,
                files.deep_view(),
                common_files.deep_view(),
            ),
    {
        let mut ops = self.activate_profile(fs, profile_name, files, session);
        let ghost first = ops.deep_view();
        let mut more = self.activate_common_files(fs, common_files, session);
        let ghost second = more.deep_view();
        ops.append(&mut more);
        assert(ops.deep_view() =~= first + second);
        ops
    }

    /// Deactivates every recorded link of the profile `profile_name` and
    /// every common one, in the ledger's order, then drops their records
    /// and, where that profile was the active one, leaves no profile active.
    /// A target that is not our link is left as it is.
    pub fn deactivate(&mut self, fs: &mut FsView, profile_name: &str, restore: bool) -> (ops: Vec<
        SymlinkOperation,
    >)
        ensures
            final(self).settings() == old(self).settings(),
            old(self).tracking.wf() ==> final(self).tracking.wf(),
            final(self).tracking@.symlinks == out_of_scope(
                old(self).tracking@.symlinks,
                profile_name@,
            ),
            final(self).tracking@.active_profile == if old(self).tracking@.active_profile
                == profile_name@ {
                Seq::<char>::empty()
            } else {
                old(self).tracking@.active_profile
            },
            final(fs)@ == deactivated(
                old(fs)@,
                old(self).tracking@.symlinks,
                profile_name@,
                restore,
            ),
            ops.deep_view() == deactivation_outcomes(
                old(fs)@,
                old(self).tracking@.symlinks,
                profile_name@,
                restore,
            ),
    {
        let mut ops: Vec<SymlinkOperation> = Vec::new();
        let mut i: usize = 0;
        let ghost start = fs@;
        let ghost records = self.tracking@.symlinks;
        let ghost held = targets(records);
        assert(records.take(0) =~= Seq::<RecordView>::empty());
        assert(ops.deep_view() =~= Seq::<OperationView>::empty());
        while i < self.tracking.symlinks.len()
            invariant
                i <= self.tracking.symlinks.len(),
                records == self.tracking@.symlinks,
                self.tracking@ == old(self).tracking@,
                self.settings() == old(self).settings(),
                held == targets(records),
                fs@ == unlinked_all(start, records.take(i as int), profile_name@, restore, held),
                ops.deep_view() == unlink_outcomes(
                    start,
                    records.take(i as int),
                    profile_name@,
                    restore,
                    held,
                ),
            decreases self.tracking.symlinks.len() - i,
        {
            assert(records.take(i + 1).drop_last() =~= records.take(i as int));
            assert(records.take(i + 1).last() == self.tracking.symlinks@[i as int]@);
            let record = &self.tracking.symlinks[i];
            if record.scope.covers(profile_name) {
                let ghost before = ops.deep_view();
                let op = unlink_record(fs, record, restore, &self.tracking);
                ops.push(op);
                assert(ops.deep_view() =~= before.push(op@));
            }
            i += 1;
        }
        assert(records.take(records.len() as int) =~= records);
        self.tracking.drop_scope(profile_name);
        if str_eq(self.tracking.active_profile.as_str(), profile_name) {
            self.tracking.active_profile = String::new();
        }
        ops
    }

    /// The path of `target` below the home directory, where it lies there.
    pub fn relative_to_home(&self, target: &str) -> (r: Option<String>)
        ensures
            r.deep_view() == home_relative(self.settings(), target@),
    {
        let prefix = join(self.home_dir.as_str(), "");
        proof {
            reveal_strlit("");
            assert(""@ =~= Seq::<char>::empty());
        }
        match strip_prefix(target, prefix.as_str()) {
            Some(rel) => {
                assert(rel@ =~= target@.skip(prefix@.len() as int));
                assert(target@.subrange(0, prefix@.len() as int) =~= prefix@);
                Some(rel)
            },
            None => None,
        }
    }

    /// Notes in `fs` the latest backup of `target`, the file `rel` of the
    /// home directory: that of the session latest by name, among
    /// `sessions`, that holds one. Gives the position of that session.
    /// Nothing is noted where no session holds a backup.
    pub fn note_latest_backup(
        &self,
        fs: &mut FsView,
        sessions: &Vec<String>,
        target: &str,
        rel: &str,
    ) -> (r: Option<usize>)
        ensures
            match r {
                Some(k) => is_latest_session(
                    old(fs)@,
                    self.settings(),
                    sessions.deep_view(),
                    rel@,
                    k as int,
                ) && final(fs)@ == old(fs)@.with_backup(
                    target@,
                    Some(backup_path(self.settings(), sessions.deep_view()[k as int], rel@)),
                ),
                None => final(fs)@ == old(fs)@ && forall|j: int|
                    0 <= j < sessions.len() ==> !holds_backup(
                        old(fs)@,
                        self.settings(),
                        #[trigger] sessions.deep_view()[j],
                        rel@,
                    ),
            },
    {
        let ghost names = sessions.deep_view();
        let ghost cfg = self.settings();
        let mut best: Option<usize> = None;
        let mut i: usize = 0;
        while i < sessions.len()
            invariant
                i <= sessions.len(),
                names == sessions.deep_view(),
                cfg == self.settings(),
                fs@ == old(fs)@,
                match best {
                    Some(k) => k < i && holds_backup(fs@, cfg, names[k as int], rel@) && forall|
                        j: int,
                    |
                        0 <= j < i && holds_backup(fs@, cfg, #[trigger] names[j], rel@) ==> text_le(
                            names[j],
                            names[k as int],
                        ),
                    None => forall|j: int|
                        0 <= j < i ==> !holds_backup(fs@, cfg, #[trigger] names[j], rel@),
                },
            decreases sessions.len() - i,
        {
            let location = join(join(self.backup_root.as_str(), sessions[i].as_str()).as_str(), rel);
            if fs.is_present(location.as_str()) {
                match best {
                    Some(k) => {
                        proof {
                            lemma_text_le_total(names[k as int], names[i as int]);
                        }
                        if text_precedes(sessions[k].as_str(), sessions[i].as_str()) {
                            assert forall|j: int|
                                0 <= j < i + 1 && holds_backup(
                                    fs@,
                                    cfg,
                                    #[trigger] names[j],
                                    rel@,
                                ) implies text_le(names[j], names[i as int]) by {
                                if j < i {
                                    lemma_text_le_transitive(
                                        names[j],
                                        names[k as int],
                                        names[i as int],
                                    );
                                } else {
                                    lemma_text_le_total(names[i as int], names[i as int]);
                                }
                            }
                            best = Some(i);
                        }
                    },
                    None => {
                        proof {
                            lemma_text_le_total(names[i as int], names[i as int]);
                        }
                        best = Some(i);
                    },
                }
            }
            i += 1;
        }
        match best {
            Some(k) => {
                let location = join(
                    join(self.backup_root.as_str(), sessions[k].as_str()).as_str(),
                    rel,
                );
                fs.observe_backup(target, location.as_str());
            },
            None => {},
        }
        best
    }

    /// Takes back what was reported for `target` after the planned change
    /// failed on disk: the first outcome for `target` becomes `Failed` with
    /// `message`, and the records of `target` leave the ledger.
    pub fn note_failure(&mut self, ops: &mut Vec<SymlinkOperation>, target: &str, message: &str)
        ensures
            final(self).settings() == old(self).settings(),
            old(self).tracking.wf() ==> final(self).tracking.wf(),
            final(self).tracking@.active_profile == old(self).tracking@.active_profile,
            final(self).tracking@.symlinks == old(self).tracking@.symlinks.filter(
                |r: RecordView| r.target != target@,
            ),
            final(ops).deep_view() == failed_at(old(ops).deep_view(), target@, message@),
    {
        let ghost all = ops.deep_view();
        match find_operation(ops, target) {
            Some(i) => {
                proof {
                    crate::strings::lemma_first_index(op_targets(all), target@, i as int);
                }
                let failed = SymlinkOperation {
                    target: target.to_owned(),
                    status: OperationStatus::Failed(message.to_owned()),
                };
                ops.set(i, failed);
                assert(ops.deep_view() =~= all.update(i as int, failed@));
            },
            None => {},
        }
        self.tracking.drop_target(target);
    }
}

/// The position of the first outcome for `target`.
pub fn find_operation(ops: &Vec<SymlinkOperation>, target: &str) -> (r: Option<usize>)
    ensures
        match r {
            Some(i) => crate::strings::is_first_index(op_targets(ops.deep_view()), target@, i as int),
            None => !op_targets(ops.deep_view()).contains(target@),
        },
{
    let mut i: usize = 0;
    while i < ops.len()
        invariant
            i <= ops.len(),
            forall|j: int| 0 <= j < i ==> op_targets(ops.deep_view())[j] != target@,
        decreases ops.len() - i,
    {
        if str_eq(ops[i].target.as_str(), target) {
            return Some(i);
        }
        i += 1;
    }
    None
}

/// The targets of `ops`, in order.
pub open spec fn op_targets(ops: Seq<OperationView>) -> Seq<Seq<char>> {
    Seq::new(ops.len(), |i: int| ops[i].target)
}

/// `ops` with the first outcome for `target` turned into a failure with
/// `message`; unchanged where there is no outcome for `target`.
pub open spec fn failed_at(ops: Seq<OperationView>, target: Seq<char>, message: Seq<char>) -> Seq<
    OperationView,
> {
    if op_targets(ops).contains(target) {
        ops.update(
            crate::strings::first_index(op_targets(ops), target),
            OperationView { target, status: StatusView::Failed(message) },
        )
    } else {
        ops
    }
}

/// The world after the profile `profile` with its files `files` and the
/// common files `common_files` were activated.
pub open spec fn activated(
    cfg: Settings,
    session: Seq<char>,
    w: World,
    profile: Seq<char>,
    files: Seq<Seq<char>>,
    common_files: Seq<Seq<char>>,
) -> World {
    linked_all(
        cfg,
        session,
        linked_all(cfg, session, w, files, ScopeView::Profile(profile)),
        common_files,
        ScopeView::Common,
    )
}

/// The outcomes that this activation reports: those of the profile's files,
/// then those of the common files.
pub open spec fn activation_outcomes(
    cfg: Settings,
    session: Seq<char>,
    w: World,
    profile: Seq<char>,
    files: Seq<Seq<char>>,
    common_files: Seq<Seq<char>>,
) -> Seq<OperationView> {
    link_outcomes(cfg, session, w, files, ScopeView::Profile(profile)) + link_outcomes(
        cfg,
        session,
        linked_all(cfg, session, w, files, ScopeView::Profile(profile)),
        common_files,
        ScopeView::Common,
    )
}

/// Deactivates one recorded link: removes the link where the target is a
/// link to the record's source, and then, where `restore` is set, moves a
/// known backup back, unless it stands at a target that `tracking` holds.
/// Anything else at the target is left as it is.
pub fn unlink_record(
    fs: &mut FsView,
    record: &SymlinkRecord,
    restore: bool,
    tracking: &TrackingLedger,
) -> (op: SymlinkOperation)
    ensures
        final(fs)@ == unlinked(old(fs)@, record@, restore, targets(tracking@.symlinks)),
        op@ == unlink_outcome(old(fs)@, record@),
{
    let target_node = fs.node_at(record.target.as_str());
    let d = decide_unlink_for(&target_node, record.source.as_str());
    match d {
        UnlinkDecision::Remove => {
            let backup = fs.latest_backup(record.target.as_str());
            let usable = match &backup {
                Some(location) => restore && fs.is_present(location.as_str()) && !str_eq(
                    location.as_str(),
                    record.target.as_str(),
                ) && tracking.find_target(location.as_str()).is_none(),
                None => false,
            };
            fs.remove_symlink(record.target.as_str());
            if usable {
                match &backup {
                    Some(location) => {
                        fs.restore_backup(record.target.as_str(), location.as_str());
                    },
                    None => {},
                }
            }
        },
        _ => {},
    }
    SymlinkOperation { target: record.target.clone(), status: status_of_unlink(d) }
}

} // verus!
