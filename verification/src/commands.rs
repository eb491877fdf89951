//! What the commands that place, remove and list the links decide around a
//! run of the engine: whether to run it at all, which planned changes to
//! leave out after one failed on disk, what the outcomes mean for the
//! settings and the ledger, and how a listed file stands.

use vstd::prelude::*;
use crate::config::Config;
use crate::config::ConfigView;
use crate::fsview::FsAction;
use crate::fsview::Node;
use crate::fsview::NodeView;
use crate::ledger::RecordView;
use crate::ledger::TrackingLedger;
use crate::manifest::files_of;
use crate::manifest::profile_names;
use crate::manifest::ManifestView;
use crate::manifest::ProfileManifest;
use crate::strings::str_eq;
use crate::symlink_manager::count_created;
use crate::symlink_manager::count_failed;
use crate::symlink_manager::count_skipped;
use crate::symlink_manager::failed_at;
use crate::symlink_manager::tally;
use crate::symlink_manager::OperationView;
use crate::symlink_manager::SymlinkManager;
use crate::symlink_manager::SymlinkOperation;

verus! {

/// Whether the settings allow the links to be placed.
#[derive(Debug, PartialEq, Eq, Structural, Clone, Copy)]
pub enum Readiness {
    /// No repository is set up: the command fails.
    NotConfigured,
    /// The settings say the links are in place: nothing is done.
    AlreadyActive,
    /// The manifest is read and the activation planned.
    Ready,
}

/// The readiness that the settings `config` give: a repository comes
/// first, then the word on activation.
pub open spec fn readiness_of(config: ConfigView) -> Readiness {
    if config.repo_path.len() == 0 {
        Readiness::NotConfigured
    } else if config.profile_activated {
        Readiness::AlreadyActive
    } else {
        Readiness::Ready
    }
}

/// Decides from the settings alone whether an activation is to be
/// planned.
pub fn readiness(config: &Config) -> (r: Readiness)
    ensures
        r == readiness_of(config@),
{
    if !config.is_repo_configured() {
        Readiness::NotConfigured
    } else if config.profile_activated {
        Readiness::AlreadyActive
    } else {
        Readiness::Ready
    }
}

/// What the command to activate does with the manifest it finds.
#[derive(Debug, PartialEq, Eq, Structural, Clone, Copy)]
pub enum ActivationPlan {
    /// The manifest does not have the active profile: the command fails.
    NoSuchProfile,
    /// The active profile syncs no file: the command fails.
    NothingToSync,
    /// The engine runs.
    Proceed,
}

/// The plan for the settings `config` and the manifest `manifest`.
pub open spec fn activation_plan(config: ConfigView, manifest: ManifestView) -> ActivationPlan {
    if !profile_names(manifest.profiles).contains(config.active_profile) {
        ActivationPlan::NoSuchProfile
    } else if files_of(manifest, config.active_profile).len() == 0 {
        ActivationPlan::NothingToSync
    } else {
        ActivationPlan::Proceed
    }
}

/// Decides whether the engine is to activate the active profile.
pub fn plan_activation(config: &Config, manifest: &ProfileManifest) -> (plan: ActivationPlan)
    ensures
        plan == activation_plan(config@, manifest@),
{
    match manifest.profile_files(config.active_profile.as_str()) {
        Some(files) => {
            if files.len() == 0 {
                ActivationPlan::NothingToSync
            } else {
                ActivationPlan::Proceed
            }
        },
        None => ActivationPlan::NoSuchProfile,
    }
}

/// How a synced file stands in the home directory.
#[derive(Debug, PartialEq, Eq, Structural, Clone, Copy)]
pub enum LinkState {
    /// A link stands there and leads somewhere.
    ActiveLink,
    /// Something stands there that is no link.
    NotALink,
    /// Nothing stands there, or a link that leads nowhere.
    NotFound,
}

/// The state of a path at which `itself` stands and, links followed,
/// `resolved`.
pub open spec fn link_state_of(itself: NodeView, resolved: NodeView) -> LinkState {
    if resolved is Missing {
        LinkState::NotFound
    } else if itself is Symlink {
        LinkState::ActiveLink
    } else {
        LinkState::NotALink
    }
}

/// Tells how a synced file stands in the home directory, from what stands
/// at its path and what stands there with links followed.
pub fn link_state(itself: &Node, resolved: &Node) -> (r: LinkState)
    ensures
        r == link_state_of(itself@, resolved@),
{
    match resolved {
        Node::Missing => LinkState::NotFound,
        _ => match itself {
            Node::Symlink(_) => LinkState::ActiveLink,
            _ => LinkState::NotALink,
        },
    }
}

/// How a run of the engine ended.
#[derive(Debug, PartialEq, Eq, Structural, Clone, Copy)]
pub enum Conclusion {
    /// There was nothing to do.
    NothingTracked,
    /// Some outcomes are failures: the settings stay as they were.
    Incomplete { done: usize, failed: usize },
    /// No outcome is a failure: the settings follow.
    Completed { done: usize },
}

/// Whether `c` is the conclusion from the outcomes `ops` of a run that
/// had something to do.
pub open spec fn concludes(c: Conclusion, ops: Seq<OperationView>) -> bool {
    match c {
        Conclusion::NothingTracked => false,
        Conclusion::Incomplete { done, failed } => count_failed(ops) > 0 && failed == count_failed(
            ops,
        ) && done == count_created(ops) + count_skipped(ops),
        Conclusion::Completed { done } => count_failed(ops) == 0 && done == count_created(ops)
            + count_skipped(ops),
    }
}

/// `config` with the word on activation set to `activated`.
pub open spec fn with_activation(config: ConfigView, activated: bool) -> ConfigView {
    ConfigView { profile_activated: activated, ..config }
}

/// Concludes an activation from its outcomes: where none failed, the
/// settings say from now on that the links are in place; where one failed,
/// they stay as they were.
pub fn conclude_activation(config: &mut Config, ops: &Vec<SymlinkOperation>) -> (c: Conclusion)
    ensures
        concludes(c, ops.deep_view()),
        final(config)@ == if count_failed(ops.deep_view()) == 0 {
            with_activation(old(config)@, true)
        } else {
            old(config)@
        },
{
    let counts = tally(ops);
    if counts.failed > 0 {
        Conclusion::Incomplete { done: counts.created + counts.skipped, failed: counts.failed }
    } else {
        config.profile_activated = true;
        Conclusion::Completed { done: counts.created + counts.skipped }
    }
}

/// Concludes a deactivation from its outcomes: where there is none,
/// nothing was tracked; where none failed, the settings say from now on
/// that the links are not in place; otherwise they stay as they were.
pub fn conclude_deactivation(config: &mut Config, ops: &Vec<SymlinkOperation>) -> (c: Conclusion)
    ensures
        ops.len() == 0 ==> c == Conclusion::NothingTracked,
        ops.len() > 0 ==> concludes(c, ops.deep_view()),
        final(config)@ == if ops.len() > 0 && count_failed(ops.deep_view()) == 0 {
            with_activation(old(config)@, false)
        } else {
            old(config)@
        },
{
    let counts = tally(ops);
    if ops.len() == 0 {
        Conclusion::NothingTracked
    } else if counts.failed > 0 {
        Conclusion::Incomplete { done: counts.created + counts.skipped, failed: counts.failed }
    } else {
        config.profile_activated = false;
        Conclusion::Completed { done: counts.created + counts.skipped }
    }
}

/// A planned change that could not be made on disk.
#[derive(Debug, PartialEq, Eq)]
pub struct Failure {
    /// The path in the home directory that the change was made for.
    pub target: String,
    pub reason: String,
}

/// The mathematical value of a `Failure`.
pub struct FailureView {
    pub target: Seq<char>,
    pub reason: Seq<char>,
}

impl View for Failure {
    type V = FailureView;

    open spec fn view(&self) -> FailureView {
        FailureView { target: self.target@, reason: self.reason@ }
    }
}

impl DeepView for Failure {
    type V = FailureView;

    open spec fn deep_view(&self) -> FailureView {
        self@
    }
}

/// Whether one of `failures` is for the path `target`.
pub open spec fn has_failed(failures: Seq<FailureView>, target: Seq<char>) -> bool {
    exists|i: int| 0 <= i < failures.len() && (#[trigger] failures[i]).target == target
}

/// Whether the planned change `action` is left out: a change for the same
/// target failed before it.
pub fn is_held_back(action: &FsAction, failures: &Vec<Failure>) -> (r: bool)
    ensures
        r == has_failed(failures.deep_view(), action@.target()),
{
    let target = action.target();
    let mut i: usize = 0;
    while i < failures.len()
        invariant
            i <= failures.len(),
            target@ == action@.target(),
            forall|j: int| 0 <= j < i ==> (#[trigger] failures.deep_view()[j]).target != target@,
        decreases failures.len() - i,
    {
        if str_eq(failures[i].target.as_str(), target.as_str()) {
            assert(failures.deep_view()[i as int].target == target@);
            return true;
        }
        i += 1;
    }
    false
}

/// The outcomes `ops` after each of `failures` was taken note of, first to
/// last: for each, the first outcome for its target becomes a failure
/// with its reason.
pub open spec fn outcomes_after(ops: Seq<OperationView>, failures: Seq<FailureView>) -> Seq<
    OperationView,
>
    decreases failures.len(),
{
    if failures.len() == 0 {
        ops
    } else {
        failed_at(
            outcomes_after(ops, failures.drop_last()),
            failures.last().target,
            failures.last().reason,
        )
    }
}

/// The records that stay after `failures`: those for whose target no
/// change failed.
pub open spec fn records_after(records: Seq<RecordView>, failures: Seq<FailureView>) -> Seq<
    RecordView,
>
    decreases failures.len(),
{
    if failures.len() == 0 {
        records
    } else {
        records_after(records, failures.drop_last()).filter(
            |r: RecordView| r.target != failures.last().target,
        )
    }
}

/// Takes note of every failure on disk, first to last: what the engine
/// reported for the target becomes a failure, and the target's records
/// leave the ledger.
pub fn note_failures(
    manager: &mut SymlinkManager,
    ops: &mut Vec<SymlinkOperation>,
    failures: &Vec<Failure>,
)
    ensures
        final(manager).settings() == old(manager).settings(),
        old(manager).tracking.wf() ==> final(manager).tracking.wf(),
        final(manager).tracking@.active_profile == old(manager).tracking@.active_profile,
        final(manager).tracking@.symlinks == records_after(
            old(manager).tracking@.symlinks,
            failures.deep_view(),
        ),
        final(ops).deep_view() == outcomes_after(old(ops).deep_view(), failures.deep_view()),
{
    let ghost all = failures.deep_view();
    let ghost first_ops = ops.deep_view();
    let ghost first_records = manager.tracking@.symlinks;
    let mut i: usize = 0;
    assert(all.take(0) =~= Seq::<FailureView>::empty());
    while i < failures.len()
        invariant
            i <= failures.len(),
            all == failures.deep_view(),
            manager.settings() == old(manager).settings(),
            old(manager).tracking.wf() ==> manager.tracking.wf(),
            manager.tracking@.active_profile == old(manager).tracking@.active_profile,
            manager.tracking@.symlinks == records_after(first_records, all.take(i as int)),
            ops.deep_view() == outcomes_after(first_ops, all.take(i as int)),
        decreases failures.len() - i,
    {
        assert(all.take(i + 1).drop_last() =~= all.take(i as int));
        assert(all.take(i + 1).last() == failures[i as int]@);
        manager.note_failure(ops, failures[i].target.as_str(), failures[i].reason.as_str());
        i += 1;
    }
    assert(all.take(failures.len() as int) =~= all);
}

/// Drops from the ledger the records of every target for which a change
/// failed on disk, so that it records no link that was not placed.
pub fn forget_failed(ledger: &mut TrackingLedger, failures: &Vec<Failure>)
    ensures
        final(ledger)@.symlinks == records_after(old(ledger)@.symlinks, failures.deep_view()),
        final(ledger)@.active_profile == old(ledger)@.active_profile,
        old(ledger).wf() ==> final(ledger).wf(),
{
    let ghost all = failures.deep_view();
    let ghost first_records = ledger@.symlinks;
    let mut i: usize = 0;
    assert(all.take(0) =~= Seq::<FailureView>::empty());
    while i < failures.len()
        invariant
            i <= failures.len(),
            all == failures.deep_view(),
            old(ledger).wf() ==> ledger.wf(),
            ledger@.active_profile == old(ledger)@.active_profile,
            ledger@.symlinks == records_after(first_records, all.take(i as int)),
        decreases failures.len() - i,
    {
        assert(all.take(i + 1).drop_last() =~= all.take(i as int));
        assert(all.take(i + 1).last() == failures[i as int]@);
        ledger.drop_target(failures[i].target.as_str());
        i += 1;
    }
    assert(all.take(failures.len() as int) =~= all);
}

} // verus!
