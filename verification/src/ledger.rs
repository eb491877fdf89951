//! The tracking ledger: every symbolic link that was placed, in the order
//! of placing. A link is known by its target.

use vstd::prelude::*;
use crate::fsview::FsModel;
use crate::fsview::FsView;
use crate::strings::first_index;
use crate::strings::is_first_index;
use crate::strings::lemma_filter_next;
use crate::strings::lemma_first_index;
use crate::strings::str_eq;

verus! {

/// Whom a link belongs to.
#[derive(Debug, PartialEq, Eq)]
pub enum SymlinkScope {
    /// The profile of that name.
    Profile(String),
    /// Every profile.
    Common,
}

/// The mathematical value of a `SymlinkScope`.
pub enum ScopeView {
    Profile(Seq<char>),
    Common,
}

impl View for SymlinkScope {
    type V = ScopeView;

    open spec fn view(&self) -> ScopeView {
        match self {
            SymlinkScope::Profile(name) => ScopeView::Profile(name@),
            SymlinkScope::Common => ScopeView::Common,
        }
    }
}

impl Clone for SymlinkScope {
    fn clone(&self) -> (r: Self)
        ensures
            r@ == self@,
    {
        match self {
            SymlinkScope::Profile(name) => SymlinkScope::Profile(name.clone()),
            SymlinkScope::Common => SymlinkScope::Common,
        }
    }
}

/// Whether a link of scope `scope` is touched when the profile `profile` is
/// deactivated: it belongs to that profile or is common.
pub open spec fn in_scope(scope: ScopeView, profile: Seq<char>) -> bool {
    match scope {
        ScopeView::Profile(name) => name == profile,
        ScopeView::Common => true,
    }
}

impl SymlinkScope {
    /// Whether this scope is touched when `profile` is deactivated.
    pub fn covers(&self, profile: &str) -> (r: bool)
        ensures
            r == in_scope(self@, profile@),
    {
        match self {
            SymlinkScope::Profile(name) => str_eq(name.as_str(), profile),
            SymlinkScope::Common => true,
        }
    }
}

/// One placed link: `target`, in the home directory, points at `source`, in
/// the repository.
#[derive(Debug, PartialEq, Eq)]
pub struct SymlinkRecord {
    pub source: String,
    pub target: String,
    pub scope: SymlinkScope,
}

/// The mathematical value of a `SymlinkRecord`.
pub struct RecordView {
    pub source: Seq<char>,
    pub target: Seq<char>,
    pub scope: ScopeView,
}

impl View for SymlinkRecord {
    type V = RecordView;

    open spec fn view(&self) -> RecordView {
        RecordView { source: self.source@, target: self.target@, scope: self.scope@ }
    }
}

impl DeepView for SymlinkRecord {
    type V = RecordView;

    open spec fn deep_view(&self) -> RecordView {
        self@
    }
}

impl Clone for SymlinkRecord {
    fn clone(&self) -> (r: Self)
        ensures
            r@ == self@,
    {
        SymlinkRecord {
            source: self.source.clone(),
            target: self.target.clone(),
            scope: self.scope.clone(),
        }
    }
}

/// The targets of `records`, in order.
pub open spec fn targets(records: Seq<RecordView>) -> Seq<Seq<char>> {
    Seq::new(records.len(), |i: int| records[i].target)
}

/// `records` after `record` was entered: it takes the place of the first
/// record with its target, or stands at the end where there is none.
pub open spec fn recorded(records: Seq<RecordView>, record: RecordView) -> Seq<RecordView> {
    if targets(records).contains(record.target) {
        records.update(first_index(targets(records), record.target), record)
    } else {
        records.push(record)
    }
}

/// The records of `records` that the deactivation of `profile` leaves.
pub open spec fn out_of_scope(records: Seq<RecordView>, profile: Seq<char>) -> Seq<RecordView> {
    records.filter(|r: RecordView| !in_scope(r.scope, profile))
}

/// The records of `records` whose target is on disk in `fs`.
pub open spec fn with_target_present(records: Seq<RecordView>, fs: FsModel) -> Seq<RecordView> {
    records.filter(|r: RecordView| fs.present(r.target))
}

/// Dropping records adds no target and leaves none recorded twice where
/// none was.
pub proof fn lemma_filter_keeps_targets(records: Seq<RecordView>, keep: spec_fn(RecordView) -> bool)
    ensures
        forall|t: Seq<char>|
            targets(records.filter(keep)).contains(t) ==> targets(records).contains(t),
        targets(records).no_duplicates() ==> targets(records.filter(keep)).no_duplicates(),
    decreases records.len(),
{
    reveal_with_fuel(Seq::filter, 2);
    if records.len() > 0 {
        let init = records.drop_last();
        let last = records.last();
        lemma_filter_keeps_targets(init, keep);
        let kept = records.filter(keep);
        let before = init.filter(keep);
        assert(kept == if keep(last) {
            before.push(last)
        } else {
            before
        });
        assert forall|k: int| 0 <= k < before.len() implies targets(init).contains(
            #[trigger] before[k].target,
        ) by {
            assert(targets(before)[k] == before[k].target);
            assert(targets(before).contains(before[k].target));
        }
        assert forall|t: Seq<char>| targets(init).contains(t) implies targets(records).contains(
            t,
        ) by {
            let j = choose|j: int| 0 <= j < targets(init).len() && targets(init)[j] == t;
            assert(init[j] == records[j]);
            assert(targets(records)[j] == t);
        }
        assert forall|t: Seq<char>| targets(kept).contains(t) implies targets(records).contains(
            t,
        ) by {
            let k = choose|k: int| 0 <= k < targets(kept).len() && targets(kept)[k] == t;
            if k < before.len() {
                assert(kept[k] == before[k]);
                assert(targets(init).contains(before[k].target));
            } else {
                assert(kept[k] == last);
                assert(targets(records)[records.len() - 1] == t);
            }
        }
        if targets(records).no_duplicates() {
            assert forall|a: int, b: int|
                0 <= a < init.len() && 0 <= b < init.len() && a != b implies targets(init)[a]
                != targets(init)[b] by {
                assert(targets(records)[a] != targets(records)[b]);
            }
            assert(targets(before).no_duplicates());
            assert forall|x: int| 0 <= x < before.len() implies (#[trigger] before[x]).target
                != last.target by {
                assert(targets(init).contains(before[x].target));
                let j = choose|j: int|
                    0 <= j < targets(init).len() && targets(init)[j] == before[x].target;
                assert(init[j] == records[j]);
                assert(targets(records)[j] != targets(records)[records.len() - 1]);
            }
            assert forall|a: int, b: int|
                0 <= a < kept.len() && 0 <= b < kept.len() && a != b implies targets(kept)[a]
                != targets(kept)[b] by {
                if a < before.len() && b < before.len() {
                    assert(kept[a] == before[a] && kept[b] == before[b]);
                    assert(targets(before)[a] != targets(before)[b]);
                } else if a < before.len() {
                    assert(kept[a] == before[a]);
                    assert(kept[b] == last);
                } else {
                    assert(kept[b] == before[b]);
                    assert(kept[a] == last);
                }
            }
        }
    }
}

/// Why a ledger could not be had.
#[derive(Debug, PartialEq, Eq, Structural, Clone, Copy)]
pub enum LedgerError {
    /// The ledger file cannot be parsed.
    Corrupt,
}

/// The ledger.
#[derive(Debug)]
pub struct TrackingLedger {
    /// The name of the active profile, empty where none is active.
    pub active_profile: String,
    /// The placed links, oldest first.
    pub symlinks: Vec<SymlinkRecord>,
}

/// The mathematical value of a `TrackingLedger`.
pub struct LedgerView {
    pub active_profile: Seq<char>,
    pub symlinks: Seq<RecordView>,
}

impl View for TrackingLedger {
    type V = LedgerView;

    open spec fn view(&self) -> LedgerView {
        LedgerView { active_profile: self.active_profile@, symlinks: self.symlinks.deep_view() }
    }
}

impl Clone for TrackingLedger {
    fn clone(&self) -> (r: Self)
        ensures
            r@ == self@,
    {
        let symlinks = self.symlinks.clone();
        assert(symlinks.deep_view() =~= self.symlinks.deep_view());
        TrackingLedger { active_profile: self.active_profile.clone(), symlinks }
    }
}

impl TrackingLedger {
    /// Whether no target is recorded twice.
    pub open spec fn wf(&self) -> bool {
        targets(self@.symlinks).no_duplicates()
    }

    /// The empty ledger: no profile active, no link placed.
    pub fn new() -> (ledger: Self)
        ensures
            ledger@.active_profile.len() == 0,
            ledger@.symlinks.len() == 0,
            ledger.wf(),
    {
        TrackingLedger { active_profile: String::new(), symlinks: Vec::new() }
    }

    /// Settles what a load attempt gave: no file (`None`) gives the empty
    /// ledger, a file that was read stands, and one that cannot be parsed
    /// fails with `Corrupt`.
    pub fn load_or_init(found: Option<Result<TrackingLedger, LedgerError>>) -> (r: Result<
        TrackingLedger,
        LedgerError,
    >)
        ensures
            match found {
                None => r is Ok && r->Ok_0@.active_profile.len() == 0 && r->Ok_0@.symlinks.len()
                    == 0,
                Some(Ok(ledger)) => r is Ok && r->Ok_0@ == ledger@,
                Some(Err(e)) => r == Err::<TrackingLedger, LedgerError>(e),
            },
    {
        match found {
            None => Ok(TrackingLedger::new()),
            Some(Ok(ledger)) => Ok(ledger),
            Some(Err(e)) => Err(e),
        }
    }

    /// The position of the first record whose target is `target`.
    pub fn find_target(&self, target: &str) -> (r: Option<usize>)
        ensures
            match r {
                Some(i) => is_first_index(targets(self@.symlinks), target@, i as int),
                None => !targets(self@.symlinks).contains(target@),
            },
    {
        let mut i: usize = 0;
        while i < self.symlinks.len()
            invariant
                i <= self.symlinks.len(),
                forall|j: int| 0 <= j < i ==> targets(self@.symlinks)[j] != target@,
            decreases self.symlinks.len() - i,
        {
            if str_eq(self.symlinks[i].target.as_str(), target) {
                return Some(i);
            }
            i += 1;
        }
        None
    }

    /// Enters `record`: in place of the first record with its target, or at
    /// the end where there is none.
    pub fn record(&mut self, record: SymlinkRecord)
        ensures
            final(self)@.symlinks == recorded(old(self)@.symlinks, record@),
            final(self)@.active_profile == old(self)@.active_profile,
            old(self).wf() ==> final(self).wf(),
    {
        let ghost before = self@.symlinks;
        match self.find_target(record.target.as_str()) {
            Some(i) => {
                proof {
                    lemma_first_index(targets(before), record.target@, i as int);
                }
                self.symlinks.set(i, record);
                assert(self@.symlinks =~= before.update(i as int, record@));
                assert(targets(self@.symlinks) =~= targets(before));
            },
            None => {
                self.symlinks.push(record);
                assert(self@.symlinks =~= before.push(record@));
                assert(targets(self@.symlinks) =~= targets(before).push(record.target@));
                assert(old(self).wf() ==> self.wf()) by {
                    if old(self).wf() {
                        let t = targets(self@.symlinks);
                        assert forall|a: int, b: int|
                            0 <= a < t.len() && 0 <= b < t.len() && a != b implies t[a] != t[b] by {
                            if a < before.len() && b < before.len() {
                                assert(targets(before)[a] != targets(before)[b]);
                            } else if a < before.len() {
                                assert(targets(before)[a] != record.target@);
                            } else {
                                assert(targets(before)[b] != record.target@);
                            }
                        }
                    }
                }
            },
        }
    }

    /// Drops the records that the deactivation of `profile` touches.
    pub fn drop_scope(&mut self, profile: &str)
        ensures
            final(self)@.symlinks == out_of_scope(old(self)@.symlinks, profile@),
            final(self)@.active_profile == old(self)@.active_profile,
            old(self).wf() ==> final(self).wf(),
    {
        proof {
            lemma_filter_keeps_targets(
                self@.symlinks,
                |r: RecordView| !in_scope(r.scope, profile@),
            );
        }
        let mut kept: Vec<SymlinkRecord> = Vec::new();
        let mut i: usize = 0;
        let ghost all = self@.symlinks;
        let ghost keep = |r: RecordView| !in_scope(r.scope, profile@);
        assert(all.take(0) =~= Seq::<RecordView>::empty());
        assert(kept.deep_view() =~= all.take(0).filter(keep));
        while i < self.symlinks.len()
            invariant
                i <= self.symlinks.len(),
                all == self@.symlinks,
                keep == |r: RecordView| !in_scope(r.scope, profile@),
                kept.deep_view() == all.take(i as int).filter(keep),
            decreases self.symlinks.len() - i,
        {
            proof {
                lemma_filter_next(all, keep, i as int);
            }
            let ghost before = kept.deep_view();
            if !self.symlinks[i].scope.covers(profile) {
                kept.push(self.symlinks[i].clone());
                assert(kept.deep_view() =~= before.push(all[i as int]));
            }
            i += 1;
        }
        assert(all.take(all.len() as int) =~= all);
        self.symlinks = kept;
    }

    /// Drops the records for `target`.
    pub fn drop_target(&mut self, target: &str)
        ensures
            final(self)@.symlinks == old(self)@.symlinks.filter(
                |r: RecordView| r.target != target@,
            ),
            final(self)@.active_profile == old(self)@.active_profile,
            old(self).wf() ==> final(self).wf(),
    {
        proof {
            lemma_filter_keeps_targets(self@.symlinks, |r: RecordView| r.target != target@);
        }
        let mut kept: Vec<SymlinkRecord> = Vec::new();
        let mut i: usize = 0;
        let ghost all = self@.symlinks;
        let ghost keep = |r: RecordView| r.target != target@;
        assert(all.take(0) =~= Seq::<RecordView>::empty());
        assert(kept.deep_view() =~= all.take(0).filter(keep));
        while i < self.symlinks.len()
            invariant
                i <= self.symlinks.len(),
                all == self@.symlinks,
                keep == |r: RecordView| r.target != target@,
                kept.deep_view() == all.take(i as int).filter(keep),
            decreases self.symlinks.len() - i,
        {
            proof {
                lemma_filter_next(all, keep, i as int);
            }
            let ghost before = kept.deep_view();
            if !str_eq(self.symlinks[i].target.as_str(), target) {
                kept.push(self.symlinks[i].clone());
                assert(kept.deep_view() =~= before.push(all[i as int]));
            }
            i += 1;
        }
        assert(all.take(all.len() as int) =~= all);
        self.symlinks = kept;
    }

    /// Drops the records whose target is no longer on disk.
    pub fn prune_missing(&mut self, fs: &FsView)
        ensures
            final(self)@.symlinks == with_target_present(old(self)@.symlinks, fs@),
            final(self)@.active_profile == old(self)@.active_profile,
            old(self).wf() ==> final(self).wf(),
    {
        proof {
            lemma_filter_keeps_targets(self@.symlinks, |r: RecordView| fs@.present(r.target));
        }
        let mut kept: Vec<SymlinkRecord> = Vec::new();
        let mut i: usize = 0;
        let ghost all = self@.symlinks;
        let ghost keep = |r: RecordView| fs@.present(r.target);
        assert(all.take(0) =~= Seq::<RecordView>::empty());
        assert(kept.deep_view() =~= all.take(0).filter(keep));
        while i < self.symlinks.len()
            invariant
                i <= self.symlinks.len(),
                all == self@.symlinks,
                keep == |r: RecordView| fs@.present(r.target),
                kept.deep_view() == all.take(i as int).filter(keep),
            decreases self.symlinks.len() - i,
        {
            proof {
                lemma_filter_next(all, keep, i as int);
            }
            let ghost before = kept.deep_view();
            if fs.is_present(self.symlinks[i].target.as_str()) {
                kept.push(self.symlinks[i].clone());
                assert(kept.deep_view() =~= before.push(all[i as int]));
            }
            i += 1;
        }
        assert(all.take(all.len() as int) =~= all);
        self.symlinks = kept;
    }
}

} // verus!
