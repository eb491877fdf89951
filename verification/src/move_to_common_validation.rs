//! Validation for moving a file from a profile to the common files.
//!
//! Before a file leaves its profile, the common files are checked for its
//! path, and every other profile for the same path, with its content
//! compared, and for paths above or below it, which the paths alone decide.

use vstd::prelude::*;
use crate::fsview::FsModel;
use crate::fsview::FsView;
use crate::fsview::Node;
use crate::fsview::NodeView;
use crate::manifest::ManifestView;
use crate::manifest::ProfileManifest;
use crate::manifest::ProfileView;
use crate::paths::is_strictly_inside;
use crate::paths::join;
use crate::paths::joined;
use crate::paths::strictly_inside;
use crate::strings::contains_string;
use crate::strings::lemma_filter_next;
use crate::strings::str_eq;

verus! {

/// A conflict found when moving a file to common.
#[derive(Debug, PartialEq, Eq)]
pub enum MoveToCommonConflict {
    /// The same path is in another profile with identical content.
    SameContentInProfile { profile_name: String },
    /// The same path is in another profile with different content.
    DifferentContentInProfile {
        profile_name: String,
        /// The sizes of the two files, where both could be read.
        size_diff: Option<(u64, u64)>,
    },
    /// A path of another profile lies above or below the file.
    PathHierarchyConflict {
        profile_name: String,
        conflicting_path: String,
        /// Whether the conflicting path lies above the file.
        is_parent: bool,
    },
    /// The path is among the common files already.
    AlreadyInCommon,
}

/// The mathematical value of a `MoveToCommonConflict`.
pub enum ConflictView {
    SameContentInProfile { profile_name: Seq<char> },
    DifferentContentInProfile { profile_name: Seq<char>, size_diff: Option<(u64, u64)> },
    PathHierarchyConflict { profile_name: Seq<char>, conflicting_path: Seq<char>, is_parent: bool },
    AlreadyInCommon,
}

impl View for MoveToCommonConflict {
    type V = ConflictView;

    open spec fn view(&self) -> ConflictView {
        match self {
            MoveToCommonConflict::SameContentInProfile {
                profile_name,
            } => ConflictView::SameContentInProfile { profile_name: profile_name@ },
            MoveToCommonConflict::DifferentContentInProfile {
                profile_name,
                size_diff,
            } => ConflictView::DifferentContentInProfile {
                profile_name: profile_name@,
                size_diff: *size_diff,
            },
            MoveToCommonConflict::PathHierarchyConflict {
                profile_name,
                conflicting_path,
                is_parent,
            } => ConflictView::PathHierarchyConflict {
                profile_name: profile_name@,
                conflicting_path: conflicting_path@,
                is_parent: *is_parent,
            },
            MoveToCommonConflict::AlreadyInCommon => ConflictView::AlreadyInCommon,
        }
    }
}

impl DeepView for MoveToCommonConflict {
    type V = ConflictView;

    open spec fn deep_view(&self) -> ConflictView {
        self@
    }
}

impl Clone for MoveToCommonConflict {
    fn clone(&self) -> (r: Self)
        ensures
            r@ == self@,
    {
        match self {
            MoveToCommonConflict::SameContentInProfile {
                profile_name,
            } => MoveToCommonConflict::SameContentInProfile { profile_name: profile_name.clone() },
            MoveToCommonConflict::DifferentContentInProfile {
                profile_name,
                size_diff,
            } => MoveToCommonConflict::DifferentContentInProfile {
                profile_name: profile_name.clone(),
                size_diff: *size_diff,
            },
            MoveToCommonConflict::PathHierarchyConflict {
                profile_name,
                conflicting_path,
                is_parent,
            } => MoveToCommonConflict::PathHierarchyConflict {
                profile_name: profile_name.clone(),
                conflicting_path: conflicting_path.clone(),
                is_parent: *is_parent,
            },
            MoveToCommonConflict::AlreadyInCommon => MoveToCommonConflict::AlreadyInCommon,
        }
    }
}

/// The result of validating a move to common.
#[derive(Debug)]
pub struct MoveToCommonValidation {
    /// Whether the move can proceed: no conflict blocks it.
    pub can_proceed: bool,
    /// The conflicts, in the order of the profiles.
    pub conflicts: Vec<MoveToCommonConflict>,
    /// Whether every conflict resolves by itself (same content).
    pub all_auto_resolvable: bool,
    /// The profiles whose copy is cleaned up when the move proceeds.
    pub profiles_to_cleanup: Vec<String>,
}

/// The mathematical value of a `MoveToCommonValidation`.
pub struct ValidationView {
    pub can_proceed: bool,
    pub conflicts: Seq<ConflictView>,
    pub all_auto_resolvable: bool,
    pub profiles_to_cleanup: Seq<Seq<char>>,
}

impl View for MoveToCommonValidation {
    type V = ValidationView;

    open spec fn view(&self) -> ValidationView {
        ValidationView {
            can_proceed: self.can_proceed,
            conflicts: self.conflicts.deep_view(),
            all_auto_resolvable: self.all_auto_resolvable,
            profiles_to_cleanup: self.profiles_to_cleanup.deep_view(),
        }
    }
}

/// The result without conflicts.
pub open spec fn safe_validation() -> ValidationView {
    ValidationView {
        can_proceed: true,
        conflicts: Seq::empty(),
        all_auto_resolvable: true,
        profiles_to_cleanup: Seq::empty(),
    }
}

impl MoveToCommonValidation {
    /// A validation result with no conflicts.
    pub fn safe() -> (r: Self)
        ensures
            r@ == safe_validation(),
    {
        let r = MoveToCommonValidation {
            can_proceed: true,
            conflicts: Vec::new(),
            all_auto_resolvable: true,
            profiles_to_cleanup: Vec::new(),
        };
        assert(r@.conflicts =~= Seq::empty());
        assert(r@.profiles_to_cleanup =~= Seq::empty());
        r
    }
}

/// Whether a conflict blocks the move: all do but identical content in
/// another profile.
pub open spec fn is_blocking(c: ConflictView) -> bool {
    !(c is SameContentInProfile)
}

/// Why two paths could not be compared.
#[derive(Debug, PartialEq, Eq, Structural, Clone, Copy)]
pub enum CompareError {
    /// One of the two is missing or cannot be read as a file or directory.
    Unreadable,
}

/// Whether what stands at two paths is the same: two files with the same
/// bytes, or two directories with the same set of entry names. A file and a
/// directory differ. Nothing is said (`None`) where one of the two is
/// missing or a symbolic link.
pub open spec fn nodes_match(a: NodeView, b: NodeView) -> Option<bool> {
    match (a, b) {
        (NodeView::File(x), NodeView::File(y)) => Some(x == y),
        (NodeView::Directory(x), NodeView::Directory(y)) => Some(x.to_set() == y.to_set()),
        (NodeView::File(_), NodeView::Directory(_)) => Some(false),
        (NodeView::Directory(_), NodeView::File(_)) => Some(false),
        _ => None,
    }
}

/// The size of what stands at a path: the number of bytes of a file, zero
/// for anything else.
pub open spec fn node_size(n: NodeView) -> nat {
    match n {
        NodeView::File(bytes) => bytes.len(),
        _ => 0,
    }
}

fn bytes_equal(a: &Vec<u8>, b: &Vec<u8>) -> (r: bool)
    ensures
        r == (a@ == b@),
{
    if a.len() != b.len() {
        return false;
    }
    let mut i: usize = 0;
    while i < a.len()
        invariant
            i <= a.len(),
            a.len() == b.len(),
            forall|j: int| 0 <= j < i ==> a@[j] == b@[j],
        decreases a.len() - i,
    {
        if a[i] != b[i] {
            return false;
        }
        i += 1;
    }
    assert(a@ =~= b@);
    true
}

fn names_within(a: &Vec<String>, b: &Vec<String>) -> (r: bool)
    ensures
        r == (forall|x: Seq<char>| a.deep_view().contains(x) ==> b.deep_view().contains(x)),
{
    let mut i: usize = 0;
    while i < a.len()
        invariant
            i <= a.len(),
            forall|j: int| 0 <= j < i ==> b.deep_view().contains(#[trigger] a.deep_view()[j]),
        decreases a.len() - i,
    {
        if !contains_string(b, a[i].as_str()) {
            assert(a.deep_view().contains(a.deep_view()[i as int]));
            return false;
        }
        i += 1;
    }
    true
}

fn same_names(a: &Vec<String>, b: &Vec<String>) -> (r: bool)
    ensures
        r == (a.deep_view().to_set() == b.deep_view().to_set()),
{
    let r = names_within(a, b) && names_within(b, a);
    proof {
        let sa = a.deep_view().to_set();
        let sb = b.deep_view().to_set();
        if r {
            assert(sa =~= sb);
        } else {
            if sa == sb {
                assert forall|x: Seq<char>| a.deep_view().contains(x) implies b.deep_view().contains(
                    x,
                ) by {
                    assert(sa.contains(x));
                    assert(sb.contains(x));
                }
                assert forall|x: Seq<char>| b.deep_view().contains(x) implies a.deep_view().contains(
                    x,
                ) by {
                    assert(sb.contains(x));
                    assert(sa.contains(x));
                }
            }
        }
    }
    r
}

/// Compares what stands at two paths.
pub fn nodes_have_same_content(a: &Node, b: &Node) -> (r: Result<bool, CompareError>)
    ensures
        match nodes_match(a@, b@) {
            Some(same) => r == Ok::<bool, CompareError>(same),
            None => r == Err::<bool, CompareError>(CompareError::Unreadable),
        },
{
    match a {
        Node::File(x) => match b {
            Node::File(y) => Ok(bytes_equal(x, y)),
            Node::Directory(_) => Ok(false),
            _ => Err(CompareError::Unreadable),
        },
        Node::Directory(x) => match b {
            Node::Directory(y) => Ok(same_names(x, y)),
            Node::File(_) => Ok(false),
            _ => Err(CompareError::Unreadable),
        },
        _ => Err(CompareError::Unreadable),
    }
}

/// Compares what stands at `path1` and `path2`: file contents byte for
/// byte, directories by the names of their immediate entries.
pub fn files_have_same_content(fs: &FsView, path1: &str, path2: &str) -> (r: Result<
    bool,
    CompareError,
>)
    ensures
        match nodes_match(fs@.node(path1@), fs@.node(path2@)) {
            Some(same) => r == Ok::<bool, CompareError>(same),
            None => r == Err::<bool, CompareError>(CompareError::Unreadable),
        },
{
    let a = fs.node_at(path1);
    let b = fs.node_at(path2);
    nodes_have_same_content(&a, &b)
}

fn size_of(n: &Node) -> (r: u64)
    ensures
        r == node_size(n@),
{
    match n {
        Node::File(bytes) => bytes.len() as u64,
        _ => 0,
    }
}

/// Where the file `rel` of the profile `profile` lies in the repository.
pub open spec fn stored_at(repo: Seq<char>, profile: Seq<char>, rel: Seq<char>) -> Seq<char> {
    joined(joined(repo, profile), rel)
}

/// The hierarchy conflict that the synced path `synced` of the profile
/// `profile_name` gives for the file `rel`, if any. It is decided by the
/// two paths alone: `rel` lies below `synced`, which is then the parent, or
/// `synced` lies below `rel`.
pub open spec fn hierarchy_conflict(
    profile_name: Seq<char>,
    rel: Seq<char>,
    synced: Seq<char>,
) -> Option<ConflictView> {
    if strictly_inside(rel, synced) {
        Some(
            ConflictView::PathHierarchyConflict {
                profile_name,
                conflicting_path: synced,
                is_parent: true,
            },
        )
    } else if strictly_inside(synced, rel) {
        Some(
            ConflictView::PathHierarchyConflict {
                profile_name,
                conflicting_path: synced,
                is_parent: false,
            },
        )
    } else {
        None
    }
}

/// The hierarchy conflicts that the synced paths `files` of the profile
/// `profile_name` give, in the order of `files`.
pub open spec fn hierarchy_conflicts(
    profile_name: Seq<char>,
    rel: Seq<char>,
    files: Seq<Seq<char>>,
) -> Seq<ConflictView>
    decreases files.len(),
{
    if files.len() == 0 {
        Seq::empty()
    } else {
        let before = hierarchy_conflicts(profile_name, rel, files.drop_last());
        match hierarchy_conflict(profile_name, rel, files.last()) {
            Some(c) => before.push(c),
            None => before,
        }
    }
}

/// The conflict that the copy of `rel` in the profile `profile_name` gives:
/// same content where the copy is not on disk or matches the file, different
/// content otherwise, with the two sizes where both could be compared.
pub open spec fn content_conflict(
    fs: FsModel,
    repo: Seq<char>,
    source_profile: Seq<char>,
    rel: Seq<char>,
    profile_name: Seq<char>,
) -> ConflictView {
    let mine = fs.node(stored_at(repo, source_profile, rel));
    let other = fs.node(stored_at(repo, profile_name, rel));
    if other is Missing {
        ConflictView::SameContentInProfile { profile_name }
    } else {
        match nodes_match(mine, other) {
            Some(true) => ConflictView::SameContentInProfile { profile_name },
            Some(false) => ConflictView::DifferentContentInProfile {
                profile_name,
                size_diff: Some((node_size(mine) as u64, node_size(other) as u64)),
            },
            None => ConflictView::DifferentContentInProfile { profile_name, size_diff: None },
        }
    }
}

/// The conflicts that one other profile gives: where it lists `rel`
/// itself, the conflict of its copy; then, whether it lists `rel` or not,
/// its hierarchy conflicts.
pub open spec fn profile_conflicts(
    fs: FsModel,
    repo: Seq<char>,
    source_profile: Seq<char>,
    rel: Seq<char>,
    profile: ProfileView,
) -> Seq<ConflictView> {
    let hierarchy = hierarchy_conflicts(profile.name, rel, profile.synced_files);
    if profile.synced_files.contains(rel) {
        seq![content_conflict(fs, repo, source_profile, rel, profile.name)] + hierarchy
    } else {
        hierarchy
    }
}

/// The conflicts that the profiles other than `source_profile` give, in
/// the order of the profiles.
pub open spec fn all_conflicts(
    fs: FsModel,
    repo: Seq<char>,
    source_profile: Seq<char>,
    rel: Seq<char>,
    profiles: Seq<ProfileView>,
) -> Seq<ConflictView>
    decreases profiles.len(),
{
    if profiles.len() == 0 {
        Seq::empty()
    } else {
        let before = all_conflicts(fs, repo, source_profile, rel, profiles.drop_last());
        if profiles.last().name == source_profile {
            before
        } else {
            before + profile_conflicts(fs, repo, source_profile, rel, profiles.last())
        }
    }
}

/// The conflict that the common files give: the path is among them
/// already.
pub open spec fn common_conflicts(common: Seq<Seq<char>>, rel: Seq<char>) -> Seq<ConflictView> {
    if common.contains(rel) {
        seq![ConflictView::AlreadyInCommon]
    } else {
        Seq::empty()
    }
}

/// The name of the profile, or bucket, that a conflict speaks of.
pub open spec fn conflict_profile(c: ConflictView) -> Seq<char> {
    match c {
        ConflictView::SameContentInProfile { profile_name } => profile_name,
        ConflictView::DifferentContentInProfile { profile_name, .. } => profile_name,
        ConflictView::PathHierarchyConflict { profile_name, .. } => profile_name,
        ConflictView::AlreadyInCommon => crate::manifest::common_name(),
    }
}

/// The profiles to clean up: those of the conflicts with the same content,
/// in order.
pub open spec fn cleanup_names(conflicts: Seq<ConflictView>) -> Seq<Seq<char>> {
    conflicts.filter(|c: ConflictView| c is SameContentInProfile).map_values(
        |c: ConflictView| conflict_profile(c),
    )
}

/// The result for a list of conflicts.
pub open spec fn verdict(conflicts: Seq<ConflictView>) -> ValidationView {
    ValidationView {
        can_proceed: forall|i: int| 0 <= i < conflicts.len() ==> !is_blocking(conflicts[i]),
        conflicts,
        all_auto_resolvable: forall|i: int|
            0 <= i < conflicts.len() ==> conflicts[i] is SameContentInProfile,
        profiles_to_cleanup: cleanup_names(conflicts),
    }
}

/// All conflicts of a move: that with the common files, then those with
/// the other profiles.
pub open spec fn move_conflicts(
    fs: FsModel,
    manifest: ManifestView,
    repo: Seq<char>,
    source_profile: Seq<char>,
    rel: Seq<char>,
) -> Seq<ConflictView> {
    common_conflicts(manifest.common, rel) + all_conflicts(
        fs,
        repo,
        source_profile,
        rel,
        manifest.profiles,
    )
}

/// The result of validating the move of the file `rel` of `source_profile`
/// to common: safe where the file is not on disk, otherwise the verdict on
/// the conflicts with the common files and with the other profiles.
pub open spec fn validation(
    fs: FsModel,
    manifest: ManifestView,
    repo: Seq<char>,
    source_profile: Seq<char>,
    rel: Seq<char>,
) -> ValidationView {
    if !fs.present(stored_at(repo, source_profile, rel)) {
        safe_validation()
    } else {
        verdict(move_conflicts(fs, manifest, repo, source_profile, rel))
    }
}

fn push_conflict(list: &mut Vec<MoveToCommonConflict>, c: MoveToCommonConflict)
    ensures
        final(list).deep_view() == old(list).deep_view().push(c@),
{
    let ghost before = list.deep_view();
    list.push(c);
    assert(list.deep_view() =~= before.push(c@));
}

/// Checks the synced paths of one other profile for paths above or below
/// the file that is being moved. The paths alone decide; the repository
/// and the moving profile have no say.
pub fn check_path_hierarchy_conflicts(
    repo_path: &str,
    source_profile: &str,
    profile_name: &str,
    relative_path: &str,
    profile_files: &Vec<String>,
) -> (conflicts: Vec<MoveToCommonConflict>)
    ensures
        conflicts.deep_view() == hierarchy_conflicts(
            profile_name@,
            relative_path@,
            profile_files.deep_view(),
        ),
{
    let mut conflicts: Vec<MoveToCommonConflict> = Vec::new();
    let ghost files = profile_files.deep_view();
    let mut i: usize = 0;
    assert(files.take(0) =~= Seq::<Seq<char>>::empty());
    assert(conflicts.deep_view() =~= Seq::<ConflictView>::empty());
    while i < profile_files.len()
        invariant
            i <= profile_files.len(),
            files == profile_files.deep_view(),
            conflicts.deep_view() == hierarchy_conflicts(
                profile_name@,
                relative_path@,
                files.take(i as int),
            ),
        decreases profile_files.len() - i,
    {
        assert(files.take(i + 1).drop_last() =~= files.take(i as int));
        assert(files.take(i + 1).last() == profile_files@[i as int]@);
        let synced_file = &profile_files[i];
        if is_strictly_inside(relative_path, synced_file.as_str()) {
            push_conflict(
                &mut conflicts,
                MoveToCommonConflict::PathHierarchyConflict {
                    profile_name: profile_name.to_owned(),
                    conflicting_path: synced_file.clone(),
                    is_parent: true,
                },
            );
        } else if is_strictly_inside(synced_file.as_str(), relative_path) {
            push_conflict(
                &mut conflicts,
                MoveToCommonConflict::PathHierarchyConflict {
                    profile_name: profile_name.to_owned(),
                    conflicting_path: synced_file.clone(),
                    is_parent: false,
                },
            );
        }
        i += 1;
    }
    assert(files.take(profile_files.len() as int) =~= files);
    conflicts
}

fn check_content_conflict(
    fs: &FsView,
    repo_path: &str,
    source_profile: &str,
    relative_path: &str,
    profile_name: &str,
) -> (c: MoveToCommonConflict)
    ensures
        c@ == content_conflict(fs@, repo_path@, source_profile@, relative_path@, profile_name@),
{
    let source_file_path = join(join(repo_path, source_profile).as_str(), relative_path);
    let other_file_path = join(join(repo_path, profile_name).as_str(), relative_path);
    let mine = fs.node_at(source_file_path.as_str());
    let other = fs.node_at(other_file_path.as_str());
    match other {
        Node::Missing => {
            return MoveToCommonConflict::SameContentInProfile {
                profile_name: profile_name.to_owned(),
            };
        },
        _ => {},
    }
    match nodes_have_same_content(&mine, &other) {
        Ok(true) => MoveToCommonConflict::SameContentInProfile {
            profile_name: profile_name.to_owned(),
        },
        Ok(false) => MoveToCommonConflict::DifferentContentInProfile {
            profile_name: profile_name.to_owned(),
            size_diff: Some((size_of(&mine), size_of(&other))),
        },
        Err(_) => MoveToCommonConflict::DifferentContentInProfile {
            profile_name: profile_name.to_owned(),
            size_diff: None,
        },
    }
}

fn append_conflicts(list: &mut Vec<MoveToCommonConflict>, more: Vec<MoveToCommonConflict>)
    ensures
        final(list).deep_view() == old(list).deep_view() + more.deep_view(),
{
    let mut more = more;
    let ghost a = list.deep_view();
    let ghost b = more.deep_view();
    list.append(&mut more);
    assert(list.deep_view() =~= a + b);
}

/// Judges a list of conflicts: whether the move can proceed, whether every
/// conflict resolves by itself, and which profiles are cleaned up.
pub fn judge(conflicts: Vec<MoveToCommonConflict>) -> (r: MoveToCommonValidation)
    ensures
        r@ == verdict(conflicts.deep_view()),
{
    let mut blocked = false;
    let mut cleanup: Vec<String> = Vec::new();
    let ghost all = conflicts.deep_view();
    let ghost same = |c: ConflictView| c is SameContentInProfile;
    let ghost name = |c: ConflictView| conflict_profile(c);
    let mut i: usize = 0;
    assert(all.take(0) =~= Seq::<ConflictView>::empty());
    assert(cleanup.deep_view() =~= all.take(0).filter(same).map_values(name));
    while i < conflicts.len()
        invariant
            i <= conflicts.len(),
            all == conflicts.deep_view(),
            same == |c: ConflictView| c is SameContentInProfile,
            name == |c: ConflictView| conflict_profile(c),
            !blocked == (forall|j: int| 0 <= j < i ==> !is_blocking(all[j])),
            cleanup.deep_view() == all.take(i as int).filter(same).map_values(name),
        decreases conflicts.len() - i,
    {
        proof {
            lemma_filter_next(all, same, i as int);
        }
        let ghost before = cleanup.deep_view();
        match &conflicts[i] {
            MoveToCommonConflict::SameContentInProfile { profile_name } => {
                cleanup.push(profile_name.clone());
                assert(cleanup.deep_view() =~= before.push(profile_name@));
                assert(all.take(i as int).filter(same).push(all[i as int]).map_values(name)
                    =~= before.push(profile_name@));
            },
            _ => {
                assert(is_blocking(all[i as int]));
                blocked = true;
            },
        }
        i += 1;
    }
    assert(all.take(conflicts.len() as int) =~= all);
    MoveToCommonValidation {
        can_proceed: !blocked,
        conflicts,
        all_auto_resolvable: !blocked,
        profiles_to_cleanup: cleanup,
    }
}

/// Validates moving the file `relative_path` of the profile
/// `source_profile` to common, against every other profile of `manifest`.
pub fn validate_move_to_common(
    fs: &FsView,
    manifest: &ProfileManifest,
    repo_path: &str,
    source_profile: &str,
    relative_path: &str,
) -> (r: MoveToCommonValidation)
    ensures
        r@ == validation(fs@, manifest@, repo_path@, source_profile@, relative_path@),
{
    let source_file_path = join(join(repo_path, source_profile).as_str(), relative_path);
    if !fs.is_present(source_file_path.as_str()) {
        return MoveToCommonValidation::safe();
    }
    let mut conflicts: Vec<MoveToCommonConflict> = Vec::new();
    let ghost profiles = manifest@.profiles;
    let ghost first = common_conflicts(manifest@.common, relative_path@);
    assert(conflicts.deep_view() =~= Seq::<ConflictView>::empty());
    if contains_string(&manifest.common.synced_files, relative_path) {
        push_conflict(&mut conflicts, MoveToCommonConflict::AlreadyInCommon);
    }
    assert(conflicts.deep_view() =~= first);
    let mut i: usize = 0;
    assert(profiles.take(0) =~= Seq::<ProfileView>::empty());
    assert(conflicts.deep_view() =~= first + Seq::<ConflictView>::empty());
    while i < manifest.profiles.len()
        invariant
            i <= manifest.profiles.len(),
            profiles == manifest@.profiles,
            first == common_conflicts(manifest@.common, relative_path@),
            conflicts.deep_view() == first + all_conflicts(
                fs@,
                repo_path@,
                source_profile@,
                relative_path@,
                profiles.take(i as int),
            ),
        decreases manifest.profiles.len() - i,
    {
        assert(profiles.take(i + 1).drop_last() =~= profiles.take(i as int));
        assert(profiles.take(i + 1).last() == manifest.profiles@[i as int]@);
        let profile = &manifest.profiles[i];
        if !str_eq(profile.name.as_str(), source_profile) {
            let ghost before = conflicts.deep_view();
            if contains_string(&profile.synced_files, relative_path) {
                let c = check_content_conflict(
                    fs,
                    repo_path,
                    source_profile,
                    relative_path,
                    profile.name.as_str(),
                );
                push_conflict(&mut conflicts, c);
            }
            let hierarchy = check_path_hierarchy_conflicts(
                repo_path,
                source_profile,
                profile.name.as_str(),
                relative_path,
                &profile.synced_files,
            );
            append_conflicts(&mut conflicts, hierarchy);
            assert(conflicts.deep_view() =~= before + profile_conflicts(
                fs@,
                repo_path@,
                source_profile@,
                relative_path@,
                profile@,
            ));
            assert(conflicts.deep_view() =~= first + all_conflicts(
                fs@,
                repo_path@,
                source_profile@,
                relative_path@,
                profiles.take(i + 1),
            ));
        }
        i += 1;
    }
    assert(profiles.take(manifest.profiles.len() as int) =~= profiles);
    judge(conflicts)
}

} // verus!
