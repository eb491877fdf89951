//! What holds of the validation of a move to common, whatever the
//! manifest and the file system.

use vstd::prelude::*;
use crate::fsview::FsModel;
use crate::fsview::NodeView;
use crate::manifest::ManifestView;
use crate::manifest::ProfileView;
use crate::move_to_common_validation::all_conflicts;
use crate::move_to_common_validation::common_conflicts;
use crate::move_to_common_validation::hierarchy_conflict;
use crate::move_to_common_validation::hierarchy_conflicts;
use crate::move_to_common_validation::is_blocking;
use crate::move_to_common_validation::move_conflicts;
use crate::move_to_common_validation::nodes_match;
use crate::move_to_common_validation::profile_conflicts;
use crate::move_to_common_validation::stored_at;
use crate::move_to_common_validation::validation;
use crate::move_to_common_validation::ConflictView;
use crate::paths::components;
use crate::paths::strictly_inside;

verus! {

/// A path does not lie below a path that lies below it.
pub proof fn lemma_inside_is_one_way(below: Seq<char>, above: Seq<char>)
    requires
        strictly_inside(below, above),
    ensures
        !strictly_inside(above, below),
{
    let a = components(above);
    let b = components(below);
    if strictly_inside(above, below) {
        assert(a.len() <= b.len() && b.len() <= a.len());
        assert(a =~= b.subrange(0, a.len() as int));
        assert(b.subrange(0, a.len() as int) =~= b);
    }
}

/// A path does not lie below itself.
pub proof fn lemma_not_inside_itself(path: Seq<char>)
    ensures
        !strictly_inside(path, path),
{
}

/// Every hierarchy conflict blocks, and each comes from one of the synced
/// paths.
pub proof fn lemma_hierarchy_conflicts_block(
    profile_name: Seq<char>,
    rel: Seq<char>,
    files: Seq<Seq<char>>,
)
    ensures
        forall|k: int|
            0 <= k < hierarchy_conflicts(profile_name, rel, files).len() ==> is_blocking(
                #[trigger] hierarchy_conflicts(profile_name, rel, files)[k],
            ),
        (forall|j: int|
            0 <= j < files.len() ==> hierarchy_conflict(profile_name, rel, #[trigger] files[j])
                is None) ==> hierarchy_conflicts(profile_name, rel, files).len() == 0,
    decreases files.len(),
{
    if files.len() > 0 {
        lemma_hierarchy_conflicts_block(profile_name, rel, files.drop_last());
        let before = hierarchy_conflicts(profile_name, rel, files.drop_last());
        let all = hierarchy_conflicts(profile_name, rel, files);
        assert forall|k: int| 0 <= k < all.len() implies is_blocking(#[trigger] all[k]) by {
            match hierarchy_conflict(profile_name, rel, files.last()) {
                Some(c) => {
                    assert(all == before.push(c));
                    if k < before.len() {
                        assert(all[k] == before[k]);
                    } else {
                        assert(all[k] == c);
                    }
                },
                None => {
                    assert(all == before);
                },
            }
        }
        if forall|j: int|
            0 <= j < files.len() ==> hierarchy_conflict(profile_name, rel, #[trigger] files[j])
                is None {
            assert forall|j: int| 0 <= j < files.drop_last().len() implies hierarchy_conflict(
                profile_name,
                rel,
                #[trigger] files.drop_last()[j],
            ) is None by {
                assert(files.drop_last()[j] == files[j]);
            }
            assert(files.last() == files[files.len() - 1]);
        }
    }
}

/// Hierarchy conflict symmetry: of two paths, one below the other, either
/// one conflicts with the other when moved. Moving the lower path while
/// another profile syncs the upper one gives a conflict with that path as
/// the parent; moving the upper path while another profile syncs the lower
/// one gives a conflict with that path as the child.
pub proof fn lemma_hierarchy_conflict_symmetry(
    other_profile: Seq<char>,
    above: Seq<char>,
    below: Seq<char>,
)
    requires
        strictly_inside(below, above),
    ensures
        hierarchy_conflicts(other_profile, below, seq![above]) == seq![
            ConflictView::PathHierarchyConflict {
                profile_name: other_profile,
                conflicting_path: above,
                is_parent: true,
            },
        ],
        hierarchy_conflicts(other_profile, above, seq![below]) == seq![
            ConflictView::PathHierarchyConflict {
                profile_name: other_profile,
                conflicting_path: below,
                is_parent: false,
            },
        ],
{
    lemma_inside_is_one_way(below, above);
    reveal_with_fuel(hierarchy_conflicts, 2);
    assert(seq![above].drop_last() =~= Seq::<Seq<char>>::empty());
    assert(seq![below].drop_last() =~= Seq::<Seq<char>>::empty());
    assert(seq![above].last() == above);
    assert(seq![below].last() == below);
    assert(hierarchy_conflicts(other_profile, below, seq![above]) =~= seq![
        ConflictView::PathHierarchyConflict {
            profile_name: other_profile,
            conflicting_path: above,
            is_parent: true,
        },
    ]);
    assert(hierarchy_conflicts(other_profile, above, seq![below]) =~= seq![
        ConflictView::PathHierarchyConflict {
            profile_name: other_profile,
            conflicting_path: below,
            is_parent: false,
        },
    ]);
}

/// The conflict that a synced path gives is among those of the list that
/// holds the path.
pub proof fn lemma_hierarchy_conflict_is_listed(
    profile_name: Seq<char>,
    rel: Seq<char>,
    files: Seq<Seq<char>>,
    j: int,
)
    requires
        0 <= j < files.len(),
        hierarchy_conflict(profile_name, rel, files[j]) is Some,
    ensures
        hierarchy_conflicts(profile_name, rel, files).contains(
            hierarchy_conflict(profile_name, rel, files[j])->0,
        ),
    decreases files.len(),
{
    let before = hierarchy_conflicts(profile_name, rel, files.drop_last());
    let all = hierarchy_conflicts(profile_name, rel, files);
    let c = hierarchy_conflict(profile_name, rel, files[j])->0;
    if j == files.len() - 1 {
        assert(all == before.push(c));
        assert(all[before.len() as int] == c);
    } else {
        assert(files.drop_last()[j] == files[j]);
        lemma_hierarchy_conflict_is_listed(profile_name, rel, files.drop_last(), j);
        let k = choose|k: int| 0 <= k < before.len() && before[k] == c;
        match hierarchy_conflict(profile_name, rel, files.last()) {
            Some(d) => {
                assert(all == before.push(d));
                assert(all[k] == c);
            },
            None => {
                assert(all == before);
            },
        }
    }
}

/// The hierarchy conflicts of a profile are among its conflicts.
pub proof fn lemma_hierarchy_is_part(
    fs: FsModel,
    repo: Seq<char>,
    source_profile: Seq<char>,
    rel: Seq<char>,
    p: ProfileView,
    c: ConflictView,
)
    requires
        hierarchy_conflicts(p.name, rel, p.synced_files).contains(c),
    ensures
        profile_conflicts(fs, repo, source_profile, rel, p).contains(c),
{
    let hierarchy = hierarchy_conflicts(p.name, rel, p.synced_files);
    let own = profile_conflicts(fs, repo, source_profile, rel, p);
    let k = choose|k: int| 0 <= k < hierarchy.len() && hierarchy[k] == c;
    if p.synced_files.contains(rel) {
        assert(own[1 + k] == c);
    } else {
        assert(own[k] == c);
    }
}

/// A hierarchy conflict blocks whichever of the two paths is moved: with
/// a path `above` and a path `below` it, one in the moving profile and on
/// disk there, the other synced by another profile, the move is stopped,
/// whatever else the manifest and the disk hold.
pub proof fn lemma_hierarchy_blocks_both_ways(
    fs: FsModel,
    manifest: ManifestView,
    repo: Seq<char>,
    moving_profile: Seq<char>,
    i: int,
    above: Seq<char>,
    below: Seq<char>,
)
    requires
        strictly_inside(below, above),
        0 <= i < manifest.profiles.len(),
        manifest.profiles[i].name != moving_profile,
    ensures
        manifest.profiles[i].synced_files.contains(above) && fs.present(
            stored_at(repo, moving_profile, below),
        ) ==> !validation(fs, manifest, repo, moving_profile, below).can_proceed,
        manifest.profiles[i].synced_files.contains(below) && fs.present(
            stored_at(repo, moving_profile, above),
        ) ==> !validation(fs, manifest, repo, moving_profile, above).can_proceed,
{
    let p = manifest.profiles[i];
    lemma_inside_is_one_way(below, above);
    if p.synced_files.contains(above) && fs.present(stored_at(repo, moving_profile, below)) {
        let j = choose|j: int| 0 <= j < p.synced_files.len() && p.synced_files[j] == above;
        lemma_hierarchy_conflict_is_listed(p.name, below, p.synced_files, j);
        let c = hierarchy_conflict(p.name, below, above)->0;
        lemma_hierarchy_is_part(fs, repo, moving_profile, below, p, c);
        lemma_blocking_conflict_stops(fs, manifest, repo, moving_profile, below, i, c);
    }
    if p.synced_files.contains(below) && fs.present(stored_at(repo, moving_profile, above)) {
        let j = choose|j: int| 0 <= j < p.synced_files.len() && p.synced_files[j] == below;
        lemma_hierarchy_conflict_is_listed(p.name, above, p.synced_files, j);
        let c = hierarchy_conflict(p.name, above, below)->0;
        lemma_hierarchy_is_part(fs, repo, moving_profile, above, p, c);
        lemma_blocking_conflict_stops(fs, manifest, repo, moving_profile, above, i, c);
    }
}

/// What one other profile gives is part of what the validation reports.
pub proof fn lemma_profile_conflicts_are_reported(
    fs: FsModel,
    repo: Seq<char>,
    source_profile: Seq<char>,
    rel: Seq<char>,
    profiles: Seq<ProfileView>,
    i: int,
    c: ConflictView,
)
    requires
        0 <= i < profiles.len(),
        profiles[i].name != source_profile,
        profile_conflicts(fs, repo, source_profile, rel, profiles[i]).contains(c),
    ensures
        all_conflicts(fs, repo, source_profile, rel, profiles).contains(c),
    decreases profiles.len(),
{
    let before = all_conflicts(fs, repo, source_profile, rel, profiles.drop_last());
    let all = all_conflicts(fs, repo, source_profile, rel, profiles);
    if i == profiles.len() - 1 {
        let own = profile_conflicts(fs, repo, source_profile, rel, profiles.last());
        let k = choose|k: int| 0 <= k < own.len() && own[k] == c;
        assert(all == before + own);
        assert(all[before.len() + k] == c);
    } else {
        assert(profiles.drop_last()[i] == profiles[i]);
        lemma_profile_conflicts_are_reported(
            fs,
            repo,
            source_profile,
            rel,
            profiles.drop_last(),
            i,
            c,
        );
        let k = choose|k: int| 0 <= k < before.len() && before[k] == c;
        if profiles.last().name == source_profile {
            assert(all == before);
        } else {
            assert(all == before + profile_conflicts(
                fs,
                repo,
                source_profile,
                rel,
                profiles.last(),
            ));
            assert(all[k] == c);
        }
    }
}

/// A blocking conflict with any other profile stops the move.
pub proof fn lemma_blocking_conflict_stops(
    fs: FsModel,
    manifest: ManifestView,
    repo: Seq<char>,
    source_profile: Seq<char>,
    rel: Seq<char>,
    i: int,
    c: ConflictView,
)
    requires
        fs.present(stored_at(repo, source_profile, rel)),
        0 <= i < manifest.profiles.len(),
        manifest.profiles[i].name != source_profile,
        profile_conflicts(fs, repo, source_profile, rel, manifest.profiles[i]).contains(c),
        is_blocking(c),
    ensures
        !validation(fs, manifest, repo, source_profile, rel).can_proceed,
        !validation(fs, manifest, repo, source_profile, rel).all_auto_resolvable,
{
    lemma_profile_conflicts_are_reported(fs, repo, source_profile, rel, manifest.profiles, i, c);
    let first = common_conflicts(manifest.common, rel);
    let rest = all_conflicts(fs, repo, source_profile, rel, manifest.profiles);
    let all = move_conflicts(fs, manifest, repo, source_profile, rel);
    let k = choose|k: int| 0 <= k < rest.len() && rest[k] == c;
    assert(all[first.len() + k] == c);
    assert(is_blocking(all[first.len() + k]));
}

/// A path that is common already stays where it is: where the common
/// files hold the path and the file is on disk in the profile, the move
/// cannot proceed, and the first conflict reported says so.
pub proof fn lemma_common_path_blocks(
    fs: FsModel,
    manifest: ManifestView,
    repo: Seq<char>,
    source_profile: Seq<char>,
    rel: Seq<char>,
)
    requires
        fs.present(stored_at(repo, source_profile, rel)),
        manifest.common.contains(rel),
    ensures
        !validation(fs, manifest, repo, source_profile, rel).can_proceed,
        validation(fs, manifest, repo, source_profile, rel).conflicts.len() > 0,
        validation(fs, manifest, repo, source_profile, rel).conflicts[0]
            == ConflictView::AlreadyInCommon,
{
    let all = move_conflicts(fs, manifest, repo, source_profile, rel);
    assert(all[0] == ConflictView::AlreadyInCommon);
    assert(is_blocking(all[0]));
}

/// Different content blocks: where another profile lists the very path
/// and its copy on disk is not the same as the file that is moved, the
/// move cannot proceed, whatever else the manifest holds.
pub proof fn lemma_different_content_blocks(
    fs: FsModel,
    manifest: ManifestView,
    repo: Seq<char>,
    source_profile: Seq<char>,
    rel: Seq<char>,
    i: int,
)
    requires
        fs.present(stored_at(repo, source_profile, rel)),
        0 <= i < manifest.profiles.len(),
        manifest.profiles[i].name != source_profile,
        manifest.profiles[i].synced_files.contains(rel),
        fs.present(stored_at(repo, manifest.profiles[i].name, rel)),
        nodes_match(
            fs.node(stored_at(repo, source_profile, rel)),
            fs.node(stored_at(repo, manifest.profiles[i].name, rel)),
        ) != Some(true),
    ensures
        !validation(fs, manifest, repo, source_profile, rel).can_proceed,
{
    let p = manifest.profiles[i];
    let own = profile_conflicts(fs, repo, source_profile, rel, p);
    lemma_hierarchy_conflicts_block(p.name, rel, p.synced_files);
    assert(own.len() > 0);
    assert(is_blocking(own[0]));
    assert(own.contains(own[0]));
    lemma_blocking_conflict_stops(fs, manifest, repo, source_profile, rel, i, own[0]);
}

/// Whether the profile `p` leaves the move of `rel` alone: none of its
/// paths lies above or below `rel`, and its copy of `rel`, where it lists
/// one, is not on disk or the same as the file that is moved.
pub open spec fn is_harmless(
    fs: FsModel,
    repo: Seq<char>,
    source_profile: Seq<char>,
    rel: Seq<char>,
    p: ProfileView,
) -> bool {
    &&& forall|j: int|
        0 <= j < p.synced_files.len() ==> hierarchy_conflict(p.name,
            rel,
            #[trigger] p.synced_files[j],
        ) is None
    &&& p.synced_files.contains(rel) ==> !fs.present(stored_at(repo, p.name, rel)) || nodes_match(
        fs.node(stored_at(repo, source_profile, rel)),
        fs.node(stored_at(repo, p.name, rel)),
    ) == Some(true)
}

proof fn lemma_harmless_profiles(
    fs: FsModel,
    repo: Seq<char>,
    source_profile: Seq<char>,
    rel: Seq<char>,
    profiles: Seq<ProfileView>,
)
    requires
        forall|i: int|
            0 <= i < profiles.len() && profiles[i].name != source_profile ==> is_harmless(
                fs,
                repo,
                source_profile,
                rel,
                #[trigger] profiles[i],
            ),
    ensures
        forall|k: int|
            0 <= k < all_conflicts(fs, repo, source_profile, rel, profiles).len() ==> (
            #[trigger] all_conflicts(fs, repo, source_profile, rel, profiles)[k])
                is SameContentInProfile,
    decreases profiles.len(),
{
    if profiles.len() > 0 {
        assert forall|i: int|
            0 <= i < profiles.drop_last().len() && profiles.drop_last()[i].name
                != source_profile implies is_harmless(
            fs,
            repo,
            source_profile,
            rel,
            #[trigger] profiles.drop_last()[i],
        ) by {
            assert(profiles.drop_last()[i] == profiles[i]);
        }
        lemma_harmless_profiles(fs, repo, source_profile, rel, profiles.drop_last());
        let p = profiles.last();
        if p.name != source_profile {
            assert(p == profiles[profiles.len() - 1]);
            assert(is_harmless(fs, repo, source_profile, rel, p));
            lemma_hierarchy_conflicts_block(p.name, rel, p.synced_files);
            let own = profile_conflicts(fs, repo, source_profile, rel, p);
            assert(forall|k: int| 0 <= k < own.len() ==> (#[trigger] own[k]) is SameContentInProfile);
        }
    }
}

/// Same content proceeds: where the path is not common yet, no other
/// profile has a path above or below the file, and every copy of the very
/// path in another profile is the same as the file or not on disk, the
/// move can proceed and every conflict resolves by itself.
pub proof fn lemma_same_content_proceeds(
    fs: FsModel,
    manifest: ManifestView,
    repo: Seq<char>,
    source_profile: Seq<char>,
    rel: Seq<char>,
)
    requires
        !manifest.common.contains(rel),
        forall|i: int|
            0 <= i < manifest.profiles.len() && manifest.profiles[i].name != source_profile
                ==> is_harmless(fs, repo, source_profile, rel, #[trigger] manifest.profiles[i]),
    ensures
        validation(fs, manifest, repo, source_profile, rel).can_proceed,
        validation(fs, manifest, repo, source_profile, rel).all_auto_resolvable,
{
    lemma_harmless_profiles(fs, repo, source_profile, rel, manifest.profiles);
    assert(move_conflicts(fs, manifest, repo, source_profile, rel) =~= all_conflicts(
        fs,
        repo,
        source_profile,
        rel,
        manifest.profiles,
    ));
}

/// The classification by content is total: for a file of profile `a` and
/// the file at the same path in the only other profile `b`, which syncs
/// nothing else, the move can proceed exactly where the two files hold the
/// same bytes.
pub proof fn lemma_content_classification(
    fs: FsModel,
    repo: Seq<char>,
    a: ProfileView,
    b: ProfileView,
    rel: Seq<char>,
    mine: Seq<u8>,
    other: Seq<u8>,
)
    requires
        a.name != b.name,
        b.synced_files == seq![rel],
        fs.node(stored_at(repo, a.name, rel)) == NodeView::File(mine),
        fs.node(stored_at(repo, b.name, rel)) == NodeView::File(other),
    ensures
        validation(
            fs,
            ManifestView { profiles: seq![a, b], common: Seq::empty() },
            repo,
            a.name,
            rel,
        ).can_proceed == (mine == other),
{
    let m = ManifestView { profiles: seq![a, b], common: Seq::empty() };
    assert(b.synced_files[0] == rel);
    assert(b.synced_files.contains(rel));
    if mine == other {
        lemma_not_inside_itself(rel);
        assert forall|i: int|
            0 <= i < m.profiles.len() && m.profiles[i].name != a.name implies is_harmless(
            fs,
            repo,
            a.name,
            rel,
            #[trigger] m.profiles[i],
        ) by {
            assert(m.profiles[i] == b);
        }
        lemma_same_content_proceeds(fs, m, repo, a.name, rel);
    } else {
        assert(m.profiles[1] == b);
        lemma_different_content_blocks(fs, m, repo, a.name, rel, 1);
    }
}

} // verus!
