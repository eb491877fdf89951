//! The manifest: which relative paths each profile syncs, and which are
//! common to all profiles.

use vstd::prelude::*;
use crate::strings::first_index;
use crate::strings::is_first_index;
use crate::strings::lemma_first_index;
use crate::strings::lemma_has_first_index;
use crate::strings::str_eq;
use crate::strings::append_strings;
use crate::strings::chars_of;

verus! {

/// A named set of synced files.
#[derive(Debug)]
pub struct Profile {
    pub name: String,
    pub description: Option<String>,
    /// Paths relative to the profile's directory, in the order they were
    /// added.
    pub synced_files: Vec<String>,
}

/// The mathematical value of a `Profile`.
pub struct ProfileView {
    pub name: Seq<char>,
    pub description: Option<Seq<char>>,
    pub synced_files: Seq<Seq<char>>,
}

impl View for Profile {
    type V = ProfileView;

    open spec fn view(&self) -> ProfileView {
        ProfileView {
            name: self.name@,
            description: match self.description {
                Some(d) => Some(d@),
                None => None,
            },
            synced_files: self.synced_files.deep_view(),
        }
    }
}

impl DeepView for Profile {
    type V = ProfileView;

    open spec fn deep_view(&self) -> ProfileView {
        self@
    }
}

impl Clone for Profile {
    fn clone(&self) -> (r: Self)
        ensures
            r@ == self@,
    {
        let files = self.synced_files.clone();
        assert(files.deep_view() =~= self.synced_files.deep_view());
        Profile {
            name: self.name.clone(),
            description: match &self.description {
                Some(d) => Some(d.clone()),
                None => None,
            },
            synced_files: files,
        }
    }
}

/// The files that are active under every profile.
#[derive(Debug)]
pub struct CommonBucket {
    pub synced_files: Vec<String>,
}

/// Why a manifest could not be had or changed.
#[derive(Debug, PartialEq, Eq, Structural, Clone, Copy)]
pub enum ManifestError {
    /// No manifest file exists.
    NotFound,
    /// The manifest file cannot be parsed.
    Corrupt,
    /// A profile of that name exists already.
    DuplicateName,
    /// No profile has that name.
    UnknownProfile,
}

/// The profiles and the common bucket.
#[derive(Debug)]
pub struct ProfileManifest {
    pub profiles: Vec<Profile>,
    pub common: CommonBucket,
}

/// The mathematical value of a `ProfileManifest`.
pub struct ManifestView {
    pub profiles: Seq<ProfileView>,
    pub common: Seq<Seq<char>>,
}

/// The names of `profiles`, in order.
pub open spec fn profile_names(profiles: Seq<ProfileView>) -> Seq<Seq<char>> {
    Seq::new(profiles.len(), |i: int| profiles[i].name)
}

/// A directory found at the top of the repository, with the relative paths
/// of the files below it.
#[derive(Debug)]
pub struct ProfileDir {
    pub name: String,
    pub files: Vec<String>,
}

/// The mathematical value of a `ProfileDir`.
pub struct ProfileDirView {
    pub name: Seq<char>,
    pub files: Seq<Seq<char>>,
}

impl View for ProfileDir {
    type V = ProfileDirView;

    open spec fn view(&self) -> ProfileDirView {
        ProfileDirView { name: self.name@, files: self.files.deep_view() }
    }
}

impl DeepView for ProfileDir {
    type V = ProfileDirView;

    open spec fn deep_view(&self) -> ProfileDirView {
        self@
    }
}

/// The name of the directory that holds the common files.
pub open spec fn common_name() -> Seq<char> {
    seq!['c', 'o', 'm', 'm', 'o', 'n']
}

/// Whether a directory at the top of the repository holds a profile: its
/// name is not empty, does not begin with a dot, and is not that of the
/// common bucket.
pub open spec fn is_profile_dir(name: Seq<char>) -> bool {
    name.len() > 0 && name[0] != '.' && name != common_name()
}

/// `m` with the directory `dir` taken in: the files of the common directory
/// join the common bucket, those of a profile directory join the profile of
/// that name, which is created at the end where there is none yet, and any
/// other directory is passed over.
pub open spec fn with_dir(m: ManifestView, dir: ProfileDirView) -> ManifestView {
    if dir.name == common_name() {
        ManifestView { profiles: m.profiles, common: m.common + dir.files }
    } else if !is_profile_dir(dir.name) {
        m
    } else if profile_names(m.profiles).contains(dir.name) {
        let i = first_index(profile_names(m.profiles), dir.name);
        ManifestView {
            profiles: m.profiles.update(
                i,
                ProfileView {
                    name: m.profiles[i].name,
                    description: m.profiles[i].description,
                    synced_files: m.profiles[i].synced_files + dir.files,
                },
            ),
            common: m.common,
        }
    } else {
        ManifestView {
            profiles: m.profiles.push(
                ProfileView { name: dir.name, description: None, synced_files: dir.files },
            ),
            common: m.common,
        }
    }
}

/// The manifest that the directories `dirs` give, taken in from the first
/// to the last.
pub open spec fn backfilled(dirs: Seq<ProfileDirView>) -> ManifestView
    decreases dirs.len(),
{
    if dirs.len() == 0 {
        ManifestView { profiles: Seq::empty(), common: Seq::empty() }
    } else {
        with_dir(backfilled(dirs.drop_last()), dirs.last())
    }
}

/// The files of the first profile named `name`; none where there is no
/// such profile.
pub open spec fn files_of(m: ManifestView, name: Seq<char>) -> Seq<Seq<char>> {
    if profile_names(m.profiles).contains(name) {
        m.profiles[first_index(profile_names(m.profiles), name)].synced_files
    } else {
        Seq::empty()
    }
}

/// What taking in one directory does to a manifest without repeated
/// names: the files of the directory join the bucket or profile of its
/// name, no other profile changes, and no name is repeated afterwards.
pub proof fn lemma_with_dir(m: ManifestView, dir: ProfileDirView)
    requires
        profile_names(m.profiles).no_duplicates(),
    ensures
        profile_names(with_dir(m, dir).profiles).no_duplicates(),
        dir.name == common_name() ==> with_dir(m, dir).common == m.common + dir.files,
        dir.name != common_name() ==> with_dir(m, dir).common == m.common,
        is_profile_dir(dir.name) ==> profile_names(with_dir(m, dir).profiles).contains(dir.name)
            && files_of(with_dir(m, dir), dir.name) == files_of(m, dir.name) + dir.files,
        forall|n: Seq<char>|
            n != dir.name || !is_profile_dir(dir.name) ==> profile_names(
                with_dir(m, dir).profiles,
            ).contains(n) == profile_names(m.profiles).contains(n) && #[trigger] files_of(
                with_dir(m, dir),
                n,
            ) == files_of(m, n),
        forall|n: Seq<char>| #[trigger]
            profile_names(with_dir(m, dir).profiles).contains(n) ==> profile_names(
                m.profiles,
            ).contains(n) || (n == dir.name && is_profile_dir(dir.name)),
{
    let names = profile_names(m.profiles);
    let after = with_dir(m, dir);
    let new_names = profile_names(after.profiles);
    if dir.name != common_name() && is_profile_dir(dir.name) {
        if names.contains(dir.name) {
            let w = choose|w: int| 0 <= w < names.len() && names[w] == dir.name;
            lemma_has_first_index(names, dir.name, w);
            let i = first_index(names, dir.name);
            assert(new_names =~= names);
            assert(after.profiles[i].synced_files == m.profiles[i].synced_files + dir.files);
            assert forall|n: Seq<char>| n != dir.name implies files_of(after, n) == files_of(
                m,
                n,
            ) by {
                if names.contains(n) {
                    let v = choose|v: int| 0 <= v < names.len() && names[v] == n;
                    lemma_has_first_index(names, n, v);
                    let k = first_index(names, n);
                    assert(k != i);
                    assert(after.profiles[k] == m.profiles[k]);
                }
            }
        } else {
            assert(new_names =~= names.push(dir.name));
            assert(new_names[names.len() as int] == dir.name);
            assert(is_first_index(new_names, dir.name, names.len() as int));
            lemma_first_index(new_names, dir.name, names.len() as int);
            assert(files_of(m, dir.name) + dir.files =~= dir.files);
            assert forall|a: int, b: int|
                0 <= a < new_names.len() && 0 <= b < new_names.len() && a != b implies new_names[a]
                != new_names[b] by {
                if a < names.len() && b < names.len() {
                    assert(names[a] != names[b]);
                } else if a < names.len() {
                    assert(names[a] != dir.name);
                } else {
                    assert(names[b] != dir.name);
                }
            }
            assert forall|n: Seq<char>| n != dir.name implies new_names.contains(n)
                == names.contains(n) && files_of(after, n) == files_of(m, n) by {
                if names.contains(n) {
                    let v = choose|v: int| 0 <= v < names.len() && names[v] == n;
                    lemma_has_first_index(names, n, v);
                    let k = first_index(names, n);
                    assert(new_names[k] == n);
                    assert(is_first_index(new_names, n, k));
                    lemma_first_index(new_names, n, k);
                    assert(after.profiles[k] == m.profiles[k]);
                } else if new_names.contains(n) {
                    let v = choose|v: int| 0 <= v < new_names.len() && new_names[v] == n;
                    assert(names[v] == n);
                }
            }
        }
    }
}

/// Whether no two of `dirs` have the same name, as in the listing of a
/// directory.
pub open spec fn distinct_names(dirs: Seq<ProfileDirView>) -> bool {
    forall|i: int, j: int|
        0 <= i < dirs.len() && 0 <= j < dirs.len() && i != j ==> dirs[i].name != dirs[j].name
}

/// Whether one of `dirs` is named `name`.
pub open spec fn has_dir(dirs: Seq<ProfileDirView>, name: Seq<char>) -> bool {
    exists|i: int| 0 <= i < dirs.len() && dirs[i].name == name
}

/// Nothing on disk is lost in a rebuilt manifest: for directories with
/// distinct names, each profile directory gives a profile with exactly its
/// files, the common directory gives exactly the common files, no profile
/// is named twice, and there is no profile without its directory.
pub proof fn lemma_backfill_is_exact(dirs: Seq<ProfileDirView>)
    requires
        distinct_names(dirs),
    ensures
        profile_names(backfilled(dirs).profiles).no_duplicates(),
        forall|i: int|
            0 <= i < dirs.len() && is_profile_dir(#[trigger] dirs[i].name) ==> profile_names(
                backfilled(dirs).profiles,
            ).contains(dirs[i].name) && files_of(backfilled(dirs), dirs[i].name) == dirs[i].files,
        forall|i: int|
            0 <= i < dirs.len() && (#[trigger] dirs[i]).name == common_name() ==> backfilled(
                dirs,
            ).common == dirs[i].files,
        !has_dir(dirs, common_name()) ==> backfilled(dirs).common.len() == 0,
        forall|n: Seq<char>| #[trigger]
            profile_names(backfilled(dirs).profiles).contains(n) ==> has_dir(dirs, n)
                && is_profile_dir(n),
    decreases dirs.len(),
{
    if dirs.len() == 0 {
        assert(profile_names(backfilled(dirs).profiles) =~= Seq::<Seq<char>>::empty());
        assert forall|n: Seq<char>| #[trigger]
            profile_names(backfilled(dirs).profiles).contains(n) implies has_dir(dirs, n)
            && is_profile_dir(n) by {
            let k = choose|k: int|
                0 <= k < profile_names(backfilled(dirs).profiles).len() && profile_names(
                    backfilled(dirs).profiles,
                )[k] == n;
        }
    } else {
        let init = dirs.drop_last();
        let last = dirs.last();
        assert forall|i: int, j: int|
            0 <= i < init.len() && 0 <= j < init.len() && i != j implies init[i].name
            != init[j].name by {
            assert(init[i] == dirs[i] && init[j] == dirs[j]);
        }
        lemma_backfill_is_exact(init);
        let m = backfilled(init);
        let after = backfilled(dirs);
        lemma_with_dir(m, last);
        assert(after == with_dir(m, last));
        assert(last == dirs[dirs.len() - 1]);
        assert(!has_dir(init, last.name)) by {
            if has_dir(init, last.name) {
                let i = choose|i: int| 0 <= i < init.len() && init[i].name == last.name;
                assert(init[i] == dirs[i]);
            }
        }
        assert(!profile_names(m.profiles).contains(last.name));
        assert(files_of(m, last.name) + last.files =~= last.files);
        assert forall|i: int|
            0 <= i < dirs.len() && is_profile_dir(#[trigger] dirs[i].name) implies profile_names(
            after.profiles,
        ).contains(dirs[i].name) && files_of(after, dirs[i].name) == dirs[i].files by {
            if i < init.len() {
                assert(init[i] == dirs[i]);
                assert(dirs[i].name != last.name);
                assert(files_of(with_dir(m, last), dirs[i].name) == files_of(m, dirs[i].name));
            }
        }
        assert forall|i: int|
            0 <= i < dirs.len() && (#[trigger] dirs[i]).name == common_name() implies after.common
            == dirs[i].files by {
            if i < init.len() {
                assert(init[i] == dirs[i]);
                assert(last.name != common_name());
            } else {
                assert(!has_dir(init, common_name()));
                assert(m.common + last.files =~= last.files);
            }
        }
        if !has_dir(dirs, common_name()) {
            assert(last.name != common_name());
            assert(!has_dir(init, common_name())) by {
                if has_dir(init, common_name()) {
                    let i = choose|i: int| 0 <= i < init.len() && init[i].name == common_name();
                    assert(dirs[i].name == common_name());
                }
            }
        }
        assert forall|n: Seq<char>| #[trigger]
            profile_names(after.profiles).contains(n) implies has_dir(dirs, n) && is_profile_dir(
            n,
        ) by {
            if n == last.name && is_profile_dir(last.name) {
                assert(dirs[dirs.len() - 1].name == n);
            } else {
                assert(after == with_dir(m, last));
                assert(profile_names(with_dir(m, last).profiles).contains(n));
                assert(profile_names(m.profiles).contains(n));
                assert(has_dir(init, n));
                let i = choose|i: int| 0 <= i < init.len() && init[i].name == n;
                assert(init[i] == dirs[i]);
                assert(dirs[i].name == n);
            }
        }
    }
}

/// Whether `files` can be the files of a profile beside the common files
/// `common`: no path twice, none empty or with a leading slash, none that
/// is common.
pub open spec fn can_sync(files: Seq<Seq<char>>, common: Seq<Seq<char>>) -> bool {
    &&& files.no_duplicates()
    &&& forall|j: int|
        0 <= j < files.len() ==> (#[trigger] files[j]).len() > 0 && files[j][0] != '/'
            && !common.contains(files[j])
}

impl View for ProfileManifest {
    type V = ManifestView;

    open spec fn view(&self) -> ManifestView {
        ManifestView {
            profiles: self.profiles.deep_view(),
            common: self.common.synced_files.deep_view(),
        }
    }
}

impl Default for ProfileManifest {
    fn default() -> (m: Self)
        ensures
            m@.profiles.len() == 0,
            m@.common.len() == 0,
    {
        ProfileManifest::new()
    }
}

impl ProfileManifest {
    /// Whether the manifest is in order: profile names are non-empty and
    /// pairwise distinct, no profile lists a path twice or with a leading
    /// slash, and no path is both common and in a profile.
    pub open spec fn wf(&self) -> bool {
        &&& profile_names(self@.profiles).no_duplicates()
        &&& forall|i: int|
            0 <= i < self@.profiles.len() ==> (#[trigger] self@.profiles[i]).name.len() > 0
                && can_sync(self@.profiles[i].synced_files, self@.common)
        &&& self@.common.no_duplicates()
    }

    /// A manifest without profiles or common files.
    pub fn new() -> (m: Self)
        ensures
            m@.profiles.len() == 0,
            m@.common.len() == 0,
    {
        ProfileManifest { profiles: Vec::new(), common: CommonBucket { synced_files: Vec::new() } }
    }

    /// The position of the first profile named `name`.
    pub fn find_profile(&self, name: &str) -> (r: Option<usize>)
        ensures
            match r {
                Some(i) => is_first_index(profile_names(self@.profiles), name@, i as int),
                None => !profile_names(self@.profiles).contains(name@),
            },
    {
        let mut i: usize = 0;
        while i < self.profiles.len()
            invariant
                i <= self.profiles.len(),
                forall|j: int| 0 <= j < i ==> profile_names(self@.profiles)[j] != name@,
            decreases self.profiles.len() - i,
        {
            if str_eq(self.profiles[i].name.as_str(), name) {
                return Some(i);
            }
            i += 1;
        }
        None
    }

    /// Adds an empty profile at the end. Fails with `DuplicateName`, and
    /// changes nothing, where a profile of that name exists.
    pub fn add_profile(&mut self, name: String, description: Option<String>) -> (r: Result<
        (),
        ManifestError,
    >)
        ensures
            final(self)@.common == old(self)@.common,
            old(self).wf() && name@.len() > 0 ==> final(self).wf(),
            profile_names(old(self)@.profiles).contains(name@) ==> r == Err::<(), ManifestError>(
                ManifestError::DuplicateName,
            ) && final(self)@ == old(self)@,
            !profile_names(old(self)@.profiles).contains(name@) ==> r is Ok
                && final(self)@.profiles == old(self)@.profiles.push(
                ProfileView {
                    name: name@,
                    description: match description {
                        Some(d) => Some(d@),
                        None => None,
                    },
                    synced_files: Seq::empty(),
                },
            ),
    {
        match self.find_profile(name.as_str()) {
            Some(_) => Err(ManifestError::DuplicateName),
            None => {
                let ghost before = self@.profiles;
                let profile = Profile { name, description, synced_files: Vec::new() };
                assert(profile@.synced_files =~= Seq::empty());
                self.profiles.push(profile);
                assert(self@.profiles =~= before.push(profile@));
                proof {
                    if old(self).wf() && name@.len() > 0 {
                        let names = profile_names(self@.profiles);
                        assert(names =~= profile_names(before).push(name@));
                        assert forall|a: int, b: int|
                            0 <= a < names.len() && 0 <= b < names.len() && a != b implies names[a]
                            != names[b] by {
                            if a < before.len() && b < before.len() {
                                assert(profile_names(before)[a] != profile_names(before)[b]);
                            } else if a < before.len() {
                                assert(profile_names(before)[a] != name@);
                            } else {
                                assert(profile_names(before)[b] != name@);
                            }
                        }
                        assert forall|i: int| 0 <= i < self@.profiles.len() implies (
                        #[trigger] self@.profiles[i]).name.len() > 0 && can_sync(
                            self@.profiles[i].synced_files,
                            self@.common,
                        ) by {
                            if i < before.len() {
                                assert(self@.profiles[i] == before[i]);
                            }
                        }
                    }
                }
                Ok(())
            },
        }
    }

    /// Replaces the file list of the profile named `profile_name`. Fails
    /// with `UnknownProfile`, and changes nothing, where there is none.
    pub fn update_synced_files(&mut self, profile_name: &str, files: Vec<String>) -> (r: Result<
        (),
        ManifestError,
    >)
        ensures
            final(self)@.common == old(self)@.common,
            old(self).wf() && can_sync(files.deep_view(), old(self)@.common) ==> final(self).wf(),
            !profile_names(old(self)@.profiles).contains(profile_name@) ==> r == Err::<
                (),
                ManifestError,
            >(ManifestError::UnknownProfile) && final(self)@ == old(self)@,
            profile_names(old(self)@.profiles).contains(profile_name@) ==> r is Ok && {
                let i = first_index(profile_names(old(self)@.profiles), profile_name@);
                final(self)@.profiles == old(self)@.profiles.update(
                    i,
                    ProfileView {
                        name: old(self)@.profiles[i].name,
                        description: old(self)@.profiles[i].description,
                        synced_files: files.deep_view(),
                    },
                )
            },
    {
        match self.find_profile(profile_name) {
            None => Err(ManifestError::UnknownProfile),
            Some(i) => {
                proof {
                    lemma_first_index(profile_names(self@.profiles), profile_name@, i as int);
                }
                let ghost before = self@.profiles;
                let current = &self.profiles[i];
                let replaced = Profile {
                    name: current.name.clone(),
                    description: match &current.description {
                        Some(d) => Some(d.clone()),
                        None => None,
                    },
                    synced_files: files,
                };
                self.profiles.set(i, replaced);
                assert(self@.profiles =~= before.update(i as int, replaced@));
                proof {
                    if old(self).wf() && can_sync(files.deep_view(), old(self)@.common) {
                        assert(profile_names(self@.profiles) =~= profile_names(before));
                        assert forall|k: int| 0 <= k < self@.profiles.len() implies (
                        #[trigger] self@.profiles[k]).name.len() > 0 && can_sync(
                            self@.profiles[k].synced_files,
                            self@.common,
                        ) by {
                            if k != i {
                                assert(self@.profiles[k] == before[k]);
                            } else {
                                assert(before[k].name.len() > 0);
                            }
                        }
                    }
                }
                Ok(())
            },
        }
    }

    /// The common files, in order.
    pub fn get_common_files(&self) -> (r: &Vec<String>)
        ensures
            r.deep_view() == self@.common,
    {
        &self.common.synced_files
    }

    /// The files of the first profile named `name`, if there is one.
    pub fn profile_files(&self, name: &str) -> (r: Option<&Vec<String>>)
        ensures
            match r {
                Some(files) => profile_names(self@.profiles).contains(name@) && files.deep_view()
                    == self@.profiles[first_index(
                    profile_names(self@.profiles),
                    name@,
                )].synced_files,
                None => !profile_names(self@.profiles).contains(name@),
            },
    {
        match self.find_profile(name) {
            Some(i) => {
                proof {
                    lemma_first_index(profile_names(self@.profiles), name@, i as int);
                }
                Some(&self.profiles[i].synced_files)
            },
            None => None,
        }
    }

    fn take_dir(&mut self, dir: &ProfileDir)
        ensures
            final(self)@ == with_dir(old(self)@, dir@),
    {
        proof {
            reveal_strlit("common");
            assert("common"@ =~= common_name());
        }
        if str_eq(dir.name.as_str(), "common") {
            append_strings(&mut self.common.synced_files, &dir.files);
            return ;
        }
        let name = chars_of(dir.name.as_str());
        if name.len() == 0 || name[0] == '.' {
            return ;
        }
        match self.find_profile(dir.name.as_str()) {
            Some(i) => {
                proof {
                    lemma_first_index(profile_names(self@.profiles), dir.name@, i as int);
                }
                let ghost before = self@.profiles;
                let mut grown = self.profiles[i].clone();
                append_strings(&mut grown.synced_files, &dir.files);
                self.profiles.set(i, grown);
                assert(self@.profiles =~= with_dir(old(self)@, dir@).profiles);
            },
            None => {
                let ghost before = self@.profiles;
                let files = dir.files.clone();
                assert(files.deep_view() =~= dir.files.deep_view());
                let profile = Profile { name: dir.name.clone(), description: None, synced_files: files };
                self.profiles.push(profile);
                assert(self@.profiles =~= before.push(profile@));
            },
        }
    }

    /// Builds a manifest from the directories found in a repository.
    pub fn backfill(dirs: &Vec<ProfileDir>) -> (m: Self)
        ensures
            m@ == backfilled(dirs.deep_view()),
    {
        let mut m = ProfileManifest::new();
        let mut i: usize = 0;
        assert(dirs.deep_view().take(0) =~= Seq::<ProfileDirView>::empty());
        assert(m@.profiles =~= Seq::<ProfileView>::empty());
        assert(m@.common =~= Seq::<Seq<char>>::empty());
        while i < dirs.len()
            invariant
                i <= dirs.len(),
                m@ == backfilled(dirs.deep_view().take(i as int)),
            decreases dirs.len() - i,
        {
            assert(dirs.deep_view().take(i + 1).drop_last() =~= dirs.deep_view().take(i as int));
            assert(dirs.deep_view().take(i + 1).last() == dirs@[i as int]@);
            m.take_dir(&dirs[i]);
            i += 1;
        }
        assert(dirs.deep_view().take(dirs.len() as int) =~= dirs.deep_view());
        m
    }

    /// Settles what a load attempt gave: a manifest that was read stands; a
    /// missing one is rebuilt from the directories `dirs`; any other failure
    /// is handed on.
    pub fn load_or_backfill(loaded: Result<ProfileManifest, ManifestError>, dirs: &Vec<
        ProfileDir,
    >) -> (r: Result<ProfileManifest, ManifestError>)
        ensures
            match loaded {
                Ok(m) => r is Ok && r->Ok_0@ == m@,
                Err(ManifestError::NotFound) => r is Ok && r->Ok_0@ == backfilled(dirs.deep_view()),
                Err(e) => r == Err::<ProfileManifest, ManifestError>(e),
            },
    {
        match loaded {
            Ok(m) => Ok(m),
            Err(ManifestError::NotFound) => Ok(ProfileManifest::backfill(dirs)),
            Err(e) => Err(e),
        }
    }
}

} // verus!
