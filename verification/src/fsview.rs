//! What is known of the file system, and what is planned for it.
//!
//! An `FsView` holds, for each path that was looked at, what stands there
//! and where a backup of it lies. The engine reads it in place of the disk
//! and changes it as it decides; every change is also written to a journal,
//! in order, for the caller to carry out on the real file system.

use vstd::prelude::*;
use crate::strings::str_eq;

verus! {

/// What stands at a path.
#[derive(Debug, PartialEq, Eq)]
pub enum Node {
    /// Nothing, not even a dangling link.
    Missing,
    /// A regular file with its bytes.
    File(Vec<u8>),
    /// A directory with the names of its immediate entries.
    Directory(Vec<String>),
    /// A symbolic link with the path it points at.
    Symlink(String),
    /// Something that is there and could not be read.
    Unreadable,
}

/// The mathematical value of a `Node`.
pub enum NodeView {
    Missing,
    File(Seq<u8>),
    Directory(Seq<Seq<char>>),
    Symlink(Seq<char>),
    Unreadable,
}

impl View for Node {
    type V = NodeView;

    open spec fn view(&self) -> NodeView {
        match self {
            Node::Missing => NodeView::Missing,
            Node::File(bytes) => NodeView::File(bytes@),
            Node::Directory(names) => NodeView::Directory(names.deep_view()),
            Node::Symlink(dest) => NodeView::Symlink(dest@),
            Node::Unreadable => NodeView::Unreadable,
        }
    }
}

impl Clone for Node {
    fn clone(&self) -> (r: Self)
        ensures
            r@ == self@,
    {
        match self {
            Node::Missing => Node::Missing,
            Node::File(bytes) => {
                let copy = bytes.clone();
                assert(copy@ =~= bytes@);
                Node::File(copy)
            },
            Node::Directory(names) => {
                let copy = names.clone();
                assert(copy.deep_view() =~= names.deep_view());
                Node::Directory(copy)
            },
            Node::Symlink(dest) => Node::Symlink(dest.clone()),
            Node::Unreadable => Node::Unreadable,
        }
    }
}

/// One change to the file system.
#[derive(Debug, PartialEq, Eq)]
pub enum FsAction {
    /// Create the directories above `target`, then a symbolic link at
    /// `target` that points at `source`.
    CreateSymlink { source: String, target: String },
    /// Move what stands at `target` to `location` as its backup, creating
    /// the directories above `location`.
    MoveToBackup { target: String, location: String },
    /// Move the backup at `location` back to `target`, creating the
    /// directories above `target`.
    RestoreBackup { location: String, target: String },
    /// Remove the symbolic link at `path`.
    RemoveSymlink { path: String },
}

/// The mathematical value of an `FsAction`.
pub enum FsActionView {
    CreateSymlink { source: Seq<char>, target: Seq<char> },
    MoveToBackup { target: Seq<char>, location: Seq<char> },
    RestoreBackup { location: Seq<char>, target: Seq<char> },
    RemoveSymlink { path: Seq<char> },
}

impl View for FsAction {
    type V = FsActionView;

    open spec fn view(&self) -> FsActionView {
        match self {
            FsAction::CreateSymlink { source, target } => FsActionView::CreateSymlink {
                source: source@,
                target: target@,
            },
            FsAction::MoveToBackup { target, location } => FsActionView::MoveToBackup {
                target: target@,
                location: location@,
            },
            FsAction::RestoreBackup { location, target } => FsActionView::RestoreBackup {
                location: location@,
                target: target@,
            },
            FsAction::RemoveSymlink { path } => FsActionView::RemoveSymlink { path: path@ },
        }
    }
}

impl Clone for FsAction {
    fn clone(&self) -> (r: Self)
        ensures
            r@ == self@,
    {
        match self {
            FsAction::CreateSymlink { source, target } => FsAction::CreateSymlink {
                source: source.clone(),
                target: target.clone(),
            },
            FsAction::MoveToBackup { target, location } => FsAction::MoveToBackup {
                target: target.clone(),
                location: location.clone(),
            },
            FsAction::RestoreBackup { location, target } => FsAction::RestoreBackup {
                location: location.clone(),
                target: target.clone(),
            },
            FsAction::RemoveSymlink { path } => FsAction::RemoveSymlink { path: path.clone() },
        }
    }
}

impl FsActionView {
    /// The path in the home directory that the change is made for.
    pub open spec fn target(self) -> Seq<char> {
        match self {
            FsActionView::CreateSymlink { target, .. } => target,
            FsActionView::MoveToBackup { target, .. } => target,
            FsActionView::RestoreBackup { target, .. } => target,
            FsActionView::RemoveSymlink { path } => path,
        }
    }
}

impl FsAction {
    /// The path in the home directory that the change is made for.
    pub fn target(&self) -> (t: String)
        ensures
            t@ == self@.target(),
    {
        match self {
            FsAction::CreateSymlink { target, .. } => target.clone(),
            FsAction::MoveToBackup { target, .. } => target.clone(),
            FsAction::RestoreBackup { target, .. } => target.clone(),
            FsAction::RemoveSymlink { path } => path.clone(),
        }
    }
}

/// What is known of one path: what stands there, and where the latest
/// backup of what once stood there lies.
pub struct PathState {
    pub node: NodeView,
    pub backup: Option<Seq<char>>,
}

/// The mathematical value of an `FsView`: what is known of every path, and
/// the changes planned so far, oldest first. Of a path never looked at,
/// nothing stands there and it has no backup.
pub struct FsModel {
    pub paths: Map<Seq<char>, PathState>,
    pub journal: Seq<FsActionView>,
}

impl FsModel {
    /// The model in which nothing is known and nothing planned.
    pub open spec fn blank() -> FsModel {
        FsModel {
            paths: Map::total(|p: Seq<char>| PathState { node: NodeView::Missing, backup: None }),
            journal: Seq::empty(),
        }
    }

    /// What stands at `path`.
    pub open spec fn node(self, path: Seq<char>) -> NodeView {
        self.paths[path].node
    }

    /// Whether anything stands at `path`.
    pub open spec fn present(self, path: Seq<char>) -> bool {
        !(self.node(path) is Missing)
    }

    /// Where the latest backup of `path` lies.
    pub open spec fn backup_of(self, path: Seq<char>) -> Option<Seq<char>> {
        self.paths[path].backup
    }

    /// `self` with `node` standing at `path`.
    pub open spec fn with_node(self, path: Seq<char>, node: NodeView) -> FsModel {
        FsModel {
            paths: self.paths.insert(path, PathState { node, backup: self.paths[path].backup }),
            journal: self.journal,
        }
    }

    /// `self` with `location` noted as the latest backup of `path`.
    pub open spec fn with_backup(self, path: Seq<char>, location: Option<Seq<char>>) -> FsModel {
        FsModel {
            paths: self.paths.insert(
                path,
                PathState { node: self.paths[path].node, backup: location },
            ),
            journal: self.journal,
        }
    }

    /// `self` with `action` added to the journal.
    pub open spec fn logged(self, action: FsActionView) -> FsModel {
        FsModel { paths: self.paths, journal: self.journal.push(action) }
    }

    /// `self` after a symbolic link to `source` was placed at `target`.
    pub open spec fn with_symlink(self, source: Seq<char>, target: Seq<char>) -> FsModel {
        self.with_node(target, NodeView::Symlink(source)).logged(
            FsActionView::CreateSymlink { source, target },
        )
    }

    /// `self` after the symbolic link at `path` was removed.
    pub open spec fn without_symlink(self, path: Seq<char>) -> FsModel {
        self.with_node(path, NodeView::Missing).logged(FsActionView::RemoveSymlink { path })
    }

    /// `self` after what stood at `path` was moved to `location` as its
    /// backup.
    pub open spec fn moved_to_backup(self, path: Seq<char>, location: Seq<char>) -> FsModel {
        self.with_node(location, self.node(path)).with_node(path, NodeView::Missing).with_backup(
            path,
            Some(location),
        ).logged(FsActionView::MoveToBackup { target: path, location })
    }

    /// `self` after the backup at `location` was moved back to `path`.
    pub open spec fn restored(self, path: Seq<char>, location: Seq<char>) -> FsModel {
        self.with_node(path, self.node(location)).with_node(location, NodeView::Missing).with_backup(
            path,
            None,
        ).logged(FsActionView::RestoreBackup { location, target: path })
    }
}

struct FsEntry {
    path: String,
    node: Node,
    backup: Option<String>,
}

impl FsEntry {
    spec fn state(&self) -> PathState {
        PathState {
            node: self.node@,
            backup: match self.backup {
                Some(location) => Some(location@),
                None => None,
            },
        }
    }
}

spec fn table(entries: Seq<FsEntry>) -> Map<Seq<char>, PathState>
    decreases entries.len(),
{
    if entries.len() == 0 {
        FsModel::blank().paths
    } else {
        table(entries.drop_last()).insert(entries.last().path@, entries.last().state())
    }
}

spec fn action_views(actions: Seq<FsAction>) -> Seq<FsActionView> {
    Seq::new(actions.len(), |i: int| actions[i]@)
}

/// The known and planned state of the file system.
pub struct FsView {
    entries: Vec<FsEntry>,
    journal: Vec<FsAction>,
}

impl View for FsView {
    type V = FsModel;

    closed spec fn view(&self) -> FsModel {
        FsModel { paths: table(self.entries@), journal: action_views(self.journal@) }
    }
}

impl FsView {
    /// A view in which nothing is known and nothing planned.
    pub fn new() -> (fs: FsView)
        ensures
            fs@ == FsModel::blank(),
    {
        let fs = FsView { entries: Vec::new(), journal: Vec::new() };
        assert(fs@.journal =~= Seq::<FsActionView>::empty());
        fs
    }

    fn find(&self, path: &str) -> (r: Option<usize>)
        ensures
            match r {
                Some(i) => i < self.entries@.len() && self.entries@[i as int].path@ == path@
                    && self@.paths[path@] == self.entries@[i as int].state(),
                None => self@.paths[path@] == (PathState { node: NodeView::Missing, backup: None }),
            },
    {
        let mut i: usize = self.entries.len();
        assert(self.entries@.take(i as int) =~= self.entries@);
        while i > 0
            invariant
                i <= self.entries@.len(),
                table(self.entries@)[path@] == table(self.entries@.take(i as int))[path@],
            decreases i,
        {
            i -= 1;
            assert(self.entries@.take(i + 1).drop_last() =~= self.entries@.take(i as int));
            assert(self.entries@.take(i + 1).last() == self.entries@[i as int]);
            if str_eq(self.entries[i].path.as_str(), path) {
                return Some(i);
            }
        }
        assert(self.entries@.take(0).len() == 0);
        None
    }

    fn put(&mut self, path: &str, node: Node, backup: Option<String>)
        ensures
            final(self)@.paths == old(self)@.paths.insert(
                path@,
                PathState {
                    node: node@,
                    backup: match backup {
                        Some(location) => Some(location@),
                        None => None,
                    },
                },
            ),
            final(self)@.journal == old(self)@.journal,
    {
        let ghost before = self.entries@;
        let entry = FsEntry { path: path.to_owned(), node, backup };
        self.entries.push(entry);
        assert(self.entries@.drop_last() =~= before);
    }

    fn log(&mut self, action: FsAction)
        ensures
            final(self)@ == old(self)@.logged(action@),
    {
        self.journal.push(action);
        assert(self@.journal =~= old(self)@.journal.push(action@));
    }

    /// What stands at `path`.
    pub fn node_at(&self, path: &str) -> (r: Node)
        ensures
            r@ == self@.node(path@),
    {
        match self.find(path) {
            Some(i) => self.entries[i].node.clone(),
            None => Node::Missing,
        }
    }

    /// Whether anything stands at `path`.
    pub fn is_present(&self, path: &str) -> (r: bool)
        ensures
            r == self@.present(path@),
    {
        match self.find(path) {
            Some(i) => match &self.entries[i].node {
                Node::Missing => false,
                _ => true,
            },
            None => false,
        }
    }

    /// Whether a directory stands at `path`.
    pub fn is_directory(&self, path: &str) -> (r: bool)
        ensures
            r == (self@.node(path@) is Directory),
    {
        match self.find(path) {
            Some(i) => match &self.entries[i].node {
                Node::Directory(_) => true,
                _ => false,
            },
            None => false,
        }
    }

    /// Where the latest backup of `path` lies, if one is known.
    pub fn latest_backup(&self, path: &str) -> (r: Option<String>)
        ensures
            match r {
                Some(location) => self@.backup_of(path@) == Some(location@),
                None => self@.backup_of(path@) is None,
            },
    {
        match self.find(path) {
            Some(i) => match &self.entries[i].backup {
                Some(location) => Some(location.clone()),
                None => None,
            },
            None => None,
        }
    }

    fn set_node(&mut self, path: &str, node: Node)
        ensures
            final(self)@ == old(self)@.with_node(path@, node@),
    {
        let backup = self.latest_backup(path);
        self.put(path, node, backup);
    }

    fn set_backup(&mut self, path: &str, location: Option<String>)
        ensures
            final(self)@ == old(self)@.with_backup(
                path@,
                match location {
                    Some(l) => Some(l@),
                    None => None,
                },
            ),
    {
        let node = self.node_at(path);
        self.put(path, node, location);
    }

    /// Records what was seen at `path`. Nothing is planned by this.
    pub fn observe(&mut self, path: &str, node: Node)
        ensures
            final(self)@ == old(self)@.with_node(path@, node@),
    {
        self.set_node(path, node);
    }

    /// Records that a backup of `path` was seen at `location`. Nothing is
    /// planned by this.
    pub fn observe_backup(&mut self, path: &str, location: &str)
        ensures
            final(self)@ == old(self)@.with_backup(path@, Some(location@)),
    {
        self.set_backup(path, Some(location.to_owned()));
    }

    /// Plans a symbolic link at `target` that points at `source`.
    pub fn create_symlink(&mut self, source: &str, target: &str)
        ensures
            final(self)@ == old(self)@.with_symlink(source@, target@),
    {
        self.set_node(target, Node::Symlink(source.to_owned()));
        self.log(FsAction::CreateSymlink { source: source.to_owned(), target: target.to_owned() });
    }

    /// Plans the removal of the symbolic link at `path`.
    pub fn remove_symlink(&mut self, path: &str)
        ensures
            final(self)@ == old(self)@.without_symlink(path@),
    {
        self.set_node(path, Node::Missing);
        self.log(FsAction::RemoveSymlink { path: path.to_owned() });
    }

    /// Plans to move what stands at `path` to `location`, and notes
    /// `location` as the latest backup of `path`.
    pub fn move_to_backup(&mut self, path: &str, location: &str)
        ensures
            final(self)@ == old(self)@.moved_to_backup(path@, location@),
    {
        let node = self.node_at(path);
        self.set_node(location, node);
        self.set_node(path, Node::Missing);
        self.set_backup(path, Some(location.to_owned()));
        self.log(FsAction::MoveToBackup { target: path.to_owned(), location: location.to_owned() });
    }

    /// Plans to move the backup at `location` back to `path`, after which
    /// `path` has no backup.
    pub fn restore_backup(&mut self, path: &str, location: &str)
        ensures
            final(self)@ == old(self)@.restored(path@, location@),
    {
        let node = self.node_at(location);
        self.set_node(path, node);
        self.set_node(location, Node::Missing);
        self.set_backup(path, None);
        self.log(FsAction::RestoreBackup { location: location.to_owned(), target: path.to_owned() });
    }

    /// The changes planned so far, oldest first.
    pub fn planned_actions(&self) -> (r: Vec<FsAction>)
        ensures
            r@.len() == self@.journal.len(),
            forall|i: int| 0 <= i < r@.len() ==> #[trigger] r@[i]@ == self@.journal[i],
    {
        let mut out: Vec<FsAction> = Vec::new();
        let mut i: usize = 0;
        while i < self.journal.len()
            invariant
                i <= self.journal@.len(),
                out@.len() == i,
                forall|j: int| 0 <= j < i ==> #[trigger] out@[j]@ == self.journal@[j]@,
            decreases self.journal@.len() - i,
        {
            out.push(self.journal[i].clone());
            i += 1;
        }
        out
    }
}

} // verus!
