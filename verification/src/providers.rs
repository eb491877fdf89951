//! Where the remote repository lives: on GitHub or on this machine.

use vstd::prelude::*;
use crate::fsview::FsView;

verus! {

/// A repository as a provider describes it.
#[derive(Debug)]
pub struct RepoInfo {
    pub name: String,
    /// The address to clone from; empty where there is no remote.
    pub clone_url: String,
    pub default_branch: String,
}

/// The mathematical value of a `RepoInfo`.
pub struct RepoInfoView {
    pub name: Seq<char>,
    pub clone_url: Seq<char>,
    pub default_branch: Seq<char>,
}

impl View for RepoInfo {
    type V = RepoInfoView;

    open spec fn view(&self) -> RepoInfoView {
        RepoInfoView {
            name: self.name@,
            clone_url: self.clone_url@,
            default_branch: self.default_branch@,
        }
    }
}

/// A user as GitHub describes it.
#[derive(Debug)]
pub struct GitHubUser {
    pub login: String,
}

/// A repository as GitHub describes it.
#[derive(Debug)]
pub struct GitHubRepo {
    pub name: String,
    pub full_name: String,
    pub default_branch: String,
    pub clone_url: String,
}

impl GitHubRepo {
    /// What this repository is to the rest of the program.
    pub fn info(&self) -> (r: RepoInfo)
        ensures
            r@ == (RepoInfoView {
                name: self.name@,
                clone_url: self.clone_url@,
                default_branch: self.default_branch@,
            }),
    {
        RepoInfo {
            name: self.name.clone(),
            clone_url: self.clone_url.clone(),
            default_branch: self.default_branch.clone(),
        }
    }
}

/// What a provider can say of itself without reaching out.
pub trait GitProvider {
    /// The kind of the provider.
    spec fn kind(&self) -> Seq<char>;

    /// The address for git of the repository `owner/repo`.
    spec fn remote_address(&self, owner: Seq<char>, repo: Seq<char>) -> Seq<char>;

    /// The kind of the provider, such as `github` or `local`.
    fn id(&self) -> (r: &str)
        ensures
            r@ == self.kind(),
    ;

    /// The name under which the provider is shown.
    fn display_name(&self) -> (r: &str);

    /// The address for git of the repository `owner/repo`.
    fn get_remote_url(&self, owner: &str, repo: &str) -> (r: String)
        ensures
            r@ == self.remote_address(owner@, repo@),
    ;

    /// What the user is told when setting the provider up.
    fn get_setup_instructions(&self) -> (r: String);
}

/// A remote on this machine, or none.
#[derive(Debug)]
pub struct LocalProvider {
    /// The path of the remote, where there is one.
    pub remote_path: Option<String>,
}

impl LocalProvider {
    /// The path of the remote; empty where there is none.
    pub open spec fn path(&self) -> Seq<char> {
        match self.remote_path {
            Some(p) => p@,
            None => Seq::empty(),
        }
    }

    /// The user of a local remote. Nothing has to be proved to anyone.
    pub fn authenticate(&self) -> (r: String)
        ensures
            r@ == "local-user"@,
    {
        "local-user".to_owned()
    }

    /// Whether the remote is there: a path is set and something stands at
    /// it.
    pub fn repo_exists(&self, fs: &FsView) -> (r: bool)
        ensures
            r == match self.remote_path {
                Some(p) => fs@.present(p@),
                None => false,
            },
    {
        match &self.remote_path {
            Some(p) => fs.is_present(p.as_str()),
            None => false,
        }
    }

    /// Whether the remote has to be set up first: a path is set and
    /// nothing stands at it.
    pub fn needs_init(&self, fs: &FsView) -> (r: bool)
        ensures
            r == match self.remote_path {
                Some(p) => !fs@.present(p@),
                None => false,
            },
    {
        match &self.remote_path {
            Some(p) => !fs.is_present(p.as_str()),
            None => false,
        }
    }

    /// The repository `name` on this remote: cloned from the remote's
    /// path, with `main` as its branch.
    pub fn repo_info(&self, name: &str) -> (r: RepoInfo)
        ensures
            r@ == (RepoInfoView {
                name: name@,
                clone_url: self.path(),
                default_branch: "main"@,
            }),
    {
        RepoInfo {
            name: name.to_owned(),
            clone_url: match &self.remote_path {
                Some(p) => p.clone(),
                None => String::new(),
            },
            default_branch: "main".to_owned(),
        }
    }
}

impl GitProvider for LocalProvider {
    open spec fn kind(&self) -> Seq<char> {
        "local"@
    }

    open spec fn remote_address(&self, owner: Seq<char>, repo: Seq<char>) -> Seq<char> {
        self.path()
    }

    fn id(&self) -> (r: &str) {
        "local"
    }

    fn display_name(&self) -> (r: &str)
        ensures
            r@ == "Local"@,
    {
        "Local"
    }

    fn get_remote_url(&self, owner: &str, repo: &str) -> (r: String) {
        match &self.remote_path {
            Some(p) => p.clone(),
            None => String::new(),
        }
    }

    fn get_setup_instructions(&self) -> (r: String)
        ensures
            r@ == "Local setup: Enter path to store your dotfiles locally."@,
    {
        "Local setup: Enter path to store your dotfiles locally.".to_owned()
    }
}

/// A remote on GitHub, reached with a token.
pub struct GitHubProvider {
    pub token: String,
}

impl GitProvider for GitHubProvider {
    open spec fn kind(&self) -> Seq<char> {
        "github"@
    }

    open spec fn remote_address(&self, owner: Seq<char>, repo: Seq<char>) -> Seq<char> {
        "https://"@ + self.token@ + "@github.com/"@ + owner + "/"@ + repo + ".git"@
    }

    fn id(&self) -> (r: &str) {
        "github"
    }

    fn display_name(&self) -> (r: &str)
        ensures
            r@ == "GitHub"@,
    {
        "GitHub"
    }

    fn get_remote_url(&self, owner: &str, repo: &str) -> (r: String) {
        let mut r = "https://".to_owned();
        r.append(self.token.as_str());
        r.append("@github.com/");
        r.append(owner);
        r.append("/");
        r.append(repo);
        r.append(".git");
        r
    }

    fn get_setup_instructions(&self) -> (r: String)
        ensures
            r@ == "Please enter your GitHub Personal Access Token.\nYou can create one at: https://github.com/settings/tokens\nRequired scopes: 'repo' (full control of private repositories)"@,
    {
        "Please enter your GitHub Personal Access Token.\nYou can create one at: https://github.com/settings/tokens\nRequired scopes: 'repo' (full control of private repositories)".to_owned()
    }
}

} // verus!
