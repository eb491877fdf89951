//! The checks of the category Repository: the remote, the working tree
//! and the branch, each by what git printed.

use vstd::prelude::*;
use crate::doctor::clock_now;
use crate::doctor::finding;
use crate::doctor::one_detail;
use crate::doctor::when_verbose;
use crate::doctor::Doctor;
use crate::doctor::ResultView;
use crate::doctor::ValidationStatus;
use crate::git::redact_credentials;
use crate::git::redacted;
use crate::scan::contains_text;
use crate::scan::fields_of;
use crate::scan::first_strings;
use crate::scan::leading;
use crate::scan::lines_of;
use crate::scan::parse_i32;
use crate::scan::parsed_i32;
use crate::scan::text_contains;
use crate::scan::text_lines;
use crate::scan::trimmed;
use crate::scan::trimmed_text;
use crate::scan::whitespace_fields;
use crate::strings::join2;
use crate::strings::decimal;
use crate::strings::decimal_digits;
use crate::strings::signed_decimal;
use crate::strings::signed_digits;

verus! {

/// Whether a line of `git remote -v` speaks of fetching from `origin`.
pub open spec fn is_origin_fetch(line: Seq<char>) -> bool {
    contains_text(line, "origin"@) && contains_text(line, "(fetch)"@)
}

/// The first of `lines` that speaks of fetching from `origin`.
pub open spec fn origin_line(lines: Seq<Seq<char>>) -> Option<Seq<char>>
    decreases lines.len(),
{
    if lines.len() == 0 {
        None
    } else if is_origin_fetch(lines[0]) {
        Some(lines[0])
    } else {
        origin_line(lines.drop_first())
    }
}

/// The second of the fields of a line, where it has one.
pub open spec fn second_field(fields: Seq<Seq<char>>) -> Option<Seq<char>> {
    if fields.len() > 1 {
        Some(fields[1])
    } else {
        None
    }
}

/// The address of `origin` in what `git remote -v` printed: the second
/// field of the first line that speaks of fetching from it.
pub open spec fn origin_url(out: Seq<char>) -> Option<Seq<char>> {
    match origin_line(text_lines(out)) {
        Some(line) => second_field(whitespace_fields(line)),
        None => None,
    }
}

/// What the remotes give: a warning where there is none at all, a pass
/// with the address of `origin`, credentials taken out, where there is
/// one, and nothing otherwise.
pub open spec fn remote_state_findings(has_remotes: bool, origin: Option<Seq<char>>) -> Seq<
    ResultView,
> {
    if !has_remotes {
        seq![
            finding(
                "Repository"@,
                "git_remote"@,
                "No remote configured"@,
                ValidationStatus::Warning,
                None,
                Some(seq!["Changes won't sync to a remote server"@]),
            ),
        ]
    } else {
        match origin {
            Some(url) => seq![
                finding(
                    "Repository"@,
                    "git_remote"@,
                    "Remote configured: "@ + redacted(url),
                    ValidationStatus::Pass,
                    None,
                    None,
                ),
            ],
            None => Seq::empty(),
        }
    }
}

/// What `git remote -v` gives: there are remotes where it printed more
/// than white space; nothing is found where it did not run with success.
pub open spec fn remote_findings(remote: Option<Seq<char>>) -> Seq<ResultView> {
    match remote {
        Some(out) => remote_state_findings(trimmed_text(out).len() != 0, origin_url(out)),
        None => Seq::empty(),
    }
}

/// What the changes in the working tree give, one line each: a pass
/// where there is none, a warning with their number otherwise.
pub open spec fn changes_findings(verbose: bool, changes: Seq<Seq<char>>) -> Seq<ResultView> {
    if changes.len() == 0 {
        seq![
            finding(
                "Repository"@,
                "git_status"@,
                "Working tree clean"@,
                ValidationStatus::Pass,
                None,
                None,
            ),
        ]
    } else {
        seq![
            finding(
                "Repository"@,
                "git_status"@,
                decimal_digits(changes.len()) + " uncommitted changes"@,
                ValidationStatus::Warning,
                None,
                when_verbose(verbose, leading(changes, 5)),
            ),
        ]
    }
}

/// What `git status --porcelain` gives: each line it printed is a
/// change; nothing is found where it did not run.
pub open spec fn status_findings(verbose: bool, status: Option<Seq<char>>) -> Seq<ResultView> {
    match status {
        Some(out) => changes_findings(verbose, text_lines(out)),
        None => Seq::empty(),
    }
}

/// What is said of a branch that is `ahead` commits ahead of its remote
/// and `behind` commits behind it.
pub open spec fn branch_message(branch: Seq<char>, ahead: int, behind: int) -> Seq<char> {
    if ahead == 0 && behind == 0 {
        "Branch '"@ + branch + "' up to date with remote"@
    } else if behind == 0 {
        "Branch '"@ + branch + "' "@ + signed_digits(ahead) + " commit(s) ahead of remote"@
    } else if ahead == 0 {
        "Branch '"@ + branch + "' "@ + signed_digits(behind) + " commit(s) behind remote"@
    } else {
        "Branch '"@ + branch + "' "@ + signed_digits(ahead) + " ahead, "@ + signed_digits(behind)
            + " behind remote"@
    }
}

/// The finding for a branch with its distance to the remote: a warning
/// where it is behind, a pass otherwise.
pub open spec fn branch_finding(branch: Seq<char>, ahead: int, behind: int) -> ResultView {
    finding(
        "Repository"@,
        "git_branch"@,
        branch_message(branch, ahead, behind),
        if behind > 0 {
            ValidationStatus::Warning
        } else {
            ValidationStatus::Pass
        },
        None,
        None,
    )
}

/// What is known of a branch's remote.
#[derive(Debug, Clone, Copy, PartialEq, Eq, Structural)]
pub enum Upstream {
    /// Nothing could be asked of it.
    Missing,
    /// What git said of it cannot be read as two counts.
    Unreadable,
    /// The branch is `ahead` commits ahead of it and `behind` behind.
    Distance { ahead: i32, behind: i32 },
}

/// A count that git printed: the number it writes, or zero where it
/// writes none.
pub open spec fn count_or_zero(count: Option<i32>) -> i32 {
    match count {
        Some(n) => n,
        None => 0,
    }
}

/// What the fields that git printed say of the remote: two fields are the
/// counts behind and ahead, anything else cannot be read.
pub open spec fn upstream_of(fields: Seq<Seq<char>>) -> Upstream {
    if fields.len() == 2 {
        Upstream::Distance {
            ahead: count_or_zero(parsed_i32(fields[1])),
            behind: count_or_zero(parsed_i32(fields[0])),
        }
    } else {
        Upstream::Unreadable
    }
}

/// What `git rev-list --left-right --count` printed says of the remote;
/// nothing is known where it did not run.
pub open spec fn upstream_read(counts: Option<Seq<char>>) -> Upstream {
    match counts {
        Some(c) => upstream_of(whitespace_fields(c)),
        None => Upstream::Missing,
    }
}

/// What the branch `name` gives with what is known of its remote: nothing
/// for no branch, otherwise a warning where it is behind and a pass in
/// every other case.
pub open spec fn branch_state_findings(name: Seq<char>, upstream: Upstream) -> Seq<ResultView> {
    if name.len() == 0 {
        Seq::empty()
    } else {
        match upstream {
            Upstream::Distance { ahead, behind } => seq![
                branch_finding(name, ahead as int, behind as int),
            ],
            Upstream::Unreadable => seq![
                finding(
                    "Repository"@,
                    "git_branch"@,
                    "Current branch: "@ + name,
                    ValidationStatus::Pass,
                    None,
                    None,
                ),
            ],
            Upstream::Missing => seq![
                finding(
                    "Repository"@,
                    "git_branch"@,
                    "Current branch: "@ + name + " (no upstream)"@,
                    ValidationStatus::Pass,
                    None,
                    None,
                ),
            ],
        }
    }
}

/// What the branch gives. `branch` is what `git branch --show-current`
/// printed, `counts` what `git rev-list --left-right --count` printed for
/// the branch and its remote: behind, then ahead. Nothing is found where
/// the first did not run.
pub open spec fn branch_findings(branch: Option<Seq<char>>, counts: Option<Seq<char>>) -> Seq<
    ResultView,
> {
    match branch {
        Some(out) => branch_state_findings(trimmed_text(out), upstream_read(counts)),
        None => Seq::empty(),
    }
}

/// The findings of the category Repository, in order: for a git
/// repository a pass and what remote, working tree and branch give, for
/// anything else one warning.
pub open spec fn repository_findings(
    verbose: bool,
    is_git_repo: bool,
    remote: Option<Seq<char>>,
    status: Option<Seq<char>>,
    branch: Option<Seq<char>>,
    counts: Option<Seq<char>>,
) -> Seq<ResultView> {
    if is_git_repo {
        seq![
            finding(
                "Repository"@,
                "git_repo"@,
                "Valid git repository"@,
                ValidationStatus::Pass,
                None,
                None,
            ),
        ] + remote_findings(remote) + status_findings(verbose, status) + branch_findings(
            branch,
            counts,
        )
    } else {
        seq![
            finding(
                "Repository"@,
                "git_repo"@,
                "Not a git repository"@,
                ValidationStatus::Warning,
                None,
                Some(seq!["Git sync features will not work"@]),
            ),
        ]
    }
}

/// Finds the first line that speaks of fetching from `origin`.
pub fn find_origin_line(lines: &Vec<String>) -> (r: Option<usize>)
    ensures
        match r {
            Some(i) => i < lines.len() && origin_line(lines.deep_view()) == Some(
                lines.deep_view()[i as int],
            ),
            None => origin_line(lines.deep_view()) is None,
        },
{
    let mut i: usize = 0;
    let ghost all = lines.deep_view();
    assert(all.skip(0) =~= all);
    while i < lines.len()
        invariant
            i <= lines.len(),
            all == lines.deep_view(),
            origin_line(all) == origin_line(all.skip(i as int)),
        decreases lines.len() - i,
    {
        assert(all.skip(i as int).drop_first() =~= all.skip(i + 1));
        assert(all.skip(i as int)[0] == all[i as int]);
        if text_contains(lines[i].as_str(), "origin") && text_contains(lines[i].as_str(), "(fetch)") {
            return Some(i);
        }
        i += 1;
    }
    None
}

/// The second of the fields of a line, where it has one.
pub fn second_of(fields: &Vec<String>) -> (r: Option<String>)
    ensures
        r.deep_view() == second_field(fields.deep_view()),
{
    if fields.len() > 1 {
        Some(fields[1].clone())
    } else {
        None
    }
}

/// Reads the address of `origin` from what `git remote -v` printed.
pub fn read_origin_url(out: &str) -> (r: Option<String>)
    ensures
        r.deep_view() == origin_url(out@),
{
    let lines = lines_of(out);
    match find_origin_line(&lines) {
        Some(i) => second_of(&fields_of(lines[i].as_str())),
        None => None,
    }
}

impl Upstream {
    /// The distance that two counts give; a count that could not be read
    /// is zero.
    pub fn from_counts(behind: Option<i32>, ahead: Option<i32>) -> (r: Upstream)
        ensures
            r == (Upstream::Distance {
                ahead: count_or_zero(ahead),
                behind: count_or_zero(behind),
            }),
    {
        Upstream::Distance {
            ahead: match ahead {
                Some(n) => n,
                None => 0,
            },
            behind: match behind {
                Some(n) => n,
                None => 0,
            },
        }
    }
}

/// Reads what git printed of the distance between the branch and its
/// remote.
pub fn read_upstream(counts: &Option<String>) -> (r: Upstream)
    ensures
        r == upstream_read(counts.deep_view()),
{
    match counts {
        Some(c) => {
            let parts = fields_of(c.as_str());
            if parts.len() == 2 {
                Upstream::from_counts(parse_i32(parts[0].as_str()), parse_i32(parts[1].as_str()))
            } else {
                Upstream::Unreadable
            }
        },
        None => Upstream::Missing,
    }
}

impl Doctor {
    /// Reports the remotes: whether there is any, and the address of
    /// `origin` where it is known.
    pub fn report_git_remote(&mut self, has_remotes: bool, origin: Option<&str>)
        ensures
            final(self).extends(
                old(self),
                remote_state_findings(
                    has_remotes,
                    match origin {
                        Some(url) => Some(url@),
                        None => None,
                    },
                ),
            ),
    {
        let start = clock_now();
        if !has_remotes {
            self.add_result(
                "Repository",
                "git_remote",
                "No remote configured",
                ValidationStatus::Warning,
                None,
                one_detail("Changes won't sync to a remote server".to_owned()),
                start,
            );
        } else {
            match origin {
                Some(url) => {
                    let safe_url = redact_credentials(url);
                    self.add_result(
                        "Repository",
                        "git_remote",
                        join2("Remote configured: ", safe_url.as_str()).as_str(),
                        ValidationStatus::Pass,
                        None,
                        None,
                        start,
                    );
                },
                None => {},
            }
        }
        assert(self.findings() =~= old(self).findings() + remote_state_findings(
            has_remotes,
            match origin {
                Some(url) => Some(url@),
                None => None,
            },
        ));
    }

    /// Reports the remote by what `git remote -v` printed; `None` stands
    /// for a git that did not run with success.
    pub fn check_git_remote(&mut self, remote: &Option<String>)
        ensures
            final(self).extends(old(self), remote_findings(remote.deep_view())),
    {
        match remote {
            Some(out) => {
                let has_remotes = trimmed(out.as_str()).as_str().unicode_len() != 0;
                match read_origin_url(out.as_str()) {
                    Some(url) => {
                        self.report_git_remote(has_remotes, Some(url.as_str()));
                    },
                    None => {
                        self.report_git_remote(has_remotes, None);
                    },
                }
            },
            None => {
                assert(self.findings() =~= old(self).findings() + Seq::<ResultView>::empty());
            },
        }
    }

    /// Reports the changes in the working tree, one line each.
    pub fn report_git_status(&mut self, changes: &Vec<String>)
        ensures
            final(self).extends(
                old(self),
                changes_findings(old(self).options.verbose, changes.deep_view()),
            ),
    {
        let start = clock_now();
        if changes.len() == 0 {
            self.add_result(
                "Repository",
                "git_status",
                "Working tree clean",
                ValidationStatus::Pass,
                None,
                None,
                start,
            );
        } else {
            let details = if self.options.verbose {
                Some(first_strings(changes, 5))
            } else {
                None
            };
            let mut message = decimal(changes.len() as u64);
            message.append(" uncommitted changes");
            self.add_result(
                "Repository",
                "git_status",
                message.as_str(),
                ValidationStatus::Warning,
                None,
                details,
                start,
            );
        }
        assert(self.findings() =~= old(self).findings() + changes_findings(
            old(self).options.verbose,
            changes.deep_view(),
        ));
    }

    /// Reports the working tree by what `git status --porcelain` printed;
    /// `None` stands for a git that did not run.
    pub fn check_git_status(&mut self, status: &Option<String>)
        ensures
            final(self).extends(
                old(self),
                status_findings(old(self).options.verbose, status.deep_view()),
            ),
    {
        match status {
            Some(out) => {
                self.report_git_status(&lines_of(out.as_str()));
            },
            None => {
                assert(self.findings() =~= old(self).findings() + Seq::<ResultView>::empty());
            },
        }
    }

    /// Reports a branch with its distance to the remote.
    pub fn report_branch(&mut self, branch: &str, ahead: i32, behind: i32)
        ensures
            final(self).extends(
                old(self),
                seq![branch_finding(branch@, ahead as int, behind as int)],
            ),
    {
        let start = clock_now();
        let mut message = "Branch '".to_owned();
        message.append(branch);
        if ahead == 0 && behind == 0 {
            message.append("' up to date with remote");
        } else if behind == 0 {
            message.append("' ");
            message.append(signed_decimal(ahead).as_str());
            message.append(" commit(s) ahead of remote");
        } else if ahead == 0 {
            message.append("' ");
            message.append(signed_decimal(behind).as_str());
            message.append(" commit(s) behind remote");
        } else {
            message.append("' ");
            message.append(signed_decimal(ahead).as_str());
            message.append(" ahead, ");
            message.append(signed_decimal(behind).as_str());
            message.append(" behind remote");
        }
        let status = if behind > 0 {
            ValidationStatus::Warning
        } else {
            ValidationStatus::Pass
        };
        self.add_result("Repository", "git_branch", message.as_str(), status, None, None, start);
        assert(self.findings() =~= old(self).findings() + seq![
            branch_finding(branch@, ahead as int, behind as int),
        ]);
    }

    /// Reports the branch `name` with what is known of its remote. For no
    /// branch nothing is reported.
    pub fn report_git_branch(&mut self, name: &str, upstream: Upstream)
        ensures
            final(self).extends(old(self), branch_state_findings(name@, upstream)),
    {
        let start = clock_now();
        if name.unicode_len() != 0 {
            match upstream {
                Upstream::Distance { ahead, behind } => {
                    self.report_branch(name, ahead, behind);
                },
                Upstream::Unreadable => {
                    self.add_result(
                        "Repository",
                        "git_branch",
                        join2("Current branch: ", name).as_str(),
                        ValidationStatus::Pass,
                        None,
                        None,
                        start,
                    );
                },
                Upstream::Missing => {
                    let mut message = "Current branch: ".to_owned();
                    message.append(name);
                    message.append(" (no upstream)");
                    self.add_result(
                        "Repository",
                        "git_branch",
                        message.as_str(),
                        ValidationStatus::Pass,
                        None,
                        None,
                        start,
                    );
                },
            }
        }
        assert(self.findings() =~= old(self).findings() + branch_state_findings(name@, upstream));
    }

    /// Reports the branch by what git printed for its name and for its
    /// distance to the remote; `None` stands for a git that did not run.
    pub fn check_git_branch(&mut self, branch: &Option<String>, counts: &Option<String>)
        ensures
            final(self).extends(old(self), branch_findings(branch.deep_view(), counts.deep_view())),
    {
        match branch {
            Some(out) => {
                let name = trimmed(out.as_str());
                self.report_git_branch(name.as_str(), read_upstream(counts));
            },
            None => {
                assert(self.findings() =~= old(self).findings() + Seq::<ResultView>::empty());
            },
        }
    }

    /// Runs the checks of the category Repository.
    pub fn check_repository(
        &mut self,
        is_git_repo: bool,
        remote: &Option<String>,
        status: &Option<String>,
        branch: &Option<String>,
        counts: &Option<String>,
    )
        ensures
            final(self).extends(
                old(self),
                repository_findings(
                    old(self).options.verbose,
                    is_git_repo,
                    remote.deep_view(),
                    status.deep_view(),
                    branch.deep_view(),
                    counts.deep_view(),
                ),
            ),
    {
        let start = clock_now();
        if is_git_repo {
            self.add_result(
                "Repository",
                "git_repo",
                "Valid git repository",
                ValidationStatus::Pass,
                None,
                None,
                start,
            );
            self.check_git_remote(remote);
            self.check_git_status(status);
            self.check_git_branch(branch, counts);
        } else {
            self.add_result(
                "Repository",
                "git_repo",
                "Not a git repository",
                ValidationStatus::Warning,
                None,
                one_detail("Git sync features will not work".to_owned()),
                start,
            );
        }
        assert(self.findings() =~= old(self).findings() + repository_findings(
            old(self).options.verbose,
            is_git_repo,
            remote.deep_view(),
            status.deep_view(),
            branch.deep_view(),
            counts.deep_view(),
        ));
    }
}

} // verus!
