//! The checks of the category Filesystem: write permissions and disk
//! space.

use vstd::prelude::*;
use crate::doctor::clock_now;
use crate::doctor::finding;
use crate::doctor::one_detail;
use crate::doctor::Doctor;
use crate::doctor::ResultView;
use crate::doctor::ValidationStatus;
use crate::scan::fields_of;
use crate::scan::lines_of;
use crate::scan::parse_i32;
use crate::scan::parsed_i32;
use crate::scan::strip_trailing;
use crate::scan::text_lines;
use crate::scan::whitespace_fields;
use crate::scan::without_trailing;
use crate::strings::join2;
use crate::strings::signed_decimal;
use crate::strings::signed_digits;

verus! {

/// What a write test in the repository gives: a pass where it went
/// through, an error with the reason where it did not.
pub open spec fn repo_write_findings(outcome: Result<(), Seq<char>>) -> Seq<ResultView> {
    match outcome {
        Ok(_) => seq![
            finding(
                "Filesystem"@,
                "write_permission"@,
                "Repository is writable"@,
                ValidationStatus::Pass,
                None,
                None,
            ),
        ],
        Err(reason) => seq![
            finding(
                "Filesystem"@,
                "write_permission"@,
                "Repository not writable: "@ + reason,
                ValidationStatus::Error,
                None,
                None,
            ),
        ],
    }
}

/// What a write test in the home directory gives, where one was made.
pub open spec fn home_write_findings(outcome: Option<Result<(), Seq<char>>>) -> Seq<ResultView> {
    match outcome {
        Some(Ok(_)) => seq![
            finding(
                "Filesystem"@,
                "home_writable"@,
                "Home directory is writable"@,
                ValidationStatus::Pass,
                None,
                None,
            ),
        ],
        Some(Err(reason)) => seq![
            finding(
                "Filesystem"@,
                "home_writable"@,
                "Home directory not writable: "@ + reason,
                ValidationStatus::Error,
                None,
                None,
            ),
        ],
        None => Seq::empty(),
    }
}

/// What a disk that is `pct` percent full, with `available` left, gives:
/// an error above 90, a warning above 80, a pass otherwise.
pub open spec fn disk_usage_finding(pct: int, available: Seq<char>) -> ResultView {
    if pct > 90 {
        finding(
            "Filesystem"@,
            "disk_space"@,
            "Disk "@ + signed_digits(pct) + "% full - "@ + available + " available"@,
            ValidationStatus::Error,
            None,
            Some(seq!["Low disk space may cause sync failures"@]),
        )
    } else if pct > 80 {
        finding(
            "Filesystem"@,
            "disk_space"@,
            "Disk "@ + signed_digits(pct) + "% full - "@ + available + " available"@,
            ValidationStatus::Warning,
            None,
            None,
        )
    } else {
        finding(
            "Filesystem"@,
            "disk_space"@,
            "Disk space OK - "@ + available + " available ("@ + signed_digits(pct) + "% used)"@,
            ValidationStatus::Pass,
            None,
            None,
        )
    }
}

/// What the table that `df -h` printed says of the disk: the percentage in
/// the fifth column of its second line, and what is available in the
/// fourth.
pub open spec fn disk_usage(out: Seq<char>) -> Option<(int, Seq<char>)> {
    let lines = text_lines(out);
    if lines.len() < 2 {
        None
    } else {
        let parts = whitespace_fields(lines[1]);
        if parts.len() < 5 {
            None
        } else {
            match parsed_i32(without_trailing(parts[4], '%')) {
                Some(pct) => Some((pct as int, parts[3])),
                None => None,
            }
        }
    }
}

/// The finding for the disk: by what `df -h` printed, or a pass that says
/// nothing where that cannot be read.
pub open spec fn disk_findings(df_output: Option<Seq<char>>) -> Seq<ResultView> {
    let unknown = finding(
        "Filesystem"@,
        "disk_space"@,
        "Could not determine disk space"@,
        ValidationStatus::Pass,
        None,
        None,
    );
    match df_output {
        Some(out) => match disk_usage(out) {
            Some((pct, available)) => seq![disk_usage_finding(pct, available)],
            None => seq![unknown],
        },
        None => seq![unknown],
    }
}

/// The findings of the category Filesystem, in order.
pub open spec fn filesystem_findings(
    repo_write: Result<(), Seq<char>>,
    home_write: Option<Result<(), Seq<char>>>,
    df_output: Option<Seq<char>>,
) -> Seq<ResultView> {
    repo_write_findings(repo_write) + home_write_findings(home_write) + disk_findings(df_output)
}

/// The mathematical value of the outcome of a write test.
pub open spec fn write_view(outcome: Result<(), String>) -> Result<(), Seq<char>> {
    match outcome {
        Ok(_) => Ok(()),
        Err(reason) => Err(reason@),
    }
}

/// The mathematical value of the outcome of a write test that may not have
/// been made.
pub open spec fn write_option_view(outcome: Option<Result<(), String>>) -> Option<
    Result<(), Seq<char>>,
> {
    match outcome {
        Some(o) => Some(write_view(o)),
        None => None,
    }
}

/// Reads the percentage used and the space available from what `df -h`
/// printed.
pub fn read_disk_usage(out: &str) -> (r: Option<(i32, String)>)
    ensures
        match r {
            Some((pct, available)) => disk_usage(out@) == Some((pct as int, available@)),
            None => disk_usage(out@) is None,
        },
{
    let lines = lines_of(out);
    if lines.len() < 2 {
        return None;
    }
    let parts = fields_of(lines[1].as_str());
    if parts.len() < 5 {
        return None;
    }
    let usage = strip_trailing(parts[4].as_str(), '%');
    match parse_i32(usage.as_str()) {
        Some(pct) => Some((pct, parts[3].clone())),
        None => None,
    }
}

impl Doctor {
    /// Reports the outcome of the write tests: one in the repository, and
    /// one in the home directory where that is known.
    pub fn check_write_permissions(
        &mut self,
        repo_write: &Result<(), String>,
        home_write: &Option<Result<(), String>>,
    )
        ensures
            final(self).extends(
                old(self),
                repo_write_findings(write_view(*repo_write)) + home_write_findings(
                    write_option_view(*home_write),
                ),
            ),
    {
        let start = clock_now();
        match repo_write {
            Ok(_) => {
                self.add_result(
                    "Filesystem",
                    "write_permission",
                    "Repository is writable",
                    ValidationStatus::Pass,
                    None,
                    None,
                    start,
                );
            },
            Err(reason) => {
                self.add_result(
                    "Filesystem",
                    "write_permission",
                    join2("Repository not writable: ", reason.as_str()).as_str(),
                    ValidationStatus::Error,
                    None,
                    None,
                    start,
                );
            },
        }
        assert(self.findings() =~= old(self).findings() + repo_write_findings(
            write_view(*repo_write),
        ));
        let start = clock_now();
        match home_write {
            Some(Ok(_)) => {
                self.add_result(
                    "Filesystem",
                    "home_writable",
                    "Home directory is writable",
                    ValidationStatus::Pass,
                    None,
                    None,
                    start,
                );
            },
            Some(Err(reason)) => {
                self.add_result(
                    "Filesystem",
                    "home_writable",
                    join2("Home directory not writable: ", reason.as_str()).as_str(),
                    ValidationStatus::Error,
                    None,
                    None,
                    start,
                );
            },
            None => {},
        }
        assert(self.findings() =~= old(self).findings() + (repo_write_findings(
            write_view(*repo_write),
        ) + home_write_findings(write_option_view(*home_write))));
    }

    /// Reports a disk that is `pct` percent full, with `available` left.
    pub fn report_disk_usage(&mut self, pct: i32, available: &str)
        ensures
            final(self).extends(old(self), seq![disk_usage_finding(pct as int, available@)]),
    {
        let start = clock_now();
        let number = signed_decimal(pct);
        if pct > 80 {
            let mut message = "Disk ".to_owned();
            message.append(number.as_str());
            message.append("% full - ");
            message.append(available);
            message.append(" available");
            if pct > 90 {
                self.add_result(
                    "Filesystem",
                    "disk_space",
                    message.as_str(),
                    ValidationStatus::Error,
                    None,
                    one_detail("Low disk space may cause sync failures".to_owned()),
                    start,
                );
            } else {
                self.add_result(
                    "Filesystem",
                    "disk_space",
                    message.as_str(),
                    ValidationStatus::Warning,
                    None,
                    None,
                    start,
                );
            }
        } else {
            let mut message = "Disk space OK - ".to_owned();
            message.append(available);
            message.append(" available (");
            message.append(number.as_str());
            message.append("% used)");
            self.add_result(
                "Filesystem",
                "disk_space",
                message.as_str(),
                ValidationStatus::Pass,
                None,
                None,
                start,
            );
        }
        assert(self.findings() =~= old(self).findings() + seq![
            disk_usage_finding(pct as int, available@),
        ]);
    }

    /// Reports the disk space by what `df -h` printed for the repository;
    /// `None` stands for a `df` that did not run.
    pub fn check_disk_space(&mut self, df_output: &Option<String>)
        ensures
            final(self).extends(old(self), disk_findings(df_output.deep_view())),
    {
        let usage = match df_output {
            Some(out) => read_disk_usage(out.as_str()),
            None => None,
        };
        match usage {
            Some((pct, available)) => {
                self.report_disk_usage(pct, available.as_str());
            },
            None => {
                let start = clock_now();
                self.add_result(
                    "Filesystem",
                    "disk_space",
                    "Could not determine disk space",
                    ValidationStatus::Pass,
                    None,
                    None,
                    start,
                );
                assert(self.findings() =~= old(self).findings() + disk_findings(
                    df_output.deep_view(),
                ));
            },
        }
    }

    /// Runs the checks of the category Filesystem.
    pub fn check_filesystem(
        &mut self,
        repo_write: &Result<(), String>,
        home_write: &Option<Result<(), String>>,
        df_output: &Option<String>,
    )
        ensures
            final(self).extends(
                old(self),
                filesystem_findings(
                    write_view(*repo_write),
                    write_option_view(*home_write),
                    df_output.deep_view(),
                ),
            ),
    {
        self.check_write_permissions(repo_write, home_write);
        self.check_disk_space(df_output);
        assert(self.findings() =~= old(self).findings() + filesystem_findings(
            write_view(*repo_write),
            write_option_view(*home_write),
            df_output.deep_view(),
        ));
    }
}

} // verus!
