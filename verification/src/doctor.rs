//! The doctor: audits settings, manifest, ledger and file system against
//! each other, reports what it finds, and applies a fixed set of repairs.
//!
//! The doctor reads what was observed of the machine (`Observations`); it
//! touches nothing itself. Its checks stand in the modules below, one per
//! category.

pub mod backups;
pub mod configuration;
pub mod environment;
pub mod filesystem;
pub mod fixes;
pub mod laws;
pub mod profiles;
pub mod repository;
pub mod symlinks;

use vstd::prelude::*;
use std::time::Duration;
use std::time::Instant;
use crate::config::Config;
use crate::strings::decimal;
use crate::strings::decimal_digits;
use crate::strings::digit;
use crate::strings::digit_char;
use crate::strings::lemma_filter_next;
use crate::version_check::current_version;
use crate::version_check::VERSION;

verus! {

/// How a check ended.
#[derive(Debug, Clone, Copy, PartialEq, Eq, Structural)]
pub enum ValidationStatus {
    Pass,
    Warning,
    Error,
}

/// What one check found.
#[derive(Debug)]
pub struct ValidationResult {
    pub category: String,
    pub check_name: String,
    pub message: String,
    pub status: ValidationStatus,
    /// Whether a repair is known: `fix_action` names it.
    pub fixable: bool,
    pub fix_action: Option<String>,
    pub details: Option<Vec<String>>,
    /// How long the check took.
    pub duration_ms: u64,
}

/// The mathematical value of a `ValidationResult`: all of it but the time
/// that the check took.
pub struct ResultView {
    pub category: Seq<char>,
    pub check_name: Seq<char>,
    pub message: Seq<char>,
    pub status: ValidationStatus,
    pub fixable: bool,
    pub fix_action: Option<Seq<char>>,
    pub details: Option<Seq<Seq<char>>>,
}

impl View for ValidationResult {
    type V = ResultView;

    open spec fn view(&self) -> ResultView {
        ResultView {
            category: self.category@,
            check_name: self.check_name@,
            message: self.message@,
            status: self.status,
            fixable: self.fixable,
            fix_action: self.fix_action.deep_view(),
            details: self.details.deep_view(),
        }
    }
}

impl DeepView for ValidationResult {
    type V = ResultView;

    open spec fn deep_view(&self) -> ResultView {
        self@
    }
}

impl Clone for ValidationResult {
    fn clone(&self) -> (r: Self)
        ensures
            r@ == self@,
            r.duration_ms == self.duration_ms,
    {
        ValidationResult {
            category: self.category.clone(),
            check_name: self.check_name.clone(),
            message: self.message.clone(),
            status: self.status,
            fixable: self.fixable,
            fix_action: match &self.fix_action {
                Some(a) => Some(a.clone()),
                None => None,
            },
            details: match &self.details {
                Some(d) => {
                    let copy = d.clone();
                    assert(copy.deep_view() =~= d.deep_view());
                    Some(copy)
                },
                None => None,
            },
            duration_ms: self.duration_ms,
        }
    }
}

/// A finding: it is fixable exactly where a repair is named.
pub open spec fn finding(
    category: Seq<char>,
    check_name: Seq<char>,
    message: Seq<char>,
    status: ValidationStatus,
    fix_action: Option<Seq<char>>,
    details: Option<Seq<Seq<char>>>,
) -> ResultView {
    ResultView {
        category,
        check_name,
        message,
        status,
        fixable: fix_action is Some,
        fix_action,
        details,
    }
}

/// The tallies of a run.
#[derive(Debug, Clone, Copy, PartialEq, Eq, Structural)]
pub struct DoctorSummary {
    pub total_checks: usize,
    pub passed: usize,
    pub warnings: usize,
    pub errors: usize,
    /// The findings that are not passes and have a repair.
    pub fixable: usize,
    /// The repairs applied: all fixable findings in fix mode, none
    /// otherwise.
    pub fixed: usize,
    pub total_duration_ms: u64,
}

/// The report of a run.
#[derive(Debug)]
pub struct DoctorReport {
    pub version: String,
    pub timestamp: String,
    pub results: Vec<ValidationResult>,
    pub summary: DoctorSummary,
}

/// How the doctor runs.
#[derive(Debug, Clone, Copy, PartialEq, Eq, Structural)]
pub struct DoctorOptions {
    /// Apply the repairs after the audit.
    pub fix_mode: bool,
    /// Give details with the findings.
    pub verbose: bool,
    /// The report is for a machine: nothing is printed on the way.
    pub json_output: bool,
}

#[verifier::external_type_specification]
#[verifier::external_body]
pub struct ExInstant(Instant);

/// `Instant::now`: the present moment. Nothing is claimed of it.
#[verifier::external_body]
fn clock_now() -> (r: Instant) {
    Instant::now()
}

/// `Instant::elapsed`: the time that went by since `start`. Nothing is
/// claimed of it.
#[verifier::external_body]
fn clock_elapsed(start: &Instant) -> (r: Duration) {
    start.elapsed()
}

/// `Duration::as_millis`: the whole milliseconds of the duration. Nothing
/// is claimed of it.
#[verifier::external_body]
fn whole_millis(d: &Duration) -> (r: u128) {
    d.as_millis()
}

fn elapsed_ms(start: &Instant) -> u64 {
    let ms = whole_millis(&clock_elapsed(start));
    millis_as_u64(ms)
}

/// A number of milliseconds as it is kept with a finding: itself where it
/// fits, the largest number that fits otherwise.
pub fn millis_as_u64(ms: u128) -> (r: u64)
    ensures
        r as int == if ms <= u64::MAX {
            ms as int
        } else {
            u64::MAX as int
        },
{
    if ms > 0xffff_ffff_ffff_ffff {
        0xffff_ffff_ffff_ffff
    } else {
        ms as u64
    }
}

/// Whether a finding counts as fixable: it is no pass and has a repair.
pub open spec fn needs_fix(r: ResultView) -> bool {
    r.fixable && r.status != ValidationStatus::Pass
}

/// How many of `results` have the status `status`.
pub open spec fn count_status(results: Seq<ResultView>, status: ValidationStatus) -> nat {
    results.filter(|r: ResultView| r.status == status).len()
}

/// How many of `results` count as fixable.
pub open spec fn count_fixable(results: Seq<ResultView>) -> nat {
    results.filter(|r: ResultView| needs_fix(r)).len()
}

/// Whether the run ends in failure: a finding is an error. Warnings do not
/// count.
pub open spec fn has_errors(results: Seq<ResultView>) -> bool {
    count_status(results, ValidationStatus::Error) > 0
}

/// `n` rounded to the nearest multiple of `unit`, in units; a tie goes to
/// the even neighbour.
pub open spec fn rounded_units(n: nat, unit: nat) -> nat {
    let q = n / unit;
    let r = n % unit;
    if 2 * r < unit {
        q
    } else if 2 * r > unit {
        q + 1
    } else if q % 2 == 0 {
        q
    } else {
        q + 1
    }
}

/// A number of tenths, written with one decimal.
pub open spec fn tenths_text(t: nat) -> Seq<char> {
    decimal_digits(t / 10) + "."@ + seq![digit_char(t % 10)]
}

/// A number of hundredths, written with two decimals.
pub open spec fn hundredths_text(h: nat) -> Seq<char> {
    decimal_digits(h / 100) + "."@ + seq![digit_char((h / 10) % 10), digit_char(h % 10)]
}

/// A size in bytes for a reader: bytes below 1024, then KB and MB with one
/// decimal, then GB with two, each rounded to the nearest.
pub open spec fn size_text(bytes: nat) -> Seq<char> {
    if bytes < 1024 {
        decimal_digits(bytes) + " B"@
    } else if bytes < 1024 * 1024 {
        tenths_text(rounded_units(bytes * 10, 1024)) + " KB"@
    } else if bytes < 1024 * 1024 * 1024 {
        tenths_text(rounded_units(bytes * 10, 1024 * 1024)) + " MB"@
    } else {
        hundredths_text(rounded_units(bytes * 100, 1024 * 1024 * 1024)) + " GB"@
    }
}

fn round_units(n: u128, unit: u128) -> (r: u64)
    requires
        unit > 0,
        unit % 2 == 0,
        n / unit < 0xffff_ffff_ffff_ffff,
    ensures
        r == rounded_units(n as nat, unit as nat),
{
    let q = n / unit;
    let r = n % unit;
    let half = unit / 2;
    if r < half {
        q as u64
    } else if r > half {
        (q + 1) as u64
    } else if q % 2 == 0 {
        q as u64
    } else {
        (q + 1) as u64
    }
}

fn tenths(t: u64) -> (s: String)
    ensures
        s@ == tenths_text(t as nat),
{
    let mut s = decimal(t / 10);
    s.append(".");
    let mut last: Vec<char> = Vec::new();
    last.push(digit(t % 10));
    assert(last@ =~= seq![digit_char((t % 10) as nat)]);
    s.append(crate::strings::string_of(&last).as_str());
    s
}

fn hundredths(h: u64) -> (s: String)
    ensures
        s@ == hundredths_text(h as nat),
{
    let mut s = decimal(h / 100);
    s.append(".");
    let mut last: Vec<char> = Vec::new();
    last.push(digit((h / 10) % 10));
    last.push(digit(h % 10));
    assert(last@ =~= seq![digit_char(((h / 10) % 10) as nat), digit_char((h % 10) as nat)]);
    s.append(crate::strings::string_of(&last).as_str());
    s
}

/// A list of details with one line.
pub(crate) fn one_detail(line: String) -> (d: Option<Vec<String>>)
    ensures
        d.deep_view() == Some(seq![line@]),
{
    let mut v: Vec<String> = Vec::new();
    v.push(line);
    assert(v.deep_view() =~= seq![line@]);
    Some(v)
}

/// A list of details with two lines.
pub(crate) fn two_details(first: String, second: String) -> (d: Option<Vec<String>>)
    ensures
        d.deep_view() == Some(seq![first@, second@]),
{
    let mut v: Vec<String> = Vec::new();
    v.push(first);
    v.push(second);
    assert(v.deep_view() =~= seq![first@, second@]);
    Some(v)
}

/// The details to give: `lines` in a verbose run, none otherwise.
pub open spec fn when_verbose(verbose: bool, lines: Seq<Seq<char>>) -> Option<Seq<Seq<char>>> {
    if verbose {
        Some(lines)
    } else {
        None
    }
}

/// The doctor.
pub struct Doctor {
    pub config: Config,
    pub options: DoctorOptions,
    /// The findings so far, in the order of the checks.
    pub results: Vec<ValidationResult>,
    /// When the run began.
    pub start_time: Instant,
}

impl Doctor {
    /// The findings so far.
    pub open spec fn findings(&self) -> Seq<ResultView> {
        self.results.deep_view()
    }

    /// Whether this doctor is `before` with the findings `more` added at
    /// the end, and nothing else changed.
    pub open spec fn extends(&self, before: &Doctor, more: Seq<ResultView>) -> bool {
        &&& self.findings() == before.findings() + more
        &&& self.config == before.config
        &&& self.options == before.options
        &&& self.start_time == before.start_time
    }

    /// A doctor that has found nothing yet.
    pub fn new(config: Config, options: DoctorOptions) -> (d: Self)
        ensures
            d.config@ == config@,
            d.options == options,
            d.findings() == Seq::<ResultView>::empty(),
    {
        let d = Doctor { config, options, results: Vec::new(), start_time: clock_now() };
        assert(d.findings() =~= Seq::<ResultView>::empty());
        d
    }

    /// A doctor with the plain options: neither verbose nor for a machine.
    pub fn new_legacy(config: Config, fix_mode: bool) -> (d: Self)
        ensures
            d.config@ == config@,
            d.options == (DoctorOptions { fix_mode, verbose: false, json_output: false }),
            d.findings() == Seq::<ResultView>::empty(),
    {
        Doctor::new(config, DoctorOptions { fix_mode, verbose: false, json_output: false })
    }

    /// Adds a finding at the end. It took the time since `start_time`.
    pub fn add_result(
        &mut self,
        category: &str,
        check_name: &str,
        message: &str,
        status: ValidationStatus,
        fix_action: Option<&str>,
        details: Option<Vec<String>>,
        start_time: Instant,
    )
        ensures
            final(self).findings() == old(self).findings().push(
                finding(
                    category@,
                    check_name@,
                    message@,
                    status,
                    match fix_action {
                        Some(a) => Some(a@),
                        None => None,
                    },
                    details.deep_view(),
                ),
            ),
            final(self).config == old(self).config,
            final(self).options == old(self).options,
            final(self).start_time == old(self).start_time,
    {
        let ghost before = self.findings();
        let result = ValidationResult {
            category: category.to_owned(),
            check_name: check_name.to_owned(),
            message: message.to_owned(),
            status,
            fixable: fix_action.is_some(),
            fix_action: match fix_action {
                Some(a) => Some(a.to_owned()),
                None => None,
            },
            details,
            duration_ms: elapsed_ms(&start_time),
        };
        self.results.push(result);
        assert(self.findings() =~= before.push(result@));
    }

    /// Tallies the findings.
    pub fn calculate_summary(&self) -> (s: DoctorSummary)
        ensures
            s.total_checks == self.findings().len(),
            s.passed == count_status(self.findings(), ValidationStatus::Pass),
            s.warnings == count_status(self.findings(), ValidationStatus::Warning),
            s.errors == count_status(self.findings(), ValidationStatus::Error),
            s.fixable == count_fixable(self.findings()),
            s.fixed == if self.options.fix_mode {
                s.fixable
            } else {
                0
            },
            s.passed + s.warnings + s.errors == s.total_checks,
    {
        let mut passed: usize = 0;
        let mut warnings: usize = 0;
        let mut errors: usize = 0;
        let mut fixable: usize = 0;
        let ghost all = self.findings();
        let mut i: usize = 0;
        assert(all.take(0) =~= Seq::<ResultView>::empty());
        while i < self.results.len()
            invariant
                i <= self.results.len(),
                all == self.findings(),
                passed == count_status(all.take(i as int), ValidationStatus::Pass),
                warnings == count_status(all.take(i as int), ValidationStatus::Warning),
                errors == count_status(all.take(i as int), ValidationStatus::Error),
                fixable == count_fixable(all.take(i as int)),
                passed + warnings + errors == i,
                fixable <= i,
            decreases self.results.len() - i,
        {
            proof {
                lemma_filter_next(
                    all,
                    |r: ResultView| r.status == ValidationStatus::Pass,
                    i as int,
                );
                lemma_filter_next(
                    all,
                    |r: ResultView| r.status == ValidationStatus::Warning,
                    i as int,
                );
                lemma_filter_next(
                    all,
                    |r: ResultView| r.status == ValidationStatus::Error,
                    i as int,
                );
                lemma_filter_next(all, |r: ResultView| needs_fix(r), i as int);
            }
            let r = &self.results[i];
            match r.status {
                ValidationStatus::Pass => {
                    passed += 1;
                },
                ValidationStatus::Warning => {
                    warnings += 1;
                },
                ValidationStatus::Error => {
                    errors += 1;
                },
            }
            if r.fixable && r.status != ValidationStatus::Pass {
                fixable += 1;
            }
            i += 1;
        }
        assert(all.take(self.results.len() as int) =~= all);
        DoctorSummary {
            total_checks: self.results.len(),
            passed,
            warnings,
            errors,
            fixable,
            fixed: if self.options.fix_mode {
                fixable
            } else {
                0
            },
            total_duration_ms: elapsed_ms(&self.start_time),
        }
    }

    /// Whether the run ends in failure: a finding is an error.
    pub fn found_errors(&self) -> (r: bool)
        ensures
            r == has_errors(self.findings()),
    {
        self.calculate_summary().errors > 0
    }

    /// Writes a size in bytes for a reader.
    pub fn format_size(bytes: u64) -> (s: String)
        ensures
            s@ == size_text(bytes as nat),
    {
        if bytes < 1024 {
            let mut s = decimal(bytes);
            s.append(" B");
            s
        } else if bytes < 1024 * 1024 {
            let mut s = tenths(round_units(bytes as u128 * 10, 1024));
            s.append(" KB");
            s
        } else if bytes < 1024 * 1024 * 1024 {
            let mut s = tenths(round_units(bytes as u128 * 10, 1024 * 1024));
            s.append(" MB");
            s
        } else {
            let mut s = hundredths(round_units(bytes as u128 * 100, 1024 * 1024 * 1024));
            s.append(" GB");
            s
        }
    }

    /// The report of this run, made at the moment that `timestamp` names.
    pub fn report(&self, timestamp: &str) -> (r: DoctorReport)
        ensures
            r.version@ == VERSION@,
            r.timestamp@ == timestamp@,
            r.results.deep_view() == self.findings(),
            r.summary.total_checks == self.findings().len(),
            r.summary.passed == count_status(self.findings(), ValidationStatus::Pass),
            r.summary.warnings == count_status(self.findings(), ValidationStatus::Warning),
            r.summary.errors == count_status(self.findings(), ValidationStatus::Error),
            r.summary.fixable == count_fixable(self.findings()),
            r.summary.fixed == if self.options.fix_mode {
                r.summary.fixable
            } else {
                0
            },
    {
        let summary = self.calculate_summary();
        let results = self.results.clone();
        assert(results.deep_view() =~= self.findings());
        DoctorReport {
            version: current_version().to_owned(),
            timestamp: timestamp.to_owned(),
            results,
            summary,
        }
    }
}

/// Whether a report ends the run in failure: it holds an error.
pub fn report_failed(report: &DoctorReport) -> (r: bool)
    ensures
        r == (report.summary.errors > 0),
{
    report.summary.errors > 0
}

} // verus!
