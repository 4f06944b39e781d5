//! What the user is told: the size of the source, the state in which each
//! job ended, and at the end of the sweep which jobs failed.

use crate::config::VideoConfig;
use crate::decimal::{decimal, decimal_string};
use crate::outcome::{JobError, JobErrorView, JobOutcome, JobOutcomeView};
use crate::size::{human_size, size_text};
use crate::text::join;
use vstd::prelude::*;
use vstd::string::*;

verus! {

/// The line that tells the size of the source, from the size as a person
/// reads it.
pub open spec fn source_size_text(size: Seq<char>) -> Seq<char> {
    "元動画のサイズ: "@ + size
}

/// The line of a job that wrote its output, from the size of the output as
/// a person reads it.
pub open spec fn success_text(size: Seq<char>) -> Seq<char> {
    "✓ エンコード完了: "@ + size
}

/// The line of a job that failed.
pub open spec fn failure_text(error: JobErrorView) -> Seq<char> {
    "✗ エンコード失敗: "@ + error.message()
}

/// The line that tells how a job ended.
pub open spec fn status_text(outcome: JobOutcomeView) -> Seq<char> {
    match outcome {
        JobOutcomeView::Success(size) => success_text(size_text(size)),
        JobOutcomeView::Failure(_, error) => failure_text(error),
    }
}

/// Whether audio is asked for, as it is written in a report.
pub open spec fn audio_text(has_audio: bool) -> Seq<char> {
    if has_audio {
        "true"@
    } else {
        "false"@
    }
}

/// The line of the final report for a job that failed: every field of its
/// configuration, then the error.
pub open spec fn failure_line(config: VideoConfig, error: JobErrorView) -> Seq<char> {
    "✗ エンコード失敗 - "@ + config.label() + ", AUDIO: "@ + audio_text(config.has_audio) + ": "@
        + error.message()
}

/// The lines of the final report for the jobs that failed, in the order of
/// the jobs.
pub open spec fn failure_lines(outcomes: Seq<JobOutcomeView>) -> Seq<Seq<char>>
    decreases outcomes.len(),
{
    if outcomes.len() == 0 {
        Seq::empty()
    } else {
        let before = failure_lines(outcomes.drop_last());
        match outcomes.last() {
            JobOutcomeView::Success(_) => before,
            JobOutcomeView::Failure(config, error) => before.push(failure_line(config, error)),
        }
    }
}

/// The headline of the final report: that all jobs succeeded, or how many
/// failed.
pub open spec fn banner_text(failed: nat) -> Seq<char> {
    if failed == 0 {
        "✓ すべて正常にエンコードしました！"@
    } else {
        "✗ "@ + decimal(failed) + "件のエンコードに失敗しました"@
    }
}

/// The final report of a sweep.
#[derive(Debug, PartialEq, Eq)]
pub struct Report {
    /// The headline.
    pub banner: String,
    /// One line for each job that failed, in the order of the jobs.
    pub failures: Vec<String>,
    /// Whether any job failed: the sweep as a whole has then failed.
    pub failed: bool,
}

/// The mathematical value of a [`Report`].
pub struct ReportView {
    pub banner: Seq<char>,
    pub failures: Seq<Seq<char>>,
    pub failed: bool,
}

impl View for Report {
    type V = ReportView;

    open spec fn view(&self) -> ReportView {
        ReportView {
            banner: self.banner@,
            failures: self.failures@.map_values(|line: String| line@),
            failed: self.failed,
        }
    }
}

/// The final report on the outcomes of a sweep.
pub open spec fn report_of(outcomes: Seq<JobOutcomeView>) -> ReportView {
    ReportView {
        banner: banner_text(failure_lines(outcomes).len()),
        failures: failure_lines(outcomes),
        failed: failure_lines(outcomes).len() > 0,
    }
}

/// The line that tells the size of the source, from the size as a person
/// reads it.
pub fn source_size_line_of(size: &str) -> (r: String)
    ensures
        r@ == source_size_text(size@),
{
    join("元動画のサイズ: ", size)
}

/// The line that tells the size of the source.
pub fn source_size_line(file_size: u64) -> (r: String)
    ensures
        r@ == source_size_text(size_text(file_size)),
{
    source_size_line_of(human_size(file_size).as_str())
}

/// The line of a job that wrote its output, from the size of the output as
/// a person reads it.
pub fn success_line(size: &str) -> (r: String)
    ensures
        r@ == success_text(size@),
{
    join("✓ エンコード完了: ", size)
}

/// The line of a job that failed.
pub fn failure_status_line(error: &JobError) -> (r: String)
    ensures
        r@ == failure_text(error@),
{
    join("✗ エンコード失敗: ", error.message().as_str())
}

/// The line that tells how a job ended.
pub fn status_line(outcome: &JobOutcome) -> (r: String)
    ensures
        r@ == status_text(outcome@),
{
    match outcome {
        JobOutcome::Success(size) => success_line(human_size(*size).as_str()),
        JobOutcome::Failure(_, error) => failure_status_line(error),
    }
}

/// The line of the final report for a job that failed.
pub fn failure_report_line(config: &VideoConfig, error: &JobError) -> (r: String)
    ensures
        r@ == failure_line(*config, error@),
{
    let mut r = String::from_str("✗ エンコード失敗 - ");
    r.append(config.to_label().as_str());
    r.append(", AUDIO: ");
    if config.has_audio {
        r.append("true");
    } else {
        r.append("false");
    }
    r.append(": ");
    r.append(error.message().as_str());
    r
}

/// The headline of the final report for this number of failed jobs.
pub fn banner(failed: usize) -> (r: String)
    ensures
        r@ == banner_text(failed as nat),
{
    if failed == 0 {
        String::from_str("✓ すべて正常にエンコードしました！")
    } else {
        let mut r = String::from_str("✗ ");
        r.append(decimal_string(failed as u64).as_str());
        r.append("件のエンコードに失敗しました");
        r
    }
}

/// The final report on the outcomes of a sweep, which stand in the order of
/// its jobs: one headline, and for each job that failed a line with its
/// configuration and its error.
pub fn report(outcomes: &Vec<JobOutcome>) -> (r: Report)
    ensures
        r@ == report_of(crate::board::view_outcomes(outcomes@)),
{
    let ghost all = crate::board::view_outcomes(outcomes@);
    let mut failures: Vec<String> = Vec::new();
    let mut i: usize = 0;
    while i < outcomes.len()
        invariant
            i <= outcomes.len(),
            all == crate::board::view_outcomes(outcomes@),
            failures@.len() <= i,
            failures@.map_values(|line: String| line@) == failure_lines(all.take(i as int)),
        decreases outcomes.len() - i,
    {
        proof {
            assert(all.take(i + 1).drop_last() =~= all.take(i as int));
            assert(all.take(i + 1).last() == outcomes@[i as int]@);
        }
        match &outcomes[i] {
            JobOutcome::Success(_) => {},
            JobOutcome::Failure(config, error) => {
                failures.push(failure_report_line(config, error));
                assert(failures@.map_values(|line: String| line@) =~= failure_lines(
                    all.take(i + 1),
                ));
            },
        }
        i += 1;
    }
    assert(all.take(i as int) =~= all);
    let failed = failures.len();
    Report { banner: banner(failed), failures, failed: failed > 0 }
}

/// A sweep has failed as a whole exactly if one of its jobs failed, and its
/// report has one line for each job that failed.
pub proof fn lemma_report_counts_failures(outcomes: Seq<JobOutcomeView>)
    ensures
        failure_lines(outcomes).len() == outcomes.filter(
            |o: JobOutcomeView| o is Failure,
        ).len(),
        report_of(outcomes).failed <==> exists|i: int|
            0 <= i < outcomes.len() && outcomes[i] is Failure,
    decreases outcomes.len(),
{
    reveal(Seq::filter);
    let is_failure = |o: JobOutcomeView| o is Failure;
    if outcomes.len() > 0 {
        lemma_report_counts_failures(outcomes.drop_last());
        let before = outcomes.drop_last();
        if failure_lines(before).len() > 0 {
            let i = choose|i: int| 0 <= i < before.len() && before[i] is Failure;
            assert(outcomes[i] is Failure);
        }
        if outcomes.last() is Failure {
            assert(outcomes[outcomes.len() - 1] is Failure);
        }
        if exists|i: int| 0 <= i < outcomes.len() && outcomes[i] is Failure {
            let i = choose|i: int| 0 <= i < outcomes.len() && outcomes[i] is Failure;
            if i < outcomes.len() - 1 {
                assert(before[i] is Failure);
            }
        }
    }
}

} // verus!
