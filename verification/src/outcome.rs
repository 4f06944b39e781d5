//! How a job ended: with the size of its output, or with the configuration
//! that it was given and the reason for which it failed.

use crate::config::{VideoConfig, VideoConfigUpScalingErr};
use crate::text::join;
use vstd::prelude::*;
use vstd::string::*;

verus! {

/// Why a job failed.
#[derive(Debug, PartialEq, Eq)]
pub enum JobError {
    /// The configuration asks for more than the source holds; no encoder
    /// was started.
    Config(VideoConfigUpScalingErr),
    /// The encoder failed: the body of its message, or the note that it
    /// ended with a failure status.
    Encoding(String),
    /// The size of the output file could not be read, with the reason.
    OutputSize(String),
    /// The unit that ran the job broke down, with what is known of it.
    Runtime(String),
}

/// The mathematical value of a [`JobError`].
pub enum JobErrorView {
    Config(VideoConfigUpScalingErr),
    Encoding(Seq<char>),
    OutputSize(Seq<char>),
    Runtime(Seq<char>),
}

impl View for JobError {
    type V = JobErrorView;

    open spec fn view(&self) -> JobErrorView {
        match self {
            JobError::Config(e) => JobErrorView::Config(*e),
            JobError::Encoding(m) => JobErrorView::Encoding(m@),
            JobError::OutputSize(m) => JobErrorView::OutputSize(m@),
            JobError::Runtime(m) => JobErrorView::Runtime(m@),
        }
    }
}

impl Clone for JobError {
    fn clone(&self) -> (r: Self)
        ensures
            r == *self,
    {
        match self {
            JobError::Config(e) => JobError::Config(*e),
            JobError::Encoding(m) => JobError::Encoding(m.clone()),
            JobError::OutputSize(m) => JobError::OutputSize(m.clone()),
            JobError::Runtime(m) => JobError::Runtime(m.clone()),
        }
    }
}

impl JobErrorView {
    /// The text that describes the error to the user.
    pub open spec fn message(self) -> Seq<char> {
        match self {
            JobErrorView::Config(e) => "エンコード設定に問題があります: "@ + e.spec_message(),
            JobErrorView::Encoding(m) => m,
            JobErrorView::OutputSize(m) => "出力動画のサイズの取得に失敗しました: "@ + m,
            JobErrorView::Runtime(m) => "ジョブの実行に失敗しました: "@ + m,
        }
    }
}

impl JobError {
    /// The text that describes the error to the user.
    pub fn message(&self) -> (r: String)
        ensures
            r@ == self@.message(),
    {
        match self {
            JobError::Config(e) => join("エンコード設定に問題があります: ", e.message().as_str()),
            JobError::Encoding(m) => m.clone(),
            JobError::OutputSize(m) => join("出力動画のサイズの取得に失敗しました: ", m.as_str()),
            JobError::Runtime(m) => join("ジョブの実行に失敗しました: ", m.as_str()),
        }
    }
}

/// How a job ended.
#[derive(Debug, PartialEq, Eq)]
pub enum JobOutcome {
    /// The output was written; its size in bytes.
    Success(u64),
    /// The job failed: the configuration that it was given, and the reason.
    Failure(VideoConfig, JobError),
}

/// The mathematical value of a [`JobOutcome`].
pub enum JobOutcomeView {
    Success(u64),
    Failure(VideoConfig, JobErrorView),
}

impl View for JobOutcome {
    type V = JobOutcomeView;

    open spec fn view(&self) -> JobOutcomeView {
        match self {
            JobOutcome::Success(size) => JobOutcomeView::Success(*size),
            JobOutcome::Failure(config, error) => JobOutcomeView::Failure(*config, error@),
        }
    }
}

impl Clone for JobOutcome {
    fn clone(&self) -> (r: Self)
        ensures
            r == *self,
    {
        match self {
            JobOutcome::Success(size) => JobOutcome::Success(*size),
            JobOutcome::Failure(config, error) => JobOutcome::Failure(*config, error.clone()),
        }
    }
}

impl JobOutcome {
    /// Whether the job wrote its output.
    pub fn is_success(&self) -> (r: bool)
        ensures
            r == (self@ is Success),
    {
        match self {
            JobOutcome::Success(_) => true,
            JobOutcome::Failure(_, _) => false,
        }
    }
}

} // verus!
