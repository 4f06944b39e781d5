//! One job: the encoder's events turned into the state of its progress,
//! and its end turned into an outcome.

use crate::config::{up_scaling_verdict, VideoConfig};
use crate::log::{handle_ffmpeg_event_log, log_verdict, warning_heading, warning_line};
use crate::outcome::{JobError, JobErrorView, JobOutcome, JobOutcomeView};
use crate::stat::{view_events, view_file_size, VideoStat, VideoStatView};
use crate::stream::{StreamDescriptor, StreamDescriptorView, StreamEvent, StreamEventView};
use vstd::prelude::*;
use vstd::string::*;

verus! {

/// What a job is given besides the source: where its output goes, and the
/// configuration to encode with.
#[derive(Debug, PartialEq, Eq)]
pub struct VideoProcessParams {
    pub output_path: String,
    pub config: VideoConfig,
}

/// The state of one job's progress: the duration of the source in
/// milliseconds and its frame rate in thousandths of a frame per second, as
/// last reported, and the number of the frame that the encoder has reached.
#[derive(Debug, Clone, Copy, PartialEq, Eq, Structural)]
pub struct EncodeProgress {
    pub duration_ms: u64,
    pub fps_milli: u32,
    pub position: u64,
}

/// What is to be done about an event of a running job.
#[derive(Debug, PartialEq, Eq)]
pub enum JobStep {
    /// Nothing.
    Quiet,
    /// The display is to show this many frames in all and this one as
    /// reached, under the status text of a running encoding.
    Progress(u64, u64),
    /// This line is to be shown; the job goes on.
    Warning(String),
    /// The job has failed for this reason: no more of its events are to be
    /// read.
    Failed(JobError),
}

/// The mathematical value of a [`JobStep`].
pub enum JobStepView {
    Quiet,
    Progress(u64, u64),
    Warning(Seq<char>),
    Failed(JobErrorView),
}

impl View for JobStep {
    type V = JobStepView;

    open spec fn view(&self) -> JobStepView {
        match self {
            JobStep::Quiet => JobStepView::Quiet,
            JobStep::Progress(length, position) => JobStepView::Progress(*length, *position),
            JobStep::Warning(line) => JobStepView::Warning(line@),
            JobStep::Failed(error) => JobStepView::Failed(error@),
        }
    }
}

/// The number of frames to expect of a source: its duration times its frame
/// rate, the fraction of a frame cut off, and no more than `u64` holds. The
/// duration counts in milliseconds and the frame rate in thousandths of a
/// frame per second, so their product counts millionths of a frame.
pub open spec fn total_frames(duration_ms: u64, fps_milli: u32) -> u64 {
    let frames = duration_ms * fps_milli / 1_000_000;
    if frames > u64::MAX {
        u64::MAX
    } else {
        frames as u64
    }
}

/// The share of `length` that `position` has reached, in whole per cent and
/// no more than 100. Of nothing, all is reached.
pub open spec fn percent_of(position: u64, length: u64) -> u64 {
    if length == 0 || position >= length {
        100
    } else {
        (position * 100 / length as int) as u64
    }
}

/// The note of a job whose encoder ended with a failure status and had
/// logged no failure.
pub open spec fn exit_failure_note() -> Seq<char> {
    "ffmpegが異常終了しました"@
}

impl EncodeProgress {
    /// The number of frames to expect.
    pub open spec fn spec_length(self) -> u64 {
        total_frames(self.duration_ms, self.fps_milli)
    }

    /// The share of the expected frames that is reached, in per cent.
    pub open spec fn spec_percent(self) -> u64 {
        percent_of(self.position, self.spec_length())
    }

    /// The progress of a job that has not begun, for a source of this
    /// duration and frame rate.
    pub open spec fn at_start(stat: VideoStatView) -> EncodeProgress {
        EncodeProgress {
            duration_ms: stat.duration_ms,
            fps_milli: stat.video_stream.fps_milli,
            position: 0,
        }
    }

    /// The number of frames to expect.
    #[verifier::when_used_as_spec(spec_length)]
    pub fn length(self) -> (r: u64)
        ensures
            r == self.spec_length(),
    {
        assert(self.duration_ms * self.fps_milli <= 0xffff_ffff_ffff_ffff * 0xffff_ffff)
            by (nonlinear_arith)
            requires
                self.duration_ms <= 0xffff_ffff_ffff_ffff,
                self.fps_milli <= 0xffff_ffff,
        ;
        let frames: u128 = (self.duration_ms as u128) * (self.fps_milli as u128) / 1_000_000;
        if frames > u64::MAX as u128 {
            u64::MAX
        } else {
            frames as u64
        }
    }

    /// The share of the expected frames that is reached, in per cent.
    #[verifier::when_used_as_spec(spec_percent)]
    pub fn percent(self) -> (r: u64)
        ensures
            r == self.spec_percent(),
            r <= 100,
    {
        let length = self.length();
        if length == 0 || self.position >= length {
            100
        } else {
            let share: u128 = (self.position as u128) * 100 / (length as u128);
            assert(share < 100) by (nonlinear_arith)
                requires
                    share == (self.position as int) * 100 / (length as int),
                    self.position < length,
                    length > 0,
            ;
            share as u64
        }
    }

    /// Begins a job: checks the configuration against the source first, so
    /// that no encoder is started for one that asks for more than the source
    /// holds.
    pub fn start(stat: &VideoStat, config: &VideoConfig) -> (r: Result<Self, JobError>)
        ensures
            match r {
                Ok(progress) => up_scaling_verdict(*config, stat@) is Ok && progress
                    == Self::at_start(stat@),
                Err(e) => up_scaling_verdict(*config, stat@) is Err && e@ == JobErrorView::Config(
                    up_scaling_verdict(*config, stat@)->Err_0,
                ),
            },
    {
        match config.check_up_scaling(stat) {
            Err(e) => Err(JobError::Config(e)),
            Ok(()) => Ok(
                EncodeProgress {
                    duration_ms: stat.duration_ms,
                    fps_milli: stat.video_stream.fps_milli,
                    position: 0,
                },
            ),
        }
    }

    /// Takes in one event of the job's encoder and says what is to be done
    /// about it.
    pub fn on_event(&mut self, event: StreamEvent) -> (r: JobStep)
        ensures
            (*final(self), r@) == encode_step(*old(self), event@),
    {
        match event {
            StreamEvent::DurationParsed(d) => {
                self.duration_ms = d;
                JobStep::Quiet
            },
            StreamEvent::StreamDescriptorParsed(StreamDescriptor::Video(v)) => {
                self.fps_milli = v.fps_milli;
                JobStep::Quiet
            },
            StreamEvent::ProgressTick(frame) => {
                self.position = frame as u64;
                JobStep::Progress(self.length(), self.position)
            },
            StreamEvent::LogLine(level, message) => {
                let shown = warning_line(level, message.as_str());
                match handle_ffmpeg_event_log(level, message, false) {
                    Err(body) => JobStep::Failed(JobError::Encoding(body)),
                    Ok(()) => match shown {
                        Some(line) => JobStep::Warning(line),
                        None => JobStep::Quiet,
                    },
                }
            },
            _ => JobStep::Quiet,
        }
    }
}

/// The status text of a running encoding.
pub fn encoding_status() -> (r: &'static str)
    ensures
        r@ == "エンコード中..."@,
{
    "エンコード中..."
}

/// The progress of a job after one more event, and what is to be done about
/// the event. A duration or the description of a video stream replaces what
/// was known of the source; a progress tick moves the position and has the
/// display updated; a log line of severity fatal or error fails the job with
/// the body of its message, a warning is shown, and any other line is
/// dropped, as is any other event.
pub open spec fn encode_step(state: EncodeProgress, event: StreamEventView) -> (
    EncodeProgress,
    JobStepView,
) {
    match event {
        StreamEventView::DurationParsed(d) => (
            EncodeProgress { duration_ms: d, ..state },
            JobStepView::Quiet,
        ),
        StreamEventView::StreamDescriptorParsed(StreamDescriptorView::Video(v)) => (
            EncodeProgress { fps_milli: v.fps_milli, ..state },
            JobStepView::Quiet,
        ),
        StreamEventView::ProgressTick(frame) => {
            let moved = EncodeProgress { position: frame as u64, ..state };
            (moved, JobStepView::Progress(moved.spec_length(), frame as u64))
        },
        StreamEventView::LogLine(level, message) => match log_verdict(level, message, false) {
            Err(body) => (state, JobStepView::Failed(JobErrorView::Encoding(body))),
            Ok(_) => if level is Warning {
                (state, JobStepView::Warning(warning_heading() + message))
            } else {
                (state, JobStepView::Quiet)
            },
        },
        _ => (state, JobStepView::Quiet),
    }
}

/// The progress of a job after a run of events, or the error of the first
/// event that failed it.
pub open spec fn encode_run(state: EncodeProgress, events: Seq<StreamEventView>) -> Result<
    EncodeProgress,
    JobErrorView,
>
    decreases events.len(),
{
    if events.len() == 0 {
        Ok(state)
    } else {
        match encode_run(state, events.drop_last()) {
            Ok(before) => match encode_step(before, events.last()) {
                (_, JobStepView::Failed(e)) => Err(e),
                (after, _) => Ok(after),
            },
            Err(e) => Err(e),
        }
    }
}

/// A whole job on the events that its encoder gave: turned down before the
/// first event where the configuration asks for more than the source holds,
/// else run from the start through the events.
pub open spec fn process_outcome(
    stat: VideoStatView,
    config: VideoConfig,
    events: Seq<StreamEventView>,
) -> Result<EncodeProgress, JobErrorView> {
    match up_scaling_verdict(config, stat) {
        Err(e) => Err(JobErrorView::Config(e)),
        Ok(_) => encode_run(EncodeProgress::at_start(stat), events),
    }
}

/// The outcome of a job from how its run ended, whether its encoder ended
/// with a success status, and the answer to the query for the size of its
/// output. A failed run keeps its error; a failure status is a failure
/// though no failure was logged; then the size must have been read.
pub open spec fn job_outcome(
    config: VideoConfig,
    run: Result<EncodeProgress, JobErrorView>,
    exit_ok: bool,
    output_size: Result<u64, Seq<char>>,
) -> JobOutcomeView {
    match run {
        Err(e) => JobOutcomeView::Failure(config, e),
        Ok(_) => if !exit_ok {
            JobOutcomeView::Failure(config, JobErrorView::Encoding(exit_failure_note()))
        } else {
            match output_size {
                Ok(size) => JobOutcomeView::Success(size),
                Err(reason) => JobOutcomeView::Failure(config, JobErrorView::OutputSize(reason)),
            }
        },
    }
}

/// The mathematical value of the end of a job's run.
pub open spec fn view_run(run: Result<EncodeProgress, JobError>) -> Result<
    EncodeProgress,
    JobErrorView,
> {
    match run {
        Ok(progress) => Ok(progress),
        Err(e) => Err(e@),
    }
}

/// A job that an event has failed stays failed: later events do not change
/// its error.
pub proof fn lemma_encode_run_stays_failed(
    state: EncodeProgress,
    events: Seq<StreamEventView>,
    n: int,
)
    requires
        0 <= n <= events.len(),
        encode_run(state, events.take(n)) is Err,
    ensures
        encode_run(state, events) == encode_run(state, events.take(n)),
    decreases events.len(),
{
    if n < events.len() {
        assert(events.drop_last().take(n) =~= events.take(n));
        lemma_encode_run_stays_failed(state, events.drop_last(), n);
    } else {
        assert(events.take(n) =~= events);
    }
}

/// Runs a whole job on the events that its encoder gave, in their order.
/// Where the configuration asks for more than the source holds the job fails
/// at once, whatever the events; else the job ends with the progress that the
/// events lead to, or with the error of the first event that fails it.
pub fn process(stat: &VideoStat, params: &VideoProcessParams, events: &Vec<StreamEvent>) -> (r:
    Result<EncodeProgress, JobError>)
    ensures
        view_run(r) == process_outcome(stat@, params.config, view_events(events@)),
{
    let ghost all = view_events(events@);
    let mut progress = match EncodeProgress::start(stat, &params.config) {
        Ok(progress) => progress,
        Err(e) => {
            return Err(e);
        },
    };
    let ghost first = progress;
    let mut i: usize = 0;
    while i < events.len()
        invariant
            i <= events.len(),
            all == view_events(events@),
            up_scaling_verdict(params.config, stat@) is Ok,
            first == EncodeProgress::at_start(stat@),
            encode_run(first, all.take(i as int)) == Ok::<EncodeProgress, JobErrorView>(progress),
        decreases events.len() - i,
    {
        proof {
            assert(all.take(i + 1).drop_last() =~= all.take(i as int));
            assert(all.take(i + 1).last() == events@[i as int]@);
        }
        match progress.on_event(events[i].clone()) {
            JobStep::Failed(e) => {
                proof {
                    lemma_encode_run_stays_failed(first, all, i + 1);
                }
                return Err(e);
            },
            _ => {},
        }
        i += 1;
    }
    assert(all.take(i as int) =~= all);
    Ok(progress)
}

/// Closes a job: makes its outcome from how its run ended, whether its
/// encoder ended with a success status, and the answer to the query for the
/// size of its output.
pub fn conclude(
    config: VideoConfig,
    run: Result<EncodeProgress, JobError>,
    exit_ok: bool,
    output_size: Result<u64, String>,
) -> (r: JobOutcome)
    ensures
        r@ == job_outcome(config, view_run(run), exit_ok, view_file_size(output_size)),
{
    match run {
        Err(e) => JobOutcome::Failure(config, e),
        Ok(_) => {
            if !exit_ok {
                JobOutcome::Failure(
                    config,
                    JobError::Encoding(String::from_str("ffmpegが異常終了しました")),
                )
            } else {
                match output_size {
                    Ok(size) => JobOutcome::Success(size),
                    Err(reason) => JobOutcome::Failure(config, JobError::OutputSize(reason)),
                }
            }
        },
    }
}

} // verus!
