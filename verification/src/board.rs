//! The jobs of one sweep side by side: each job has a place of its own on
//! the board, an event reaches only the place of its job, and the outcomes
//! are read off in the order of the jobs, whatever the order in which the
//! jobs ended.

use crate::config::{up_scaling_verdict, VideoConfig};
use crate::encode::{encode_step, job_outcome, EncodeProgress, JobStep, JobStepView};
use crate::outcome::{JobError, JobErrorView, JobOutcome, JobOutcomeView};
use crate::stat::{view_file_size, VideoStat, VideoStatView};
use crate::stream::{StreamEvent, StreamEventView};
use vstd::prelude::*;
use vstd::string::*;

verus! {

/// The state of one job.
#[derive(Debug, PartialEq, Eq)]
pub enum JobSlot {
    /// The job has not begun.
    Waiting,
    /// The encoder of the job runs; how far it has come.
    Running(EncodeProgress),
    /// The job has ended.
    Done(JobOutcome),
}

/// The mathematical value of a [`JobSlot`].
pub enum JobSlotView {
    Waiting,
    Running(EncodeProgress),
    Done(JobOutcomeView),
}

impl View for JobSlot {
    type V = JobSlotView;

    open spec fn view(&self) -> JobSlotView {
        match self {
            JobSlot::Waiting => JobSlotView::Waiting,
            JobSlot::Running(p) => JobSlotView::Running(*p),
            JobSlot::Done(o) => JobSlotView::Done(o@),
        }
    }
}

impl Clone for JobSlot {
    fn clone(&self) -> (r: Self)
        ensures
            r == *self,
    {
        match self {
            JobSlot::Waiting => JobSlot::Waiting,
            JobSlot::Running(p) => JobSlot::Running(*p),
            JobSlot::Done(o) => JobSlot::Done(o.clone()),
        }
    }
}

/// What can happen to a job.
pub enum JobInput {
    /// The job is begun for this source.
    Start(VideoStatView),
    /// Its encoder gave this event.
    Event(StreamEventView),
    /// Its encoder ended, with a success status or not, and the size of its
    /// output was asked for.
    Conclude(bool, Result<u64, Seq<char>>),
    /// The unit that ran it broke down.
    Fail(Seq<char>),
}

/// The note of a job of which nothing was heard when the outcomes were
/// read off.
pub open spec fn no_outcome_note() -> Seq<char> {
    "結果が報告されませんでした"@
}

/// The state of a job after something has happened to it, and what is to be
/// done about it.
///
/// A waiting job that is begun runs from the start of its progress, or has
/// failed at once where its configuration asks for more than the source
/// holds. A running job takes in the events of its encoder, and has failed
/// with the first event that fails it; when its encoder has ended it is done,
/// with the outcome of its run. A job that is not done fails when its unit
/// breaks down. Nothing else changes a job: one that is done keeps its
/// outcome.
pub open spec fn slot_step(config: VideoConfig, slot: JobSlotView, input: JobInput) -> (
    JobSlotView,
    JobStepView,
) {
    match (slot, input) {
        (JobSlotView::Waiting, JobInput::Start(stat)) => match up_scaling_verdict(config, stat) {
            Ok(_) => (JobSlotView::Running(EncodeProgress::at_start(stat)), JobStepView::Quiet),
            Err(e) => (
                JobSlotView::Done(JobOutcomeView::Failure(config, JobErrorView::Config(e))),
                JobStepView::Failed(JobErrorView::Config(e)),
            ),
        },
        (JobSlotView::Running(progress), JobInput::Event(event)) => match encode_step(
            progress,
            event,
        ) {
            (_, JobStepView::Failed(e)) => (
                JobSlotView::Done(JobOutcomeView::Failure(config, e)),
                JobStepView::Failed(e),
            ),
            (after, step) => (JobSlotView::Running(after), step),
        },
        (JobSlotView::Running(progress), JobInput::Conclude(exit_ok, output_size)) => (
            JobSlotView::Done(job_outcome(config, Ok(progress), exit_ok, output_size)),
            JobStepView::Quiet,
        ),
        (JobSlotView::Waiting, JobInput::Fail(reason)) => (
            JobSlotView::Done(JobOutcomeView::Failure(config, JobErrorView::Runtime(reason))),
            JobStepView::Failed(JobErrorView::Runtime(reason)),
        ),
        (JobSlotView::Running(_), JobInput::Fail(reason)) => (
            JobSlotView::Done(JobOutcomeView::Failure(config, JobErrorView::Runtime(reason))),
            JobStepView::Failed(JobErrorView::Runtime(reason)),
        ),
        _ => (slot, JobStepView::Quiet),
    }
}

/// The outcome that is read off a job's place: its own where it is done,
/// else a failure that says that nothing was heard of it.
pub open spec fn slot_outcome(config: VideoConfig, slot: JobSlotView) -> JobOutcomeView {
    match slot {
        JobSlotView::Done(outcome) => outcome,
        _ => JobOutcomeView::Failure(config, JobErrorView::Runtime(no_outcome_note())),
    }
}

/// The state of a job after a run of inputs of its own.
pub open spec fn slot_run(config: VideoConfig, slot: JobSlotView, inputs: Seq<JobInput>)
    -> JobSlotView
    decreases inputs.len(),
{
    if inputs.len() == 0 {
        slot
    } else {
        slot_step(config, slot_run(config, slot, inputs.drop_last()), inputs.last()).0
    }
}

/// The mathematical value of a [`JobBoard`]: the configurations of the jobs
/// in their order, and at the same places the states of the jobs.
pub struct JobBoardView {
    pub configs: Seq<VideoConfig>,
    pub slots: Seq<JobSlotView>,
}

impl JobBoardView {
    /// Every job has a place.
    pub open spec fn wf(self) -> bool {
        self.slots.len() == self.configs.len()
    }

    /// The board of jobs that have not begun.
    pub open spec fn start(configs: Seq<VideoConfig>) -> JobBoardView {
        JobBoardView { configs, slots: Seq::new(configs.len(), |i: int| JobSlotView::Waiting) }
    }

    /// The board after something has happened to the job at `index`: only
    /// the place of that job can have changed. An index beyond the board
    /// changes nothing.
    pub open spec fn step(self, index: int, input: JobInput) -> JobBoardView {
        if 0 <= index < self.slots.len() {
            JobBoardView {
                configs: self.configs,
                slots: self.slots.update(
                    index,
                    slot_step(self.configs[index], self.slots[index], input).0,
                ),
            }
        } else {
            self
        }
    }

    /// What is to be done about something that has happened to the job at
    /// `index`.
    pub open spec fn action(self, index: int, input: JobInput) -> JobStepView {
        if 0 <= index < self.slots.len() {
            slot_step(self.configs[index], self.slots[index], input).1
        } else {
            JobStepView::Quiet
        }
    }

    /// The board after a run of inputs, each with the index of its job.
    pub open spec fn run(self, inputs: Seq<(int, JobInput)>) -> JobBoardView
        decreases inputs.len(),
    {
        if inputs.len() == 0 {
            self
        } else {
            self.run(inputs.drop_last()).step(inputs.last().0, inputs.last().1)
        }
    }

    /// The outcomes of the jobs, in the order of the jobs.
    pub open spec fn outcomes(self) -> Seq<JobOutcomeView> {
        Seq::new(self.slots.len(), |i: int| slot_outcome(self.configs[i], self.slots[i]))
    }
}

/// The inputs of the job at `index` among `inputs`, in their order.
pub open spec fn inputs_of(inputs: Seq<(int, JobInput)>, index: int) -> Seq<JobInput>
    decreases inputs.len(),
{
    if inputs.len() == 0 {
        Seq::empty()
    } else if inputs.last().0 == index {
        inputs_of(inputs.drop_last(), index).push(inputs.last().1)
    } else {
        inputs_of(inputs.drop_last(), index)
    }
}

/// One job on the board: its configuration and its state.
#[derive(Debug, PartialEq, Eq)]
pub struct JobEntry {
    pub config: VideoConfig,
    pub slot: JobSlot,
}

impl Clone for JobEntry {
    fn clone(&self) -> (r: Self)
        ensures
            r == *self,
    {
        JobEntry { config: self.config, slot: self.slot.clone() }
    }
}

/// The jobs of one sweep, each with its configuration and its state.
#[derive(Debug, PartialEq, Eq)]
pub struct JobBoard {
    pub jobs: Vec<JobEntry>,
}

impl View for JobBoard {
    type V = JobBoardView;

    open spec fn view(&self) -> JobBoardView {
        JobBoardView {
            configs: self.jobs@.map_values(|j: JobEntry| j.config),
            slots: self.jobs@.map_values(|j: JobEntry| j.slot@),
        }
    }
}

impl Clone for JobBoard {
    fn clone(&self) -> (r: Self)
        ensures
            r@ == self@,
    {
        let jobs = self.jobs.clone();
        assert(jobs@ =~= self.jobs@);
        JobBoard { jobs }
    }
}

/// The mathematical value of a run of outcomes.
pub open spec fn view_outcomes(outcomes: Seq<JobOutcome>) -> Seq<JobOutcomeView> {
    outcomes.map_values(|o: JobOutcome| o@)
}

impl JobBoard {
    /// The board for the jobs of these configurations, none of them begun.
    pub fn new(configs: Vec<VideoConfig>) -> (r: Self)
        ensures
            r@ == JobBoardView::start(configs@),
    {
        let mut jobs: Vec<JobEntry> = Vec::new();
        let mut i: usize = 0;
        while i < configs.len()
            invariant
                i <= configs.len(),
                jobs@.len() == i,
                forall|k: int|
                    0 <= k < i ==> (#[trigger] jobs@[k]).slot@ == JobSlotView::Waiting
                        && jobs@[k].config == configs@[k],
            decreases configs.len() - i,
        {
            jobs.push(JobEntry { config: configs[i], slot: JobSlot::Waiting });
            i += 1;
        }
        let r = JobBoard { jobs };
        assert(r@.slots =~= JobBoardView::start(configs@).slots);
        assert(r@.configs =~= configs@);
        r
    }

    /// The number of jobs.
    pub fn len(&self) -> (r: usize)
        ensures
            r == self@.configs.len(),
            self@.wf(),
    {
        self.jobs.len()
    }

    /// The configuration of the job at `index`.
    pub fn config(&self, index: usize) -> (r: Option<VideoConfig>)
        ensures
            self@.wf(),
            r == if index < self@.configs.len() {
                Some(self@.configs[index as int])
            } else {
                None
            },
    {
        if index < self.jobs.len() {
            Some(self.jobs[index].config)
        } else {
            None
        }
    }

    /// How far the job at `index` has come, where it runs.
    pub fn progress(&self, index: usize) -> (r: Option<EncodeProgress>)
        ensures
            self@.wf(),
            r == if index < self@.slots.len() && self@.slots[index as int] is Running {
                Some(self@.slots[index as int]->Running_0)
            } else {
                None
            },
    {
        if index < self.jobs.len() {
            match &self.jobs[index].slot {
                JobSlot::Running(p) => Some(*p),
                _ => None,
            }
        } else {
            None
        }
    }

    /// The outcome of the job at `index`, where it is done.
    pub fn outcome(&self, index: usize) -> (r: Option<JobOutcome>)
        ensures
            match r {
                Some(outcome) => index < self@.slots.len() && self@.slots[index as int]
                    == JobSlotView::Done(outcome@),
                None => !(index < self@.slots.len() && self@.slots[index as int] is Done),
            },
    {
        if index < self.jobs.len() {
            match &self.jobs[index].slot {
                JobSlot::Done(outcome) => Some(outcome.clone()),
                _ => None,
            }
        } else {
            None
        }
    }

    /// Puts `slot` at the place of the job at `index`.
    fn put(&mut self, index: usize, slot: JobSlot)
        requires
            index < old(self)@.slots.len(),
        ensures
            final(self)@.configs == old(self)@.configs,
            final(self)@.slots == old(self)@.slots.update(index as int, slot@),
    {
        let config = self.jobs[index].config;
        self.jobs.set(index, JobEntry { config, slot });
        assert(self@.slots =~= old(self)@.slots.update(index as int, slot@));
        assert(self@.configs =~= old(self)@.configs);
    }

    /// Begins the job at `index` for the source `stat`. Says whether the
    /// encoder is to be started: it is not where the configuration asks for
    /// more than the source holds, a job that has begun is not begun again,
    /// and an index beyond the board names no job.
    pub fn start(&mut self, index: usize, stat: &VideoStat) -> (launch: bool)
        ensures
            final(self)@ == old(self)@.step(index as int, JobInput::Start(stat@)),
            launch == (index < old(self)@.slots.len() && old(self)@.slots[index as int] is Waiting
                && up_scaling_verdict(old(self)@.configs[index as int], stat@) is Ok),
    {
        if index >= self.jobs.len() {
            return false;
        }
        let config = self.jobs[index].config;
        let (slot, launch) = match &self.jobs[index].slot {
            JobSlot::Waiting => match EncodeProgress::start(stat, &config) {
                Ok(progress) => (JobSlot::Running(progress), true),
                Err(e) => (JobSlot::Done(JobOutcome::Failure(config, e)), false),
            },
            other => (other.clone(), false),
        };
        self.put(index, slot);
        assert(self@.slots =~= old(self)@.step(index as int, JobInput::Start(stat@)).slots);
        launch
    }

    /// Takes in one event of the encoder of the job at `index` and says
    /// what is to be done about it. Only a running job takes in events.
    pub fn on_event(&mut self, index: usize, event: StreamEvent) -> (r: JobStep)
        ensures
            final(self)@ == old(self)@.step(index as int, JobInput::Event(event@)),
            r@ == old(self)@.action(index as int, JobInput::Event(event@)),
    {
        if index >= self.jobs.len() {
            return JobStep::Quiet;
        }
        let config = self.jobs[index].config;
        let (slot, step) = match &self.jobs[index].slot {
            JobSlot::Running(progress) => {
                let mut after = *progress;
                match after.on_event(event) {
                    JobStep::Failed(e) => (
                        JobSlot::Done(JobOutcome::Failure(config, e.clone())),
                        JobStep::Failed(e),
                    ),
                    step => (JobSlot::Running(after), step),
                }
            },
            other => (other.clone(), JobStep::Quiet),
        };
        self.put(index, slot);
        assert(self@.slots =~= old(self)@.step(index as int, JobInput::Event(event@)).slots);
        step
    }

    /// Closes the job at `index` when its encoder has ended: with a success
    /// status or not, and with the answer to the query for the size of its
    /// output. Only a running job is closed.
    pub fn conclude(&mut self, index: usize, exit_ok: bool, output_size: Result<u64, String>)
        ensures
            final(self)@ == old(self)@.step(
                index as int,
                JobInput::Conclude(exit_ok, view_file_size(output_size)),
            ),
    {
        if index >= self.jobs.len() {
            return ;
        }
        let config = self.jobs[index].config;
        let slot = match &self.jobs[index].slot {
            JobSlot::Running(progress) => JobSlot::Done(
                crate::encode::conclude(config, Ok(*progress), exit_ok, output_size),
            ),
            other => other.clone(),
        };
        self.put(index, slot);
        assert(self@.slots =~= old(self)@.step(
            index as int,
            JobInput::Conclude(exit_ok, view_file_size(output_size)),
        ).slots);
    }

    /// Records that the unit that ran the job at `index` broke down. A job
    /// that is done keeps its outcome.
    pub fn fail(&mut self, index: usize, reason: String)
        ensures
            final(self)@ == old(self)@.step(index as int, JobInput::Fail(reason@)),
    {
        if index >= self.jobs.len() {
            return ;
        }
        let config = self.jobs[index].config;
        let slot = match &self.jobs[index].slot {
            JobSlot::Done(outcome) => JobSlot::Done(outcome.clone()),
            _ => JobSlot::Done(JobOutcome::Failure(config, JobError::Runtime(reason))),
        };
        self.put(index, slot);
        assert(self@.slots =~= old(self)@.step(index as int, JobInput::Fail(reason@)).slots);
    }

    /// Reads the outcomes off the board, in the order of the jobs. A job
    /// that is not done counts as failed.
    pub fn finish(self) -> (r: Vec<JobOutcome>)
        ensures
            self@.wf(),
            r@.len() == self@.configs.len(),
            forall|i: int| 0 <= i < r@.len() ==> (#[trigger] r@[i])@ == self@.outcomes()[i],
            view_outcomes(r@) == self@.outcomes(),
    {
        let mut r: Vec<JobOutcome> = Vec::new();
        let mut i: usize = 0;
        while i < self.jobs.len()
            invariant
                i <= self.jobs.len(),
                r@.len() == i,
                forall|k: int| 0 <= k < i ==> r@[k]@ == #[trigger] self@.outcomes()[k],
            decreases self.jobs.len() - i,
        {
            let outcome = match &self.jobs[i].slot {
                JobSlot::Done(outcome) => outcome.clone(),
                _ => JobOutcome::Failure(
                    self.jobs[i].config,
                    JobError::Runtime(String::from_str("結果が報告されませんでした")),
                ),
            };
            r.push(outcome);
            i += 1;
        }
        assert(view_outcomes(r@) =~= self@.outcomes());
        r
    }
}

/// A job that is done keeps its outcome, whatever happens to it afterwards:
/// the outcome of a job is made once.
pub proof fn lemma_done_job_keeps_outcome(
    config: VideoConfig,
    outcome: JobOutcomeView,
    inputs: Seq<JobInput>,
)
    ensures
        slot_run(config, JobSlotView::Done(outcome), inputs) == JobSlotView::Done(outcome),
    decreases inputs.len(),
{
    if inputs.len() > 0 {
        lemma_done_job_keeps_outcome(config, outcome, inputs.drop_last());
    }
}

/// Whether one of `inputs` begins a job for a source that holds all that
/// `config` asks for.
pub open spec fn admitted(config: VideoConfig, inputs: Seq<JobInput>) -> bool {
    exists|k: int|
        0 <= k < inputs.len() && (#[trigger] inputs[k]) is Start && up_scaling_verdict(
            config,
            inputs[k]->Start_0,
        ) is Ok
}

/// Whether the job runs or has written its output.
pub open spec fn runs_or_succeeded(slot: JobSlotView) -> bool {
    match slot {
        JobSlotView::Running(_) => true,
        JobSlotView::Done(JobOutcomeView::Success(_)) => true,
        _ => false,
    }
}

/// No encoder runs for a configuration that the guard turns down: a job
/// that runs, or that has written its output, was begun for a source that
/// holds all that its configuration asks for.
pub proof fn lemma_running_job_was_admitted(config: VideoConfig, inputs: Seq<JobInput>)
    requires
        runs_or_succeeded(slot_run(config, JobSlotView::Waiting, inputs)),
    ensures
        admitted(config, inputs),
    decreases inputs.len(),
{
    if inputs.len() > 0 {
        let before = inputs.drop_last();
        let slot = slot_run(config, JobSlotView::Waiting, before);
        let k = inputs.len() - 1;
        match slot {
            JobSlotView::Waiting => {
                assert(inputs[k] is Start);
            },
            JobSlotView::Running(_) => {
                lemma_running_job_was_admitted(config, before);
                let w = choose|w: int|
                    0 <= w < before.len() && (#[trigger] before[w]) is Start && up_scaling_verdict(
                        config,
                        before[w]->Start_0,
                    ) is Ok;
                assert(inputs[w] == before[w]);
            },
            JobSlotView::Done(outcome) => {
                lemma_running_job_was_admitted(config, before);
                let w = choose|w: int|
                    0 <= w < before.len() && (#[trigger] before[w]) is Start && up_scaling_verdict(
                        config,
                        before[w]->Start_0,
                    ) is Ok;
                assert(inputs[w] == before[w]);
            },
        }
    }
}

/// Whatever happens to one job leaves every other job as it was, and the
/// configurations too.
pub proof fn lemma_step_leaves_other_jobs(
    board: JobBoardView,
    index: int,
    input: JobInput,
    other: int,
)
    requires
        other != index,
        0 <= other < board.slots.len(),
    ensures
        board.step(index, input).slots[other] == board.slots[other],
        board.step(index, input).configs == board.configs,
        board.step(index, input).slots.len() == board.slots.len(),
{
}

/// What happens to two different jobs can happen in either order: the board
/// is the same afterwards.
pub proof fn lemma_steps_of_two_jobs_commute(
    board: JobBoardView,
    i: int,
    x: JobInput,
    j: int,
    y: JobInput,
)
    requires
        i != j,
    ensures
        board.step(i, x).step(j, y) == board.step(j, y).step(i, x),
{
    assert(board.step(i, x).step(j, y).slots =~= board.step(j, y).step(i, x).slots);
}

/// However the inputs of the jobs are interleaved, the state of each job is
/// what its own inputs, in their order, make of the state it had: no job's
/// state depends on what happened to another, nor on which ended first.
pub proof fn lemma_run_is_job_by_job(
    board: JobBoardView,
    inputs: Seq<(int, JobInput)>,
    index: int,
)
    requires
        board.wf(),
        0 <= index < board.slots.len(),
    ensures
        board.run(inputs).wf(),
        board.run(inputs).configs == board.configs,
        board.run(inputs).slots[index] == slot_run(
            board.configs[index],
            board.slots[index],
            inputs_of(inputs, index),
        ),
    decreases inputs.len(),
{
    if inputs.len() > 0 {
        lemma_run_is_job_by_job(board, inputs.drop_last(), index);
        let before = board.run(inputs.drop_last());
        let own = inputs_of(inputs.drop_last(), index);
        if inputs.last().0 == index {
            assert(own.push(inputs.last().1).drop_last() =~= own);
        }
    }
}

/// The outcomes are read off in the order of the jobs: at each place stands
/// the outcome of the job of that place, as its own inputs made it, however
/// the inputs of the jobs were interleaved.
pub proof fn lemma_outcomes_in_job_order(
    configs: Seq<VideoConfig>,
    inputs: Seq<(int, JobInput)>,
    index: int,
)
    requires
        0 <= index < configs.len(),
    ensures
        JobBoardView::start(configs).run(inputs).outcomes().len() == configs.len(),
        JobBoardView::start(configs).run(inputs).outcomes()[index] == slot_outcome(
            configs[index],
            slot_run(configs[index], JobSlotView::Waiting, inputs_of(inputs, index)),
        ),
{
    lemma_run_is_job_by_job(JobBoardView::start(configs), inputs, index);
}

} // verus!
