//! The batch orchestrator: a job takes its recordings one after another
//! through the pipeline, records each outcome, reports its progress, and
//! completes whether or not single recordings failed.
//!
//! A [`BatchJob`] performs nothing itself.  Each step hands out the
//! [`Effect`]s to carry out, in order and without regard to whether they
//! succeed, and then the one [`Request`] whose answer the job waits for.

use crate::handlers::{
    requests_view, response_of, transcribe_response, TranscribeRequest, TranscribeRequestView,
    TranscribeResponse, TranscribeResponseView,
};
use crate::pipeline::{
    held_file, pipeline_advance, pipeline_begin, ItemOutcome, ItemOutcomeView, ItemPipeline,
    ItemPipelineView, PipelineStep, PipelineStepView, Reply, ReplyView, Request, RequestView,
};
use crate::queue::{JobStatus, JobStatusView, TranscriptionStatus, TranscriptionStatusView};
use crate::storage::{object_key, storage_message};
use crate::text::text_view;
use crate::transcriber::{error_message, Seconds};
use vstd::prelude::*;

verus! {

/// Something to carry out for a job.  Whether it succeeds does not matter
/// to the job: a failure is noted by the program and otherwise ignored.
#[derive(Debug, Clone, PartialEq, Eq)]
pub enum Effect {
    /// Record the job's progress in the status store.
    StoreJobStatus { job_id: String, status: JobStatus },
    /// Record the final state of a recording in the status store.
    StoreResult { recording_id: String, result: TranscriptionStatus },
    /// Send a finished transcription to the address its request named.
    PostCallback { url: String, body: TranscribeResponse },
    /// Delete the local file of a recording whose path has ended.
    RemoveFile { path: String },
}

/// An effect by its characters.
pub enum EffectView {
    StoreJobStatus { job_id: Seq<char>, status: JobStatusView },
    StoreResult { recording_id: Seq<char>, result: TranscriptionStatusView },
    PostCallback { url: Seq<char>, body: TranscribeResponseView },
    RemoveFile { path: Seq<char> },
}

impl View for Effect {
    type V = EffectView;

    open spec fn view(&self) -> EffectView {
        match self {
            Effect::StoreJobStatus { job_id, status } => EffectView::StoreJobStatus {
                job_id: job_id@,
                status: status@,
            },
            Effect::StoreResult { recording_id, result } => EffectView::StoreResult {
                recording_id: recording_id@,
                result: result@,
            },
            Effect::PostCallback { url, body } => EffectView::PostCallback {
                url: url@,
                body: body@,
            },
            Effect::RemoveFile { path } => EffectView::RemoveFile { path: path@ },
        }
    }
}

/// The views of a list of effects, in order.
pub open spec fn effects_view(effects: Seq<Effect>) -> Seq<EffectView> {
    Seq::new(effects.len(), |i: int| effects[i]@)
}

/// What a job waits for after a step.
#[derive(Debug, Clone, PartialEq, Eq)]
pub enum Next {
    /// The answer to this request.
    Ask(Request),
    /// Nothing: the job is complete.
    Finished,
    /// Nothing new: the step was refused and changed nothing.
    Rejected,
}

/// A continuation by its characters.
pub enum NextView {
    Ask(RequestView),
    Finished,
    Rejected,
}

impl View for Next {
    type V = NextView;

    open spec fn view(&self) -> NextView {
        match self {
            Next::Ask(request) => NextView::Ask(request@),
            Next::Finished => NextView::Finished,
            Next::Rejected => NextView::Rejected,
        }
    }
}

/// One step of a job: the effects to carry out, then what to wait for.
#[derive(Debug, Clone, PartialEq, Eq)]
pub struct BatchStep {
    pub effects: Vec<Effect>,
    pub next: Next,
}

/// A step by its characters.
pub struct BatchStepView {
    pub effects: Seq<EffectView>,
    pub next: NextView,
}

impl View for BatchStep {
    type V = BatchStepView;

    open spec fn view(&self) -> BatchStepView {
        BatchStepView { effects: effects_view(self.effects@), next: self.next@ }
    }
}

/// How far a job has come.
#[derive(Debug, Clone, PartialEq, Eq)]
pub enum Progress {
    /// Accepted, not started.
    Queued,
    /// At the recording number `index`, whose path is `pipeline`.
    Item { index: usize, pipeline: ItemPipeline },
    /// Past its last recording.
    Completed,
}

/// Progress by its characters.
pub enum ProgressView {
    Queued,
    Item { index: int, pipeline: ItemPipelineView },
    Completed,
}

impl View for Progress {
    type V = ProgressView;

    open spec fn view(&self) -> ProgressView {
        match self {
            Progress::Queued => ProgressView::Queued,
            Progress::Item { index, pipeline } => ProgressView::Item {
                index: *index as int,
                pipeline: pipeline@,
            },
            Progress::Completed => ProgressView::Completed,
        }
    }
}

/// A batch job: its recordings, in the order in which they are processed,
/// and how far it has come.
#[derive(Debug, Clone, PartialEq, Eq)]
pub struct BatchJob {
    pub job_id: String,
    pub bucket_name: String,
    pub requests: Vec<TranscribeRequest>,
    pub progress: Progress,
}

/// A job by its characters.
pub struct BatchJobView {
    pub job_id: Seq<char>,
    pub bucket_name: Seq<char>,
    pub requests: Seq<TranscribeRequestView>,
    pub progress: ProgressView,
}

impl View for BatchJob {
    type V = BatchJobView;

    open spec fn view(&self) -> BatchJobView {
        BatchJobView {
            job_id: self.job_id@,
            bucket_name: self.bucket_name@,
            requests: requests_view(self.requests@),
            progress: self.progress@,
        }
    }
}

/// The job `job` at another point of its progress.
pub open spec fn at(job: BatchJobView, progress: ProgressView) -> BatchJobView {
    BatchJobView {
        job_id: job.job_id,
        bucket_name: job.bucket_name,
        requests: job.requests,
        progress,
    }
}

/// The number of recordings of a job as the status record holds it: the low
/// thirty-two bits of the count.
pub open spec fn total_of(job: BatchJobView) -> u32 {
    job.requests.len() as u32
}

/// The status of a job that has been accepted and not started.
pub open spec fn queued_status(job: BatchJobView) -> JobStatusView {
    JobStatusView { status: "queued"@, current: Some(0u32), total: Some(total_of(job)) }
}

/// The status of a job that is at its recording number `index`, counted
/// from zero: the record counts from one.
pub open spec fn processing_status(job: BatchJobView, index: int) -> JobStatusView {
    JobStatusView {
        status: "processing"@,
        current: Some((index + 1) as u32),
        total: Some(total_of(job)),
    }
}

/// The status of a job that is past its last recording.
pub open spec fn completed_status(job: BatchJobView) -> JobStatusView {
    JobStatusView {
        status: "completed"@,
        current: Some(total_of(job)),
        total: Some(total_of(job)),
    }
}

/// The final state of a recording that was transcribed.
pub open spec fn transcribed_status(text: Seq<char>, duration: Seconds) -> TranscriptionStatusView {
    TranscriptionStatusView {
        status: "completed"@,
        text: Some(text),
        duration: Some(duration),
        error: None,
    }
}

/// The final state of a recording that failed, with the failure's message.
pub open spec fn failed_status(error: Seq<char>) -> TranscriptionStatusView {
    TranscriptionStatusView { status: "failed"@, text: None, duration: None, error: Some(error) }
}

/// The message of the failure that ended a recording's path.
pub open spec fn failure_message(outcome: ItemOutcomeView) -> Seq<char> {
    match outcome {
        ItemOutcomeView::TempFileFailed(report) => report,
        ItemOutcomeView::DownloadFailed(e) => storage_message(e),
        ItemOutcomeView::TranscriptionFailed(e) => error_message(e),
        ItemOutcomeView::Transcribed(_) => Seq::empty(),
    }
}

/// The final state that the outcome of a recording's path leaves behind:
/// the text and its duration, or the failure's message, never both.
pub open spec fn outcome_status(outcome: ItemOutcomeView) -> TranscriptionStatusView {
    match outcome {
        ItemOutcomeView::Transcribed(result) => transcribed_status(result.text, result.duration),
        _ => failed_status(failure_message(outcome)),
    }
}

/// The callback that the outcome of a recording's path calls for: the full
/// transcription, sent to the address that the request names.  A request
/// without an address gets none, and neither does a failure.
pub open spec fn callback_for(
    request: TranscribeRequestView,
    outcome: ItemOutcomeView,
) -> Seq<EffectView> {
    match (outcome, request.callback_url) {
        (ItemOutcomeView::Transcribed(result), Some(url)) => seq![
            EffectView::PostCallback { url, body: response_of(request.recording_id, result) },
        ],
        _ => Seq::empty(),
    }
}

/// What follows from the outcome of one recording: its final state is
/// recorded, then the callback is sent if one is called for.
pub open spec fn outcome_effects(
    request: TranscribeRequestView,
    outcome: ItemOutcomeView,
) -> Seq<EffectView> {
    seq![
        EffectView::StoreResult {
            recording_id: request.recording_id,
            result: outcome_status(outcome),
        },
    ] + callback_for(request, outcome)
}

/// The removal of the local file that a path held when it ended.
pub open spec fn removal(remove: Option<Seq<char>>) -> Seq<EffectView> {
    match remove {
        Some(path) => seq![EffectView::RemoveFile { path }],
        None => Seq::empty(),
    }
}

/// A step that was refused.
pub open spec fn rejected(job: BatchJobView) -> (BatchJobView, BatchStepView) {
    (job, BatchStepView { effects: Seq::empty(), next: NextView::Rejected })
}

/// The job turns to its recording number `index`: it reports its progress
/// and asks for a local file, or, past the last recording, reports that it
/// is complete.
pub open spec fn enter_item(job: BatchJobView, index: int) -> (BatchJobView, BatchStepView) {
    if 0 <= index < job.requests.len() {
        (
            at(
                job,
                ProgressView::Item {
                    index,
                    pipeline: pipeline_begin(job.requests[index].file_url, job.bucket_name),
                },
            ),
            BatchStepView {
                effects: seq![
                    EffectView::StoreJobStatus {
                        job_id: job.job_id,
                        status: processing_status(job, index),
                    },
                ],
                next: NextView::Ask(RequestView::CreateTempFile),
            },
        )
    } else {
        (
            at(job, ProgressView::Completed),
            BatchStepView {
                effects: seq![
                    EffectView::StoreJobStatus { job_id: job.job_id, status: completed_status(job) },
                ],
                next: NextView::Finished,
            },
        )
    }
}

/// The first step of a job: a queued job turns to its first recording; any
/// other job refuses to start again.
pub open spec fn batch_start(job: BatchJobView) -> (BatchJobView, BatchStepView) {
    match job.progress {
        ProgressView::Queued => enter_item(job, 0),
        _ => rejected(job),
    }
}

/// A later step of a job: the reply goes to the path of the current
/// recording.  While the path goes on, the job passes its request on.  When
/// the path ends, the job records the outcome, has the recording's local
/// file removed and turns to the next recording, whatever the outcome was.
pub open spec fn batch_advance(job: BatchJobView, reply: ReplyView) -> (BatchJobView, BatchStepView) {
    match job.progress {
        ProgressView::Item { index, pipeline } => if 0 <= index < job.requests.len() {
            let (after, step) = pipeline_advance(pipeline, reply);
            match step {
                PipelineStepView::Ask(request) => (
                    at(job, ProgressView::Item { index, pipeline: after }),
                    BatchStepView { effects: Seq::empty(), next: NextView::Ask(request) },
                ),
                PipelineStepView::Done { outcome, remove } => {
                    let (entered, step) = enter_item(job, index + 1);
                    (
                        entered,
                        BatchStepView {
                            effects: outcome_effects(job.requests[index], outcome) + removal(
                                remove,
                            ) + step.effects,
                            next: step.next,
                        },
                    )
                },
                PipelineStepView::Rejected => rejected(job),
            }
        } else {
            rejected(job)
        },
        _ => rejected(job),
    }
}

fn push_effect(effects: &mut Vec<Effect>, effect: Effect)
    ensures
        effects_view(final(effects)@) == effects_view(old(effects)@).push(effect@),
{
    effects.push(effect);
    assert(effects_view(effects@) =~= effects_view(old(effects)@).push(effect@));
}

fn record_outcome(request: &TranscribeRequest, outcome: ItemOutcome, effects: &mut Vec<Effect>)
    ensures
        effects_view(final(effects)@) == effects_view(old(effects)@) + outcome_effects(
            request@,
            outcome@,
        ),
{
    let recording_id = request.recording_id.clone();
    match outcome {
        ItemOutcome::Transcribed(result) => {
            let status = TranscriptionStatus {
                status: String::from_str("completed"),
                text: Some(result.text.clone()),
                duration: Some(result.duration),
                error: None,
            };
            push_effect(effects, Effect::StoreResult { recording_id, result: status });
            match &request.callback_url {
                Some(url) => {
                    let body = transcribe_response(request.recording_id.clone(), result);
                    push_effect(effects, Effect::PostCallback { url: url.clone(), body });
                },
                None => {},
            }
        },
        ItemOutcome::TempFileFailed(report) => {
            push_effect(effects, Effect::StoreResult { recording_id, result: failed(report) });
        },
        ItemOutcome::DownloadFailed(e) => {
            push_effect(effects, Effect::StoreResult { recording_id, result: failed(e.message()) });
        },
        ItemOutcome::TranscriptionFailed(e) => {
            push_effect(effects, Effect::StoreResult { recording_id, result: failed(e.message()) });
        },
    }
    assert(effects_view(effects@) =~= effects_view(old(effects)@) + outcome_effects(
        request@,
        outcome@,
    ));
}

fn failed(error: String) -> (r: TranscriptionStatus)
    ensures
        r@ == failed_status(error@),
{
    TranscriptionStatus {
        status: String::from_str("failed"),
        text: None,
        duration: None,
        error: Some(error),
    }
}

impl BatchJob {
    /// A job that has been accepted and not started.
    pub fn new(job_id: String, bucket_name: String, requests: Vec<TranscribeRequest>) -> (r:
        BatchJob)
        ensures
            r@ == (BatchJobView {
                job_id: job_id@,
                bucket_name: bucket_name@,
                requests: requests_view(requests@),
                progress: ProgressView::Queued,
            }),
    {
        BatchJob { job_id, bucket_name, requests, progress: Progress::Queued }
    }

    /// The status that the record of an accepted job starts with.
    pub fn queued_status(&self) -> (r: JobStatus)
        ensures
            r@ == queued_status(self@),
    {
        JobStatus {
            status: String::from_str("queued"),
            current: Some(0),
            total: Some(self.total()),
        }
    }

    /// Whether the job is past its last recording.
    pub fn is_finished(&self) -> (r: bool)
        ensures
            r == (self@.progress is Completed),
    {
        match self.progress {
            Progress::Completed => true,
            _ => false,
        }
    }

    fn total(&self) -> (r: u32)
        ensures
            r == total_of(self@),
    {
        #[verifier::truncate]
        (self.requests.len() as u32)
    }

    fn enter(&mut self, index: usize, effects: &mut Vec<Effect>) -> (r: Next)
        requires
            index <= old(self).requests.len(),
        ensures
            final(self)@ == enter_item(old(self)@, index as int).0,
            effects_view(final(effects)@) == effects_view(old(effects)@) + enter_item(
                old(self)@,
                index as int,
            ).1.effects,
            r@ == enter_item(old(self)@, index as int).1.next,
    {
        let total = self.total();
        if index < self.requests.len() {
            let current = #[verifier::truncate]
            ((index + 1) as u32);
            let status = JobStatus {
                status: String::from_str("processing"),
                current: Some(current),
                total: Some(total),
            };
            push_effect(effects, Effect::StoreJobStatus { job_id: self.job_id.clone(), status });
            let pipeline = ItemPipeline::begin(
                self.requests[index].file_url.as_str(),
                self.bucket_name.as_str(),
            );
            self.progress = Progress::Item { index, pipeline };
            assert(effects_view(effects@) =~= effects_view(old(effects)@) + enter_item(
                old(self)@,
                index as int,
            ).1.effects);
            Next::Ask(Request::CreateTempFile)
        } else {
            let status = JobStatus {
                status: String::from_str("completed"),
                current: Some(total),
                total: Some(total),
            };
            push_effect(effects, Effect::StoreJobStatus { job_id: self.job_id.clone(), status });
            self.progress = Progress::Completed;
            assert(effects_view(effects@) =~= effects_view(old(effects)@) + enter_item(
                old(self)@,
                index as int,
            ).1.effects);
            Next::Finished
        }
    }

    /// Starts the job.  A job that was started before refuses.
    pub fn start(&mut self) -> (r: BatchStep)
        ensures
            (final(self)@, r@) == batch_start(old(self)@),
    {
        let mut effects: Vec<Effect> = Vec::new();
        assert(effects_view(effects@) =~= Seq::<EffectView>::empty());
        match self.progress {
            Progress::Queued => {
                let next = self.enter(0, &mut effects);
                assert(effects_view(effects@) =~= enter_item(old(self)@, 0).1.effects);
                BatchStep { effects, next }
            },
            _ => BatchStep { effects, next: Next::Rejected },
        }
    }

    /// Takes the answer to the last request and says what to do next.  A
    /// reply that does not answer what was asked is refused and changes
    /// nothing.
    pub fn step(&mut self, reply: Reply) -> (r: BatchStep)
        ensures
            (final(self)@, r@) == batch_advance(old(self)@, reply@),
    {
        let mut effects: Vec<Effect> = Vec::new();
        assert(effects_view(effects@) =~= Seq::<EffectView>::empty());
        let mut progress = Progress::Completed;
        core::mem::swap(&mut self.progress, &mut progress);
        match progress {
            Progress::Item { index, pipeline } => {
                if index < self.requests.len() {
                    let mut pipeline = pipeline;
                    match pipeline.step(reply) {
                        PipelineStep::Ask(request) => {
                            self.progress = Progress::Item { index, pipeline };
                            BatchStep { effects, next: Next::Ask(request) }
                        },
                        PipelineStep::Done { outcome, remove } => {
                            self.progress = Progress::Item { index, pipeline };
                            record_outcome(&self.requests[index], outcome, &mut effects);
                            if let Some(path) = remove {
                                push_effect(&mut effects, Effect::RemoveFile { path });
                            }
                            let ghost recorded = effects_view(effects@);
                            let ghost before = self@;
                            let next = self.enter(index + 1, &mut effects);
                            proof {
                                assert(enter_item(before, index + 1) == enter_item(
                                    old(self)@,
                                    index + 1,
                                ));
                                assert(recorded =~= outcome_effects(
                                    old(self)@.requests[index as int],
                                    outcome@,
                                ) + removal(text_view(remove)));
                            }
                            BatchStep { effects, next }
                        },
                        PipelineStep::Rejected => {
                            self.progress = Progress::Item { index, pipeline };
                            BatchStep { effects, next: Next::Rejected }
                        },
                    }
                } else {
                    self.progress = Progress::Item { index, pipeline };
                    BatchStep { effects, next: Next::Rejected }
                }
            },
            other => {
                self.progress = other;
                BatchStep { effects, next: Next::Rejected }
            },
        }
    }
}

/// The kinds of effect.
pub enum EffectKind {
    JobStatus,
    Outcome,
    Callback,
    Removal,
}

/// The kind of an effect.
pub open spec fn kind_of(effect: EffectView) -> EffectKind {
    match effect {
        EffectView::StoreJobStatus { .. } => EffectKind::JobStatus,
        EffectView::StoreResult { .. } => EffectKind::Outcome,
        EffectView::PostCallback { .. } => EffectKind::Callback,
        EffectView::RemoveFile { .. } => EffectKind::Removal,
    }
}

/// The effects of one kind among `trace`, in their order.
pub open spec fn only(trace: Seq<EffectView>, kind: EffectKind) -> Seq<EffectView>
    decreases trace.len(),
{
    if trace.len() == 0 {
        Seq::empty()
    } else if kind_of(trace.last()) == kind {
        only(trace.drop_last(), kind).push(trace.last())
    } else {
        only(trace.drop_last(), kind)
    }
}

/// A job some way into its work: where it stands, every effect it has
/// handed out so far, the outcomes of the recordings it is done with, and
/// the local files that were made for it.
pub struct Run {
    pub job: BatchJobView,
    pub trace: Seq<EffectView>,
    pub outcomes: Seq<ItemOutcomeView>,
    pub files: Seq<Seq<char>>,
}

/// The outcome with which `reply` ends the path of the job's current
/// recording, if it does end it.
pub open spec fn ended_with(job: BatchJobView, reply: ReplyView) -> Seq<ItemOutcomeView> {
    match job.progress {
        ProgressView::Item { index, pipeline } => if 0 <= index < job.requests.len() {
            match pipeline_advance(pipeline, reply).1 {
                PipelineStepView::Done { outcome, .. } => seq![outcome],
                _ => Seq::empty(),
            }
        } else {
            Seq::empty()
        },
        _ => Seq::empty(),
    }
}

/// The local file that `reply` hands to the path of the job's current
/// recording, if the path awaits one and the reply brings it.
pub open spec fn made_by(job: BatchJobView, reply: ReplyView) -> Seq<Seq<char>> {
    match job.progress {
        ProgressView::Item { index, pipeline } => if 0 <= index < job.requests.len()
            && pipeline.stage is TempFile {
            match reply {
                ReplyView::TempFile(path) => seq![path],
                _ => Seq::empty(),
            }
        } else {
            Seq::empty()
        },
        _ => Seq::empty(),
    }
}

/// The job `job` after it was started and then given `replies`, one by one.
pub open spec fn run(job: BatchJobView, replies: Seq<ReplyView>) -> Run
    decreases replies.len(),
{
    if replies.len() == 0 {
        let (started, step) = batch_start(job);
        Run { job: started, trace: step.effects, outcomes: Seq::empty(), files: Seq::empty() }
    } else {
        let before = run(job, replies.drop_last());
        let (after, step) = batch_advance(before.job, replies.last());
        Run {
            job: after,
            trace: before.trace + step.effects,
            outcomes: before.outcomes + ended_with(before.job, replies.last()),
            files: before.files + made_by(before.job, replies.last()),
        }
    }
}

/// The progress reports of a job that is done with `done` of its
/// recordings: one for each recording it has turned to, counting up from
/// one, and after the last recording the report of completion.
pub open spec fn expected_reports(job: BatchJobView, done: int) -> Seq<EffectView> {
    let entered = if done < job.requests.len() {
        done + 1
    } else {
        job.requests.len() as int
    };
    let reports = Seq::new(
        entered as nat,
        |k: int|
            EffectView::StoreJobStatus { job_id: job.job_id, status: processing_status(job, k) },
    );
    if done < job.requests.len() {
        reports
    } else {
        reports.push(
            EffectView::StoreJobStatus { job_id: job.job_id, status: completed_status(job) },
        )
    }
}

/// The final states recorded for the recordings that a job is done with:
/// one for each, in the order of the requests.
pub open spec fn expected_results(
    requests: Seq<TranscribeRequestView>,
    outcomes: Seq<ItemOutcomeView>,
) -> Seq<EffectView> {
    Seq::new(
        outcomes.len(),
        |k: int|
            EffectView::StoreResult {
                recording_id: requests[k].recording_id,
                result: outcome_status(outcomes[k]),
            },
    )
}

/// The callbacks sent for the recordings that a job is done with.
pub open spec fn expected_callbacks(
    requests: Seq<TranscribeRequestView>,
    outcomes: Seq<ItemOutcomeView>,
) -> Seq<EffectView>
    decreases outcomes.len(),
{
    if outcomes.len() == 0 {
        Seq::empty()
    } else {
        expected_callbacks(requests, outcomes.drop_last()) + callback_for(
            requests[outcomes.len() - 1],
            outcomes.last(),
        )
    }
}

/// The removal of each of `files`, in order.
pub open spec fn expected_removals(files: Seq<Seq<char>>) -> Seq<EffectView> {
    Seq::new(files.len(), |k: int| EffectView::RemoveFile { path: files[k] })
}

/// Whether the removals among `trace` are those of all the files made,
/// but for the one that the current recording's path still holds.
pub open spec fn tidy(r: Run) -> bool {
    let removed = only(r.trace, EffectKind::Removal);
    match r.job.progress {
        ProgressView::Item { pipeline, .. } => match held_file(pipeline.stage) {
            Some(path) => r.files.len() > 0 && r.files.last() == path && removed
                == expected_removals(r.files.drop_last()),
            None => pipeline.stage is TempFile && removed == expected_removals(r.files),
        },
        _ => removed == expected_removals(r.files),
    }
}

/// What holds of every run of a job: it stands at the recording after those
/// it is done with, or is complete when it is done with all; its reports,
/// recorded results and callbacks are exactly the expected ones; and it
/// has had every local file removed that is no longer in use.
pub open spec fn orderly(job: BatchJobView, r: Run) -> bool {
    &&& r.job == at(job, r.job.progress)
    &&& r.outcomes.len() <= job.requests.len()
    &&& match r.job.progress {
        ProgressView::Queued => false,
        ProgressView::Item { index, pipeline } => index == r.outcomes.len() && index
            < job.requests.len() && pipeline.object_key == object_key(
            job.requests[index].file_url,
            job.bucket_name,
        ),
        ProgressView::Completed => r.outcomes.len() == job.requests.len(),
    }
    &&& only(r.trace, EffectKind::JobStatus) == expected_reports(job, r.outcomes.len() as int)
    &&& only(r.trace, EffectKind::Outcome) == expected_results(job.requests, r.outcomes)
    &&& only(r.trace, EffectKind::Callback) == expected_callbacks(job.requests, r.outcomes)
    &&& tidy(r)
}

/// Picking one kind of effect from two traces in a row is picking it from
/// each.
pub proof fn lemma_only_add(a: Seq<EffectView>, b: Seq<EffectView>, kind: EffectKind)
    ensures
        only(a + b, kind) == only(a, kind) + only(b, kind),
    decreases b.len(),
{
    if b.len() == 0 {
        assert(a + b =~= a);
        assert(only(a, kind) + only(b, kind) =~= only(a, kind));
    } else {
        lemma_only_add(a, b.drop_last(), kind);
        assert((a + b).drop_last() =~= a + b.drop_last());
        assert((a + b).last() == b.last());
        assert(only(a + b, kind) =~= only(a, kind) + only(b, kind));
    }
}

/// Picking one kind of effect from at most one effect.
pub proof fn lemma_only_short(effects: Seq<EffectView>, kind: EffectKind)
    requires
        effects.len() <= 1,
    ensures
        only(effects, kind) == if effects.len() == 1 && kind_of(effects[0]) == kind {
            effects
        } else {
            Seq::empty()
        },
{
    if effects.len() == 1 {
        assert(effects.drop_last() =~= Seq::<EffectView>::empty());
        assert(only(effects.drop_last(), kind) =~= Seq::<EffectView>::empty());
        assert(effects.last() == effects[0]);
        if kind_of(effects[0]) == kind {
            assert(only(effects, kind) =~= effects);
        }
    }
}

/// The effects with which a job leaves one recording and turns to the
/// next, kind by kind.
proof fn lemma_only_step(
    job: BatchJobView,
    request: TranscribeRequestView,
    outcome: ItemOutcomeView,
    remove: Option<Seq<char>>,
    index: int,
    kind: EffectKind,
)
    ensures
        only(
            outcome_effects(request, outcome) + removal(remove) + enter_item(job, index).1.effects,
            kind,
        ) == match kind {
            EffectKind::JobStatus => enter_item(job, index).1.effects,
            EffectKind::Outcome => seq![
                EffectView::StoreResult {
                    recording_id: request.recording_id,
                    result: outcome_status(outcome),
                },
            ],
            EffectKind::Callback => callback_for(request, outcome),
            EffectKind::Removal => removal(remove),
        },
{
    let stored = seq![
        EffectView::StoreResult {
            recording_id: request.recording_id,
            result: outcome_status(outcome),
        },
    ];
    let sent = callback_for(request, outcome);
    let removed = removal(remove);
    let entered = enter_item(job, index).1.effects;
    lemma_only_add(stored, sent, kind);
    lemma_only_add(stored + sent, removed, kind);
    lemma_only_add(stored + sent + removed, entered, kind);
    lemma_only_short(stored, kind);
    lemma_only_short(sent, kind);
    lemma_only_short(removed, kind);
    lemma_only_short(entered, kind);
    assert(only(stored + sent + removed + entered, kind) =~= match kind {
        EffectKind::JobStatus => entered,
        EffectKind::Outcome => stored,
        EffectKind::Callback => sent,
        EffectKind::Removal => removed,
    });
}

proof fn lemma_entered(job: BatchJobView, start: BatchJobView, done: int)
    requires
        start == at(job, start.progress),
        0 <= done <= job.requests.len(),
    ensures
        enter_item(start, done).0 == at(job, enter_item(start, done).0.progress),
        match enter_item(start, done).0.progress {
            ProgressView::Queued => false,
            ProgressView::Item { index, pipeline } => index == done && done < job.requests.len()
                && pipeline == pipeline_begin(job.requests[done].file_url, job.bucket_name),
            ProgressView::Completed => done == job.requests.len(),
        },
        done == 0 ==> enter_item(start, done).1.effects == expected_reports(job, 0),
        done > 0 ==> expected_reports(job, done - 1) + enter_item(start, done).1.effects
            == expected_reports(job, done),
{
    let effects = enter_item(start, done).1.effects;
    if done == 0 {
        assert(effects =~= expected_reports(job, 0));
    } else {
        assert(expected_reports(job, done - 1) + effects =~= expected_reports(job, done));
    }
}

/// Every run of a queued job is orderly.
pub proof fn lemma_run_orderly(job: BatchJobView, replies: Seq<ReplyView>)
    requires
        job.progress is Queued,
    ensures
        orderly(job, run(job, replies)),
    decreases replies.len(),
{
    let r = run(job, replies);
    if replies.len() == 0 {
        lemma_entered(job, job, 0);
        let entered = enter_item(job, 0).1.effects;
        lemma_only_short(entered, EffectKind::JobStatus);
        lemma_only_short(entered, EffectKind::Outcome);
        lemma_only_short(entered, EffectKind::Callback);
        lemma_only_short(entered, EffectKind::Removal);
        assert(expected_results(job.requests, r.outcomes) =~= Seq::<EffectView>::empty());
        assert(expected_removals(r.files) =~= Seq::<EffectView>::empty());
    } else {
        let before = run(job, replies.drop_last());
        lemma_run_orderly(job, replies.drop_last());
        let reply = replies.last();
        let (after, step) = batch_advance(before.job, reply);
        let ended = ended_with(before.job, reply);
        let made = made_by(before.job, reply);
        if ended.len() == 0 {
            assert(step.effects =~= Seq::<EffectView>::empty());
            assert(r.trace =~= before.trace);
            assert(r.outcomes =~= before.outcomes);
            if made.len() == 0 {
                assert(r.files =~= before.files);
            } else {
                assert(r.files.drop_last() =~= before.files);
            }
        } else {
            let done = before.outcomes.len() as int;
            let outcome = ended[0];
            let request = job.requests[done];
            let pipeline = before.job.progress->Item_pipeline;
            let remove = held_file(pipeline.stage);
            let entered = enter_item(before.job, done + 1).1.effects;
            assert(ended =~= seq![outcome]);
            assert(r.outcomes =~= before.outcomes.push(outcome));
            assert(r.files =~= before.files);
            assert(step.effects == outcome_effects(request, outcome) + removal(remove) + entered);
            lemma_entered(job, before.job, done + 1);
            lemma_only_add(before.trace, step.effects, EffectKind::JobStatus);
            lemma_only_add(before.trace, step.effects, EffectKind::Outcome);
            lemma_only_add(before.trace, step.effects, EffectKind::Callback);
            lemma_only_add(before.trace, step.effects, EffectKind::Removal);
            lemma_only_step(before.job, request, outcome, remove, done + 1, EffectKind::JobStatus);
            lemma_only_step(before.job, request, outcome, remove, done + 1, EffectKind::Outcome);
            lemma_only_step(before.job, request, outcome, remove, done + 1, EffectKind::Callback);
            lemma_only_step(before.job, request, outcome, remove, done + 1, EffectKind::Removal);
            assert(only(r.trace, EffectKind::JobStatus) =~= expected_reports(job, done)
                + entered);
            assert(only(r.trace, EffectKind::Outcome) =~= expected_results(
                job.requests,
                r.outcomes,
            ));
            assert(r.outcomes.drop_last() =~= before.outcomes);
            assert(only(r.trace, EffectKind::Callback) =~= expected_callbacks(
                job.requests,
                before.outcomes,
            ) + callback_for(request, outcome));
            assert(only(r.trace, EffectKind::Removal) =~= expected_removals(r.files));
        }
    }
}

/// A job takes its recordings in the order of the requests, one at a
/// time: whenever it is at work, it is at the recording after those it is
/// done with, and the object it fetches is the one that this recording's
/// request names.
pub proof fn lemma_recordings_in_order(job: BatchJobView, replies: Seq<ReplyView>)
    requires
        job.progress is Queued,
    ensures
        match run(job, replies).job.progress {
            ProgressView::Queued => false,
            ProgressView::Item { index, pipeline } => index == run(job, replies).outcomes.len()
                && index < job.requests.len() && pipeline.object_key == object_key(
                job.requests[index].file_url,
                job.bucket_name,
            ),
            ProgressView::Completed => run(job, replies).outcomes.len() == job.requests.len(),
        },
{
    lemma_run_orderly(job, replies);
}

/// When a job is complete, every local file that was made for one of its
/// recordings has been removed, once, in the order in which the files were
/// made.  While the job runs, the same holds of every file but the one that
/// the current recording's path holds.
pub proof fn lemma_local_files_are_removed(job: BatchJobView, replies: Seq<ReplyView>)
    requires
        job.progress is Queued,
    ensures
        tidy(run(job, replies)),
        run(job, replies).job.progress is Completed ==> only(
            run(job, replies).trace,
            EffectKind::Removal,
        ) == expected_removals(run(job, replies).files),
{
    lemma_run_orderly(job, replies);
}

/// When a job is complete, it is done with every one of its recordings,
/// and the last report it handed out has the status `completed` and counts
/// as many recordings done as the job has, however many of them failed.
pub proof fn lemma_completed_job_reports_all(job: BatchJobView, replies: Seq<ReplyView>)
    requires
        job.progress is Queued,
        run(job, replies).job.progress is Completed,
    ensures
        run(job, replies).outcomes.len() == job.requests.len(),
        only(run(job, replies).trace, EffectKind::JobStatus).last()
            == (EffectView::StoreJobStatus {
            job_id: job.job_id,
            status: JobStatusView {
                status: "completed"@,
                current: Some(job.requests.len() as u32),
                total: Some(job.requests.len() as u32),
            },
        }),
        job.requests.len() <= u32::MAX ==> job.requests.len() as u32 == job.requests.len(),
{
    lemma_run_orderly(job, replies);
}

/// A job reports `processing` for each recording it turns to and
/// `completed` exactly once, as the last of its reports, when it is past
/// its last recording.
pub proof fn lemma_completes_once(job: BatchJobView, replies: Seq<ReplyView>, i: int)
    requires
        job.progress is Queued,
        0 <= i < only(run(job, replies).trace, EffectKind::JobStatus).len(),
    ensures
        ({
            let r = run(job, replies);
            let reports = only(r.trace, EffectKind::JobStatus);
            &&& reports[i] is StoreJobStatus
            &&& reports[i]->StoreJobStatus_status.status == if r.job.progress is Completed && i
                == reports.len() - 1 {
                "completed"@
            } else {
                "processing"@
            }
        }),
{
    lemma_run_orderly(job, replies);
    reveal_strlit("completed");
    reveal_strlit("processing");
    assert("completed"@.len() == 9 && "processing"@.len() == 10);
}

/// Every report of a job names the job and its number of recordings, and
/// from one report to the next the count of recordings reached never
/// falls.  The job must have no more recordings than the counter can hold.
pub proof fn lemma_reports_count_up(job: BatchJobView, replies: Seq<ReplyView>, i: int, j: int)
    requires
        job.progress is Queued,
        job.requests.len() <= u32::MAX,
        0 <= i <= j < only(run(job, replies).trace, EffectKind::JobStatus).len(),
    ensures
        ({
            let reports = only(run(job, replies).trace, EffectKind::JobStatus);
            &&& reports[i] is StoreJobStatus
            &&& reports[j] is StoreJobStatus
            &&& reports[i]->StoreJobStatus_job_id == job.job_id
            &&& reports[i]->StoreJobStatus_status.total == Some(job.requests.len() as u32)
            &&& reports[j]->StoreJobStatus_status.total == Some(job.requests.len() as u32)
            &&& reports[i]->StoreJobStatus_status.current is Some
            &&& reports[j]->StoreJobStatus_status.current is Some
            &&& reports[i]->StoreJobStatus_status.current->0
                <= reports[j]->StoreJobStatus_status.current->0
        }),
{
    lemma_run_orderly(job, replies);
}

/// In every run of a job, the final states recorded are those of the
/// recordings the job is done with: exactly one for each, in the order of
/// the requests and under the recording's own identifier.  A complete job
/// has recorded one for every request.
pub proof fn lemma_one_result_per_recording(job: BatchJobView, replies: Seq<ReplyView>)
    requires
        job.progress is Queued,
    ensures
        ({
            let r = run(job, replies);
            let results = only(r.trace, EffectKind::Outcome);
            &&& results == expected_results(job.requests, r.outcomes)
            &&& results.len() == r.outcomes.len() <= job.requests.len()
            &&& r.job.progress is Completed ==> results.len() == job.requests.len()
            &&& forall|k: int|
                0 <= k < results.len() ==> (#[trigger] results[k]) is StoreResult
                    && results[k]->StoreResult_recording_id == job.requests[k].recording_id
        }),
{
    lemma_run_orderly(job, replies);
}

/// A recorded final state holds a text and a duration, or an error
/// message, and never both.
pub proof fn lemma_status_is_text_or_error(outcome: ItemOutcomeView)
    ensures
        ({
            let status = outcome_status(outcome);
            if outcome is Transcribed {
                status.status == "completed"@ && status.text is Some && status.duration is Some
                    && status.error is None
            } else {
                status.status == "failed"@ && status.text is None && status.duration is None
                    && status.error == Some(failure_message(outcome))
            }
        }),
{
}

/// In every run of a job, the callbacks sent are those that the outcomes
/// call for, in the order of the requests.  An outcome calls for exactly
/// one callback when it is a transcription and its request names an
/// address, and for none otherwise: a failed recording never has one.
pub proof fn lemma_callbacks_only_for_transcriptions(job: BatchJobView, replies: Seq<ReplyView>)
    requires
        job.progress is Queued,
    ensures
        only(run(job, replies).trace, EffectKind::Callback) == expected_callbacks(
            job.requests,
            run(job, replies).outcomes,
        ),
        forall|request: TranscribeRequestView, outcome: ItemOutcomeView|
            !(outcome is Transcribed) || request.callback_url is None ==> (#[trigger] callback_for(
                request,
                outcome,
            )).len() == 0,
        forall|request: TranscribeRequestView, outcome: ItemOutcomeView|
            outcome is Transcribed && request.callback_url is Some ==> (#[trigger] callback_for(
                request,
                outcome,
            )) == seq![
                EffectView::PostCallback {
                    url: request.callback_url->0,
                    body: response_of(request.recording_id, outcome->Transcribed_0),
                },
            ],
{
    lemma_run_orderly(job, replies);
}

/// A run in which no recording was transcribed sends no callback at all.
pub proof fn lemma_failures_send_nothing(
    requests: Seq<TranscribeRequestView>,
    outcomes: Seq<ItemOutcomeView>,
)
    requires
        forall|k: int| 0 <= k < outcomes.len() ==> !(outcomes[k] is Transcribed),
    ensures
        expected_callbacks(requests, outcomes).len() == 0,
    decreases outcomes.len(),
{
    if outcomes.len() > 0 {
        lemma_failures_send_nothing(requests, outcomes.drop_last());
    }
}

/// A download that fails ends only its own recording: the failure's
/// message is recorded as that recording's final state, its local file is
/// removed, and the job turns to the next recording, or completes after the
/// last.
pub proof fn lemma_download_failure_is_isolated(
    job: BatchJobView,
    index: int,
    pipeline: ItemPipelineView,
    e: crate::storage::StorageErrorView,
)
    requires
        job.progress == (ProgressView::Item { index, pipeline }),
        0 <= index < job.requests.len(),
        pipeline.stage is Download,
    ensures
        ({
            let (after, step) = batch_advance(job, ReplyView::DownloadFailed(e));
            let turned = if index + 1 < job.requests.len() {
                (
                    ProgressView::Item {
                        index: index + 1,
                        pipeline: pipeline_begin(
                            job.requests[index + 1].file_url,
                            job.bucket_name,
                        ),
                    },
                    processing_status(job, index + 1),
                    NextView::Ask(RequestView::CreateTempFile),
                )
            } else {
                (ProgressView::Completed, completed_status(job), NextView::Finished)
            };
            &&& after == at(job, turned.0)
            &&& step.next == turned.2
            &&& step.effects == seq![
                EffectView::StoreResult {
                    recording_id: job.requests[index].recording_id,
                    result: failed_status(storage_message(e)),
                },
                EffectView::RemoveFile { path: pipeline.stage->Download_local_path },
                EffectView::StoreJobStatus { job_id: job.job_id, status: turned.1 },
            ]
        }),
{
    let (after, step) = batch_advance(job, ReplyView::DownloadFailed(e));
    assert(step.effects =~= seq![
        EffectView::StoreResult {
            recording_id: job.requests[index].recording_id,
            result: failed_status(storage_message(e)),
        },
        EffectView::RemoveFile { path: pipeline.stage->Download_local_path },
        step.effects[2],
    ]);
}

} // verus!
