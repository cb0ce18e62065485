//! The request handlers: what each endpoint answers, given what the
//! collaborators reported.

use crate::batch::{queued_status, BatchJob, BatchJobView, ProgressView};
use crate::pipeline::{pipeline_begin, ItemOutcome, ItemOutcomeView, ItemPipeline, ItemPipelineView};
use crate::queue::{stored_job_status, JobStatus, JobStatusView, Queue};
use crate::storage::{storage_message, Storage, StorageError};
use crate::text::{join, pairs_view, text_view};
use crate::transcriber::{
    error_message, Seconds, Segment, SegmentView, Transcriber, TranscriptionResult,
    TranscriptionResultView,
};
use vstd::prelude::*;

verus! {

/// What the handlers share: the engine guard, the settings of the two
/// stores and the name of the bucket that file references may start with.
#[derive(Debug, Clone, PartialEq, Eq)]
pub struct AppState {
    pub transcriber: Transcriber,
    pub storage: Storage,
    pub queue: Queue,
    pub bucket_name: String,
}

/// A request to transcribe one recording.
#[derive(Debug, Clone, PartialEq, Eq)]
pub struct TranscribeRequest {
    pub file_url: String,
    pub recording_id: String,
    pub callback_url: Option<String>,
}

/// A transcription request by its characters.
pub struct TranscribeRequestView {
    pub file_url: Seq<char>,
    pub recording_id: Seq<char>,
    pub callback_url: Option<Seq<char>>,
}

impl View for TranscribeRequest {
    type V = TranscribeRequestView;

    open spec fn view(&self) -> TranscribeRequestView {
        TranscribeRequestView {
            file_url: self.file_url@,
            recording_id: self.recording_id@,
            callback_url: text_view(self.callback_url),
        }
    }
}

/// The views of a list of requests, in order.
pub open spec fn requests_view(requests: Seq<TranscribeRequest>) -> Seq<TranscribeRequestView> {
    Seq::new(requests.len(), |i: int| requests[i]@)
}

/// One segment of a transcription, as sent to callers.
#[derive(Debug, Clone, PartialEq, Eq)]
pub struct SegmentResponse {
    pub start: Seconds,
    pub end: Seconds,
    pub text: String,
}

impl View for SegmentResponse {
    type V = SegmentView;

    open spec fn view(&self) -> SegmentView {
        SegmentView { start: self.start, end: self.end, text: self.text@ }
    }
}

/// The views of a list of segments, in order.
pub open spec fn segment_responses_view(segments: Seq<SegmentResponse>) -> Seq<SegmentView> {
    Seq::new(segments.len(), |i: int| segments[i]@)
}

/// A finished transcription, as sent to callers.
#[derive(Debug, Clone, PartialEq, Eq)]
pub struct TranscribeResponse {
    pub recording_id: String,
    pub text: String,
    pub segments: Vec<SegmentResponse>,
    pub duration: Seconds,
}

/// A transcription response by its characters.
pub struct TranscribeResponseView {
    pub recording_id: Seq<char>,
    pub text: Seq<char>,
    pub segments: Seq<SegmentView>,
    pub duration: Seconds,
}

impl View for TranscribeResponse {
    type V = TranscribeResponseView;

    open spec fn view(&self) -> TranscribeResponseView {
        TranscribeResponseView {
            recording_id: self.recording_id@,
            text: self.text@,
            segments: segment_responses_view(self.segments@),
            duration: self.duration,
        }
    }
}

/// The answer of the health endpoint.
#[derive(Debug, Clone, PartialEq, Eq)]
pub struct HealthResponse {
    pub status: String,
    pub model_loaded: bool,
}

/// The answer to an accepted batch.
#[derive(Debug, Clone, PartialEq, Eq)]
pub struct BatchResponse {
    pub job_id: String,
    pub status: String,
    pub count: usize,
}

/// The body of every failure answer.
#[derive(Debug, Clone, PartialEq, Eq)]
pub struct ErrorResponse {
    pub error: String,
}

/// A failure answer: the HTTP status code and the body.
#[derive(Debug, Clone, PartialEq, Eq)]
pub struct HttpError {
    pub status: u16,
    pub body: ErrorResponse,
}

/// A failure answer by its characters.
pub struct HttpErrorView {
    pub status: u16,
    pub error: Seq<char>,
}

impl View for HttpError {
    type V = HttpErrorView;

    open spec fn view(&self) -> HttpErrorView {
        HttpErrorView { status: self.status, error: self.body.error@ }
    }
}

/// Status code of an answer to a missing object or job.
pub const NOT_FOUND: u16 = 404;

/// Status code of an answer to a failure inside the service.
pub const INTERNAL_SERVER_ERROR: u16 = 500;

/// Status code of an answer given while the engine is not loaded.
pub const SERVICE_UNAVAILABLE: u16 = 503;

fn failure(status: u16, error: String) -> (r: HttpError)
    ensures
        r@ == (HttpErrorView { status, error: error@ }),
{
    HttpError { status, body: ErrorResponse { error } }
}

/// The health endpoint: always healthy, and whether the engine is loaded.
pub fn health(state: &AppState) -> (r: HealthResponse)
    ensures
        r.status@ == "healthy"@,
        r.model_loaded == state.transcriber.ready(),
{
    HealthResponse {
        status: String::from_str("healthy"),
        model_loaded: state.transcriber.is_ready(),
    }
}

/// What the single-recording endpoint does first.
pub open spec fn transcribe_start(ready: bool, file_url: Seq<char>, bucket_name: Seq<char>) -> Result<
    ItemPipelineView,
    HttpErrorView,
> {
    if ready {
        Ok(pipeline_begin(file_url, bucket_name))
    } else {
        Err(HttpErrorView { status: SERVICE_UNAVAILABLE, error: "Transcriber not ready"@ })
    }
}

/// The single-recording endpoint, at its start.  While the engine is not
/// loaded the request is refused at once and nothing is asked of storage or
/// engine; otherwise the recording's path begins.
pub fn transcribe(state: &AppState, request: &TranscribeRequest) -> (r: Result<
    ItemPipeline,
    HttpError,
>)
    ensures
        match transcribe_start(
            state.transcriber.ready(),
            request.file_url@,
            state.bucket_name@,
        ) {
            Ok(pipeline) => r is Ok && r->Ok_0@ == pipeline,
            Err(e) => r is Err && r->Err_0@ == e,
        },
{
    if !state.transcriber.is_ready() {
        return Err(failure(SERVICE_UNAVAILABLE, String::from_str("Transcriber not ready")));
    }
    Ok(ItemPipeline::begin(request.file_url.as_str(), state.bucket_name.as_str()))
}

/// The response that carries `result` for recording `recording_id`: the
/// same text, the same segments in the same order, the same duration.
pub open spec fn response_of(
    recording_id: Seq<char>,
    result: TranscriptionResultView,
) -> TranscribeResponseView {
    TranscribeResponseView {
        recording_id,
        text: result.text,
        segments: result.segments,
        duration: result.duration,
    }
}

/// What the single-recording endpoint answers once the recording's path
/// has ended: the transcription, or the failure with the most telling
/// status code.  "Not found" is kept for an object that the store does not
/// hold; a store that failed otherwise, a local file that could not be
/// made or written, and a failed transcription are failures inside the
/// service.
pub open spec fn transcribe_answer(recording_id: Seq<char>, outcome: ItemOutcomeView) -> Result<
    TranscribeResponseView,
    HttpErrorView,
> {
    match outcome {
        ItemOutcomeView::TempFileFailed(_) => Err(
            HttpErrorView { status: INTERNAL_SERVER_ERROR, error: "Internal error"@ },
        ),
        ItemOutcomeView::DownloadFailed(e) => Err(
            if e is NotFound {
                HttpErrorView {
                    status: NOT_FOUND,
                    error: "Audio file not found: "@ + storage_message(e),
                }
            } else {
                HttpErrorView {
                    status: INTERNAL_SERVER_ERROR,
                    error: "Audio download failed: "@ + storage_message(e),
                }
            },
        ),
        ItemOutcomeView::TranscriptionFailed(e) => Err(
            HttpErrorView {
                status: INTERNAL_SERVER_ERROR,
                error: "Transcription failed: "@ + error_message(e),
            },
        ),
        ItemOutcomeView::Transcribed(result) => Ok(response_of(recording_id, result)),
    }
}

/// Turns the segments of a result into those of a response, one for one.
pub fn segment_responses(segments: Vec<Segment>) -> (r: Vec<SegmentResponse>)
    ensures
        segment_responses_view(r@) == crate::transcriber::segments_view(segments@),
{
    let mut out: Vec<SegmentResponse> = Vec::new();
    let mut i: usize = 0;
    while i < segments.len()
        invariant
            0 <= i <= segments.len(),
            out@.len() == i,
            forall|j: int| 0 <= j < i ==> out@[j]@ == segments@[j]@,
        decreases segments.len() - i,
    {
        let segment = &segments[i];
        out.push(
            SegmentResponse { start: segment.start, end: segment.end, text: segment.text.clone() },
        );
        i = i + 1;
    }
    assert(segment_responses_view(out@) =~= crate::transcriber::segments_view(segments@));
    out
}

/// The response that carries `result` for recording `recording_id`.
pub fn transcribe_response(recording_id: String, result: TranscriptionResult) -> (r:
    TranscribeResponse)
    ensures
        r@ == response_of(recording_id@, result@),
{
    TranscribeResponse {
        recording_id,
        text: result.text,
        segments: segment_responses(result.segments),
        duration: result.duration,
    }
}

/// The single-recording endpoint, at its end: the answer to the caller
/// for the outcome of the recording's path.
pub fn transcribe_finish(recording_id: String, outcome: ItemOutcome) -> (r: Result<
    TranscribeResponse,
    HttpError,
>)
    ensures
        match transcribe_answer(recording_id@, outcome@) {
            Ok(response) => r is Ok && r->Ok_0@ == response,
            Err(e) => r is Err && r->Err_0@ == e,
        },
{
    match outcome {
        ItemOutcome::TempFileFailed(_) => Err(
            failure(INTERNAL_SERVER_ERROR, String::from_str("Internal error")),
        ),
        ItemOutcome::DownloadFailed(e) => Err(
            match e {
                StorageError::NotFound => failure(
                    NOT_FOUND,
                    join("Audio file not found: ", e.message().as_str()),
                ),
                _ => failure(
                    INTERNAL_SERVER_ERROR,
                    join("Audio download failed: ", e.message().as_str()),
                ),
            },
        ),
        ItemOutcome::TranscriptionFailed(e) => Err(
            failure(
                INTERNAL_SERVER_ERROR,
                join("Transcription failed: ", e.message().as_str()),
            ),
        ),
        ItemOutcome::Transcribed(result) => Ok(transcribe_response(recording_id, result)),
    }
}

/// What the job endpoint answers for what the store returned: the stored
/// status, "not found" for a record without fields, and an internal error
/// when the store could not be read.
pub open spec fn job_status_answer(read: Option<Seq<(Seq<char>, Seq<char>)>>) -> Result<
    JobStatusView,
    HttpErrorView,
> {
    match read {
        Some(fields) => match stored_job_status(fields) {
            Some(status) => Ok(status),
            None => Err(HttpErrorView { status: NOT_FOUND, error: "Job not found"@ }),
        },
        None => Err(
            HttpErrorView { status: INTERNAL_SERVER_ERROR, error: "Failed to get job status"@ },
        ),
    }
}

/// The fields of a store read by their characters; `None` for a read that
/// failed.
pub open spec fn read_view(read: Option<Vec<(String, String)>>) -> Option<
    Seq<(Seq<char>, Seq<char>)>,
> {
    match read {
        Some(fields) => Some(pairs_view(fields@)),
        None => None,
    }
}

/// The job endpoint.  `read` holds the fields that the store returned for
/// the job's key, or `None` when the store could not be read.
pub fn get_job_status(state: &AppState, read: Option<Vec<(String, String)>>) -> (r: Result<
    JobStatus,
    HttpError,
>)
    ensures
        match job_status_answer(read_view(read)) {
            Ok(status) => r is Ok && r->Ok_0@ == status,
            Err(e) => r is Err && r->Err_0@ == e,
        },
{
    match read {
        Some(fields) => match state.queue.get_job_status(&fields) {
            Some(status) => Ok(status),
            None => Err(failure(NOT_FOUND, String::from_str("Job not found"))),
        },
        None => Err(failure(INTERNAL_SERVER_ERROR, String::from_str("Failed to get job status"))),
    }
}

/// Draws a job identifier from `uuid::Uuid::new_v4` and writes it out with
/// the identifier's `to_string`.  The identifier is random; all that is
/// claimed of the text is its length, that of the hyphenated form:
/// thirty-two hexadecimal digits and four hyphens.  The call fails only
/// when the system has no randomness to give.
#[verifier::external_body]
fn fresh_job_id() -> (id: String)
    ensures
        id@.len() == 36,
{
    uuid::Uuid::new_v4().to_string()
}

/// The job that a batch of requests becomes under the identifier `job_id`,
/// before it is started.
pub open spec fn queued_job(
    job_id: Seq<char>,
    bucket_name: Seq<char>,
    requests: Seq<TranscribeRequestView>,
) -> BatchJobView {
    BatchJobView { job_id, bucket_name, requests, progress: ProgressView::Queued }
}

/// Accepts a batch under the identifier `job_id`: the job, not started,
/// and the status that its record must hold before the caller is answered.
pub fn admit_batch(state: &AppState, job_id: String, requests: Vec<TranscribeRequest>) -> (r: (
    BatchJob,
    JobStatus,
))
    ensures
        r.0@ == queued_job(job_id@, state.bucket_name@, requests_view(requests@)),
        r.1@ == queued_status(r.0@),
{
    let job = BatchJob::new(job_id, state.bucket_name.clone(), requests);
    let status = job.queued_status();
    (job, status)
}

/// The batch endpoint, at its start: accepts the requests as one job under
/// a fresh identifier.
pub fn transcribe_batch(state: &AppState, requests: Vec<TranscribeRequest>) -> (r: (
    BatchJob,
    JobStatus,
))
    ensures
        r.0@ == queued_job(r.0.job_id@, state.bucket_name@, requests_view(requests@)),
        r.1@ == queued_status(r.0@),
        r.0.job_id@.len() == 36,
{
    admit_batch(state, fresh_job_id(), requests)
}

/// The batch endpoint, at its end.  `stored` tells whether the job's
/// record could be written.  If so the caller learns the job's identifier
/// and the number of its recordings; if not, the job is refused.
pub fn batch_answer(job: &BatchJob, stored: bool) -> (r: Result<BatchResponse, HttpError>)
    ensures
        stored ==> r is Ok && r->Ok_0.job_id@ == job.job_id@ && r->Ok_0.status@ == "queued"@
            && r->Ok_0.count == job.requests@.len(),
        !stored ==> r is Err && r->Err_0@ == (HttpErrorView {
            status: INTERNAL_SERVER_ERROR,
            error: "Failed to queue job"@,
        }),
{
    if stored {
        Ok(
            BatchResponse {
                job_id: job.job_id.clone(),
                status: String::from_str("queued"),
                count: job.requests.len(),
            },
        )
    } else {
        Err(failure(INTERNAL_SERVER_ERROR, String::from_str("Failed to queue job")))
    }
}

} // verus!
