use transcriber_rs::batch::Progress;
use transcriber_rs::config::Config;
use transcriber_rs::handlers::{
    admit_batch, batch_answer, get_job_status, health, segment_responses, transcribe,
    transcribe_batch, transcribe_finish, transcribe_response, AppState, BatchResponse,
    ErrorResponse, HealthResponse, HttpError, SegmentResponse, TranscribeRequest,
    TranscribeResponse, INTERNAL_SERVER_ERROR, NOT_FOUND, SERVICE_UNAVAILABLE,
};
use transcriber_rs::pipeline::{ItemOutcome, ItemPipeline, PipelineStep, Reply, Request, Stage};
use transcriber_rs::queue::{JobStatus, Queue};
use transcriber_rs::storage::{Storage, StorageError};
use transcriber_rs::transcriber::{
    Seconds, Segment, TranscribeError, Transcriber, TranscriptionResult,
};

fn secs(value: f64) -> Seconds {
    Seconds { bits: value.to_bits() }
}

fn state(ready: bool) -> AppState {
    let config = Config::from_env(&vec![("MINIO_BUCKET".to_string(), "bucket".to_string())]);
    let mut transcriber = Transcriber::new();
    if ready {
        transcriber.load_model(Ok(())).unwrap();
    }
    AppState {
        transcriber,
        storage: Storage::new(&config),
        queue: Queue::new(&config.redis_url).unwrap(),
        bucket_name: config.minio_bucket.clone(),
    }
}

fn request(file_url: &str, recording_id: &str, callback_url: Option<&str>) -> TranscribeRequest {
    TranscribeRequest {
        file_url: file_url.to_string(),
        recording_id: recording_id.to_string(),
        callback_url: callback_url.map(|u| u.to_string()),
    }
}

fn error(status: u16, message: &str) -> HttpError {
    HttpError { status, body: ErrorResponse { error: message.to_string() } }
}

fn result() -> TranscriptionResult {
    TranscriptionResult {
        text: "hello world".to_string(),
        segments: vec![
            Segment { start: secs(0.0), end: secs(0.5), text: "hello".to_string() },
            Segment { start: secs(0.5), end: secs(1.5), text: "world".to_string() },
        ],
        duration: secs(1.5),
    }
}

fn response(recording_id: &str) -> TranscribeResponse {
    TranscribeResponse {
        recording_id: recording_id.to_string(),
        text: "hello world".to_string(),
        segments: vec![
            SegmentResponse { start: secs(0.0), end: secs(0.5), text: "hello".to_string() },
            SegmentResponse { start: secs(0.5), end: secs(1.5), text: "world".to_string() },
        ],
        duration: secs(1.5),
    }
}

#[test]
fn status_codes() {
    assert_eq!(NOT_FOUND, 404);
    assert_eq!(INTERNAL_SERVER_ERROR, 500);
    assert_eq!(SERVICE_UNAVAILABLE, 503);
}

#[test]
fn health_reports_readiness() {
    assert_eq!(health(&state(false)), HealthResponse { status: "healthy".to_string(), model_loaded: false });
    assert_eq!(health(&state(true)), HealthResponse { status: "healthy".to_string(), model_loaded: true });
}

#[test]
fn transcribe_is_refused_while_the_engine_is_not_ready() {
    let answer = transcribe(&state(false), &request("bucket/foo.ogg", "rec-1", None));
    assert_eq!(answer, Err(error(503, "Transcriber not ready")));
}

#[test]
fn transcribe_starts_the_path_of_the_recording() {
    let pipeline = transcribe(&state(true), &request("bucket/foo.ogg", "rec-1", None)).unwrap();
    assert_eq!(pipeline, ItemPipeline { object_key: "foo.ogg".to_string(), stage: Stage::TempFile });
    let pipeline = transcribe(&state(true), &request("other/foo.ogg", "rec-1", None)).unwrap();
    assert_eq!(pipeline.object_key, "other/foo.ogg");
}

#[test]
fn transcribe_end_to_end() {
    let state = state(true);
    let request = request("bucket/a/b.ogg", "rec-9", Some("http://cb"));
    let mut pipeline = transcribe(&state, &request).unwrap();
    assert_eq!(
        pipeline.step(Reply::TempFile("/tmp/.tmp1".to_string())),
        PipelineStep::Ask(Request::Download {
            object_key: "a/b.ogg".to_string(),
            local_path: "/tmp/.tmp1".to_string(),
        })
    );
    assert_eq!(
        pipeline.step(Reply::Downloaded),
        PipelineStep::Ask(Request::Transcribe { audio_path: "/tmp/.tmp1".to_string() })
    );
    let outcome = match pipeline.step(Reply::Transcribed(result())) {
        PipelineStep::Done { outcome, remove } => {
            assert_eq!(remove, Some("/tmp/.tmp1".to_string()));
            outcome
        }
        other => panic!("unexpected step {:?}", other),
    };
    assert_eq!(transcribe_finish(request.recording_id.clone(), outcome), Ok(response("rec-9")));
}

#[test]
fn transcribe_answers_for_each_outcome() {
    assert_eq!(
        transcribe_finish("r".to_string(), ItemOutcome::TempFileFailed("no space".to_string())),
        Err(error(500, "Internal error"))
    );
    assert_eq!(
        transcribe_finish("r".to_string(), ItemOutcome::DownloadFailed(StorageError::NotFound)),
        Err(error(404, "Audio file not found: Failed to get object from MinIO"))
    );
    assert_eq!(
        transcribe_finish("r".to_string(), ItemOutcome::DownloadFailed(StorageError::Fetch)),
        Err(error(500, "Audio download failed: Failed to get object from MinIO"))
    );
    assert_eq!(
        transcribe_finish("r".to_string(), ItemOutcome::DownloadFailed(StorageError::CreateFile)),
        Err(error(500, "Audio download failed: Failed to create local file"))
    );
    assert_eq!(
        transcribe_finish("r".to_string(), ItemOutcome::DownloadFailed(StorageError::WriteFile)),
        Err(error(500, "Audio download failed: Failed to write file"))
    );
    assert_eq!(
        transcribe_finish(
            "r".to_string(),
            ItemOutcome::DownloadFailed(StorageError::Flush("disk full".to_string()))
        ),
        Err(error(500, "Audio download failed: disk full"))
    );
    assert_eq!(
        transcribe_finish("r".to_string(), ItemOutcome::TranscriptionFailed(TranscribeError::Inference)),
        Err(error(500, "Transcription failed: Transcription failed"))
    );
    assert_eq!(
        transcribe_finish(
            "r".to_string(),
            ItemOutcome::TranscriptionFailed(TranscribeError::Conversion("bad".to_string()))
        ),
        Err(error(500, "Transcription failed: ffmpeg conversion failed: bad"))
    );
    assert_eq!(transcribe_finish("r".to_string(), ItemOutcome::Transcribed(result())), Ok(response("r")));
}

#[test]
fn transcribe_answers_not_found_for_a_missing_object_only() {
    let state = state(true);
    let request = request("bucket/a.ogg", "rec", None);
    for (failure, status) in [
        (StorageError::NotFound, 404),
        (StorageError::Fetch, 500),
        (StorageError::CreateFile, 500),
        (StorageError::WriteFile, 500),
        (StorageError::Flush("e".to_string()), 500),
    ] {
        let mut pipeline = transcribe(&state, &request).unwrap();
        pipeline.step(Reply::TempFile("/tmp/f".to_string()));
        let outcome = match pipeline.step(Reply::DownloadFailed(failure.clone())) {
            PipelineStep::Done { outcome, remove } => {
                assert_eq!(remove, Some("/tmp/f".to_string()));
                outcome
            }
            other => panic!("unexpected step {:?}", other),
        };
        match transcribe_finish("rec".to_string(), outcome) {
            Err(e) => assert_eq!(e.status, status, "{:?}", failure),
            Ok(response) => panic!("{:?} gave {:?}", failure, response),
        }
    }
}

#[test]
fn responses_carry_the_result_unchanged() {
    assert_eq!(transcribe_response("rec".to_string(), result()), response("rec"));
    assert_eq!(segment_responses(result().segments), response("x").segments);
    assert_eq!(segment_responses(Vec::new()), Vec::<SegmentResponse>::new());
    let silent = TranscriptionResult { text: String::new(), segments: Vec::new(), duration: secs(2.0) };
    assert_eq!(
        transcribe_response("rec".to_string(), silent),
        TranscribeResponse {
            recording_id: "rec".to_string(),
            text: String::new(),
            segments: Vec::new(),
            duration: secs(2.0),
        }
    );
}

#[test]
fn job_status_of_an_unknown_job_is_not_found() {
    assert_eq!(get_job_status(&state(true), Some(Vec::new())), Err(error(404, "Job not found")));
}

#[test]
fn job_status_when_the_store_fails() {
    assert_eq!(get_job_status(&state(true), None), Err(error(500, "Failed to get job status")));
}

#[test]
fn job_status_of_a_stored_job() {
    let fields = vec![
        ("status".to_string(), "processing".to_string()),
        ("current".to_string(), "2".to_string()),
        ("total".to_string(), "4".to_string()),
    ];
    assert_eq!(
        get_job_status(&state(true), Some(fields)),
        Ok(JobStatus { status: "processing".to_string(), current: Some(2), total: Some(4) })
    );
}

#[test]
fn a_batch_is_admitted_as_a_queued_job() {
    let requests = vec![request("a", "r1", None), request("b", "r2", Some("http://cb"))];
    let (job, status) = admit_batch(&state(true), "job-1".to_string(), requests.clone());
    assert_eq!(job.job_id, "job-1");
    assert_eq!(job.bucket_name, "bucket");
    assert_eq!(job.requests, requests);
    assert_eq!(job.progress, Progress::Queued);
    assert_eq!(status, JobStatus { status: "queued".to_string(), current: Some(0), total: Some(2) });
    assert!(!job.is_finished());
}

#[test]
fn a_batch_gets_a_fresh_identifier() {
    let state = state(true);
    let (first, status) = transcribe_batch(&state, vec![request("a", "r1", None)]);
    let (second, _) = transcribe_batch(&state, Vec::new());
    assert_eq!(first.job_id.chars().count(), 36);
    assert_eq!(second.job_id.chars().count(), 36);
    assert_ne!(first.job_id, second.job_id);
    assert_eq!(first.job_id.matches('-').count(), 4);
    assert!(first.job_id.chars().all(|c| c == '-' || c.is_ascii_hexdigit()));
    assert_eq!(status, JobStatus { status: "queued".to_string(), current: Some(0), total: Some(1) });
    assert_eq!(first.progress, Progress::Queued);
    assert_eq!(first.requests, vec![request("a", "r1", None)]);
    assert_eq!(first.bucket_name, "bucket");
}

#[test]
fn a_batch_is_admitted_even_when_the_engine_is_not_ready() {
    let (job, status) = transcribe_batch(&state(false), vec![request("a", "r1", None)]);
    assert_eq!(job.requests.len(), 1);
    assert_eq!(status.status, "queued");
}

#[test]
fn batch_answers() {
    let (job, _) = admit_batch(
        &state(true),
        "job-7".to_string(),
        vec![request("a", "r1", None), request("b", "r2", None), request("c", "r3", None)],
    );
    assert_eq!(
        batch_answer(&job, true),
        Ok(BatchResponse { job_id: "job-7".to_string(), status: "queued".to_string(), count: 3 })
    );
    assert_eq!(batch_answer(&job, false), Err(error(500, "Failed to queue job")));
}
