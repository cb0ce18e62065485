//! The path of one recording from blob storage to its transcription:
//! a local file is made, the object is downloaded into it, and the file is
//! transcribed.  The first failure ends the path.

use crate::storage::{object_key, resolve_key, StorageError, StorageErrorView};
use crate::transcriber::{
    TranscribeError, TranscribeErrorView, TranscriptionResult, TranscriptionResultView,
};
use crate::text::text_view;
use vstd::prelude::*;

verus! {

/// What the path of a recording needs from the outside world next.
#[derive(Debug, Clone, PartialEq, Eq)]
pub enum Request {
    /// Make an empty local file and report its path.
    CreateTempFile,
    /// Fetch the object `object_key` into the file at `local_path`.
    Download { object_key: String, local_path: String },
    /// Transcribe the file at `audio_path`.
    Transcribe { audio_path: String },
}

/// A request by its characters.
pub enum RequestView {
    CreateTempFile,
    Download { object_key: Seq<char>, local_path: Seq<char> },
    Transcribe { audio_path: Seq<char> },
}

impl View for Request {
    type V = RequestView;

    open spec fn view(&self) -> RequestView {
        match self {
            Request::CreateTempFile => RequestView::CreateTempFile,
            Request::Download { object_key, local_path } => RequestView::Download {
                object_key: object_key@,
                local_path: local_path@,
            },
            Request::Transcribe { audio_path } => RequestView::Transcribe {
                audio_path: audio_path@,
            },
        }
    }
}

/// The outside world's answer to a [`Request`].
#[derive(Debug, Clone, PartialEq, Eq)]
pub enum Reply {
    /// The local file exists at this path.
    TempFile(String),
    /// No local file could be made; the system's report is kept.
    TempFileFailed(String),
    /// The object is in the local file.
    Downloaded,
    /// The download failed.
    DownloadFailed(StorageError),
    /// The file was transcribed.
    Transcribed(TranscriptionResult),
    /// The transcription failed.
    TranscriptionFailed(TranscribeError),
}

/// A reply by its characters.
pub enum ReplyView {
    TempFile(Seq<char>),
    TempFileFailed(Seq<char>),
    Downloaded,
    DownloadFailed(StorageErrorView),
    Transcribed(TranscriptionResultView),
    TranscriptionFailed(TranscribeErrorView),
}

impl View for Reply {
    type V = ReplyView;

    open spec fn view(&self) -> ReplyView {
        match self {
            Reply::TempFile(path) => ReplyView::TempFile(path@),
            Reply::TempFileFailed(report) => ReplyView::TempFileFailed(report@),
            Reply::Downloaded => ReplyView::Downloaded,
            Reply::DownloadFailed(e) => ReplyView::DownloadFailed(e@),
            Reply::Transcribed(result) => ReplyView::Transcribed(result@),
            Reply::TranscriptionFailed(e) => ReplyView::TranscriptionFailed(e@),
        }
    }
}

/// How the path of a recording ended.
#[derive(Debug, Clone, PartialEq, Eq)]
pub enum ItemOutcome {
    /// No local file could be made.
    TempFileFailed(String),
    /// The object could not be downloaded.
    DownloadFailed(StorageError),
    /// The audio could not be transcribed.
    TranscriptionFailed(TranscribeError),
    /// The recording was transcribed.
    Transcribed(TranscriptionResult),
}

/// An outcome by its characters.
pub enum ItemOutcomeView {
    TempFileFailed(Seq<char>),
    DownloadFailed(StorageErrorView),
    TranscriptionFailed(TranscribeErrorView),
    Transcribed(TranscriptionResultView),
}

impl View for ItemOutcome {
    type V = ItemOutcomeView;

    open spec fn view(&self) -> ItemOutcomeView {
        match self {
            ItemOutcome::TempFileFailed(report) => ItemOutcomeView::TempFileFailed(report@),
            ItemOutcome::DownloadFailed(e) => ItemOutcomeView::DownloadFailed(e@),
            ItemOutcome::TranscriptionFailed(e) => ItemOutcomeView::TranscriptionFailed(e@),
            ItemOutcome::Transcribed(result) => ItemOutcomeView::Transcribed(result@),
        }
    }
}

/// What the path of a recording is waiting for.
#[derive(Debug, Clone, PartialEq, Eq)]
pub enum Stage {
    /// The local file.
    TempFile,
    /// The download into `local_path`.
    Download { local_path: String },
    /// The transcription of the file at `local_path`.
    Transcription { local_path: String },
    /// Nothing: the outcome has been handed out.
    Finished,
}

/// A stage by its characters.
pub enum StageView {
    TempFile,
    Download { local_path: Seq<char> },
    Transcription { local_path: Seq<char> },
    Finished,
}

impl View for Stage {
    type V = StageView;

    open spec fn view(&self) -> StageView {
        match self {
            Stage::TempFile => StageView::TempFile,
            Stage::Download { local_path } => StageView::Download { local_path: local_path@ },
            Stage::Transcription { local_path } => StageView::Transcription {
                local_path: local_path@,
            },
            Stage::Finished => StageView::Finished,
        }
    }
}

/// The path of one recording, somewhere between its start and its outcome.
#[derive(Debug, Clone, PartialEq, Eq)]
pub struct ItemPipeline {
    pub object_key: String,
    pub stage: Stage,
}

/// A path by its characters.
pub struct ItemPipelineView {
    pub object_key: Seq<char>,
    pub stage: StageView,
}

impl View for ItemPipeline {
    type V = ItemPipelineView;

    open spec fn view(&self) -> ItemPipelineView {
        ItemPipelineView { object_key: self.object_key@, stage: self.stage@ }
    }
}

/// What the path does in answer to a reply.
#[derive(Debug, Clone, PartialEq, Eq)]
pub enum PipelineStep {
    /// It needs this next.
    Ask(Request),
    /// It is over, with this outcome.  The file named by `remove`, if any,
    /// is the recording's local file and must be deleted now.
    Done { outcome: ItemOutcome, remove: Option<String> },
    /// The reply does not answer what was asked; nothing changed.
    Rejected,
}

/// A step by its characters.
pub enum PipelineStepView {
    Ask(RequestView),
    Done { outcome: ItemOutcomeView, remove: Option<Seq<char>> },
    Rejected,
}

impl View for PipelineStep {
    type V = PipelineStepView;

    open spec fn view(&self) -> PipelineStepView {
        match self {
            PipelineStep::Ask(request) => PipelineStepView::Ask(request@),
            PipelineStep::Done { outcome, remove } => PipelineStepView::Done {
                outcome: outcome@,
                remove: text_view(*remove),
            },
            PipelineStep::Rejected => PipelineStepView::Rejected,
        }
    }
}

/// The path of the recording at `file_url` at its start: the object key is
/// resolved against the bucket's name, and a local file is awaited.
pub open spec fn pipeline_begin(file_url: Seq<char>, bucket_name: Seq<char>) -> ItemPipelineView {
    ItemPipelineView { object_key: object_key(file_url, bucket_name), stage: StageView::TempFile }
}

/// The local file that a path holds at a stage: the one it was given,
/// from the download on.
pub open spec fn held_file(stage: StageView) -> Option<Seq<char>> {
    match stage {
        StageView::Download { local_path } => Some(local_path),
        StageView::Transcription { local_path } => Some(local_path),
        _ => None,
    }
}

/// The end of a path: nothing is awaited any more, the outcome is handed
/// out, and the local file, if the path holds one, is named for removal.
pub open spec fn pipeline_end(p: ItemPipelineView, outcome: ItemOutcomeView) -> (
    ItemPipelineView,
    PipelineStepView,
) {
    (
        ItemPipelineView { object_key: p.object_key, stage: StageView::Finished },
        PipelineStepView::Done { outcome, remove: held_file(p.stage) },
    )
}

/// How the path `p` goes on when `reply` arrives: the state it enters and
/// the step it takes.  Each stage is followed by the next one on success and
/// by the end of the path on failure.
pub open spec fn pipeline_advance(p: ItemPipelineView, reply: ReplyView) -> (
    ItemPipelineView,
    PipelineStepView,
) {
    match p.stage {
        StageView::TempFile => match reply {
            ReplyView::TempFile(local_path) => (
                ItemPipelineView {
                    object_key: p.object_key,
                    stage: StageView::Download { local_path },
                },
                PipelineStepView::Ask(
                    RequestView::Download { object_key: p.object_key, local_path },
                ),
            ),
            ReplyView::TempFileFailed(report) => pipeline_end(
                p,
                ItemOutcomeView::TempFileFailed(report),
            ),
            _ => (p, PipelineStepView::Rejected),
        },
        StageView::Download { local_path } => match reply {
            ReplyView::Downloaded => (
                ItemPipelineView {
                    object_key: p.object_key,
                    stage: StageView::Transcription { local_path },
                },
                PipelineStepView::Ask(RequestView::Transcribe { audio_path: local_path }),
            ),
            ReplyView::DownloadFailed(e) => pipeline_end(p, ItemOutcomeView::DownloadFailed(e)),
            _ => (p, PipelineStepView::Rejected),
        },
        StageView::Transcription { .. } => match reply {
            ReplyView::Transcribed(result) => pipeline_end(
                p,
                ItemOutcomeView::Transcribed(result),
            ),
            ReplyView::TranscriptionFailed(e) => pipeline_end(
                p,
                ItemOutcomeView::TranscriptionFailed(e),
            ),
            _ => (p, PipelineStepView::Rejected),
        },
        StageView::Finished => (p, PipelineStepView::Rejected),
    }
}

impl ItemPipeline {
    /// Starts the path of the recording at `file_url`.  Its first request
    /// is always [`Request::CreateTempFile`].
    pub fn begin(file_url: &str, bucket_name: &str) -> (r: ItemPipeline)
        ensures
            r@ == pipeline_begin(file_url@, bucket_name@),
    {
        ItemPipeline {
            object_key: String::from_str(resolve_key(file_url, bucket_name)),
            stage: Stage::TempFile,
        }
    }

    /// Takes the answer to the last request and says what comes next.  A
    /// reply that does not answer what was asked is rejected and changes
    /// nothing.
    pub fn step(&mut self, reply: Reply) -> (r: PipelineStep)
        ensures
            (final(self)@, r@) == pipeline_advance(old(self)@, reply@),
    {
        let mut stage = Stage::Finished;
        core::mem::swap(&mut self.stage, &mut stage);
        match stage {
            Stage::TempFile => match reply {
                Reply::TempFile(local_path) => {
                    let request = Request::Download {
                        object_key: self.object_key.clone(),
                        local_path: local_path.clone(),
                    };
                    self.stage = Stage::Download { local_path };
                    PipelineStep::Ask(request)
                },
                Reply::TempFileFailed(report) => PipelineStep::Done {
                    outcome: ItemOutcome::TempFileFailed(report),
                    remove: None,
                },
                _ => {
                    self.stage = Stage::TempFile;
                    PipelineStep::Rejected
                },
            },
            Stage::Download { local_path } => match reply {
                Reply::Downloaded => {
                    let audio_path = local_path.clone();
                    self.stage = Stage::Transcription { local_path };
                    PipelineStep::Ask(Request::Transcribe { audio_path })
                },
                Reply::DownloadFailed(e) => PipelineStep::Done {
                    outcome: ItemOutcome::DownloadFailed(e),
                    remove: Some(local_path),
                },
                _ => {
                    self.stage = Stage::Download { local_path };
                    PipelineStep::Rejected
                },
            },
            Stage::Transcription { local_path } => match reply {
                Reply::Transcribed(result) => PipelineStep::Done {
                    outcome: ItemOutcome::Transcribed(result),
                    remove: Some(local_path),
                },
                Reply::TranscriptionFailed(e) => PipelineStep::Done {
                    outcome: ItemOutcome::TranscriptionFailed(e),
                    remove: Some(local_path),
                },
                _ => {
                    self.stage = Stage::Transcription { local_path };
                    PipelineStep::Rejected
                },
            },
            Stage::Finished => PipelineStep::Rejected,
        }
    }
}

/// A path that holds a local file names it for removal when it ends,
/// however it ends, and holds on to it until then.  A path that holds none
/// names none.
pub proof fn lemma_local_file_is_removed(p: ItemPipelineView, reply: ReplyView)
    ensures
        match pipeline_advance(p, reply).1 {
            PipelineStepView::Done { remove, .. } => remove == held_file(p.stage) && held_file(
                pipeline_advance(p, reply).0.stage,
            ) is None,
            _ => held_file(p.stage) is Some ==> held_file(pipeline_advance(p, reply).0.stage)
                == held_file(p.stage),
        },
{
}

} // verus!
