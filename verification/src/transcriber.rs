//! The engine guard: readiness of the inference engine and the steps of one
//! transcription, from the check of the audio format to the timed result.
//!
//! The guard never touches the engine, the converter or a file itself.  A
//! transcription is a [`Transcription`] that names, step by step, what it
//! needs next ([`EngineRequest`]) and takes the answer ([`EngineReply`]).

use crate::text::{join, text_view};
use vstd::prelude::*;

verus! {

/// A time in seconds, carried as the bit pattern of an IEEE 754 double.
/// The library moves such values around and never computes with them.
#[derive(Clone, Copy, Debug, PartialEq, Eq, Structural)]
pub struct Seconds {
    pub bits: u64,
}

impl Seconds {
    /// Zero seconds.
    pub fn zero() -> (r: Seconds)
        ensures
            r == Seconds::spec_zero(),
    {
        Seconds { bits: 0 }
    }

    /// Zero seconds: the double whose bits are all clear.
    pub open spec fn spec_zero() -> Seconds {
        Seconds { bits: 0 }
    }
}

/// One unit of engine output with its time span.
#[derive(Debug, Clone, PartialEq, Eq)]
pub struct Token {
    pub start: Seconds,
    pub end: Seconds,
    pub text: String,
}

/// A stretch of transcribed speech.
#[derive(Debug, Clone, PartialEq, Eq)]
pub struct Segment {
    pub start: Seconds,
    pub end: Seconds,
    pub text: String,
}

/// A token or a segment by its characters.
pub struct SegmentView {
    pub start: Seconds,
    pub end: Seconds,
    pub text: Seq<char>,
}

impl View for Token {
    type V = SegmentView;

    open spec fn view(&self) -> SegmentView {
        SegmentView { start: self.start, end: self.end, text: self.text@ }
    }
}

impl View for Segment {
    type V = SegmentView;

    open spec fn view(&self) -> SegmentView {
        SegmentView { start: self.start, end: self.end, text: self.text@ }
    }
}

/// The views of a run of tokens, in order.
pub open spec fn tokens_view(tokens: Seq<Token>) -> Seq<SegmentView> {
    Seq::new(tokens.len(), |i: int| tokens[i]@)
}

/// The views of a run of segments, in order.
pub open spec fn segments_view(segments: Seq<Segment>) -> Seq<SegmentView> {
    Seq::new(segments.len(), |i: int| segments[i]@)
}

/// The text of a recording with its timed segments.
#[derive(Debug, Clone, PartialEq, Eq)]
pub struct TranscriptionResult {
    pub text: String,
    pub segments: Vec<Segment>,
    pub duration: Seconds,
}

/// A transcription result by its characters.
pub struct TranscriptionResultView {
    pub text: Seq<char>,
    pub segments: Seq<SegmentView>,
    pub duration: Seconds,
}

impl View for TranscriptionResult {
    type V = TranscriptionResultView;

    open spec fn view(&self) -> TranscriptionResultView {
        TranscriptionResultView {
            text: self.text@,
            segments: segments_view(self.segments@),
            duration: self.duration,
        }
    }
}

/// Why a transcription, or the loading of the engine, did not succeed.
#[derive(Debug, Clone, PartialEq, Eq)]
pub enum TranscribeError {
    /// The engine has not been loaded.
    NotLoaded,
    /// The engine could not be loaded from its model directory.
    LoadFailed,
    /// No file could be made for the converted audio.
    TempFile,
    /// The converter could not be started.
    ConverterNotRun,
    /// The converter ran and reported failure; its error output is kept.
    Conversion(String),
    /// The engine handle was missing although the guard was ready.
    NotInitialized,
    /// The engine failed on the audio.
    Inference,
    /// The worker that ran the blocking step died; its report is kept.
    Worker(String),
}

/// A failure by its characters.
pub enum TranscribeErrorView {
    NotLoaded,
    LoadFailed,
    TempFile,
    ConverterNotRun,
    Conversion(Seq<char>),
    NotInitialized,
    Inference,
    Worker(Seq<char>),
}

impl View for TranscribeError {
    type V = TranscribeErrorView;

    open spec fn view(&self) -> TranscribeErrorView {
        match self {
            TranscribeError::NotLoaded => TranscribeErrorView::NotLoaded,
            TranscribeError::LoadFailed => TranscribeErrorView::LoadFailed,
            TranscribeError::TempFile => TranscribeErrorView::TempFile,
            TranscribeError::ConverterNotRun => TranscribeErrorView::ConverterNotRun,
            TranscribeError::Conversion(stderr) => TranscribeErrorView::Conversion(stderr@),
            TranscribeError::NotInitialized => TranscribeErrorView::NotInitialized,
            TranscribeError::Inference => TranscribeErrorView::Inference,
            TranscribeError::Worker(report) => TranscribeErrorView::Worker(report@),
        }
    }
}

/// The message that a failure shows to callers.
pub open spec fn error_message(e: TranscribeErrorView) -> Seq<char> {
    match e {
        TranscribeErrorView::NotLoaded => "Model not loaded"@,
        TranscribeErrorView::LoadFailed => "Failed to load Parakeet TDT model"@,
        TranscribeErrorView::TempFile => "Failed to create temp WAV file"@,
        TranscribeErrorView::ConverterNotRun => "Failed to run ffmpeg"@,
        TranscribeErrorView::Conversion(stderr) => "ffmpeg conversion failed: "@ + stderr,
        TranscribeErrorView::NotInitialized => "Model not initialized"@,
        TranscribeErrorView::Inference => "Transcription failed"@,
        TranscribeErrorView::Worker(report) => report,
    }
}

impl TranscribeError {
    /// The message that this failure shows to callers.
    pub fn message(&self) -> (r: String)
        ensures
            r@ == error_message(self@),
    {
        match self {
            TranscribeError::NotLoaded => String::from_str("Model not loaded"),
            TranscribeError::LoadFailed => String::from_str("Failed to load Parakeet TDT model"),
            TranscribeError::TempFile => String::from_str("Failed to create temp WAV file"),
            TranscribeError::ConverterNotRun => String::from_str("Failed to run ffmpeg"),
            TranscribeError::Conversion(stderr) => join(
                "ffmpeg conversion failed: ",
                stderr.as_str(),
            ),
            TranscribeError::NotInitialized => String::from_str("Model not initialized"),
            TranscribeError::Inference => String::from_str("Transcription failed"),
            TranscribeError::Worker(report) => report.clone(),
        }
    }
}

/// `path` without what does not count at its end: separators, and a `.`
/// that follows a separator and so stands for the directory itself.  What
/// is left ends in the last component that names something.
pub open spec fn trimmed(path: Seq<char>) -> Seq<char>
    decreases path.len(),
{
    if path.len() > 0 && path.last() == '/' {
        trimmed(path.drop_last())
    } else if path.len() >= 2 && path.last() == '.' && path[path.len() - 2] == '/' {
        trimmed(path.drop_last())
    } else {
        path
    }
}

/// Whether the last component of `path` is `..`, the parent directory.
pub open spec fn ends_in_parent(path: Seq<char>) -> bool {
    &&& path.len() >= 2
    &&& path[path.len() - 1] == '.'
    &&& path[path.len() - 2] == '.'
    &&& (path.len() == 2 || path[path.len() - 3] == '/')
}

/// Whether `dot` is the place of the dot that starts the extension of the
/// last component of `path`: the last dot of that component (the text after
/// the last `/`), unless the component begins with it.
pub open spec fn extension_dot(path: Seq<char>, dot: int) -> bool {
    &&& 0 < dot < path.len()
    &&& path[dot] == '.'
    &&& path[dot - 1] != '/'
    &&& forall|j: int| dot < j < path.len() ==> path[j] != '.' && path[j] != '/'
}

/// The declared extension of `path`, without its dot: that of the file
/// name, which is the last component of the path once separators and `/.`
/// at its end are passed over.  There is none where the path has no such
/// component or the component is `..`, where the file name holds no dot,
/// and where its only dot is its first character; otherwise it is the text
/// after the file name's last dot.
pub open spec fn extension(path: Seq<char>) -> Option<Seq<char>> {
    let name = trimmed(path);
    if ends_in_parent(name) {
        None
    } else if exists|dot: int| extension_dot(name, dot) {
        let dot = choose|dot: int| extension_dot(name, dot);
        Some(name.subrange(dot + 1, name.len() as int))
    } else {
        None
    }
}

/// Whether an extension names the canonical audio format, in any letter case.
pub open spec fn is_canonical_extension(ext: Seq<char>) -> bool {
    &&& ext.len() == 3
    &&& (ext[0] == 'w' || ext[0] == 'W')
    &&& (ext[1] == 'a' || ext[1] == 'A')
    &&& (ext[2] == 'v' || ext[2] == 'V')
}

/// Whether the file at `path` declares the canonical audio format.
pub open spec fn is_canonical_audio(path: Seq<char>) -> bool {
    match extension(path) {
        Some(ext) => is_canonical_extension(ext),
        None => false,
    }
}

/// Two dots cannot both start the extension of one path.
pub proof fn lemma_extension_dot_unique(path: Seq<char>, a: int, b: int)
    requires
        extension_dot(path, a),
        extension_dot(path, b),
    ensures
        a == b,
{
    if a < b {
        assert(path[b] != '.');
    } else if b < a {
        assert(path[a] != '.');
    }
}

/// A separator at the end of a path, and `/.` at its end, change nothing
/// about its extension.
pub proof fn lemma_extension_passes_over_endings(path: Seq<char>)
    ensures
        extension(path.push('/')) == extension(path),
        extension(path.push('/').push('.')) == extension(path),
{
    let slash = path.push('/');
    let dot = slash.push('.');
    assert(slash.drop_last() =~= path);
    assert(dot.drop_last() =~= slash);
    assert(trimmed(slash) == trimmed(path));
    assert(trimmed(dot) == trimmed(slash));
}

/// Finds the declared extension of `path`.
pub fn extension_of<'a>(path: &'a str) -> (r: Option<&'a str>)
    ensures
        match extension(path@) {
            Some(ext) => r is Some && r->0@ == ext,
            None => r is None,
        },
{
    let len = path.unicode_len();
    let mut end: usize = len;
    let mut settled = false;
    assert(path@.subrange(0, len as int) =~= path@);
    while !settled && end > 0
        invariant
            0 <= end <= len,
            len == path@.len(),
            trimmed(path@) == trimmed(path@.subrange(0, end as int)),
            settled ==> trimmed(path@.subrange(0, end as int)) == path@.subrange(0, end as int),
        decreases end + if settled { 0int } else { 1int },
    {
        let c = path.get_char(end - 1);
        let passed_over = if c == '/' {
            true
        } else if c == '.' && end >= 2 {
            path.get_char(end - 2) == '/'
        } else {
            false
        };
        if passed_over {
            assert(path@.subrange(0, end as int).drop_last() =~= path@.subrange(0, end - 1));
            end = end - 1;
        } else {
            settled = true;
        }
    }
    let ghost name = path@.subrange(0, end as int);
    assert(trimmed(path@) == name);
    if end >= 2 && path.get_char(end - 1) == '.' && path.get_char(end - 2) == '.' && (end == 2
        || path.get_char(end - 3) == '/') {
        return None;
    }
    assert(!ends_in_parent(name));
    let mut i: usize = end;
    while i > 0
        invariant
            0 <= i <= end <= len,
            len == path@.len(),
            name == path@.subrange(0, end as int),
            name == trimmed(path@),
            !ends_in_parent(name),
            forall|j: int| i <= j < end ==> name[j] != '.' && name[j] != '/',
        decreases i,
    {
        let c = path.get_char(i - 1);
        if c == '/' {
            assert forall|dot: int| !extension_dot(name, dot) by {
                if extension_dot(name, dot) {
                    if dot < i - 1 {
                        assert(name[i - 1] != '/');
                    }
                }
            }
            return None;
        }
        if c == '.' {
            let leading = if i - 1 == 0 {
                true
            } else {
                path.get_char(i - 2) == '/'
            };
            if leading {
                assert forall|dot: int| !extension_dot(name, dot) by {
                    if extension_dot(name, dot) {
                        if dot < i - 1 {
                            assert(name[i - 1] != '.');
                        }
                    }
                }
                return None;
            }
            let ext = path.substring_char(i, end);
            proof {
                assert(extension_dot(name, i - 1));
                let dot = choose|dot: int| extension_dot(name, dot);
                lemma_extension_dot_unique(name, dot, i - 1);
                assert(ext@ =~= name.subrange(i as int, name.len() as int));
            }
            return Some(ext);
        }
        i = i - 1;
    }
    assert forall|dot: int| !extension_dot(name, dot) by {}
    None
}

/// Decides whether the file at `path` already declares the canonical audio
/// format, so that no conversion is needed.
pub fn declares_canonical_audio(path: &str) -> (r: bool)
    ensures
        r == is_canonical_audio(path@),
{
    match extension_of(path) {
        None => false,
        Some(ext) => {
            if ext.unicode_len() != 3 {
                false
            } else {
                let c0 = ext.get_char(0);
                let c1 = ext.get_char(1);
                let c2 = ext.get_char(2);
                (c0 == 'w' || c0 == 'W') && (c1 == 'a' || c1 == 'A') && (c2 == 'v' || c2 == 'V')
            }
        },
    }
}

/// The texts of a list by their characters, in order.
pub open spec fn strings_view(items: Seq<String>) -> Seq<Seq<char>> {
    Seq::new(items.len(), |i: int| items[i]@)
}

/// What a transcription needs from the outside world next.
#[derive(Debug, Clone, PartialEq, Eq)]
pub enum EngineRequest {
    /// Make an empty file for the converted audio and report its path.
    CreateTempWav,
    /// Run the converter `program` with `args` and report how it exited.
    Convert { program: String, args: Vec<String> },
    /// Run the engine, under exclusive access, on the file at `audio_path`.
    Infer { audio_path: String },
    /// Measure the length of the canonical audio file at `audio_path`.
    ProbeDuration { audio_path: String },
}

/// A request by its characters.
pub enum EngineRequestView {
    CreateTempWav,
    Convert { program: Seq<char>, args: Seq<Seq<char>> },
    Infer { audio_path: Seq<char> },
    ProbeDuration { audio_path: Seq<char> },
}

impl View for EngineRequest {
    type V = EngineRequestView;

    open spec fn view(&self) -> EngineRequestView {
        match self {
            EngineRequest::CreateTempWav => EngineRequestView::CreateTempWav,
            EngineRequest::Convert { program, args } => EngineRequestView::Convert {
                program: program@,
                args: strings_view(args@),
            },
            EngineRequest::Infer { audio_path } => EngineRequestView::Infer {
                audio_path: audio_path@,
            },
            EngineRequest::ProbeDuration { audio_path } => EngineRequestView::ProbeDuration {
                audio_path: audio_path@,
            },
        }
    }
}

/// The outside world's answer to an [`EngineRequest`].
#[derive(Debug, Clone, PartialEq, Eq)]
pub enum EngineReply {
    /// The file for the converted audio exists at this path.
    TempWav(String),
    /// The converter ran; `success` tells whether it exited with status zero.
    Converted { success: bool, stderr: String },
    /// The engine produced a text and its timed tokens.
    Inferred { text: String, tokens: Vec<Token> },
    /// The audio file was measured.
    Duration(Seconds),
    /// The request could not be carried out.
    Failed,
    /// The engine handle was missing.
    NoEngine,
    /// The worker that ran the request died, with this report.
    Aborted(String),
}

/// A reply by its characters.
pub enum EngineReplyView {
    TempWav(Seq<char>),
    Converted { success: bool, stderr: Seq<char> },
    Inferred { text: Seq<char>, tokens: Seq<SegmentView> },
    Duration(Seconds),
    Failed,
    NoEngine,
    Aborted(Seq<char>),
}

impl View for EngineReply {
    type V = EngineReplyView;

    open spec fn view(&self) -> EngineReplyView {
        match self {
            EngineReply::TempWav(path) => EngineReplyView::TempWav(path@),
            EngineReply::Converted { success, stderr } => EngineReplyView::Converted {
                success: *success,
                stderr: stderr@,
            },
            EngineReply::Inferred { text, tokens } => EngineReplyView::Inferred {
                text: text@,
                tokens: tokens_view(tokens@),
            },
            EngineReply::Duration(d) => EngineReplyView::Duration(*d),
            EngineReply::Failed => EngineReplyView::Failed,
            EngineReply::NoEngine => EngineReplyView::NoEngine,
            EngineReply::Aborted(report) => EngineReplyView::Aborted(report@),
        }
    }
}

/// What a transcription is waiting for.
#[derive(Debug, Clone, PartialEq, Eq)]
pub enum Phase {
    /// The file for the converted copy of `source`.
    TempWav { source: String },
    /// The converter, which writes to `wav`.
    Conversion { wav: String },
    /// The engine, which reads `audio`.
    Inference { audio: String },
    /// The measured length of `audio`; the engine gave `text` and no token.
    Duration { text: String },
    /// Nothing: the outcome has been handed out.
    Finished,
}

/// A phase by its characters.
pub enum PhaseView {
    TempWav { source: Seq<char> },
    Conversion { wav: Seq<char> },
    Inference { audio: Seq<char> },
    Duration { text: Seq<char> },
    Finished,
}

impl View for Phase {
    type V = PhaseView;

    open spec fn view(&self) -> PhaseView {
        match self {
            Phase::TempWav { source } => PhaseView::TempWav { source: source@ },
            Phase::Conversion { wav } => PhaseView::Conversion { wav: wav@ },
            Phase::Inference { audio } => PhaseView::Inference { audio: audio@ },
            Phase::Duration { text } => PhaseView::Duration { text: text@ },
            Phase::Finished => PhaseView::Finished,
        }
    }
}

/// What a transcription does in answer to a reply.
#[derive(Debug, PartialEq, Eq)]
pub enum EngineStep {
    /// It needs this next.
    Ask(EngineRequest),
    /// It is over, with this outcome.  The file named by `remove`, if any,
    /// is the converted copy of the audio and must be deleted now.
    Done { outcome: Result<TranscriptionResult, TranscribeError>, remove: Option<String> },
    /// The reply does not answer what was asked; nothing changed.
    Rejected,
}

/// A step by its characters.
pub enum EngineStepView {
    Ask(EngineRequestView),
    Done { outcome: Result<TranscriptionResultView, TranscribeErrorView>, remove: Option<Seq<char>> },
    Rejected,
}

impl View for EngineStep {
    type V = EngineStepView;

    open spec fn view(&self) -> EngineStepView {
        match self {
            EngineStep::Ask(request) => EngineStepView::Ask(request@),
            EngineStep::Done { outcome: Ok(result), remove } => EngineStepView::Done {
                outcome: Ok(result@),
                remove: text_view(*remove),
            },
            EngineStep::Done { outcome: Err(e), remove } => EngineStepView::Done {
                outcome: Err(e@),
                remove: text_view(*remove),
            },
            EngineStep::Rejected => EngineStepView::Rejected,
        }
    }
}

/// One transcription in progress: what it waits for, and the file that was
/// made for the converted audio, if one was.
#[derive(Debug, Clone, PartialEq, Eq)]
pub struct Transcription {
    pub phase: Phase,
    pub temp_wav: Option<String>,
}

/// A transcription by its characters.
pub struct TranscriptionView {
    pub phase: PhaseView,
    pub temp_wav: Option<Seq<char>>,
}

impl View for Transcription {
    type V = TranscriptionView;

    open spec fn view(&self) -> TranscriptionView {
        TranscriptionView { phase: self.phase@, temp_wav: text_view(self.temp_wav) }
    }
}

/// The converter's arguments: read `input`, resample to 16 kHz, mix down to
/// one channel, write the canonical format to `output`, overwriting it.
pub open spec fn converter_args(input: Seq<char>, output: Seq<char>) -> Seq<Seq<char>> {
    seq!["-i"@, input, "-ar"@, "16000"@, "-ac"@, "1"@, "-f"@, "wav"@, "-y"@, output]
}

/// The length of a recording: the end of its last segment, or `measured`
/// when the engine found no segment at all.
pub open spec fn duration_of(segments: Seq<SegmentView>, measured: Seconds) -> Seconds {
    if segments.len() > 0 {
        segments.last().end
    } else {
        measured
    }
}

/// The result that the engine's output amounts to.
pub open spec fn result_of(
    text: Seq<char>,
    tokens: Seq<SegmentView>,
    measured: Seconds,
) -> TranscriptionResultView {
    TranscriptionResultView { text, segments: tokens, duration: duration_of(tokens, measured) }
}

/// The end of a transcription: nothing is awaited any more, the outcome is
/// handed out, and the converted file, if one was made, is named for
/// removal.
pub open spec fn finish(
    session: TranscriptionView,
    outcome: Result<TranscriptionResultView, TranscribeErrorView>,
) -> (TranscriptionView, EngineStepView) {
    (
        TranscriptionView { phase: PhaseView::Finished, temp_wav: None },
        EngineStepView::Done { outcome, remove: session.temp_wav },
    )
}

/// A transcription that goes on: it enters `phase` and asks for `request`.
pub open spec fn go_on(
    session: TranscriptionView,
    phase: PhaseView,
    request: EngineRequestView,
) -> (TranscriptionView, EngineStepView) {
    (TranscriptionView { phase, temp_wav: session.temp_wav }, EngineStepView::Ask(request))
}

/// How a transcription of the file at `path` starts.  Without a loaded
/// engine it fails at once.  A file that declares the canonical format goes
/// straight to the engine; any other is converted first.
pub open spec fn begin(ready: bool, path: Seq<char>) -> (TranscriptionView, EngineStepView) {
    let fresh = TranscriptionView { phase: PhaseView::Finished, temp_wav: None };
    if !ready {
        finish(fresh, Err(TranscribeErrorView::NotLoaded))
    } else if is_canonical_audio(path) {
        go_on(
            fresh,
            PhaseView::Inference { audio: path },
            EngineRequestView::Infer { audio_path: path },
        )
    } else {
        go_on(fresh, PhaseView::TempWav { source: path }, EngineRequestView::CreateTempWav)
    }
}

/// With a loaded engine, a file that declares the canonical format is
/// never converted: its transcription starts at the engine, on the file as
/// it is, and no file is made for a converted copy.  Any other file is
/// converted first.
pub proof fn lemma_canonical_audio_is_not_converted(path: Seq<char>)
    ensures
        is_canonical_audio(path) ==> begin(true, path).1 == EngineStepView::Ask(
            EngineRequestView::Infer { audio_path: path },
        ) && begin(true, path).0.temp_wav is None,
        !is_canonical_audio(path) ==> begin(true, path).1 == EngineStepView::Ask(
            EngineRequestView::CreateTempWav,
        ),
{
}

/// How the transcription `session` goes on when `reply` arrives: the state
/// it enters and the step it takes.
pub open spec fn advance(session: TranscriptionView, reply: EngineReplyView) -> (
    TranscriptionView,
    EngineStepView,
) {
    match session.phase {
        PhaseView::TempWav { source } => match reply {
            EngineReplyView::TempWav(wav) => (
                TranscriptionView { phase: PhaseView::Conversion { wav }, temp_wav: Some(wav) },
                EngineStepView::Ask(
                    EngineRequestView::Convert {
                        program: "ffmpeg"@,
                        args: converter_args(source, wav),
                    },
                ),
            ),
            EngineReplyView::Failed => finish(session, Err(TranscribeErrorView::TempFile)),
            _ => (session, EngineStepView::Rejected),
        },
        PhaseView::Conversion { wav } => match reply {
            EngineReplyView::Converted { success, stderr } => if success {
                go_on(
                    session,
                    PhaseView::Inference { audio: wav },
                    EngineRequestView::Infer { audio_path: wav },
                )
            } else {
                finish(session, Err(TranscribeErrorView::Conversion(stderr)))
            },
            EngineReplyView::Failed => finish(session, Err(TranscribeErrorView::ConverterNotRun)),
            EngineReplyView::Aborted(report) => finish(
                session,
                Err(TranscribeErrorView::Worker(report)),
            ),
            _ => (session, EngineStepView::Rejected),
        },
        PhaseView::Inference { audio } => match reply {
            EngineReplyView::Inferred { text, tokens } => if tokens.len() > 0 {
                finish(session, Ok(result_of(text, tokens, Seconds::spec_zero())))
            } else {
                go_on(
                    session,
                    PhaseView::Duration { text },
                    EngineRequestView::ProbeDuration { audio_path: audio },
                )
            },
            EngineReplyView::Failed => finish(session, Err(TranscribeErrorView::Inference)),
            EngineReplyView::NoEngine => finish(session, Err(TranscribeErrorView::NotInitialized)),
            EngineReplyView::Aborted(report) => finish(
                session,
                Err(TranscribeErrorView::Worker(report)),
            ),
            _ => (session, EngineStepView::Rejected),
        },
        PhaseView::Duration { text } => match reply {
            EngineReplyView::Duration(measured) => finish(
                session,
                Ok(result_of(text, Seq::<SegmentView>::empty(), measured)),
            ),
            EngineReplyView::Failed => finish(
                session,
                Ok(result_of(text, Seq::<SegmentView>::empty(), Seconds::spec_zero())),
            ),
            _ => (session, EngineStepView::Rejected),
        },
        PhaseView::Finished => (session, EngineStepView::Rejected),
    }
}

/// Once the file for the converted audio is made, it is named for removal
/// when the transcription ends, however it ends, and is held on to until
/// then.
pub proof fn lemma_converted_file_is_removed(
    session: TranscriptionView,
    reply: EngineReplyView,
    wav: Seq<char>,
)
    requires
        session.temp_wav == Some(wav),
        !(session.phase is TempWav),
    ensures
        match advance(session, reply).1 {
            EngineStepView::Done { remove, .. } => remove == Some(wav) && advance(
                session,
                reply,
            ).0.temp_wav is None,
            _ => advance(session, reply).0.temp_wav == Some(wav),
        },
{
}

/// Builds the converter's argument list.
fn build_converter_args(input: &str, output: &str) -> (r: Vec<String>)
    ensures
        strings_view(r@) == converter_args(input@, output@),
{
    let mut args: Vec<String> = Vec::new();
    args.push(String::from_str("-i"));
    args.push(String::from_str(input));
    args.push(String::from_str("-ar"));
    args.push(String::from_str("16000"));
    args.push(String::from_str("-ac"));
    args.push(String::from_str("1"));
    args.push(String::from_str("-f"));
    args.push(String::from_str("wav"));
    args.push(String::from_str("-y"));
    args.push(String::from_str(output));
    assert(strings_view(args@) =~= converter_args(input@, output@));
    args
}

/// Turns the engine's tokens into segments, one for one and in order.
pub fn segments_from_tokens(tokens: &Vec<Token>) -> (r: Vec<Segment>)
    ensures
        segments_view(r@) == tokens_view(tokens@),
{
    let mut segments: Vec<Segment> = Vec::new();
    let mut i: usize = 0;
    while i < tokens.len()
        invariant
            0 <= i <= tokens.len(),
            segments@.len() == i,
            forall|j: int| 0 <= j < i ==> segments@[j]@ == tokens@[j]@,
        decreases tokens.len() - i,
    {
        let token = &tokens[i];
        segments.push(Segment { start: token.start, end: token.end, text: token.text.clone() });
        i = i + 1;
    }
    assert(segments_view(segments@) =~= tokens_view(tokens@));
    segments
}

/// Assembles the result of a transcription from the engine's output and the
/// measured length of the audio, which counts only when there is no token.
pub fn assemble(text: String, tokens: &Vec<Token>, measured: Seconds) -> (r: TranscriptionResult)
    ensures
        r@ == result_of(text@, tokens_view(tokens@), measured),
{
    let segments = segments_from_tokens(tokens);
    let duration = if tokens.len() > 0 {
        tokens[tokens.len() - 1].end
    } else {
        measured
    };
    TranscriptionResult { text, segments, duration }
}

impl Transcription {
    fn end(&mut self, outcome: Result<TranscriptionResult, TranscribeError>) -> (r: EngineStep)
        ensures
            final(self)@ == (TranscriptionView { phase: PhaseView::Finished, temp_wav: None }),
            r == (EngineStep::Done { outcome, remove: old(self).temp_wav }),
    {
        let mut remove: Option<String> = None;
        core::mem::swap(&mut self.temp_wav, &mut remove);
        self.phase = Phase::Finished;
        EngineStep::Done { outcome, remove }
    }

    /// Takes the answer to the last request and says what comes next.  A
    /// reply that does not answer what was asked is rejected and changes
    /// nothing.
    pub fn step(&mut self, reply: EngineReply) -> (r: EngineStep)
        ensures
            (final(self)@, r@) == advance(old(self)@, reply@),
    {
        let mut phase = Phase::Finished;
        core::mem::swap(&mut self.phase, &mut phase);
        match phase {
            Phase::TempWav { source } => match reply {
                EngineReply::TempWav(wav) => {
                    let args = build_converter_args(source.as_str(), wav.as_str());
                    self.temp_wav = Some(wav.clone());
                    self.phase = Phase::Conversion { wav };
                    EngineStep::Ask(
                        EngineRequest::Convert { program: String::from_str("ffmpeg"), args },
                    )
                },
                EngineReply::Failed => self.end(Err(TranscribeError::TempFile)),
                _ => {
                    self.phase = Phase::TempWav { source };
                    EngineStep::Rejected
                },
            },
            Phase::Conversion { wav } => match reply {
                EngineReply::Converted { success, stderr } => {
                    if success {
                        let audio_path = wav.clone();
                        self.phase = Phase::Inference { audio: wav };
                        EngineStep::Ask(EngineRequest::Infer { audio_path })
                    } else {
                        self.end(Err(TranscribeError::Conversion(stderr)))
                    }
                },
                EngineReply::Failed => self.end(Err(TranscribeError::ConverterNotRun)),
                EngineReply::Aborted(report) => self.end(Err(TranscribeError::Worker(report))),
                _ => {
                    self.phase = Phase::Conversion { wav };
                    EngineStep::Rejected
                },
            },
            Phase::Inference { audio } => match reply {
                EngineReply::Inferred { text, tokens } => {
                    if tokens.len() > 0 {
                        let result = assemble(text, &tokens, Seconds::zero());
                        self.end(Ok(result))
                    } else {
                        assert(tokens_view(tokens@) =~= Seq::<SegmentView>::empty());
                        self.phase = Phase::Duration { text };
                        EngineStep::Ask(EngineRequest::ProbeDuration { audio_path: audio })
                    }
                },
                EngineReply::Failed => self.end(Err(TranscribeError::Inference)),
                EngineReply::NoEngine => self.end(Err(TranscribeError::NotInitialized)),
                EngineReply::Aborted(report) => self.end(Err(TranscribeError::Worker(report))),
                _ => {
                    self.phase = Phase::Inference { audio };
                    EngineStep::Rejected
                },
            },
            Phase::Duration { text } => match reply {
                EngineReply::Duration(measured) => {
                    let none: Vec<Token> = Vec::new();
                    assert(tokens_view(none@) =~= Seq::<SegmentView>::empty());
                    let result = assemble(text, &none, measured);
                    self.end(Ok(result))
                },
                EngineReply::Failed => {
                    let none: Vec<Token> = Vec::new();
                    assert(tokens_view(none@) =~= Seq::<SegmentView>::empty());
                    let result = assemble(text, &none, Seconds::zero());
                    self.end(Ok(result))
                },
                _ => {
                    self.phase = Phase::Duration { text };
                    EngineStep::Rejected
                },
            },
            Phase::Finished => EngineStep::Rejected,
        }
    }
}

/// The guard of the one inference engine: it knows whether the engine has
/// been loaded and lets no transcription start before that.
#[derive(Debug, Clone, PartialEq, Eq)]
pub struct Transcriber {
    model_loaded: bool,
}

impl Transcriber {
    /// Whether the engine has been loaded.
    pub closed spec fn ready(&self) -> bool {
        self.model_loaded
    }

    /// A guard whose engine is not loaded yet.
    pub fn new() -> (r: Transcriber)
        ensures
            !r.ready(),
    {
        Transcriber { model_loaded: false }
    }

    /// Records how loading the engine went.  Success makes the guard ready;
    /// a failure leaves it as it was and is handed back to the caller.
    pub fn load_model(&mut self, outcome: Result<(), TranscribeError>) -> (r: Result<
        (),
        TranscribeError,
    >)
        ensures
            r == outcome,
            final(self).ready() == (outcome is Ok || old(self).ready()),
    {
        if outcome.is_ok() {
            self.model_loaded = true;
        }
        outcome
    }

    /// Whether the engine has been loaded.
    pub fn is_ready(&self) -> (r: bool)
        ensures
            r == self.ready(),
    {
        self.model_loaded
    }

    /// Starts a transcription of the file at `audio_path` and takes its
    /// first step.
    pub fn transcribe(&self, audio_path: &str) -> (r: (Transcription, EngineStep))
        ensures
            (r.0@, r.1@) == begin(self.ready(), audio_path@),
    {
        if !self.model_loaded {
            (
                Transcription { phase: Phase::Finished, temp_wav: None },
                EngineStep::Done { outcome: Err(TranscribeError::NotLoaded), remove: None },
            )
        } else if declares_canonical_audio(audio_path) {
            (
                Transcription {
                    phase: Phase::Inference { audio: String::from_str(audio_path) },
                    temp_wav: None,
                },
                EngineStep::Ask(EngineRequest::Infer { audio_path: String::from_str(audio_path) }),
            )
        } else {
            (
                Transcription {
                    phase: Phase::TempWav { source: String::from_str(audio_path) },
                    temp_wav: None,
                },
                EngineStep::Ask(EngineRequest::CreateTempWav),
            )
        }
    }
}

impl Default for Transcriber {
    fn default() -> (r: Transcriber)
        ensures
            !r.ready(),
    {
        Transcriber::new()
    }
}

} // verus!
