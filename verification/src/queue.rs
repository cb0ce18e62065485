//! The status store client's rules: under which keys records live, which
//! fields a write sets, how long a record lasts, and how a stored record is
//! read back.

use crate::text::{
    decimal_text, find, format_u32, join, lookup, pairs_view, parse_bounded, parse_unsigned,
    text_view,
};
use crate::transcriber::Seconds;
use vstd::prelude::*;

verus! {

/// Progress of a batch job.
#[derive(Debug, Clone, PartialEq, Eq)]
pub struct JobStatus {
    pub status: String,
    pub current: Option<u32>,
    pub total: Option<u32>,
}

/// A job status by its characters.
pub struct JobStatusView {
    pub status: Seq<char>,
    pub current: Option<u32>,
    pub total: Option<u32>,
}

impl View for JobStatus {
    type V = JobStatusView;

    open spec fn view(&self) -> JobStatusView {
        JobStatusView { status: self.status@, current: self.current, total: self.total }
    }
}

/// The final state of one recording.
#[derive(Debug, Clone, PartialEq, Eq)]
pub struct TranscriptionStatus {
    pub status: String,
    pub text: Option<String>,
    pub duration: Option<Seconds>,
    pub error: Option<String>,
}

/// A transcription status by its characters.
pub struct TranscriptionStatusView {
    pub status: Seq<char>,
    pub text: Option<Seq<char>>,
    pub duration: Option<Seconds>,
    pub error: Option<Seq<char>>,
}

impl View for TranscriptionStatus {
    type V = TranscriptionStatusView;

    open spec fn view(&self) -> TranscriptionStatusView {
        TranscriptionStatusView {
            status: self.status@,
            text: text_view(self.text),
            duration: self.duration,
            error: text_view(self.error),
        }
    }
}

/// What a field is set to.  A time is handed over as it is; the store's
/// client writes it out.
#[derive(Debug, Clone, PartialEq, Eq)]
pub enum FieldValue {
    Text(String),
    Seconds(Seconds),
}

/// A field value by its characters.
pub enum FieldValueView {
    Text(Seq<char>),
    Seconds(Seconds),
}

impl View for FieldValue {
    type V = FieldValueView;

    open spec fn view(&self) -> FieldValueView {
        match self {
            FieldValue::Text(t) => FieldValueView::Text(t@),
            FieldValue::Seconds(s) => FieldValueView::Seconds(*s),
        }
    }
}

/// One command to the key-value store.
#[derive(Debug, Clone, PartialEq, Eq)]
pub enum StoreCommand {
    /// Set one field of the record at `key`, leaving its other fields alone.
    SetField { key: String, field: String, value: FieldValue },
    /// Let the record at `key` expire `seconds` from now.
    Expire { key: String, seconds: u32 },
}

/// A store command by its characters.
pub enum StoreCommandView {
    SetField { key: Seq<char>, field: Seq<char>, value: FieldValueView },
    Expire { key: Seq<char>, seconds: u32 },
}

impl View for StoreCommand {
    type V = StoreCommandView;

    open spec fn view(&self) -> StoreCommandView {
        match self {
            StoreCommand::SetField { key, field, value } => StoreCommandView::SetField {
                key: key@,
                field: field@,
                value: value@,
            },
            StoreCommand::Expire { key, seconds } => StoreCommandView::Expire {
                key: key@,
                seconds: *seconds,
            },
        }
    }
}

/// The views of a list of commands, in order.
pub open spec fn commands_view(commands: Seq<StoreCommand>) -> Seq<StoreCommandView> {
    Seq::new(commands.len(), |i: int| commands[i]@)
}

/// Seconds that a job record outlives its last write: one day.
pub const JOB_TTL_SECONDS: u32 = 86400;

/// Seconds that a result record outlives its last write: seven days.
pub const RESULT_TTL_SECONDS: u32 = 604800;

/// The key of the record of job `job_id`.
pub open spec fn job_key(job_id: Seq<char>) -> Seq<char> {
    "transcribe:job:"@ + job_id
}

/// The key of the record of recording `recording_id`.  It names the
/// recording alone, not the job that processed it.
pub open spec fn result_key(recording_id: Seq<char>) -> Seq<char> {
    "transcribe:result:"@ + recording_id
}

/// The command that sets the text field `field` of the record at `key`.
pub open spec fn set_text(key: Seq<char>, field: Seq<char>, value: Seq<char>) -> StoreCommandView {
    StoreCommandView::SetField { key, field, value: FieldValueView::Text(value) }
}

/// The command for an optional text field: none when the text is absent.
pub open spec fn set_optional_text(
    key: Seq<char>,
    field: Seq<char>,
    value: Option<Seq<char>>,
) -> Seq<StoreCommandView> {
    match value {
        Some(v) => seq![set_text(key, field, v)],
        None => Seq::empty(),
    }
}

/// The command for an optional counter, written in decimal.
pub open spec fn set_optional_number(
    key: Seq<char>,
    field: Seq<char>,
    value: Option<u32>,
) -> Seq<StoreCommandView> {
    match value {
        Some(n) => seq![set_text(key, field, decimal_text(n as nat))],
        None => Seq::empty(),
    }
}

/// The command for an optional time.
pub open spec fn set_optional_seconds(
    key: Seq<char>,
    field: Seq<char>,
    value: Option<Seconds>,
) -> Seq<StoreCommandView> {
    match value {
        Some(s) => seq![StoreCommandView::SetField { key, field, value: FieldValueView::Seconds(s) }],
        None => Seq::empty(),
    }
}

/// The commands that record `status` for job `job_id`: the status always,
/// each counter only when it is given, and a fresh time to live.
pub open spec fn job_status_commands(job_id: Seq<char>, status: JobStatusView) -> Seq<
    StoreCommandView,
> {
    let key = job_key(job_id);
    seq![set_text(key, "status"@, status.status)] + set_optional_number(
        key,
        "current"@,
        status.current,
    ) + set_optional_number(key, "total"@, status.total) + seq![
        StoreCommandView::Expire { key, seconds: JOB_TTL_SECONDS },
    ]
}

/// The commands that record `status` for recording `recording_id`: the
/// status always, every other field only when it is given, and a fresh
/// time to live.
pub open spec fn result_commands(recording_id: Seq<char>, status: TranscriptionStatusView) -> Seq<
    StoreCommandView,
> {
    let key = result_key(recording_id);
    seq![set_text(key, "status"@, status.status)] + set_optional_text(key, "text"@, status.text)
        + set_optional_seconds(key, "duration"@, status.duration) + set_optional_text(
        key,
        "error"@,
        status.error,
    ) + seq![StoreCommandView::Expire { key, seconds: RESULT_TTL_SECONDS }]
}

/// The counter that a stored field holds, if the field exists and is a
/// decimal number of thirty-two bits.
pub open spec fn stored_number(fields: Seq<(Seq<char>, Seq<char>)>, name: Seq<char>) -> Option<
    u32,
> {
    match lookup(fields, name) {
        Some(v) => match parse_unsigned(v, u32::MAX as nat) {
            Some(n) => Some(n as u32),
            None => None,
        },
        None => None,
    }
}

/// The job status that a stored record holds.  A record without any field
/// is no record: the key is absent or has expired.  A missing status reads
/// as the empty text, a missing or malformed counter as absent.
pub open spec fn stored_job_status(fields: Seq<(Seq<char>, Seq<char>)>) -> Option<JobStatusView> {
    if fields.len() == 0 {
        None
    } else {
        Some(
            JobStatusView {
                status: match lookup(fields, "status"@) {
                    Some(v) => v,
                    None => Seq::empty(),
                },
                current: stored_number(fields, "current"@),
                total: stored_number(fields, "total"@),
            },
        )
    }
}

/// The client of the status store.  It holds the store's address, which
/// has been found usable; the program around the library connects to it and
/// carries the commands out.
#[derive(Debug, Clone, PartialEq, Eq)]
pub struct Queue {
    pub redis_url: String,
}

/// Why the status store cannot be used.
#[derive(Debug, Clone, PartialEq, Eq)]
pub enum QueueError {
    /// The address is not one that a store can be reached under; the
    /// reason is kept.
    Address(String),
}

/// A store failure by its characters.
pub enum QueueErrorView {
    Address(Seq<char>),
}

impl View for QueueError {
    type V = QueueErrorView;

    open spec fn view(&self) -> QueueErrorView {
        match self {
            QueueError::Address(reason) => QueueErrorView::Address(reason@),
        }
    }
}

impl QueueError {
    /// The message that this failure shows to callers.
    pub fn message(&self) -> (r: String)
        ensures
            r@ == "Failed to connect to Redis"@,
    {
        String::from_str("Failed to connect to Redis")
    }
}

/// The refusal with which `redis::Client::open` answers `redis_url`, or
/// `None` where it makes a client for that address.
pub uninterp spec fn address_refusal(redis_url: Seq<char>) -> Option<Seq<char>>;

/// Asks `redis::Client::open` whether `redis_url` is an address that a
/// client can be made for, and keeps its refusal as text.  The call reads
/// the address and opens no connection.  The contract claims that the
/// verdict, and the text of a refusal, follow from the address alone, as
/// the parsing in that function does in one build of the library; which
/// addresses are taken it leaves open.
#[verifier::external_body]
fn check_address(redis_url: &str) -> (r: Result<(), String>)
    ensures
        match r {
            Ok(_) => address_refusal(redis_url@) is None,
            Err(reason) => address_refusal(redis_url@) == Some(reason@),
        },
{
    match redis::Client::open(redis_url) {
        Ok(_) => Ok(()),
        Err(e) => Err(e.to_string()),
    }
}

fn push_text(commands: &mut Vec<StoreCommand>, key: &String, field: &str, value: String)
    ensures
        commands_view(final(commands)@) == commands_view(old(commands)@).push(
            set_text(key@, field@, value@),
        ),
{
    commands.push(
        StoreCommand::SetField {
            key: key.clone(),
            field: String::from_str(field),
            value: FieldValue::Text(value),
        },
    );
    assert(commands_view(commands@) =~= commands_view(old(commands)@).push(
        set_text(key@, field@, value@),
    ));
}

fn push_seconds(commands: &mut Vec<StoreCommand>, key: &String, field: &str, value: Seconds)
    ensures
        commands_view(final(commands)@) == commands_view(old(commands)@).push(
            StoreCommandView::SetField {
                key: key@,
                field: field@,
                value: FieldValueView::Seconds(value),
            },
        ),
{
    commands.push(
        StoreCommand::SetField {
            key: key.clone(),
            field: String::from_str(field),
            value: FieldValue::Seconds(value),
        },
    );
    assert(commands_view(commands@) =~= commands_view(old(commands)@).push(
        StoreCommandView::SetField {
            key: key@,
            field: field@,
            value: FieldValueView::Seconds(value),
        },
    ));
}

fn push_expire(commands: &mut Vec<StoreCommand>, key: String, seconds: u32)
    ensures
        commands_view(final(commands)@) == commands_view(old(commands)@).push(
            StoreCommandView::Expire { key: key@, seconds },
        ),
{
    commands.push(StoreCommand::Expire { key, seconds });
    assert(commands_view(commands@) =~= commands_view(old(commands)@).push(
        StoreCommandView::Expire { key: key@, seconds },
    ));
}

fn read_number(fields: &Vec<(String, String)>, name: &str) -> (r: Option<u32>)
    ensures
        r == stored_number(pairs_view(fields@), name@),
{
    match find(fields, name) {
        Some(v) => parse_bounded(v.as_str(), u32::MAX),
        None => None,
    }
}

impl Queue {
    /// A client for the store at `redis_url`: the client where the address
    /// is one that a store can be reached under, else the refusal of that
    /// address with its reason.
    pub fn new(redis_url: &str) -> (r: Result<Queue, QueueError>)
        ensures
            match address_refusal(redis_url@) {
                None => r is Ok && r->Ok_0.redis_url@ == redis_url@,
                Some(reason) => r is Err && r->Err_0@ == QueueErrorView::Address(reason),
            },
    {
        Queue::checked(redis_url, check_address(redis_url))
    }

    /// A client for the store at `redis_url`, given the verdict on that
    /// address: the client where it was found usable, else the refusal.
    pub fn checked(redis_url: &str, verdict: Result<(), String>) -> (r: Result<Queue, QueueError>)
        ensures
            match verdict {
                Ok(_) => r is Ok && r->Ok_0.redis_url@ == redis_url@,
                Err(reason) => r is Err && r->Err_0@ == QueueErrorView::Address(reason@),
            },
    {
        match verdict {
            Ok(_) => Ok(Queue { redis_url: String::from_str(redis_url) }),
            Err(reason) => Err(QueueError::Address(reason)),
        }
    }

    /// The commands that record `status` for job `job_id`.
    pub fn set_job_status(&self, job_id: &str, status: &JobStatus) -> (r: Vec<StoreCommand>)
        ensures
            commands_view(r@) == job_status_commands(job_id@, status@),
    {
        let key = join("transcribe:job:", job_id);
        let mut commands: Vec<StoreCommand> = Vec::new();
        assert(commands_view(commands@) =~= Seq::<StoreCommandView>::empty());
        push_text(&mut commands, &key, "status", status.status.clone());
        if let Some(current) = status.current {
            push_text(&mut commands, &key, "current", format_u32(current));
        }
        if let Some(total) = status.total {
            push_text(&mut commands, &key, "total", format_u32(total));
        }
        push_expire(&mut commands, key, JOB_TTL_SECONDS);
        assert(commands_view(commands@) =~= job_status_commands(job_id@, status@));
        commands
    }

    /// Reads a job status from the fields that the store holds under the
    /// job's key.  No field at all means that there is no such job.
    pub fn get_job_status(&self, fields: &Vec<(String, String)>) -> (r: Option<JobStatus>)
        ensures
            match stored_job_status(pairs_view(fields@)) {
                Some(status) => r is Some && r->0@ == status,
                None => r is None,
            },
            r is None <==> fields@.len() == 0,
    {
        if fields.len() == 0 {
            return None;
        }
        let status = match find(fields, "status") {
            Some(v) => v.clone(),
            None => String::new(),
        };
        Some(
            JobStatus {
                status,
                current: read_number(fields, "current"),
                total: read_number(fields, "total"),
            },
        )
    }

    /// The commands that record `result` for recording `recording_id`.
    pub fn set_transcription_result(&self, recording_id: &str, result: &TranscriptionStatus) -> (r:
        Vec<StoreCommand>)
        ensures
            commands_view(r@) == result_commands(recording_id@, result@),
    {
        let key = join("transcribe:result:", recording_id);
        let mut commands: Vec<StoreCommand> = Vec::new();
        assert(commands_view(commands@) =~= Seq::<StoreCommandView>::empty());
        push_text(&mut commands, &key, "status", result.status.clone());
        if let Some(text) = &result.text {
            push_text(&mut commands, &key, "text", text.clone());
        }
        if let Some(duration) = result.duration {
            push_seconds(&mut commands, &key, "duration", duration);
        }
        if let Some(error) = &result.error {
            push_text(&mut commands, &key, "error", error.clone());
        }
        push_expire(&mut commands, key, RESULT_TTL_SECONDS);
        assert(commands_view(commands@) =~= result_commands(recording_id@, result@));
        commands
    }
}

/// The key that job `job_id` is stored under.
pub fn job_record_key(job_id: &str) -> (r: String)
    ensures
        r@ == job_key(job_id@),
{
    join("transcribe:job:", job_id)
}

/// Records of different recordings never share a key, and neither do
/// records of different jobs.
pub proof fn lemma_keys_injective(a: Seq<char>, b: Seq<char>)
    ensures
        result_key(a) == result_key(b) ==> a == b,
        job_key(a) == job_key(b) ==> a == b,
{
    let p = "transcribe:result:"@;
    if result_key(a) == result_key(b) {
        assert((p + a).subrange(p.len() as int, (p + a).len() as int) =~= a);
        assert((p + b).subrange(p.len() as int, (p + b).len() as int) =~= b);
    }
    let q = "transcribe:job:"@;
    if job_key(a) == job_key(b) {
        assert((q + a).subrange(q.len() as int, (q + a).len() as int) =~= a);
        assert((q + b).subrange(q.len() as int, (q + b).len() as int) =~= b);
    }
}

} // verus!
