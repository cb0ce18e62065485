//! What the status store client's writes mean: a model of a key-value store
//! whose records are field mappings with a time to live, and the state in
//! which the commands of a write leave it.
//!
//! The model is the yardstick for the client's commands.  Nothing here runs;
//! the store itself is reached by the program around the library.

use crate::batch::{
    completed_status, lemma_completed_job_reports_all, only, run, BatchJobView, EffectKind,
    EffectView,
};
use crate::pipeline::ReplyView;
use crate::queue::{
    job_key, job_status_commands, result_commands, result_key, set_optional_number,
    set_optional_seconds, set_optional_text, set_text, stored_job_status, FieldValueView,
    JobStatusView, StoreCommandView, TranscriptionStatusView, JOB_TTL_SECONDS,
    RESULT_TTL_SECONDS,
};
use crate::text::{decimal_text, lemma_decimal_round_trip, lookup};
use vstd::prelude::*;

verus! {

/// A record: its fields, each name once, and the moment from which it is
/// gone (never, while no time to live has been set).
pub struct Record {
    pub fields: Seq<(Seq<char>, FieldValueView)>,
    pub expires_at: Option<int>,
}

/// Whether the store holds a record under `key` at the moment `now`.
pub open spec fn live(store: Map<Seq<char>, Record>, key: Seq<char>, now: int) -> bool {
    store.contains_key(key) && match store[key].expires_at {
        Some(end) => now < end,
        None => true,
    }
}

/// The fields that reading `key` at the moment `now` returns: those of the
/// record, or none at all when there is no record or it has expired.
pub open spec fn read(store: Map<Seq<char>, Record>, key: Seq<char>, now: int) -> Seq<
    (Seq<char>, FieldValueView),
> {
    if live(store, key, now) {
        store[key].fields
    } else {
        Seq::empty()
    }
}

/// The value of the field `name` among `fields`.
pub open spec fn field(fields: Seq<(Seq<char>, FieldValueView)>, name: Seq<char>) -> Option<
    FieldValueView,
>
    decreases fields.len(),
{
    if fields.len() == 0 {
        None
    } else if fields[0].0 == name {
        Some(fields[0].1)
    } else {
        field(fields.drop_first(), name)
    }
}

/// `fields` with the field `name` set to `value`: replaced where it exists,
/// added at the end where it does not.
pub open spec fn with_field(
    fields: Seq<(Seq<char>, FieldValueView)>,
    name: Seq<char>,
    value: FieldValueView,
) -> Seq<(Seq<char>, FieldValueView)>
    decreases fields.len(),
{
    if fields.len() == 0 {
        seq![(name, value)]
    } else if fields[0].0 == name {
        seq![(name, value)] + fields.drop_first()
    } else {
        seq![fields[0]] + with_field(fields.drop_first(), name, value)
    }
}

/// The store after one command, given at the moment `now`.  Setting a field
/// creates the record where there is none and leaves its time to live
/// alone; setting the time to live of a record that is not there does
/// nothing.
pub open spec fn apply(store: Map<Seq<char>, Record>, command: StoreCommandView, now: int) -> Map<
    Seq<char>,
    Record,
> {
    match command {
        StoreCommandView::SetField { key, field, value } => store.insert(
            key,
            Record {
                fields: with_field(read(store, key, now), field, value),
                expires_at: if live(store, key, now) {
                    store[key].expires_at
                } else {
                    None
                },
            },
        ),
        StoreCommandView::Expire { key, seconds } => if live(store, key, now) {
            store.insert(
                key,
                Record { fields: store[key].fields, expires_at: Some(now + seconds) },
            )
        } else {
            store
        },
    }
}

/// The store after a list of commands, all given at the moment `now`.
pub open spec fn apply_all(
    store: Map<Seq<char>, Record>,
    commands: Seq<StoreCommandView>,
    now: int,
) -> Map<Seq<char>, Record>
    decreases commands.len(),
{
    if commands.len() == 0 {
        store
    } else {
        apply(apply_all(store, commands.drop_last(), now), commands.last(), now)
    }
}

/// Whether two stores agree on every key but `key`.
pub open spec fn same_elsewhere(
    a: Map<Seq<char>, Record>,
    b: Map<Seq<char>, Record>,
    key: Seq<char>,
) -> bool {
    forall|other: Seq<char>|
        #![trigger a.contains_key(other)]
        #![trigger b.contains_key(other)]
        #![trigger a[other]]
        #![trigger b[other]]
        other != key ==> a.contains_key(other) == b.contains_key(other) && (a.contains_key(other)
            ==> a[other] == b[other])
}

/// Setting a field makes it hold the new value and leaves every other
/// field as it was.
pub proof fn lemma_with_field(
    fields: Seq<(Seq<char>, FieldValueView)>,
    name: Seq<char>,
    value: FieldValueView,
    other: Seq<char>,
)
    ensures
        field(with_field(fields, name, value), name) == Some(value),
        other != name ==> field(with_field(fields, name, value), other) == field(fields, other),
    decreases fields.len(),
{
    let after = with_field(fields, name, value);
    if fields.len() == 0 {
        assert(after[0] == (name, value));
        assert(after.drop_first() =~= Seq::empty());
        assert(field(after.drop_first(), other) is None);
    } else if fields[0].0 == name {
        assert(after[0] == (name, value));
        assert(after.drop_first() =~= fields.drop_first());
    } else {
        lemma_with_field(fields.drop_first(), name, value, other);
        assert(after[0] == fields[0]);
        assert(after.drop_first() =~= with_field(fields.drop_first(), name, value));
    }
}

/// Commands given in two lists are commands given in one.
pub proof fn lemma_apply_all_add(
    store: Map<Seq<char>, Record>,
    a: Seq<StoreCommandView>,
    b: Seq<StoreCommandView>,
    now: int,
)
    ensures
        apply_all(store, a + b, now) == apply_all(apply_all(store, a, now), b, now),
    decreases b.len(),
{
    if b.len() == 0 {
        assert(a + b =~= a);
    } else {
        lemma_apply_all_add(store, a, b.drop_last(), now);
        assert((a + b).drop_last() =~= a + b.drop_last());
    }
}

/// The store after a list of at most one command.
pub proof fn lemma_apply_all_short(
    store: Map<Seq<char>, Record>,
    commands: Seq<StoreCommandView>,
    now: int,
)
    requires
        commands.len() <= 1,
    ensures
        apply_all(store, commands, now) == if commands.len() == 0 {
            store
        } else {
            apply(store, commands[0], now)
        },
{
    if commands.len() == 1 {
        assert(commands.drop_last().len() == 0);
        assert(apply_all(store, commands.drop_last(), now) == store);
        assert(commands.last() == commands[0]);
    }
}

/// The value that the field `name` holds after a list of at most one
/// command: the command's value where it sets that field, else `before`.
pub open spec fn written(
    commands: Seq<StoreCommandView>,
    name: Seq<char>,
    before: Option<FieldValueView>,
) -> Option<FieldValueView> {
    if commands.len() > 0 && commands[0] is SetField && commands[0]->SetField_field == name {
        Some(commands[0]->SetField_value)
    } else {
        before
    }
}

/// The record at `key` after a write: one field set, then up to three more,
/// each list empty or one command on `key`, then a time to live.  The record
/// exists and expires `seconds` from the write; any field holds what the
/// last command on it set, or what it held before; no other record changed.
proof fn lemma_write(
    store: Map<Seq<char>, Record>,
    key: Seq<char>,
    first: StoreCommandView,
    second: Seq<StoreCommandView>,
    third: Seq<StoreCommandView>,
    fourth: Seq<StoreCommandView>,
    seconds: u32,
    now: int,
    name: Seq<char>,
)
    requires
        first is SetField && first->SetField_key == key,
        second.len() <= 1 && (second.len() == 1 ==> second[0] is SetField
            && second[0]->SetField_key == key),
        third.len() <= 1 && (third.len() == 1 ==> third[0] is SetField
            && third[0]->SetField_key == key),
        fourth.len() <= 1 && (fourth.len() == 1 ==> fourth[0] is SetField
            && fourth[0]->SetField_key == key),
    ensures
        ({
            let commands = seq![first] + second + third + fourth + seq![
                StoreCommandView::Expire { key, seconds },
            ];
            let after = apply_all(store, commands, now);
            &&& after.contains_key(key)
            &&& after[key].expires_at == Some(now + seconds)
            &&& same_elsewhere(after, store, key)
            &&& field(after[key].fields, name) == written(
                fourth,
                name,
                written(
                    third,
                    name,
                    written(
                        second,
                        name,
                        written(seq![first], name, field(read(store, key, now), name)),
                    ),
                ),
            )
        }),
{
    let expire = StoreCommandView::Expire { key, seconds };
    let s1 = apply_all(store, seq![first], now);
    let s2 = apply_all(s1, second, now);
    let s3 = apply_all(s2, third, now);
    let s4 = apply_all(s3, fourth, now);
    lemma_apply_all_add(store, seq![first], second, now);
    lemma_apply_all_add(store, seq![first] + second, third, now);
    lemma_apply_all_add(store, seq![first] + second + third, fourth, now);
    lemma_apply_all_add(store, seq![first] + second + third + fourth, seq![expire], now);
    lemma_apply_all_short(store, seq![first], now);
    lemma_apply_all_short(s1, second, now);
    lemma_apply_all_short(s2, third, now);
    lemma_apply_all_short(s3, fourth, now);
    lemma_apply_all_short(s4, seq![expire], now);
    lemma_with_field(
        read(store, key, now),
        first->SetField_field,
        first->SetField_value,
        name,
    );
    if second.len() == 1 {
        lemma_with_field(
            read(s1, key, now),
            second[0]->SetField_field,
            second[0]->SetField_value,
            name,
        );
    }
    if third.len() == 1 {
        lemma_with_field(
            read(s2, key, now),
            third[0]->SetField_field,
            third[0]->SetField_value,
            name,
        );
    }
    if fourth.len() == 1 {
        lemma_with_field(
            read(s3, key, now),
            fourth[0]->SetField_field,
            fourth[0]->SetField_value,
            name,
        );
    }
    assert(live(s1, key, now));
    assert(live(s2, key, now));
    assert(live(s3, key, now));
    assert(live(s4, key, now));
}

/// What a write of a job status leaves in the store.  The job's record
/// exists and expires one day after the write, whatever its time to live was
/// before.  The status holds the new value; each counter holds the new
/// value where the write gives one and what it held before where the write
/// gives none; every other field of the record, and every other record, is
/// as it was.
pub proof fn lemma_job_status_write(
    store: Map<Seq<char>, Record>,
    job_id: Seq<char>,
    status: JobStatusView,
    now: int,
    name: Seq<char>,
)
    ensures
        ({
            let key = job_key(job_id);
            let after = apply_all(store, job_status_commands(job_id, status), now);
            &&& after.contains_key(key)
            &&& after[key].expires_at == Some(now + JOB_TTL_SECONDS)
            &&& same_elsewhere(after, store, key)
            &&& field(after[key].fields, name) == if name == "status"@ {
                Some(FieldValueView::Text(status.status))
            } else if name == "current"@ && status.current is Some {
                Some(FieldValueView::Text(decimal_text(status.current->0 as nat)))
            } else if name == "total"@ && status.total is Some {
                Some(FieldValueView::Text(decimal_text(status.total->0 as nat)))
            } else {
                field(read(store, key, now), name)
            }
        }),
{
    reveal_strlit("status");
    reveal_strlit("current");
    reveal_strlit("total");
    assert("status"@.len() == 6 && "current"@.len() == 7 && "total"@.len() == 5);
    let key = job_key(job_id);
    let first = set_text(key, "status"@, status.status);
    let second = set_optional_number(key, "current"@, status.current);
    let third = set_optional_number(key, "total"@, status.total);
    let fourth = Seq::<StoreCommandView>::empty();
    let expire = StoreCommandView::Expire { key, seconds: JOB_TTL_SECONDS };
    assert(job_status_commands(job_id, status) =~= seq![first] + second + third + fourth
        + seq![expire]);
    lemma_write(store, key, first, second, third, fourth, JOB_TTL_SECONDS, now, name);
}

/// What a write of a recording's final state leaves in the store.  The
/// record is the recording's own, whichever job wrote it, and expires seven
/// days after the write.  Every field that the write gives holds the new
/// value, so that of two writes the later one shows; a field that the write
/// does not give holds what it held before; every other record is as it
/// was.
pub proof fn lemma_result_write(
    store: Map<Seq<char>, Record>,
    recording_id: Seq<char>,
    status: TranscriptionStatusView,
    now: int,
    name: Seq<char>,
)
    ensures
        ({
            let key = result_key(recording_id);
            let after = apply_all(store, result_commands(recording_id, status), now);
            &&& after.contains_key(key)
            &&& after[key].expires_at == Some(now + RESULT_TTL_SECONDS)
            &&& same_elsewhere(after, store, key)
            &&& field(after[key].fields, name) == if name == "status"@ {
                Some(FieldValueView::Text(status.status))
            } else if name == "text"@ && status.text is Some {
                Some(FieldValueView::Text(status.text->0))
            } else if name == "duration"@ && status.duration is Some {
                Some(FieldValueView::Seconds(status.duration->0))
            } else if name == "error"@ && status.error is Some {
                Some(FieldValueView::Text(status.error->0))
            } else {
                field(read(store, key, now), name)
            }
        }),
{
    reveal_strlit("status");
    reveal_strlit("text");
    reveal_strlit("duration");
    reveal_strlit("error");
    assert("status"@.len() == 6 && "text"@.len() == 4 && "duration"@.len() == 8 && "error"@.len()
        == 5);
    let key = result_key(recording_id);
    let first = set_text(key, "status"@, status.status);
    let second = set_optional_text(key, "text"@, status.text);
    let third = set_optional_seconds(key, "duration"@, status.duration);
    let fourth = set_optional_text(key, "error"@, status.error);
    let expire = StoreCommandView::Expire { key, seconds: RESULT_TTL_SECONDS };
    assert(result_commands(recording_id, status) =~= seq![first] + second + third + fourth
        + seq![expire]);
    lemma_write(store, key, first, second, third, fourth, RESULT_TTL_SECONDS, now, name);
}

/// Whether `fields` lists what a read returned: no pair for an empty read,
/// and under every name the text that the record holds there.
pub open spec fn listing_of(
    fields: Seq<(Seq<char>, Seq<char>)>,
    found: Seq<(Seq<char>, FieldValueView)>,
) -> bool {
    &&& (fields.len() == 0) == (found.len() == 0)
    &&& forall|name: Seq<char>|
        field(found, name) == match #[trigger] lookup(fields, name) {
            Some(v) => Some(FieldValueView::Text(v)),
            None => None,
        }
}

/// A job that was never written, or whose record has expired, has no
/// status: the read returns no field, and no field reads as no job.
pub proof fn lemma_absent_job_has_no_status(
    store: Map<Seq<char>, Record>,
    job_id: Seq<char>,
    now: int,
    fields: Seq<(Seq<char>, Seq<char>)>,
)
    requires
        !live(store, job_key(job_id), now),
        listing_of(fields, read(store, job_key(job_id), now)),
    ensures
        read(store, job_key(job_id), now).len() == 0,
        stored_job_status(fields) is None,
{
}

/// A job status reads back as it was written for one day, and as no job
/// from then on, provided that it was written under a key that held no
/// record or that it gives both counters.
pub proof fn lemma_written_job_reads_back(
    store: Map<Seq<char>, Record>,
    job_id: Seq<char>,
    status: JobStatusView,
    now: int,
    later: int,
    fields: Seq<(Seq<char>, Seq<char>)>,
)
    requires
        !live(store, job_key(job_id), now) || (status.current is Some && status.total is Some),
        now <= later,
        listing_of(
            fields,
            read(
                apply_all(store, job_status_commands(job_id, status), now),
                job_key(job_id),
                later,
            ),
        ),
    ensures
        later < now + JOB_TTL_SECONDS ==> stored_job_status(fields) == Some(status),
        later >= now + JOB_TTL_SECONDS ==> stored_job_status(fields) is None,
{
    reveal_strlit("status");
    reveal_strlit("current");
    reveal_strlit("total");
    assert("status"@.len() == 6 && "current"@.len() == 7 && "total"@.len() == 5);
    let key = job_key(job_id);
    let after = apply_all(store, job_status_commands(job_id, status), now);
    lemma_job_status_write(store, job_id, status, now, "status"@);
    lemma_job_status_write(store, job_id, status, now, "current"@);
    lemma_job_status_write(store, job_id, status, now, "total"@);
    if later < now + JOB_TTL_SECONDS {
        let found = read(after, key, later);
        assert(found == after[key].fields);
        assert(field(found, "status"@) is Some);
        assert(lookup(fields, "status"@) == Some(status.status));
        match status.current {
            Some(n) => {
                lemma_decimal_round_trip(n as nat, u32::MAX as nat);
                assert(lookup(fields, "current"@) == Some(decimal_text(n as nat)));
            },
            None => {
                assert(lookup(fields, "current"@) is None);
            },
        }
        match status.total {
            Some(n) => {
                lemma_decimal_round_trip(n as nat, u32::MAX as nat);
                assert(lookup(fields, "total"@) == Some(decimal_text(n as nat)));
            },
            None => {
                assert(lookup(fields, "total"@) is None);
            },
        }
        assert(stored_job_status(fields)->0 =~= status);
    }
}

/// When a job is complete and its last report has been written, the
/// job's record reads, for one day, as completed with as many recordings
/// done as the job has, whatever the store held before and however many
/// recordings failed.
pub proof fn lemma_completed_job_reads_as_completed(
    job: BatchJobView,
    replies: Seq<ReplyView>,
    store: Map<Seq<char>, Record>,
    now: int,
    later: int,
    fields: Seq<(Seq<char>, Seq<char>)>,
)
    requires
        job.progress is Queued,
        run(job, replies).job.progress is Completed,
        now <= later < now + JOB_TTL_SECONDS,
        listing_of(
            fields,
            read(
                apply_all(store, job_status_commands(job.job_id, completed_status(job)), now),
                job_key(job.job_id),
                later,
            ),
        ),
    ensures
        only(run(job, replies).trace, EffectKind::JobStatus).last()
            == (EffectView::StoreJobStatus { job_id: job.job_id, status: completed_status(job) }),
        stored_job_status(fields) == Some(
            JobStatusView {
                status: "completed"@,
                current: Some(job.requests.len() as u32),
                total: Some(job.requests.len() as u32),
            },
        ),
{
    lemma_completed_job_reports_all(job, replies);
    lemma_written_job_reads_back(store, job.job_id, completed_status(job), now, later, fields);
}

} // verus!
