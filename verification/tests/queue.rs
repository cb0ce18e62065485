use transcriber_rs::queue::{
    job_record_key, FieldValue, JobStatus, Queue, QueueError, StoreCommand, TranscriptionStatus,
    JOB_TTL_SECONDS, RESULT_TTL_SECONDS,
};
use transcriber_rs::transcriber::Seconds;

fn queue() -> Queue {
    Queue::new("redis://redis:6379").unwrap()
}

fn set(key: &str, field: &str, value: &str) -> StoreCommand {
    StoreCommand::SetField {
        key: key.to_string(),
        field: field.to_string(),
        value: FieldValue::Text(value.to_string()),
    }
}

fn fields(pairs: &[(&str, &str)]) -> Vec<(String, String)> {
    pairs.iter().map(|(k, v)| (k.to_string(), v.to_string())).collect()
}

fn stored(commands: &[StoreCommand]) -> Vec<(String, String)> {
    let mut record: Vec<(String, String)> = Vec::new();
    for command in commands {
        if let StoreCommand::SetField { field, value: FieldValue::Text(text), .. } = command {
            match record.iter_mut().find(|(name, _)| name == field) {
                Some(pair) => pair.1 = text.clone(),
                None => record.push((field.clone(), text.clone())),
            }
        }
    }
    record
}

#[test]
fn queue_keeps_its_address() {
    assert_eq!(queue().redis_url, "redis://redis:6379");
}

#[test]
fn queue_takes_the_addresses_of_stores() {
    for url in ["redis://redis:6379", "redis://localhost", "redis://127.0.0.1:6379/2"] {
        assert_eq!(Queue::new(url), Ok(Queue { redis_url: url.to_string() }), "{:?}", url);
    }
}

#[test]
fn queue_refuses_what_is_no_address_of_a_store() {
    for url in ["", "not a url", "redis", "http://redis:6379", "redis:6379", "://redis"] {
        match Queue::new(url) {
            Err(QueueError::Address(reason)) => assert!(!reason.is_empty(), "{:?}", url),
            other => panic!("{:?} gave {:?}", url, other),
        }
    }
}

#[test]
fn queue_follows_the_verdict_on_its_address() {
    assert_eq!(Queue::checked("anything", Ok(())), Ok(Queue { redis_url: "anything".to_string() }));
    assert_eq!(
        Queue::checked("redis://redis:6379", Err("no route".to_string())),
        Err(QueueError::Address("no route".to_string()))
    );
}

#[test]
fn queue_error_message() {
    assert_eq!(QueueError::Address("Redis URL did not parse".to_string()).message(), "Failed to connect to Redis");
}

#[test]
fn ttl_constants() {
    assert_eq!(JOB_TTL_SECONDS, 24 * 60 * 60);
    assert_eq!(RESULT_TTL_SECONDS, 7 * 24 * 60 * 60);
}

#[test]
fn job_key_names_the_job() {
    assert_eq!(job_record_key("abc"), "transcribe:job:abc");
    assert_eq!(job_record_key(""), "transcribe:job:");
}

#[test]
fn set_job_status_writes_every_given_field() {
    let status = JobStatus { status: "processing".to_string(), current: Some(2), total: Some(5) };
    assert_eq!(
        queue().set_job_status("j1", &status),
        vec![
            set("transcribe:job:j1", "status", "processing"),
            set("transcribe:job:j1", "current", "2"),
            set("transcribe:job:j1", "total", "5"),
            StoreCommand::Expire { key: "transcribe:job:j1".to_string(), seconds: 86400 },
        ]
    );
}

#[test]
fn set_job_status_leaves_absent_fields_alone() {
    let status = JobStatus { status: "queued".to_string(), current: None, total: None };
    assert_eq!(
        queue().set_job_status("j2", &status),
        vec![
            set("transcribe:job:j2", "status", "queued"),
            StoreCommand::Expire { key: "transcribe:job:j2".to_string(), seconds: 86400 },
        ]
    );
    let status = JobStatus { status: "queued".to_string(), current: None, total: Some(0) };
    assert_eq!(
        queue().set_job_status("j2", &status),
        vec![
            set("transcribe:job:j2", "status", "queued"),
            set("transcribe:job:j2", "total", "0"),
            StoreCommand::Expire { key: "transcribe:job:j2".to_string(), seconds: 86400 },
        ]
    );
}

#[test]
fn every_write_renews_the_time_to_live() {
    let status = JobStatus { status: "processing".to_string(), current: Some(1), total: Some(1) };
    let commands = queue().set_job_status("j", &status);
    assert_eq!(
        commands.last(),
        Some(&StoreCommand::Expire { key: "transcribe:job:j".to_string(), seconds: 86400 })
    );
    let result = TranscriptionStatus {
        status: "failed".to_string(),
        text: None,
        duration: None,
        error: Some("e".to_string()),
    };
    let commands = queue().set_transcription_result("r", &result);
    assert_eq!(
        commands.last(),
        Some(&StoreCommand::Expire { key: "transcribe:result:r".to_string(), seconds: 604800 })
    );
}

#[test]
fn set_transcription_result_completed() {
    let result = TranscriptionStatus {
        status: "completed".to_string(),
        text: Some("hello world".to_string()),
        duration: Some(Seconds { bits: 2.0f64.to_bits() }),
        error: None,
    };
    assert_eq!(
        queue().set_transcription_result("rec-1", &result),
        vec![
            set("transcribe:result:rec-1", "status", "completed"),
            set("transcribe:result:rec-1", "text", "hello world"),
            StoreCommand::SetField {
                key: "transcribe:result:rec-1".to_string(),
                field: "duration".to_string(),
                value: FieldValue::Seconds(Seconds { bits: 0x4000_0000_0000_0000 }),
            },
            StoreCommand::Expire { key: "transcribe:result:rec-1".to_string(), seconds: 604800 },
        ]
    );
}

#[test]
fn set_transcription_result_failed() {
    let result = TranscriptionStatus {
        status: "failed".to_string(),
        text: None,
        duration: None,
        error: Some("Failed to get object from MinIO".to_string()),
    };
    assert_eq!(
        queue().set_transcription_result("rec-2", &result),
        vec![
            set("transcribe:result:rec-2", "status", "failed"),
            set("transcribe:result:rec-2", "error", "Failed to get object from MinIO"),
            StoreCommand::Expire { key: "transcribe:result:rec-2".to_string(), seconds: 604800 },
        ]
    );
}

#[test]
fn result_key_names_the_recording_not_the_job() {
    let first = TranscriptionStatus {
        status: "failed".to_string(),
        text: None,
        duration: None,
        error: Some("first".to_string()),
    };
    let second = TranscriptionStatus {
        status: "completed".to_string(),
        text: Some("second".to_string()),
        duration: Some(Seconds::zero()),
        error: None,
    };
    let a = queue().set_transcription_result("rec", &first);
    let b = queue().set_transcription_result("rec", &second);
    let key_of = |command: &StoreCommand| match command {
        StoreCommand::SetField { key, .. } => key.clone(),
        StoreCommand::Expire { key, .. } => key.clone(),
    };
    for command in a.iter().chain(b.iter()) {
        assert_eq!(key_of(command), "transcribe:result:rec");
    }
    let mut both = a.clone();
    both.extend(b.clone());
    let record = stored(&both);
    assert!(record.contains(&("status".to_string(), "completed".to_string())));
    assert!(record.contains(&("text".to_string(), "second".to_string())));
    let other = queue().set_transcription_result("rec2", &second);
    assert_eq!(key_of(&other[0]), "transcribe:result:rec2");
}

#[test]
fn get_job_status_of_no_field_is_none() {
    assert_eq!(queue().get_job_status(&Vec::new()), None);
}

#[test]
fn get_job_status_reads_a_full_record() {
    let record = fields(&[("status", "processing"), ("current", "3"), ("total", "10")]);
    assert_eq!(
        queue().get_job_status(&record),
        Some(JobStatus { status: "processing".to_string(), current: Some(3), total: Some(10) })
    );
    let record = fields(&[("total", "10"), ("status", "completed"), ("current", "10")]);
    assert_eq!(
        queue().get_job_status(&record),
        Some(JobStatus { status: "completed".to_string(), current: Some(10), total: Some(10) })
    );
}

#[test]
fn get_job_status_of_a_partial_record() {
    assert_eq!(
        queue().get_job_status(&fields(&[("current", "3")])),
        Some(JobStatus { status: "".to_string(), current: Some(3), total: None })
    );
    assert_eq!(
        queue().get_job_status(&fields(&[("status", "queued")])),
        Some(JobStatus { status: "queued".to_string(), current: None, total: None })
    );
    assert_eq!(
        queue().get_job_status(&fields(&[("other", "x")])),
        Some(JobStatus { status: "".to_string(), current: None, total: None })
    );
}

#[test]
fn get_job_status_drops_malformed_counters() {
    let record = fields(&[("status", "processing"), ("current", "three"), ("total", "4294967296")]);
    assert_eq!(
        queue().get_job_status(&record),
        Some(JobStatus { status: "processing".to_string(), current: None, total: None })
    );
    let record = fields(&[("status", "processing"), ("current", "-1"), ("total", "")]);
    assert_eq!(
        queue().get_job_status(&record),
        Some(JobStatus { status: "processing".to_string(), current: None, total: None })
    );
}

#[test]
fn a_written_job_status_reads_back() {
    for status in [
        JobStatus { status: "queued".to_string(), current: Some(0), total: Some(3) },
        JobStatus { status: "processing".to_string(), current: Some(2), total: Some(3) },
        JobStatus { status: "completed".to_string(), current: Some(u32::MAX), total: Some(u32::MAX) },
        JobStatus { status: "queued".to_string(), current: None, total: None },
    ] {
        let commands = queue().set_job_status("job", &status);
        assert_eq!(queue().get_job_status(&stored(&commands)), Some(status));
    }
}

#[test]
fn a_later_write_keeps_fields_it_does_not_name() {
    let first = JobStatus { status: "queued".to_string(), current: Some(0), total: Some(3) };
    let second = JobStatus { status: "processing".to_string(), current: Some(1), total: None };
    let mut commands = queue().set_job_status("job", &first);
    commands.extend(queue().set_job_status("job", &second));
    assert_eq!(
        queue().get_job_status(&stored(&commands)),
        Some(JobStatus { status: "processing".to_string(), current: Some(1), total: Some(3) })
    );
}
