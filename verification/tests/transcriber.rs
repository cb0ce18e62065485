use transcriber_rs::transcriber::{
    assemble, declares_canonical_audio, extension_of, segments_from_tokens, EngineReply,
    EngineRequest, EngineStep, Phase, Seconds, Segment, Token, TranscribeError, Transcriber,
    Transcription, TranscriptionResult,
};

fn secs(value: f64) -> Seconds {
    Seconds { bits: value.to_bits() }
}

fn token(start: f64, end: f64, text: &str) -> Token {
    Token { start: secs(start), end: secs(end), text: text.to_string() }
}

fn segment(start: f64, end: f64, text: &str) -> Segment {
    Segment { start: secs(start), end: secs(end), text: text.to_string() }
}

fn ready() -> Transcriber {
    let mut transcriber = Transcriber::new();
    assert_eq!(transcriber.load_model(Ok(())), Ok(()));
    transcriber
}

fn done(outcome: Result<TranscriptionResult, TranscribeError>) -> EngineStep {
    EngineStep::Done { outcome, remove: None }
}

fn done_removing(outcome: Result<TranscriptionResult, TranscribeError>, path: &str) -> EngineStep {
    EngineStep::Done { outcome, remove: Some(path.to_string()) }
}

fn args(input: &str, output: &str) -> Vec<String> {
    ["-i", input, "-ar", "16000", "-ac", "1", "-f", "wav", "-y", output]
        .iter()
        .map(|s| s.to_string())
        .collect()
}

#[test]
fn zero_seconds_is_the_double_zero() {
    assert_eq!(Seconds::zero(), secs(0.0));
    assert_eq!(f64::from_bits(Seconds::zero().bits), 0.0);
}

#[test]
fn a_new_guard_is_not_ready() {
    assert!(!Transcriber::new().is_ready());
    assert!(!Transcriber::default().is_ready());
}

#[test]
fn loading_makes_the_guard_ready() {
    let mut transcriber = Transcriber::new();
    assert_eq!(transcriber.load_model(Ok(())), Ok(()));
    assert!(transcriber.is_ready());
}

#[test]
fn a_failed_load_leaves_the_guard_not_ready() {
    let mut transcriber = Transcriber::new();
    assert_eq!(
        transcriber.load_model(Err(TranscribeError::LoadFailed)),
        Err(TranscribeError::LoadFailed)
    );
    assert!(!transcriber.is_ready());
    assert_eq!(
        transcriber.load_model(Err(TranscribeError::Worker("task panicked".to_string()))),
        Err(TranscribeError::Worker("task panicked".to_string()))
    );
    assert!(!transcriber.is_ready());
}

#[test]
fn a_failed_reload_keeps_a_ready_guard_ready() {
    let mut transcriber = ready();
    assert!(transcriber.load_model(Err(TranscribeError::LoadFailed)).is_err());
    assert!(transcriber.is_ready());
}

#[test]
fn error_messages() {
    assert_eq!(TranscribeError::NotLoaded.message(), "Model not loaded");
    assert_eq!(TranscribeError::LoadFailed.message(), "Failed to load Parakeet TDT model");
    assert_eq!(TranscribeError::TempFile.message(), "Failed to create temp WAV file");
    assert_eq!(TranscribeError::ConverterNotRun.message(), "Failed to run ffmpeg");
    assert_eq!(
        TranscribeError::Conversion("no such codec\n".to_string()).message(),
        "ffmpeg conversion failed: no such codec\n"
    );
    assert_eq!(TranscribeError::Conversion(String::new()).message(), "ffmpeg conversion failed: ");
    assert_eq!(TranscribeError::NotInitialized.message(), "Model not initialized");
    assert_eq!(TranscribeError::Inference.message(), "Transcription failed");
    assert_eq!(TranscribeError::Worker("task 7 panicked".to_string()).message(), "task 7 panicked");
}

#[test]
fn extension_is_what_follows_the_last_dot_of_the_file_name() {
    assert_eq!(extension_of("a.wav"), Some("wav"));
    assert_eq!(extension_of("/tmp/audio.ogg"), Some("ogg"));
    assert_eq!(extension_of("archive.tar.gz"), Some("gz"));
    assert_eq!(extension_of("/tmp/x.y/file.mp3"), Some("mp3"));
    assert_eq!(extension_of("name."), Some(""));
    assert_eq!(extension_of("..wav"), Some("wav"));
    assert_eq!(extension_of("\u{e9}.\u{e9}"), Some("\u{e9}"));
}

#[test]
fn extension_is_absent_without_an_inner_dot() {
    assert_eq!(extension_of(""), None);
    assert_eq!(extension_of("wav"), None);
    assert_eq!(extension_of("/tmp/.tmpAbC123"), None);
    assert_eq!(extension_of(".wav"), None);
    assert_eq!(extension_of("/tmp/x.wav/file"), None);
    assert_eq!(extension_of("/"), None);
    assert_eq!(extension_of("//"), None);
    assert_eq!(extension_of("a/.hidden"), None);
}

#[test]
fn extension_passes_over_separators_and_this_directory_at_the_end() {
    assert_eq!(extension_of("a.wav/"), Some("wav"));
    assert_eq!(extension_of("a.wav//"), Some("wav"));
    assert_eq!(extension_of("a.wav/."), Some("wav"));
    assert_eq!(extension_of("a.wav/./"), Some("wav"));
    assert_eq!(extension_of("a.wav/.//./"), Some("wav"));
    assert_eq!(extension_of("/tmp/a.wav/"), Some("wav"));
    assert_eq!(extension_of("/tmp/dir.d/"), Some("d"));
    assert_eq!(extension_of("noext/"), None);
    assert_eq!(extension_of(".hidden/"), None);
}

#[test]
fn extension_is_absent_for_the_parent_and_this_directory() {
    assert_eq!(extension_of(".."), None);
    assert_eq!(extension_of("../"), None);
    assert_eq!(extension_of("a.wav/.."), None);
    assert_eq!(extension_of("/.."), None);
    assert_eq!(extension_of("a/../."), None);
    assert_eq!(extension_of("."), None);
    assert_eq!(extension_of("./"), None);
    assert_eq!(extension_of("./."), None);
    assert_eq!(extension_of("/."), None);
    assert_eq!(extension_of("..."), Some(""));
    assert_eq!(extension_of("a.."), Some(""));
    assert_eq!(extension_of("x/..a"), Some("a"));
}

#[test]
fn extension_agrees_with_std_on_plain_paths() {
    for path in ["a.wav", "/tmp/a.OGG", "/tmp/.tmpXyZ", "noext", "a.b.c", "/x.y/z", ".hidden", "dir/.hidden.txt"] {
        let std_ext = std::path::Path::new(path).extension().and_then(|e| e.to_str());
        assert_eq!(extension_of(path), std_ext, "{:?}", path);
    }
}

#[test]
fn extension_agrees_with_std_on_odd_paths() {
    for path in [
        "", "/", "//", ".", "./", "/.", "./.", "..", "../", "/..", "./..", "..//", "...", ".../.", "a..", "..a",
        "a.wav/", "a.wav//", "a.wav/.", "a.wav/./", "a.wav/..", "a.wav/../", "a.wav/./.", "./a.wav", "./a.wav/.",
        "a/./.", "a/.b", "a/.b/", "a/.b.c/.", "x/..a", "x/..a/", "//a.b//.", "/a.b/c", "/a.b/c/", "a.", "a./",
        ".a.", "a.b/.c", "..wav", "../a.wav", "a.wav/../b.ogg/", ".//.", "a//b.c", "a/ .wav", " .wav", ". ",
    ] {
        let std_ext = std::path::Path::new(path).extension().and_then(|e| e.to_str());
        assert_eq!(extension_of(path), std_ext, "{:?}", path);
    }
}

#[test]
fn extension_agrees_with_std_on_every_short_path() {
    let letters = ['a', '.', '/'];
    let mut paths = vec![String::new()];
    let mut frontier = vec![String::new()];
    for _ in 0..7 {
        let mut next = Vec::new();
        for path in &frontier {
            for letter in letters {
                let mut longer = path.clone();
                longer.push(letter);
                next.push(longer);
            }
        }
        paths.extend(next.iter().cloned());
        frontier = next;
    }
    assert_eq!(paths.len(), 3280);
    for path in &paths {
        let std_ext = std::path::Path::new(path).extension().and_then(|e| e.to_str());
        assert_eq!(extension_of(path), std_ext, "{:?}", path);
    }
}

#[test]
fn canonical_audio_is_wav_in_any_case() {
    assert!(declares_canonical_audio("a.wav"));
    assert!(declares_canonical_audio("/tmp/a.WAV"));
    assert!(declares_canonical_audio("/tmp/a.Wav"));
    assert!(declares_canonical_audio("x.ogg.wAv"));
    assert!(!declares_canonical_audio("a.ogg"));
    assert!(!declares_canonical_audio("a.wave"));
    assert!(!declares_canonical_audio("a.wa"));
    assert!(!declares_canonical_audio("wav"));
    assert!(!declares_canonical_audio(".wav"));
    assert!(!declares_canonical_audio("/tmp/.tmpAbCdEf"));
    assert!(!declares_canonical_audio("a.wav.ogg"));
    assert!(!declares_canonical_audio("a.w\u{e4}v"));
}

#[test]
fn canonical_audio_is_told_by_the_file_name_whatever_follows_it() {
    assert!(declares_canonical_audio("a.wav/"));
    assert!(declares_canonical_audio("/tmp/a.wav/"));
    assert!(declares_canonical_audio("a.WAV//"));
    assert!(declares_canonical_audio("a.wav/."));
    assert!(declares_canonical_audio("/tmp/a.wav/./"));
    assert!(!declares_canonical_audio("a.wav/.."));
    assert!(!declares_canonical_audio("a.wav/b"));
    assert!(!declares_canonical_audio("a.ogg/"));
}

#[test]
fn canonical_audio_agrees_with_lowercasing() {
    for path in [
        "a.wav", "a.WAV", "a.wAv", "a.mp3", "a.wavv", "a", "a.WaV", "b.waV", "a.wav/", "a.Wav/.", "a.wav/..",
        "/tmp/a.WAV//", "..", "wav/", ".wav/",
    ] {
        let lowered = std::path::Path::new(path)
            .extension()
            .and_then(|e| e.to_str())
            .unwrap_or("")
            .to_lowercase();
        assert_eq!(declares_canonical_audio(path), lowered == "wav", "{:?}", path);
    }
}

#[test]
fn tokens_become_segments_one_for_one() {
    let tokens = vec![token(0.0, 0.5, "hello"), token(0.5, 1.25, " world"), token(1.25, 1.5, "!")];
    assert_eq!(
        segments_from_tokens(&tokens),
        vec![segment(0.0, 0.5, "hello"), segment(0.5, 1.25, " world"), segment(1.25, 1.5, "!")]
    );
    assert_eq!(segments_from_tokens(&Vec::new()), Vec::<Segment>::new());
}

#[test]
fn duration_is_the_end_of_the_last_segment() {
    let tokens = vec![token(0.0, 0.5, "a"), token(0.5, 3.75, "b")];
    let result = assemble("a b".to_string(), &tokens, secs(99.0));
    assert_eq!(result.text, "a b");
    assert_eq!(result.segments.len(), 2);
    assert_eq!(f64::from_bits(result.duration.bits), 3.75);
}

#[test]
fn duration_falls_back_to_the_measured_length() {
    let samples: u32 = 32000;
    let sample_rate: u32 = 16000;
    let channels: u16 = 1;
    let measured = samples as f64 / sample_rate as f64 / channels as f64;
    let result = assemble(String::new(), &Vec::new(), secs(measured));
    assert!(result.segments.is_empty());
    assert_eq!(f64::from_bits(result.duration.bits), 2.0);
}

#[test]
fn transcribe_without_a_loaded_engine_fails_at_once() {
    let (session, step) = Transcriber::new().transcribe("/tmp/a.wav");
    assert_eq!(step, done(Err(TranscribeError::NotLoaded)));
    assert_eq!(session.phase, Phase::Finished);
}

#[test]
fn canonical_audio_goes_straight_to_the_engine() {
    let (session, step) = ready().transcribe("/tmp/a.wav");
    assert_eq!(step, EngineStep::Ask(EngineRequest::Infer { audio_path: "/tmp/a.wav".to_string() }));
    assert_eq!(session.phase, Phase::Inference { audio: "/tmp/a.wav".to_string() });
}

#[test]
fn canonical_audio_behind_a_separator_goes_straight_to_the_engine() {
    for path in ["/tmp/a.wav/", "a.WAV//", "a.wav/.", "/tmp/a.wav/./"] {
        let (session, step) = ready().transcribe(path);
        assert_eq!(step, EngineStep::Ask(EngineRequest::Infer { audio_path: path.to_string() }), "{:?}", path);
        assert_eq!(
            session,
            Transcription { phase: Phase::Inference { audio: path.to_string() }, temp_wav: None },
            "{:?}",
            path
        );
    }
    let (_, step) = ready().transcribe("a.wav/..");
    assert_eq!(step, EngineStep::Ask(EngineRequest::CreateTempWav));
}

#[test]
fn other_audio_is_converted_first() {
    let (mut session, step) = ready().transcribe("/tmp/.tmpAbc");
    assert_eq!(step, EngineStep::Ask(EngineRequest::CreateTempWav));
    let step = session.step(EngineReply::TempWav("/tmp/.tmpOut".to_string()));
    assert_eq!(
        step,
        EngineStep::Ask(EngineRequest::Convert {
            program: "ffmpeg".to_string(),
            args: args("/tmp/.tmpAbc", "/tmp/.tmpOut"),
        })
    );
    let step = session.step(EngineReply::Converted { success: true, stderr: "warnings".to_string() });
    assert_eq!(step, EngineStep::Ask(EngineRequest::Infer { audio_path: "/tmp/.tmpOut".to_string() }));
    let step = session.step(EngineReply::Inferred {
        text: "hi there".to_string(),
        tokens: vec![token(0.0, 0.4, "hi"), token(0.4, 1.0, "there")],
    });
    assert_eq!(
        step,
        done_removing(
            Ok(TranscriptionResult {
                text: "hi there".to_string(),
                segments: vec![segment(0.0, 0.4, "hi"), segment(0.4, 1.0, "there")],
                duration: secs(1.0),
            }),
            "/tmp/.tmpOut"
        )
    );
    assert_eq!(session, Transcription { phase: Phase::Finished, temp_wav: None });
}

#[test]
fn converter_arguments_fix_rate_channels_and_format() {
    let (mut session, _) = ready().transcribe("in.ogg");
    match session.step(EngineReply::TempWav("out".to_string())) {
        EngineStep::Ask(EngineRequest::Convert { program, args }) => {
            assert_eq!(program, "ffmpeg");
            assert_eq!(args, vec!["-i", "in.ogg", "-ar", "16000", "-ac", "1", "-f", "wav", "-y", "out"]);
        }
        other => panic!("unexpected step {:?}", other),
    }
}

#[test]
fn a_failed_temp_file_ends_the_transcription() {
    let (mut session, _) = ready().transcribe("a.ogg");
    assert_eq!(session.step(EngineReply::Failed), done(Err(TranscribeError::TempFile)));
    assert_eq!(session.phase, Phase::Finished);
}

#[test]
fn a_failed_conversion_keeps_the_error_output() {
    let (mut session, _) = ready().transcribe("a.ogg");
    session.step(EngineReply::TempWav("w".to_string()));
    let step = session.step(EngineReply::Converted { success: false, stderr: "Invalid data".to_string() });
    assert_eq!(step, done_removing(Err(TranscribeError::Conversion("Invalid data".to_string())), "w"));
    assert_eq!(session.phase, Phase::Finished);
    match step {
        EngineStep::Done { outcome: Err(e), .. } => {
            assert_eq!(e.message(), "ffmpeg conversion failed: Invalid data")
        }
        other => panic!("unexpected step {:?}", other),
    }
}

#[test]
fn a_converter_that_does_not_start() {
    let (mut session, _) = ready().transcribe("a.ogg");
    session.step(EngineReply::TempWav("w".to_string()));
    assert_eq!(
        session.step(EngineReply::Failed),
        done_removing(Err(TranscribeError::ConverterNotRun), "w")
    );
}

#[test]
fn a_dead_worker_ends_the_transcription_with_its_report() {
    let (mut session, _) = ready().transcribe("a.ogg");
    session.step(EngineReply::TempWav("w".to_string()));
    assert_eq!(
        session.step(EngineReply::Aborted("panicked".to_string())),
        done_removing(Err(TranscribeError::Worker("panicked".to_string())), "w")
    );
    let (mut session, _) = ready().transcribe("a.wav");
    assert_eq!(
        session.step(EngineReply::Aborted("cancelled".to_string())),
        done(Err(TranscribeError::Worker("cancelled".to_string())))
    );
}

#[test]
fn engine_failures() {
    let (mut session, _) = ready().transcribe("a.wav");
    assert_eq!(session.step(EngineReply::Failed), done(Err(TranscribeError::Inference)));
    let (mut session, _) = ready().transcribe("a.wav");
    assert_eq!(session.step(EngineReply::NoEngine), done(Err(TranscribeError::NotInitialized)));
}

#[test]
fn without_tokens_the_audio_is_measured() {
    let (mut session, _) = ready().transcribe("/tmp/two_seconds.wav");
    let step = session.step(EngineReply::Inferred { text: String::new(), tokens: Vec::new() });
    assert_eq!(
        step,
        EngineStep::Ask(EngineRequest::ProbeDuration { audio_path: "/tmp/two_seconds.wav".to_string() })
    );
    let measured = 32000f64 / 16000f64 / 1f64;
    let step = session.step(EngineReply::Duration(secs(measured)));
    assert_eq!(
        step,
        done(Ok(TranscriptionResult { text: String::new(), segments: Vec::new(), duration: secs(2.0) }))
    );
}

#[test]
fn without_tokens_the_converted_file_is_measured() {
    let (mut session, _) = ready().transcribe("a.ogg");
    session.step(EngineReply::TempWav("/tmp/w".to_string()));
    session.step(EngineReply::Converted { success: true, stderr: String::new() });
    let step = session.step(EngineReply::Inferred { text: "x".to_string(), tokens: Vec::new() });
    assert_eq!(step, EngineStep::Ask(EngineRequest::ProbeDuration { audio_path: "/tmp/w".to_string() }));
}

#[test]
fn an_unmeasurable_file_has_duration_zero() {
    let (mut session, _) = ready().transcribe("a.wav");
    session.step(EngineReply::Inferred { text: "silence".to_string(), tokens: Vec::new() });
    let step = session.step(EngineReply::Failed);
    assert_eq!(
        step,
        done(Ok(TranscriptionResult {
            text: "silence".to_string(),
            segments: Vec::new(),
            duration: secs(0.0),
        }))
    );
}

#[test]
fn the_converted_file_is_held_until_the_end_and_then_removed() {
    let (mut session, _) = ready().transcribe("a.ogg");
    assert_eq!(session.temp_wav, None);
    session.step(EngineReply::TempWav("/tmp/w".to_string()));
    assert_eq!(session.temp_wav, Some("/tmp/w".to_string()));
    session.step(EngineReply::Converted { success: true, stderr: String::new() });
    assert_eq!(session.temp_wav, Some("/tmp/w".to_string()));
    session.step(EngineReply::Inferred { text: "x".to_string(), tokens: Vec::new() });
    assert_eq!(session.temp_wav, Some("/tmp/w".to_string()));
    assert_eq!(session.step(EngineReply::NoEngine), EngineStep::Rejected);
    assert_eq!(session.temp_wav, Some("/tmp/w".to_string()));
    let step = session.step(EngineReply::Duration(secs(2.0)));
    assert_eq!(
        step,
        done_removing(
            Ok(TranscriptionResult { text: "x".to_string(), segments: Vec::new(), duration: secs(2.0) }),
            "/tmp/w"
        )
    );
    assert_eq!(session.temp_wav, None);
}

#[test]
fn canonical_audio_leaves_nothing_to_remove() {
    let (mut session, _) = ready().transcribe("a.wav");
    let step = session.step(EngineReply::Inferred { text: "x".to_string(), tokens: vec![token(0.0, 1.0, "x")] });
    assert_eq!(
        step,
        done(Ok(TranscriptionResult {
            text: "x".to_string(),
            segments: vec![segment(0.0, 1.0, "x")],
            duration: secs(1.0),
        }))
    );
}

#[test]
fn a_reply_out_of_turn_is_rejected() {
    let (mut session, _) = ready().transcribe("a.ogg");
    let before = session.clone();
    assert_eq!(session.step(EngineReply::Duration(secs(1.0))), EngineStep::Rejected);
    assert_eq!(session.step(EngineReply::NoEngine), EngineStep::Rejected);
    assert_eq!(session.step(EngineReply::Aborted("x".to_string())), EngineStep::Rejected);
    assert_eq!(
        session.step(EngineReply::Inferred { text: String::new(), tokens: Vec::new() }),
        EngineStep::Rejected
    );
    assert_eq!(session, before);
    session.step(EngineReply::TempWav("w".to_string()));
    let before = session.clone();
    assert_eq!(session.step(EngineReply::TempWav("w2".to_string())), EngineStep::Rejected);
    assert_eq!(session.step(EngineReply::NoEngine), EngineStep::Rejected);
    assert_eq!(session, before);
    session.step(EngineReply::Converted { success: true, stderr: String::new() });
    let before = session.clone();
    assert_eq!(
        session.step(EngineReply::Converted { success: true, stderr: String::new() }),
        EngineStep::Rejected
    );
    assert_eq!(session, before);
    session.step(EngineReply::Inferred { text: String::new(), tokens: Vec::new() });
    let before = session.clone();
    assert_eq!(session.step(EngineReply::NoEngine), EngineStep::Rejected);
    assert_eq!(session.step(EngineReply::Aborted("x".to_string())), EngineStep::Rejected);
    assert_eq!(session, before);
}

#[test]
fn a_finished_transcription_rejects_everything() {
    let mut session = Transcription { phase: Phase::Finished, temp_wav: None };
    assert_eq!(session.step(EngineReply::Failed), EngineStep::Rejected);
    assert_eq!(session.step(EngineReply::TempWav("w".to_string())), EngineStep::Rejected);
    assert_eq!(session.step(EngineReply::Duration(secs(1.0))), EngineStep::Rejected);
    assert_eq!(session.phase, Phase::Finished);
}
