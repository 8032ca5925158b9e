use vibe_server::catalog::{ModelConfig, ModelMapping, ModelPath};
use vibe_server::config::{
    TranscribeModuleConfig, TranscribeModuleOptions, TranscribeOptions, VadParameters,
};
use vibe_server::error::ErrorKind;
use vibe_server::executor::{EngineSegment, JobAction, JobEvent, JobExecutor};
use vibe_server::registry::{JobRecord, JobState};
use vibe_server::server::{
    get_transcription_result, get_transcription_status, inject_audio, list_models, load,
    transcribe, JobStatusRequest, LoadPayload, LoadPlan, ModelContext, Submission,
};

fn config() -> TranscribeModuleConfig {
    TranscribeModuleConfig {
        language: Some("en".to_string()),
        initial_prompt: None,
        translate: false,
        word_timestamps: false,
        max_text_ctx: None,
        max_sentence_len: None,
        n_threads: Some(4),
        temperature: None,
        detect_language: false,
        diarize: false,
        max_speakers: None,
        beam_size: None,
        best_of: None,
        speaker_recognition_threshold: None,
        vad_filter: false,
        vad_parameters: VadParameters::default(),
        segment_model_filename: "segment.onnx".to_string(),
        embedding_model_filename: "embedding.onnx".to_string(),
        embedding_model_url: "http://models/embedding.onnx".to_string(),
        segment_model_url: "http://models/segment.onnx".to_string(),
    }
}

fn catalog() -> ModelConfig {
    ModelConfig {
        model_directory: "/models".to_string(),
        default_model: "base".to_string(),
        mappings: vec![
            ModelMapping { name: "base".to_string(), filename: "base.bin".to_string() },
            ModelMapping { name: "small".to_string(), filename: "small.bin".to_string() },
        ],
    }
}

fn context() -> ModelContext<u32> {
    ModelContext::new(config(), catalog()).unwrap()
}

fn submission(model: Option<&str>) -> Submission {
    Submission {
        file_path: Some("/tmp/a.wav".to_string()),
        file_exists: true,
        model: model.map(|m| m.to_string()),
        model_file_exists: true,
        module_options: None,
        task_options: None,
    }
}

fn status(context: &ModelContext<u32>, id: &str) -> String {
    get_transcription_status(context, &JobStatusRequest { job_id: id.to_string() }).status
}

fn path(filename: &str) -> ModelPath {
    ModelPath { directory: "/models".to_string(), filename: filename.to_string() }
}

#[test]
fn a_new_context_has_no_model_and_no_job() {
    let mut context = context();
    assert!(!context.whisper.held());
    let lease = context.whisper.acquire_exclusive().unwrap();
    assert_eq!(lease.slot().handle(), None);
    assert!(!context.results.contains("job"));
}

#[test]
fn a_submission_without_a_file_is_turned_down() {
    let mut context = context();
    let mut bad = submission(None);
    bad.file_path = None;
    let error = transcribe(&mut context, &bad).unwrap_err();
    assert_eq!(error.kind, ErrorKind::InvalidRequest);
    assert_eq!(error.message, "No file uploaded");
}

#[test]
fn a_submission_whose_upload_is_gone_is_turned_down() {
    let mut context = context();
    let mut bad = submission(None);
    bad.file_exists = false;
    let error = transcribe(&mut context, &bad).unwrap_err();
    assert_eq!(error.kind, ErrorKind::InvalidRequest);
    assert_eq!(error.message, "Uploaded file not found");
}

#[test]
fn an_unknown_model_is_turned_down_before_any_job_exists() {
    let mut context = context();
    let known = transcribe(&mut context, &submission(None)).unwrap().job_id;
    let error = context.transcribe_with(&submission(Some("large")), "job-x".to_string())
        .unwrap_err();
    assert_eq!(error.kind, ErrorKind::ModelNotFound);
    assert_eq!(error.message, "Model 'large' not found in configuration");
    assert!(!context.results.contains("job-x"));
    assert_eq!(status(&context, "job-x"), "not_found");
    assert_eq!(status(&context, &known), "processing");
    let again = transcribe(&mut context, &submission(Some("large"))).unwrap_err();
    assert_eq!(again.kind, ErrorKind::ModelNotFound);
}

#[test]
fn a_model_whose_file_is_missing_is_turned_down() {
    let mut context = context();
    let mut bad = submission(Some("small"));
    bad.model_file_exists = false;
    let error = transcribe(&mut context, &bad).unwrap_err();
    assert_eq!(error.kind, ErrorKind::ModelNotFound);
    assert_eq!(error.message, "Model file for 'small' not found");
}

#[test]
fn an_empty_upload_path_is_turned_down() {
    let mut context = context();
    let mut bad = submission(None);
    bad.file_path = Some(String::new());
    let error = context.transcribe_with(&bad, "job-1".to_string()).unwrap_err();
    assert_eq!(error.kind, ErrorKind::InvalidRequest);
    assert_eq!(error.message, "No audio file path after merging the options");
    assert!(!context.results.contains("job-1"));
}

#[test]
fn the_checks_run_in_their_order() {
    let mut context = context();
    let mut bad = submission(Some("large"));
    bad.file_exists = false;
    bad.model_file_exists = false;
    assert_eq!(transcribe(&mut context, &bad).unwrap_err().message, "Uploaded file not found");
    bad.file_path = None;
    assert_eq!(transcribe(&mut context, &bad).unwrap_err().message, "No file uploaded");
    bad.file_path = Some("a.wav".to_string());
    bad.file_exists = true;
    assert_eq!(
        transcribe(&mut context, &bad).unwrap_err().message,
        "Model 'large' not found in configuration"
    );
}

#[test]
fn an_identifier_in_use_is_turned_down() {
    let mut context = context();
    context.transcribe_with(&submission(None), "job-1".to_string()).unwrap();
    let error = context.transcribe_with(&submission(None), "job-1".to_string()).unwrap_err();
    assert_eq!(error.kind, ErrorKind::IdentifierCollision);
    assert_eq!(error.message, "Job identifier already in use");
    assert_eq!(status(&context, "job-1"), "processing");
}

#[test]
fn an_accepted_submission_is_processing_at_once() {
    let mut context = context();
    let ticket = transcribe(&mut context, &submission(None)).unwrap();
    assert_eq!(ticket.job_id.chars().count(), 36);
    assert_eq!(ticket.model_path, path("base.bin"));
    assert_eq!(ticket.options.path, "/tmp/a.wav");
    assert_eq!(ticket.options.lang, Some("en".to_string()));
    assert_eq!(ticket.options.n_threads, Some(4));
    assert_eq!(context.results.get(&ticket.job_id), Some(&JobRecord::Processing));
    assert_eq!(status(&context, &ticket.job_id), "processing");
    let other = transcribe(&mut context, &submission(Some("small"))).unwrap();
    assert_ne!(other.job_id, ticket.job_id);
    assert_eq!(other.model_path, path("small.bin"));
}

#[test]
fn the_layers_of_a_submission_are_merged_by_precedence() {
    let mut context = context();
    let mut request = submission(None);
    let mut module = TranscribeModuleOptions::default();
    module.max_speakers = Some(3);
    module.diarize = Some(true);
    let mut module_core = TranscribeOptions::default();
    module_core.lang = Some("fr".to_string());
    module_core.n_threads = Some(2);
    module.core_options = Some(module_core);
    let mut task = TranscribeModuleOptions::default();
    task.max_speakers = Some(5);
    let mut task_core = TranscribeOptions::default();
    task_core.path = "ignored.wav".to_string();
    task_core.n_threads = Some(8);
    task.core_options = Some(task_core);
    request.module_options = Some(module);
    request.task_options = Some(task);
    let ticket = context.transcribe_with(&request, "job-1".to_string()).unwrap();
    assert_eq!(ticket.options.path, "/tmp/a.wav");
    assert_eq!(ticket.options.lang, Some("fr".to_string()));
    assert_eq!(ticket.options.n_threads, Some(8));
    assert_eq!(ticket.options.translate, Some(false));
    let diarize = ticket.options.diarize.unwrap();
    assert_eq!(diarize.max_speakers, 5);
    assert_eq!(diarize.threshold, 0.5f32.to_bits());
    assert_eq!(diarize.embedding_model, Some("embedding.onnx".to_string()));
}

#[test]
fn injecting_the_audio_file_keeps_the_other_fields() {
    let mut layer = TranscribeModuleOptions::default();
    layer.vad_filter = Some(true);
    let mut core = TranscribeOptions::default();
    core.path = "old.wav".to_string();
    core.translate = Some(true);
    layer.core_options = Some(core);
    let injected = inject_audio(Some(&layer), "new.wav");
    assert_eq!(injected.vad_filter, Some(true));
    let core = injected.core_options.unwrap();
    assert_eq!(core.path, "new.wav");
    assert_eq!(core.translate, Some(true));
    let bare = inject_audio(None, "new.wav");
    assert_eq!(bare.core_options.unwrap().path, "new.wav");
    assert_eq!(bare.diarize, None);
}

#[test]
fn a_submitted_file_is_transcribed_and_its_result_can_be_fetched() {
    let mut context = context();
    let ticket = transcribe(&mut context, &submission(Some("base"))).unwrap();
    let job_id = ticket.job_id.clone();
    assert_eq!(status(&context, &job_id), "processing");
    let request = JobStatusRequest { job_id: job_id.clone() };
    assert_eq!(get_transcription_result(&context, &request).text, "Job not found");

    let mut lease = context.whisper.acquire_exclusive().unwrap();
    assert!(context.whisper.acquire_exclusive().is_none());
    let mut executor = JobExecutor::new(ticket);
    assert_eq!(executor.step(&mut lease, JobEvent::ModelAcquired), JobAction::CreateContext);
    assert_eq!(executor.step(&mut lease, JobEvent::ContextCreated(Ok(1))), JobAction::Transcribe);
    assert_eq!(status(&context, &job_id), "processing");
    let segments = vec![
        EngineSegment { start: 0, stop: 120, text: "hello".to_string(), speaker: None },
        EngineSegment { start: 120, stop: 300, text: "world".to_string(), speaker: None },
    ];
    assert_eq!(executor.step(&mut lease, JobEvent::EngineFinished(Ok(segments))), JobAction::Finish);
    assert!(context.finish_job(executor, lease));

    assert_eq!(status(&context, &job_id), "completed");
    assert_eq!(context.results.status(&job_id), Some(JobState::Completed));
    let result = get_transcription_result(&context, &request);
    assert_eq!(result.text, "hello world");
    assert!(!result.segments.is_empty());
    assert!(result.segments.iter().all(|s| s.start <= s.end));
    assert!(!context.whisper.held());
    let next = context.whisper.acquire_exclusive().unwrap();
    assert_eq!(next.slot().handle(), Some(&1));
    assert_eq!(next.slot().path(), Some(&path("base.bin")));
}

#[test]
fn a_failed_job_is_recorded_and_the_model_is_released() {
    let mut context = context();
    let ticket = context.transcribe_with(&submission(None), "job-1".to_string()).unwrap();
    let mut lease = context.whisper.acquire_exclusive().unwrap();
    let mut executor = JobExecutor::new(ticket);
    executor.step(&mut lease, JobEvent::ModelAcquired);
    executor.step(&mut lease, JobEvent::ContextCreated(Err("corrupt".to_string())));
    assert!(context.finish_job(executor, lease));
    assert_eq!(status(&context, "job-1"), "failed");
    let record = context.results.get("job-1").unwrap();
    assert_eq!(record.error().unwrap().kind, ErrorKind::ModelLoadFailed);
    let request = JobStatusRequest { job_id: "job-1".to_string() };
    let answer = get_transcription_result(&context, &request);
    assert_eq!(answer.text, "Job not found");
    assert!(answer.segments.is_empty());
    assert!(!context.whisper.held());
}

#[test]
fn a_job_that_is_ended_early_does_not_stay_processing() {
    let mut context = context();
    let ticket = context.transcribe_with(&submission(None), "job-1".to_string()).unwrap();
    let lease = context.whisper.acquire_exclusive().unwrap();
    let executor = JobExecutor::new(ticket);
    assert!(context.finish_job(executor, lease));
    assert_eq!(status(&context, "job-1"), "failed");
    assert_eq!(
        context.results.get("job-1").unwrap().error().unwrap().message,
        "Job ended before the engine answered"
    );
}

#[test]
fn two_jobs_with_the_same_model_load_it_once() {
    let mut context = context();
    let first = context.transcribe_with(&submission(None), "job-1".to_string()).unwrap();
    let second = context.transcribe_with(&submission(None), "job-2".to_string()).unwrap();
    let mut loads = 0;
    for ticket in [first, second] {
        let mut lease = context.whisper.acquire_exclusive().unwrap();
        let mut executor = JobExecutor::new(ticket);
        let mut action = executor.step(&mut lease, JobEvent::ModelAcquired);
        if action == JobAction::CreateContext {
            loads += 1;
            action = executor.step(&mut lease, JobEvent::ContextCreated(Ok(loads)));
        }
        assert_eq!(action, JobAction::Transcribe);
        executor.step(&mut lease, JobEvent::EngineFinished(Ok(vec![])));
        context.finish_job(executor, lease);
    }
    assert_eq!(loads, 1);
    assert_eq!(status(&context, "job-1"), "completed");
    assert_eq!(status(&context, "job-2"), "completed");
}

#[test]
fn the_status_of_an_unknown_job_is_not_found() {
    let context = context();
    let answer = get_transcription_status(&context, &JobStatusRequest { job_id: "nope".to_string() });
    assert_eq!(answer.job_id, "nope");
    assert_eq!(answer.status, "not_found");
}

#[test]
fn the_listing_comes_from_the_catalog() {
    let context = context();
    let listing = list_models(&context, &vec![false, true]);
    assert_eq!(listing.models, vec!["small".to_string()]);
    assert_eq!(listing.default_model, "base");
    assert_eq!(listing.configured_models, vec!["base".to_string(), "small".to_string()]);
}

#[test]
fn missing_auxiliary_models_are_fetched_in_order() {
    let context = context();
    assert!(context.auxiliary_downloads(true, true).is_empty());
    let both = context.auxiliary_downloads(false, false);
    assert_eq!(both.len(), 2);
    assert_eq!(both[0].url, "http://models/embedding.onnx");
    assert_eq!(both[0].target, path("embedding.onnx"));
    assert_eq!(both[1].url, "http://models/segment.onnx");
    assert_eq!(both[1].target, path("segment.onnx"));
    let one = context.auxiliary_downloads(true, false);
    assert_eq!(one.len(), 1);
    assert_eq!(one[0].target, path("segment.onnx"));
    let other = context.auxiliary_downloads(false, true);
    assert_eq!(other.len(), 1);
    assert_eq!(other[0].target, path("embedding.onnx"));
}

#[test]
fn a_load_of_an_unknown_model_is_refused() {
    let mut context = context();
    let lease = context.whisper.acquire_exclusive().unwrap();
    let payload = LoadPayload { model_name: "large".to_string() };
    match load(&context, &lease, &payload, true) {
        LoadPlan::Refuse(answer) => {
            assert!(!answer.success);
            assert_eq!(answer.message, "Model 'large' not found in mappings");
        }
        _ => panic!("expected a refusal"),
    }
}

#[test]
fn a_load_of_a_missing_file_is_refused() {
    let mut context = context();
    let lease = context.whisper.acquire_exclusive().unwrap();
    let payload = LoadPayload { model_name: "small".to_string() };
    match load(&context, &lease, &payload, false) {
        LoadPlan::Refuse(answer) => {
            assert!(!answer.success);
            assert_eq!(answer.message, "Model file not found: /models/small.bin");
        }
        _ => panic!("expected a refusal"),
    }
}

#[test]
fn a_load_asks_the_engine_and_records_its_handle() {
    let mut context = context();
    let mut lease = context.whisper.acquire_exclusive().unwrap();
    let payload = LoadPayload { model_name: "small".to_string() };
    let wanted = match load(&context, &lease, &payload, true) {
        LoadPlan::Create(wanted) => wanted,
        _ => panic!("expected a load"),
    };
    assert_eq!(wanted, path("small.bin"));
    let answer = context.complete_load(&mut lease, &payload, &wanted, Ok(3));
    assert!(answer.success);
    assert_eq!(answer.message, "Model small (file: small.bin) loaded successfully");
    assert_eq!(lease.slot().handle(), Some(&3));
    match load(&context, &lease, &payload, true) {
        LoadPlan::Reuse(again) => {
            assert!(again.success);
            assert_eq!(again.message, "Model small (file: small.bin) loaded successfully");
        }
        _ => panic!("expected no second load"),
    }
}

#[test]
fn a_refused_load_is_answered_with_the_reason() {
    let mut context = context();
    let mut lease = context.whisper.acquire_exclusive().unwrap();
    let payload = LoadPayload { model_name: "base".to_string() };
    let answer =
        context.complete_load(&mut lease, &payload, &path("base.bin"), Err("bad file".to_string()));
    assert!(!answer.success);
    assert_eq!(answer.message, "Failed to initialize Whisper context: bad file");
    assert_eq!(lease.slot().handle(), None);
}
