use vibe_server::config::{
    merge_core_fields, merge_options, pick_text, pick_value, resolve_options,
    resolve_transcribe_options, to_engine_width, TranscribeModuleConfig, TranscribeModuleOptions,
    TranscribeOptions, VadParameters, DEFAULT_MAX_SPEAKERS, DEFAULT_SPEAKER_THRESHOLD,
};
use vibe_server::error::ErrorKind;

fn layer() -> TranscribeModuleOptions {
    TranscribeModuleOptions::default()
}

fn core_with_path(path: &str) -> TranscribeOptions {
    let mut core = TranscribeOptions::default();
    core.path = path.to_string();
    core
}

fn server_config() -> TranscribeModuleConfig {
    TranscribeModuleConfig {
        language: Some("en".to_string()),
        initial_prompt: None,
        translate: false,
        word_timestamps: true,
        max_text_ctx: Some(1_000_000),
        max_sentence_len: Some(0),
        n_threads: Some(4),
        temperature: Some(0.4f32.to_bits()),
        detect_language: false,
        diarize: false,
        max_speakers: None,
        beam_size: None,
        best_of: None,
        speaker_recognition_threshold: None,
        vad_filter: false,
        vad_parameters: VadParameters {
            threshold: 0.5f32.to_bits(),
            min_speech_duration_ms: 250,
            min_silence_duration_ms: 100,
            speech_pad_ms: 30,
        },
        segment_model_filename: "segment.onnx".to_string(),
        embedding_model_filename: "embedding.onnx".to_string(),
        embedding_model_url: "http://models/embedding.onnx".to_string(),
        segment_model_url: "http://models/segment.onnx".to_string(),
    }
}

#[test]
fn merge_keeps_the_server_value_when_nothing_overrides() {
    let mut server = layer();
    server.max_speakers = Some(1);
    let merged = merge_options(&server, &layer(), &layer());
    assert_eq!(merged.max_speakers, Some(1));
}

#[test]
fn merge_lets_the_module_layer_override_the_server() {
    let mut server = layer();
    server.max_speakers = Some(1);
    let mut module = layer();
    module.max_speakers = Some(2);
    let merged = merge_options(&server, &module, &layer());
    assert_eq!(merged.max_speakers, Some(2));
}

#[test]
fn merge_lets_the_task_layer_override_the_server() {
    let mut server = layer();
    server.max_speakers = Some(1);
    let mut task = layer();
    task.max_speakers = Some(3);
    let merged = merge_options(&server, &layer(), &task);
    assert_eq!(merged.max_speakers, Some(3));
}

#[test]
fn merge_lets_the_task_layer_override_the_module_layer() {
    let mut server = layer();
    server.diarize = Some(false);
    let mut module = layer();
    module.diarize = Some(true);
    let mut task = layer();
    task.diarize = Some(false);
    let merged = merge_options(&server, &module, &task);
    assert_eq!(merged.diarize, Some(false));
}

#[test]
fn merge_treats_each_field_on_its_own() {
    let mut server = layer();
    server.max_speakers = Some(1);
    server.vad_filter = Some(true);
    server.segment_model_path = Some("segment.onnx".to_string());
    let mut module = layer();
    module.diarize = Some(true);
    let mut task = layer();
    task.max_speakers = Some(5);
    task.embedding_model_path = Some("mine.onnx".to_string());
    let merged = merge_options(&server, &module, &task);
    assert_eq!(merged.max_speakers, Some(5));
    assert_eq!(merged.vad_filter, Some(true));
    assert_eq!(merged.diarize, Some(true));
    assert_eq!(merged.segment_model_path, Some("segment.onnx".to_string()));
    assert_eq!(merged.embedding_model_path, Some("mine.onnx".to_string()));
    assert_eq!(merged.speaker_recognition_threshold, None);
    assert_eq!(merged.core_options, None);
}

#[test]
fn merge_goes_into_the_engine_options_field_by_field() {
    let mut server = layer();
    let mut server_core = TranscribeOptions::default();
    server_core.lang = Some("en".to_string());
    server_core.n_threads = Some(4);
    server_core.translate = Some(false);
    server.core_options = Some(server_core);
    let mut task = layer();
    let mut task_core = core_with_path("/tmp/a.wav");
    task_core.n_threads = Some(8);
    task.core_options = Some(task_core);
    let merged = merge_options(&server, &layer(), &task);
    let core = merged.core_options.unwrap();
    assert_eq!(core.path, "/tmp/a.wav");
    assert_eq!(core.lang, Some("en".to_string()));
    assert_eq!(core.n_threads, Some(8));
    assert_eq!(core.translate, Some(false));
    assert_eq!(core.temperature, None);
}

#[test]
fn merge_is_idempotent() {
    let mut one = layer();
    one.max_speakers = Some(4);
    one.diarize = Some(true);
    one.core_options = Some(core_with_path("a.wav"));
    let merged = merge_options(&one, &one, &one);
    assert_eq!(merged, one);
    let again = merge_options(&merged, &layer(), &layer());
    assert_eq!(again, one);
}

#[test]
fn merge_of_unset_layers_sets_nothing() {
    let merged = merge_options(&layer(), &layer(), &layer());
    assert_eq!(merged, layer());
}

#[test]
fn merge_picks_the_highest_path_that_is_not_empty() {
    let server = core_with_path("server.wav");
    let module = core_with_path("");
    let task = core_with_path("");
    assert_eq!(merge_core_fields(&server, &module, &task).path, "server.wav");
    let module = core_with_path("module.wav");
    assert_eq!(merge_core_fields(&server, &module, &task).path, "module.wav");
    let task = core_with_path("task.wav");
    assert_eq!(merge_core_fields(&server, &module, &task).path, "task.wav");
}

#[test]
fn pick_value_follows_the_precedence() {
    assert_eq!(pick_value(Some(3), Some(2), Some(1)), Some(3));
    assert_eq!(pick_value(None, Some(2), Some(1)), Some(2));
    assert_eq!(pick_value(None, None, Some(1)), Some(1));
    assert_eq!(pick_value::<i32>(None, None, None), None);
    assert_eq!(pick_value(Some(false), Some(true), None), Some(false));
}

#[test]
fn pick_text_follows_the_precedence() {
    let a = Some("a".to_string());
    let b = Some("b".to_string());
    assert_eq!(pick_text(&a, &b, &None), a);
    assert_eq!(pick_text(&None, &b, &a), b);
    assert_eq!(pick_text(&None, &None, &a), a);
    assert_eq!(pick_text(&None, &None, &None), None);
}

#[test]
fn counts_in_the_documented_ranges_pass_unchanged() {
    assert_eq!(to_engine_width(0), 0);
    assert_eq!(to_engine_width(1), 1);
    assert_eq!(to_engine_width(256), 256);
    assert_eq!(to_engine_width(1_000_000), 1_000_000);
    assert_eq!(to_engine_width(2_147_483_647), i32::MAX);
}

#[test]
fn counts_beyond_the_engine_width_stop_at_its_largest_value() {
    assert_eq!(to_engine_width(2_147_483_648), i32::MAX);
    assert_eq!(to_engine_width(usize::MAX), i32::MAX);
}

#[test]
fn defaults_carry_the_server_configuration() {
    let defaults = server_config().defaults();
    let core = defaults.core_options.clone().unwrap();
    assert_eq!(core.path, "");
    assert_eq!(core.lang, Some("en".to_string()));
    assert_eq!(core.init_prompt, None);
    assert_eq!(core.translate, Some(false));
    assert_eq!(core.word_timestamps, Some(true));
    assert_eq!(core.max_text_ctx, Some(1_000_000));
    assert_eq!(core.max_sentence_len, Some(0));
    assert_eq!(core.n_threads, Some(4));
    assert_eq!(core.temperature, Some(0.4f32.to_bits()));
    assert_eq!(core.verbose, Some(false));
    assert_eq!(defaults.diarize, Some(false));
    assert_eq!(defaults.max_speakers, None);
    assert_eq!(defaults.vad_filter, Some(false));
    assert_eq!(defaults.vad_parameters.unwrap().min_speech_duration_ms, 250);
    assert_eq!(defaults.segment_model_path, Some("segment.onnx".to_string()));
    assert_eq!(defaults.embedding_model_path, Some("embedding.onnx".to_string()));
}

#[test]
fn resolve_fails_when_no_layer_names_the_audio_file() {
    let error = resolve_transcribe_options(&server_config().defaults(), &layer(), &layer())
        .unwrap_err();
    assert_eq!(error.kind, ErrorKind::InvalidRequest);
    assert_eq!(error.message, "No audio file path after merging the options");
    let none = resolve_options(&layer()).unwrap_err();
    assert_eq!(none.kind, ErrorKind::InvalidRequest);
}

#[test]
fn resolve_flattens_the_merged_layers() {
    let mut task = layer();
    let mut core = core_with_path("/tmp/a.wav");
    core.lang = Some("fr".to_string());
    task.core_options = Some(core);
    let resolved = resolve_transcribe_options(&server_config().defaults(), &layer(), &task)
        .unwrap();
    assert_eq!(resolved.path, "/tmp/a.wav");
    assert_eq!(resolved.lang, Some("fr".to_string()));
    assert_eq!(resolved.n_threads, Some(4));
    assert_eq!(resolved.temperature, Some(0.4f32.to_bits()));
    assert_eq!(resolved.word_timestamps, Some(true));
    assert_eq!(resolved.diarize, None);
    assert_eq!(resolved.vad, None);
}

#[test]
fn resolve_fills_in_the_diarization_defaults() {
    let mut one = layer();
    one.core_options = Some(core_with_path("a.wav"));
    one.diarize = Some(true);
    let resolved = resolve_options(&one).unwrap();
    let diarize = resolved.diarize.unwrap();
    assert_eq!(diarize.threshold, 0.5f32.to_bits());
    assert_eq!(diarize.threshold, DEFAULT_SPEAKER_THRESHOLD);
    assert_eq!(diarize.max_speakers, 2);
    assert_eq!(diarize.max_speakers, DEFAULT_MAX_SPEAKERS);
    assert_eq!(diarize.embedding_model, None);
    assert_eq!(diarize.segment_model, None);
}

#[test]
fn resolve_takes_the_diarization_settings_of_the_layers() {
    let mut task = layer();
    task.core_options = Some(core_with_path("a.wav"));
    task.diarize = Some(true);
    task.max_speakers = Some(4);
    task.speaker_recognition_threshold = Some(0.75f32.to_bits());
    let resolved = resolve_transcribe_options(&server_config().defaults(), &layer(), &task)
        .unwrap();
    let diarize = resolved.diarize.unwrap();
    assert_eq!(f32::from_bits(diarize.threshold), 0.75);
    assert_eq!(diarize.max_speakers, 4);
    assert_eq!(diarize.embedding_model, Some("embedding.onnx".to_string()));
    assert_eq!(diarize.segment_model, Some("segment.onnx".to_string()));
}

#[test]
fn resolve_hands_out_vad_parameters_only_on_request() {
    let mut one = layer();
    one.core_options = Some(core_with_path("a.wav"));
    one.vad_parameters = Some(VadParameters {
        threshold: 7,
        min_speech_duration_ms: 1,
        min_silence_duration_ms: 2,
        speech_pad_ms: 3,
    });
    assert_eq!(resolve_options(&one).unwrap().vad, None);
    one.vad_filter = Some(true);
    assert_eq!(resolve_options(&one).unwrap().vad.unwrap().speech_pad_ms, 3);
    one.vad_parameters = None;
    assert_eq!(resolve_options(&one).unwrap().vad, Some(VadParameters::default()));
}

#[test]
fn with_path_replaces_only_the_path() {
    let mut core = core_with_path("old.wav");
    core.lang = Some("de".to_string());
    let moved = core.with_path("new.wav");
    assert_eq!(moved.path, "new.wav");
    assert_eq!(moved.lang, Some("de".to_string()));
    assert_eq!(core.duplicate(), core);
}
