//! Configuration layers and the merge that resolves them.
//!
//! A layer is a record of optional fields. Three layers take part in every
//! job: the server's defaults, the module options sent with the request and
//! the per-task overrides. A value that is present in a higher layer wins;
//! a value that is absent there never erases one from a lower layer.
//!
//! Real-valued settings (temperature, thresholds) are carried as the bit
//! pattern of their single-precision value: the library only moves them.

use vstd::prelude::*;
use vstd::string::*;
use crate::error::{ErrorKind, JobError};

verus! {

/// Bit pattern of the speaker-recognition threshold used when no layer sets one (one half).
pub const DEFAULT_SPEAKER_THRESHOLD: u32 = 0x3F00_0000;

/// Largest number of speakers told apart when no layer sets one.
pub const DEFAULT_MAX_SPEAKERS: usize = 2;

/// Settings of voice-activity detection.
#[derive(Clone, Copy, Debug, Default, PartialEq, Eq, Structural)]
pub struct VadParameters {
    /// Bit pattern of the detection threshold.
    pub threshold: u32,
    pub min_speech_duration_ms: u32,
    pub min_silence_duration_ms: u32,
    pub speech_pad_ms: u32,
}

/// The engine's own options, each of them optional but the path.
/// An empty path counts as unset.
#[derive(Clone, Debug, PartialEq, Eq)]
pub struct TranscribeOptions {
    pub path: String,
    pub lang: Option<String>,
    pub verbose: Option<bool>,
    pub n_threads: Option<i32>,
    pub init_prompt: Option<String>,
    /// Bit pattern of the sampling temperature.
    pub temperature: Option<u32>,
    pub translate: Option<bool>,
    pub max_text_ctx: Option<i32>,
    pub word_timestamps: Option<bool>,
    pub max_sentence_len: Option<i32>,
}

/// One configuration layer.
#[derive(Clone, Debug, PartialEq, Eq)]
pub struct TranscribeModuleOptions {
    pub core_options: Option<TranscribeOptions>,
    pub diarize: Option<bool>,
    pub max_speakers: Option<usize>,
    /// Bit pattern of the speaker-recognition threshold.
    pub speaker_recognition_threshold: Option<u32>,
    pub vad_filter: Option<bool>,
    pub vad_parameters: Option<VadParameters>,
    pub segment_model_path: Option<String>,
    pub embedding_model_path: Option<String>,
}

/// The body of a transcription request: the module-options layer.
#[derive(Clone, Debug, PartialEq, Eq)]
pub struct TranscribeRequest {
    pub module_options: TranscribeModuleOptions,
}

/// The server's transcription settings, as configured at start-up.
#[derive(Clone, Debug, PartialEq, Eq)]
pub struct TranscribeModuleConfig {
    pub language: Option<String>,
    pub initial_prompt: Option<String>,
    pub translate: bool,
    pub word_timestamps: bool,
    pub max_text_ctx: Option<usize>,
    pub max_sentence_len: Option<usize>,
    pub n_threads: Option<usize>,
    /// Bit pattern of the sampling temperature.
    pub temperature: Option<u32>,
    pub detect_language: bool,
    pub diarize: bool,
    pub max_speakers: Option<usize>,
    pub beam_size: Option<usize>,
    pub best_of: Option<usize>,
    /// Bit pattern of the speaker-recognition threshold.
    pub speaker_recognition_threshold: Option<u32>,
    pub vad_filter: bool,
    pub vad_parameters: VadParameters,
    pub segment_model_filename: String,
    pub embedding_model_filename: String,
    pub embedding_model_url: String,
    pub segment_model_url: String,
}

/// Speaker attribution as handed to the engine.
#[derive(Clone, Debug, PartialEq, Eq)]
pub struct DiarizeParameters {
    /// Bit pattern of the speaker-recognition threshold.
    pub threshold: u32,
    pub max_speakers: usize,
    /// File name of the embedding model, if any layer names one.
    pub embedding_model: Option<String>,
    /// File name of the segmentation model, if any layer names one.
    pub segment_model: Option<String>,
}

/// The options of one job after the merge, as handed to the engine.
#[derive(Clone, Debug, PartialEq, Eq)]
pub struct ResolvedTranscribeOptions {
    /// The audio file; never empty.
    pub path: String,
    pub lang: Option<String>,
    pub init_prompt: Option<String>,
    pub translate: Option<bool>,
    pub verbose: Option<bool>,
    pub n_threads: Option<i32>,
    /// Bit pattern of the sampling temperature.
    pub temperature: Option<u32>,
    pub word_timestamps: Option<bool>,
    pub max_text_ctx: Option<i32>,
    pub max_sentence_len: Option<i32>,
    /// Present exactly when speaker attribution is requested.
    pub diarize: Option<DiarizeParameters>,
    /// Present exactly when voice-activity detection is requested.
    pub vad: Option<VadParameters>,
}

/// The characters of an optional string.
pub open spec fn opt_text(text: Option<String>) -> Option<Seq<char>> {
    match text {
        Some(t) => Some(t@),
        None => None,
    }
}

/// What a [`TranscribeOptions`] holds.
pub struct CoreView {
    pub path: Seq<char>,
    pub lang: Option<Seq<char>>,
    pub verbose: Option<bool>,
    pub n_threads: Option<i32>,
    pub init_prompt: Option<Seq<char>>,
    pub temperature: Option<u32>,
    pub translate: Option<bool>,
    pub max_text_ctx: Option<i32>,
    pub word_timestamps: Option<bool>,
    pub max_sentence_len: Option<i32>,
}

/// What a [`TranscribeModuleOptions`] holds.
pub struct LayerView {
    pub core_options: Option<CoreView>,
    pub diarize: Option<bool>,
    pub max_speakers: Option<usize>,
    pub speaker_recognition_threshold: Option<u32>,
    pub vad_filter: Option<bool>,
    pub vad_parameters: Option<VadParameters>,
    pub segment_model_path: Option<Seq<char>>,
    pub embedding_model_path: Option<Seq<char>>,
}

/// What a [`DiarizeParameters`] holds.
pub struct DiarizeView {
    pub threshold: u32,
    pub max_speakers: usize,
    pub embedding_model: Option<Seq<char>>,
    pub segment_model: Option<Seq<char>>,
}

/// What a [`ResolvedTranscribeOptions`] holds.
pub struct ResolvedView {
    pub path: Seq<char>,
    pub lang: Option<Seq<char>>,
    pub init_prompt: Option<Seq<char>>,
    pub translate: Option<bool>,
    pub verbose: Option<bool>,
    pub n_threads: Option<i32>,
    pub temperature: Option<u32>,
    pub word_timestamps: Option<bool>,
    pub max_text_ctx: Option<i32>,
    pub max_sentence_len: Option<i32>,
    pub diarize: Option<DiarizeView>,
    pub vad: Option<VadParameters>,
}

impl View for TranscribeOptions {
    type V = CoreView;

    open spec fn view(&self) -> CoreView {
        CoreView {
            path: self.path@,
            lang: opt_text(self.lang),
            verbose: self.verbose,
            n_threads: self.n_threads,
            init_prompt: opt_text(self.init_prompt),
            temperature: self.temperature,
            translate: self.translate,
            max_text_ctx: self.max_text_ctx,
            word_timestamps: self.word_timestamps,
            max_sentence_len: self.max_sentence_len,
        }
    }
}

/// What optional engine options hold.
pub open spec fn opt_core(core: Option<TranscribeOptions>) -> Option<CoreView> {
    match core {
        Some(c) => Some(c@),
        None => None,
    }
}

impl View for TranscribeModuleOptions {
    type V = LayerView;

    open spec fn view(&self) -> LayerView {
        LayerView {
            core_options: opt_core(self.core_options),
            diarize: self.diarize,
            max_speakers: self.max_speakers,
            speaker_recognition_threshold: self.speaker_recognition_threshold,
            vad_filter: self.vad_filter,
            vad_parameters: self.vad_parameters,
            segment_model_path: opt_text(self.segment_model_path),
            embedding_model_path: opt_text(self.embedding_model_path),
        }
    }
}

impl View for DiarizeParameters {
    type V = DiarizeView;

    open spec fn view(&self) -> DiarizeView {
        DiarizeView {
            threshold: self.threshold,
            max_speakers: self.max_speakers,
            embedding_model: opt_text(self.embedding_model),
            segment_model: opt_text(self.segment_model),
        }
    }
}

/// What optional diarization parameters hold.
pub open spec fn opt_diarize(diarize: Option<DiarizeParameters>) -> Option<DiarizeView> {
    match diarize {
        Some(d) => Some(d@),
        None => None,
    }
}

impl View for ResolvedTranscribeOptions {
    type V = ResolvedView;

    open spec fn view(&self) -> ResolvedView {
        ResolvedView {
            path: self.path@,
            lang: opt_text(self.lang),
            init_prompt: opt_text(self.init_prompt),
            translate: self.translate,
            verbose: self.verbose,
            n_threads: self.n_threads,
            temperature: self.temperature,
            word_timestamps: self.word_timestamps,
            max_text_ctx: self.max_text_ctx,
            max_sentence_len: self.max_sentence_len,
            diarize: opt_diarize(self.diarize),
            vad: self.vad,
        }
    }
}

/// The value that three layers give one field: the highest layer that sets it decides.
pub open spec fn pick<T>(task: Option<T>, module: Option<T>, server: Option<T>) -> Option<T> {
    if task is Some {
        task
    } else if module is Some {
        module
    } else {
        server
    }
}

/// The path that three layers give: the highest layer with a non-empty path decides.
pub open spec fn pick_path(task: Seq<char>, module: Seq<char>, server: Seq<char>) -> Seq<char> {
    if task.len() > 0 {
        task
    } else if module.len() > 0 {
        module
    } else {
        server
    }
}

/// Engine options with every field unset.
pub open spec fn unset_core() -> CoreView {
    CoreView {
        path: Seq::empty(),
        lang: None,
        verbose: None,
        n_threads: None,
        init_prompt: None,
        temperature: None,
        translate: None,
        max_text_ctx: None,
        word_timestamps: None,
        max_sentence_len: None,
    }
}

/// A layer with every field unset.
pub open spec fn unset_layer() -> LayerView {
    LayerView {
        core_options: None,
        diarize: None,
        max_speakers: None,
        speaker_recognition_threshold: None,
        vad_filter: None,
        vad_parameters: None,
        segment_model_path: None,
        embedding_model_path: None,
    }
}

/// Field by field, the engine options that three layers give.
pub open spec fn merge_core(server: CoreView, module: CoreView, task: CoreView) -> CoreView {
    CoreView {
        path: pick_path(task.path, module.path, server.path),
        lang: pick(task.lang, module.lang, server.lang),
        verbose: pick(task.verbose, module.verbose, server.verbose),
        n_threads: pick(task.n_threads, module.n_threads, server.n_threads),
        init_prompt: pick(task.init_prompt, module.init_prompt, server.init_prompt),
        temperature: pick(task.temperature, module.temperature, server.temperature),
        translate: pick(task.translate, module.translate, server.translate),
        max_text_ctx: pick(task.max_text_ctx, module.max_text_ctx, server.max_text_ctx),
        word_timestamps: pick(task.word_timestamps, module.word_timestamps, server.word_timestamps),
        max_sentence_len: pick(
            task.max_sentence_len,
            module.max_sentence_len,
            server.max_sentence_len,
        ),
    }
}

/// The engine options of a layer, or unset ones where it has none.
pub open spec fn core_or_unset(core: Option<CoreView>) -> CoreView {
    match core {
        Some(c) => c,
        None => unset_core(),
    }
}

/// The engine options that three layers give: none where no layer has any.
pub open spec fn merge_core_options(
    server: Option<CoreView>,
    module: Option<CoreView>,
    task: Option<CoreView>,
) -> Option<CoreView> {
    if server is None && module is None && task is None {
        None
    } else {
        Some(merge_core(core_or_unset(server), core_or_unset(module), core_or_unset(task)))
    }
}

/// Field by field, the layer that three layers give: task overrides win over
/// the request's module options, and those over the server's defaults.
pub open spec fn merge_layers(server: LayerView, module: LayerView, task: LayerView) -> LayerView {
    LayerView {
        core_options: merge_core_options(
            server.core_options,
            module.core_options,
            task.core_options,
        ),
        diarize: pick(task.diarize, module.diarize, server.diarize),
        max_speakers: pick(task.max_speakers, module.max_speakers, server.max_speakers),
        speaker_recognition_threshold: pick(
            task.speaker_recognition_threshold,
            module.speaker_recognition_threshold,
            server.speaker_recognition_threshold,
        ),
        vad_filter: pick(task.vad_filter, module.vad_filter, server.vad_filter),
        vad_parameters: pick(task.vad_parameters, module.vad_parameters, server.vad_parameters),
        segment_model_path: pick(
            task.segment_model_path,
            module.segment_model_path,
            server.segment_model_path,
        ),
        embedding_model_path: pick(
            task.embedding_model_path,
            module.embedding_model_path,
            server.embedding_model_path,
        ),
    }
}

/// The options that a merged layer resolves to, where it names an audio file.
pub open spec fn resolved_of(layer: LayerView) -> ResolvedView
    recommends
        layer.core_options is Some,
{
    let core = layer.core_options->0;
    ResolvedView {
        path: core.path,
        lang: core.lang,
        init_prompt: core.init_prompt,
        translate: core.translate,
        verbose: core.verbose,
        n_threads: core.n_threads,
        temperature: core.temperature,
        word_timestamps: core.word_timestamps,
        max_text_ctx: core.max_text_ctx,
        max_sentence_len: core.max_sentence_len,
        diarize: if layer.diarize == Some(true) {
            Some(
                DiarizeView {
                    threshold: match layer.speaker_recognition_threshold {
                        Some(t) => t,
                        None => DEFAULT_SPEAKER_THRESHOLD,
                    },
                    max_speakers: match layer.max_speakers {
                        Some(n) => n,
                        None => DEFAULT_MAX_SPEAKERS,
                    },
                    embedding_model: layer.embedding_model_path,
                    segment_model: layer.segment_model_path,
                },
            )
        } else {
            None
        },
        vad: if layer.vad_filter == Some(true) {
            Some(
                match layer.vad_parameters {
                    Some(p) => p,
                    None => VadParameters {
                        threshold: 0,
                        min_speech_duration_ms: 0,
                        min_silence_duration_ms: 0,
                        speech_pad_ms: 0,
                    },
                },
            )
        } else {
            None
        },
    }
}

/// Whether a merged layer names an audio file.
pub open spec fn names_audio(layer: LayerView) -> bool {
    layer.core_options is Some && layer.core_options->0.path.len() > 0
}

/// A count of the configuration in the width that the engine takes: itself
/// where it fits, the largest value of that width where it does not.
pub open spec fn engine_width(n: usize) -> i32 {
    if n <= i32::MAX {
        n as i32
    } else {
        i32::MAX
    }
}

/// An optional count in the width that the engine takes.
pub open spec fn opt_engine_width(n: Option<usize>) -> Option<i32> {
    match n {
        Some(v) => Some(engine_width(v)),
        None => None,
    }
}

/// The layer that the server's configuration stands for.
pub open spec fn defaults_of(config: TranscribeModuleConfig) -> LayerView {
    LayerView {
        core_options: Some(
            CoreView {
                path: Seq::empty(),
                lang: opt_text(config.language),
                verbose: Some(false),
                n_threads: opt_engine_width(config.n_threads),
                init_prompt: opt_text(config.initial_prompt),
                temperature: config.temperature,
                translate: Some(config.translate),
                max_text_ctx: opt_engine_width(config.max_text_ctx),
                word_timestamps: Some(config.word_timestamps),
                max_sentence_len: opt_engine_width(config.max_sentence_len),
            },
        ),
        diarize: Some(config.diarize),
        max_speakers: config.max_speakers,
        speaker_recognition_threshold: config.speaker_recognition_threshold,
        vad_filter: Some(config.vad_filter),
        vad_parameters: Some(config.vad_parameters),
        segment_model_path: Some(config.segment_model_filename@),
        embedding_model_path: Some(config.embedding_model_filename@),
    }
}

/// The value of one plain field after the merge.
pub fn pick_value<T: Copy>(task: Option<T>, module: Option<T>, server: Option<T>) -> (merged:
    Option<T>)
    ensures
        merged == pick(task, module, server),
{
    match task {
        Some(_) => task,
        None => match module {
            Some(_) => module,
            None => server,
        },
    }
}

/// A copy of an optional string.
pub fn copy_text(text: &Option<String>) -> (copy: Option<String>)
    ensures
        copy == *text,
{
    match text {
        Some(t) => Some(t.clone()),
        None => None,
    }
}

/// The value of one text field after the merge.
pub fn pick_text(
    task: &Option<String>,
    module: &Option<String>,
    server: &Option<String>,
) -> (merged: Option<String>)
    ensures
        opt_text(merged) == pick(opt_text(*task), opt_text(*module), opt_text(*server)),
{
    match task {
        Some(t) => Some(t.clone()),
        None => match module {
            Some(m) => Some(m.clone()),
            None => copy_text(server),
        },
    }
}

/// A count of the configuration in the width that the engine takes.
pub fn to_engine_width(n: usize) -> (narrow: i32)
    ensures
        narrow == engine_width(n),
        n <= 1_000_000 ==> narrow == n,
{
    if n > 0x7FFF_FFFF {
        i32::MAX
    } else {
        n as i32
    }
}

/// An optional count of the configuration in the width that the engine takes.
pub fn opt_to_engine_width(n: Option<usize>) -> (narrow: Option<i32>)
    ensures
        narrow == opt_engine_width(n),
{
    match n {
        Some(v) => Some(to_engine_width(v)),
        None => None,
    }
}

impl Default for TranscribeOptions {
    /// Engine options with every field unset.
    fn default() -> (core: TranscribeOptions)
        ensures
            core@ == unset_core(),
    {
        TranscribeOptions {
            path: String::new(),
            lang: None,
            verbose: None,
            n_threads: None,
            init_prompt: None,
            temperature: None,
            translate: None,
            max_text_ctx: None,
            word_timestamps: None,
            max_sentence_len: None,
        }
    }
}

impl Default for TranscribeModuleOptions {
    /// A layer with every field unset.
    fn default() -> (layer: TranscribeModuleOptions)
        ensures
            layer@ == unset_layer(),
    {
        TranscribeModuleOptions {
            core_options: None,
            diarize: None,
            max_speakers: None,
            speaker_recognition_threshold: None,
            vad_filter: None,
            vad_parameters: None,
            segment_model_path: None,
            embedding_model_path: None,
        }
    }
}

impl TranscribeOptions {
    /// A copy of these options.
    pub fn duplicate(&self) -> (copy: TranscribeOptions)
        ensures
            copy@ == self@,
    {
        TranscribeOptions {
            path: self.path.clone(),
            lang: copy_text(&self.lang),
            verbose: self.verbose,
            n_threads: self.n_threads,
            init_prompt: copy_text(&self.init_prompt),
            temperature: self.temperature,
            translate: self.translate,
            max_text_ctx: self.max_text_ctx,
            word_timestamps: self.word_timestamps,
            max_sentence_len: self.max_sentence_len,
        }
    }

    /// These options with `path` in place of their own.
    pub fn with_path(&self, path: &str) -> (core: TranscribeOptions)
        ensures
            core@ == (CoreView { path: path@, ..self@ }),
    {
        let mut core = self.duplicate();
        core.path = String::from_str(path);
        core
    }
}

/// The path that three layers give.
fn pick_path_text(task: &String, module: &String, server: &String) -> (merged: String)
    ensures
        merged@ == pick_path(task@, module@, server@),
{
    if !task.as_str().is_empty() {
        task.clone()
    } else if !module.as_str().is_empty() {
        module.clone()
    } else {
        server.clone()
    }
}

/// Field by field, the engine options that three layers give.
pub fn merge_core_fields(
    server: &TranscribeOptions,
    module: &TranscribeOptions,
    task: &TranscribeOptions,
) -> (merged: TranscribeOptions)
    ensures
        merged@ == merge_core(server@, module@, task@),
{
    TranscribeOptions {
        path: pick_path_text(&task.path, &module.path, &server.path),
        lang: pick_text(&task.lang, &module.lang, &server.lang),
        verbose: pick_value(task.verbose, module.verbose, server.verbose),
        n_threads: pick_value(task.n_threads, module.n_threads, server.n_threads),
        init_prompt: pick_text(&task.init_prompt, &module.init_prompt, &server.init_prompt),
        temperature: pick_value(task.temperature, module.temperature, server.temperature),
        translate: pick_value(task.translate, module.translate, server.translate),
        max_text_ctx: pick_value(task.max_text_ctx, module.max_text_ctx, server.max_text_ctx),
        word_timestamps: pick_value(
            task.word_timestamps,
            module.word_timestamps,
            server.word_timestamps,
        ),
        max_sentence_len: pick_value(
            task.max_sentence_len,
            module.max_sentence_len,
            server.max_sentence_len,
        ),
    }
}

/// The engine options of a layer, or unset ones where it has none.
fn core_of(core: &Option<TranscribeOptions>) -> (found: TranscribeOptions)
    ensures
        found@ == core_or_unset(opt_core(*core)),
{
    match core {
        Some(c) => c.duplicate(),
        None => TranscribeOptions::default(),
    }
}

/// Merges three layers field by field: a value present in `task` wins over
/// one in `module`, and that over one in `server`; an absent value erases nothing.
pub fn merge_options(
    server: &TranscribeModuleOptions,
    module: &TranscribeModuleOptions,
    task: &TranscribeModuleOptions,
) -> (merged: TranscribeModuleOptions)
    ensures
        merged@ == merge_layers(server@, module@, task@),
{
    let core_options = if server.core_options.is_none() && module.core_options.is_none()
        && task.core_options.is_none() {
        None
    } else {
        let s = core_of(&server.core_options);
        let m = core_of(&module.core_options);
        let t = core_of(&task.core_options);
        Some(merge_core_fields(&s, &m, &t))
    };
    TranscribeModuleOptions {
        core_options,
        diarize: pick_value(task.diarize, module.diarize, server.diarize),
        max_speakers: pick_value(task.max_speakers, module.max_speakers, server.max_speakers),
        speaker_recognition_threshold: pick_value(
            task.speaker_recognition_threshold,
            module.speaker_recognition_threshold,
            server.speaker_recognition_threshold,
        ),
        vad_filter: pick_value(task.vad_filter, module.vad_filter, server.vad_filter),
        vad_parameters: pick_value(
            task.vad_parameters,
            module.vad_parameters,
            server.vad_parameters,
        ),
        segment_model_path: pick_text(
            &task.segment_model_path,
            &module.segment_model_path,
            &server.segment_model_path,
        ),
        embedding_model_path: pick_text(
            &task.embedding_model_path,
            &module.embedding_model_path,
            &server.embedding_model_path,
        ),
    }
}

/// The description of a merge that names no audio file.
pub open spec fn missing_audio_message() -> Seq<char> {
    "No audio file path after merging the options"@
}

/// Flattens a merged layer into the options of one job. Fails, as an invalid
/// request, exactly when the layer names no audio file.
pub fn resolve_options(layer: &TranscribeModuleOptions) -> (resolved: Result<
    ResolvedTranscribeOptions,
    JobError,
>)
    ensures
        resolved is Ok <==> names_audio(layer@),
        resolved matches Ok(r) ==> r@ == resolved_of(layer@),
        resolved matches Err(e) ==> e.kind == ErrorKind::InvalidRequest && e.message@
            == missing_audio_message(),
{
    let missing = match &layer.core_options {
        Some(core) => core.path.as_str().is_empty(),
        None => true,
    };
    if missing {
        return Err(
            JobError::new(
                ErrorKind::InvalidRequest,
                String::from_str("No audio file path after merging the options"),
            ),
        );
    }
    let core = match &layer.core_options {
        Some(core) => core.duplicate(),
        None => TranscribeOptions::default(),
    };
    let diarize = match layer.diarize {
        Some(true) => Some(
            DiarizeParameters {
                threshold: match layer.speaker_recognition_threshold {
                    Some(t) => t,
                    None => DEFAULT_SPEAKER_THRESHOLD,
                },
                max_speakers: match layer.max_speakers {
                    Some(n) => n,
                    None => DEFAULT_MAX_SPEAKERS,
                },
                embedding_model: copy_text(&layer.embedding_model_path),
                segment_model: copy_text(&layer.segment_model_path),
            },
        ),
        _ => None,
    };
    let vad = match layer.vad_filter {
        Some(true) => Some(
            match layer.vad_parameters {
                Some(p) => p,
                None => VadParameters {
                    threshold: 0,
                    min_speech_duration_ms: 0,
                    min_silence_duration_ms: 0,
                    speech_pad_ms: 0,
                },
            },
        ),
        _ => None,
    };
    Ok(
        ResolvedTranscribeOptions {
            path: core.path,
            lang: core.lang,
            init_prompt: core.init_prompt,
            translate: core.translate,
            verbose: core.verbose,
            n_threads: core.n_threads,
            temperature: core.temperature,
            word_timestamps: core.word_timestamps,
            max_text_ctx: core.max_text_ctx,
            max_sentence_len: core.max_sentence_len,
            diarize,
            vad,
        },
    )
}

/// Resolves the options of one job from its three layers: merges them field
/// by field, then flattens the result. Fails, as an invalid request, exactly
/// when no layer names an audio file.
pub fn resolve_transcribe_options(
    server: &TranscribeModuleOptions,
    module: &TranscribeModuleOptions,
    task: &TranscribeModuleOptions,
) -> (resolved: Result<ResolvedTranscribeOptions, JobError>)
    ensures
        resolved is Ok <==> names_audio(merge_layers(server@, module@, task@)),
        resolved matches Ok(r) ==> r@ == resolved_of(merge_layers(server@, module@, task@)),
        resolved matches Err(e) ==> e.kind == ErrorKind::InvalidRequest && e.message@
            == missing_audio_message(),
{
    let merged = merge_options(server, module, task);
    resolve_options(&merged)
}

impl TranscribeModuleConfig {
    /// The layer that this configuration stands for: the lowest of the three.
    /// Counts are narrowed to the engine's width; the documented ranges
    /// (1 to 256 threads, lengths up to 1,000,000) pass unchanged.
    pub fn defaults(&self) -> (layer: TranscribeModuleOptions)
        ensures
            layer@ == defaults_of(*self),
    {
        TranscribeModuleOptions {
            core_options: Some(
                TranscribeOptions {
                    path: String::new(),
                    lang: copy_text(&self.language),
                    verbose: Some(false),
                    n_threads: opt_to_engine_width(self.n_threads),
                    init_prompt: copy_text(&self.initial_prompt),
                    temperature: self.temperature,
                    translate: Some(self.translate),
                    max_text_ctx: opt_to_engine_width(self.max_text_ctx),
                    word_timestamps: Some(self.word_timestamps),
                    max_sentence_len: opt_to_engine_width(self.max_sentence_len),
                },
            ),
            diarize: Some(self.diarize),
            max_speakers: self.max_speakers,
            speaker_recognition_threshold: self.speaker_recognition_threshold,
            vad_filter: Some(self.vad_filter),
            vad_parameters: Some(self.vad_parameters),
            segment_model_path: Some(self.segment_model_filename.clone()),
            embedding_model_path: Some(self.embedding_model_filename.clone()),
        }
    }
}

/// A field that the task layer sets takes the task's value; one that only the
/// module layer sets takes the module's; one that neither sets keeps the
/// server's. An absent value never erases a present one from a lower layer.
pub proof fn present_value_overrides<T>(task: Option<T>, module: Option<T>, server: Option<T>)
    ensures
        task is Some ==> pick(task, module, server) == task,
        task is None && module is Some ==> pick(task, module, server) == module,
        task is None && module is None ==> pick(task, module, server) == server,
        pick(task, module, server) is None <==> task is None && module is None && server is None,
{
}

/// Merging is idempotent: a layer merged with itself is that layer.
pub proof fn merge_is_idempotent(layer: LayerView)
    ensures
        merge_layers(layer, layer, layer) == layer,
{
}

/// Merging the result once more under the same module and task layers changes nothing.
pub proof fn merge_again_changes_nothing(server: LayerView, module: LayerView, task: LayerView)
    ensures
        merge_layers(merge_layers(server, module, task), module, task) == merge_layers(
            server,
            module,
            task,
        ),
{
}

/// Layers that set nothing change nothing, whichever rank they take.
pub proof fn unset_layers_are_neutral(layer: LayerView)
    ensures
        merge_layers(layer, unset_layer(), unset_layer()) == layer,
        merge_layers(unset_layer(), layer, unset_layer()) == layer,
        merge_layers(unset_layer(), unset_layer(), layer) == layer,
{
    if layer.core_options is Some && layer.core_options->0.path.len() == 0 {
        assert(layer.core_options->0.path =~= Seq::<char>::empty());
    }
}

/// A three-way merge is two two-way merges: first server and module, then the task on top.
pub proof fn merge_in_two_steps(server: LayerView, module: LayerView, task: LayerView)
    ensures
        merge_layers(merge_layers(server, module, unset_layer()), unset_layer(), task)
            == merge_layers(server, module, task),
{
}

/// The fields are independent: the merge gives each field what the three
/// layers give that very field, whatever the other fields hold.
pub proof fn merge_decides_each_field_alone(server: LayerView, module: LayerView, task: LayerView)
    ensures
        ({
            let merged = merge_layers(server, module, task);
            &&& merged.diarize == pick(task.diarize, module.diarize, server.diarize)
            &&& merged.max_speakers == pick(
                task.max_speakers,
                module.max_speakers,
                server.max_speakers,
            )
            &&& merged.speaker_recognition_threshold == pick(
                task.speaker_recognition_threshold,
                module.speaker_recognition_threshold,
                server.speaker_recognition_threshold,
            )
            &&& merged.vad_filter == pick(task.vad_filter, module.vad_filter, server.vad_filter)
            &&& merged.vad_parameters == pick(
                task.vad_parameters,
                module.vad_parameters,
                server.vad_parameters,
            )
            &&& merged.segment_model_path == pick(
                task.segment_model_path,
                module.segment_model_path,
                server.segment_model_path,
            )
            &&& merged.embedding_model_path == pick(
                task.embedding_model_path,
                module.embedding_model_path,
                server.embedding_model_path,
            )
            &&& merged.core_options is None <==> server.core_options is None
                && module.core_options is None && task.core_options is None
        }),
        merge_layers(server, module, task).core_options matches Some(core) ==> {
            let s = core_or_unset(server.core_options);
            let m = core_or_unset(module.core_options);
            let t = core_or_unset(task.core_options);
            &&& core.path == pick_path(t.path, m.path, s.path)
            &&& core.lang == pick(t.lang, m.lang, s.lang)
            &&& core.verbose == pick(t.verbose, m.verbose, s.verbose)
            &&& core.n_threads == pick(t.n_threads, m.n_threads, s.n_threads)
            &&& core.init_prompt == pick(t.init_prompt, m.init_prompt, s.init_prompt)
            &&& core.temperature == pick(t.temperature, m.temperature, s.temperature)
            &&& core.translate == pick(t.translate, m.translate, s.translate)
            &&& core.max_text_ctx == pick(t.max_text_ctx, m.max_text_ctx, s.max_text_ctx)
            &&& core.word_timestamps == pick(
                t.word_timestamps,
                m.word_timestamps,
                s.word_timestamps,
            )
            &&& core.max_sentence_len == pick(
                t.max_sentence_len,
                m.max_sentence_len,
                s.max_sentence_len,
            )
        },
{
}

/// Counts within the documented ranges reach the engine unchanged.
pub proof fn documented_ranges_fit(n: usize)
    requires
        n <= 1_000_000,
    ensures
        engine_width(n) == n,
{
}

} // verus!
