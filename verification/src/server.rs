//! The decisions behind the server's endpoints.
//!
//! One [`ModelContext`] is created at start-up and handed to every request.
//! Reading uploads, looking at the disk, waiting for the model and calling
//! the engine are left to the surroundings; what they found is passed in as
//! plain values.

use vstd::prelude::*;
use vstd::string::*;
use crate::catalog::{ModelConfig, ModelListing, ModelPath};
use crate::config::{
    merge_layers, names_audio, resolve_transcribe_options, resolved_of, defaults_of,
    unset_layer, CoreView, LayerView, TranscribeModuleConfig, TranscribeModuleOptions,
    TranscribeOptions, core_or_unset,
};
use crate::error::{ErrorKind, JobError};
use crate::executor::{abandoned_message, JobExecutor, JobTicket};
use crate::model::{ModelLease, ModelResource};
use crate::registry::{
    fresh_token, JobRecord, JobRegistry, OutcomeView, TranscriptView,
    TranscriptionResult,
};
use crate::text::concat3;

verus! {

/// A request to load a model ahead of its first use.
#[derive(Clone, Debug, PartialEq, Eq)]
pub struct LoadPayload {
    pub model_name: String,
}

/// The answer to a request to load a model.
#[derive(Clone, Debug, PartialEq, Eq)]
pub struct LoadResponse {
    pub success: bool,
    pub message: String,
}

/// The answer to a submission or to a question about a job's state.
#[derive(Clone, Debug, PartialEq, Eq)]
pub struct TranscriptionResponse {
    pub job_id: String,
    pub status: String,
}

/// A question about a job.
#[derive(Clone, Debug, PartialEq, Eq)]
pub struct JobStatusRequest {
    pub job_id: String,
}

/// What was received with a submission, and what the disk says about it.
#[derive(Clone, Debug, PartialEq, Eq)]
pub struct Submission {
    /// Where the uploaded audio was saved, if a file was uploaded.
    pub file_path: Option<String>,
    /// Whether the saved upload is on disk.
    pub file_exists: bool,
    /// The logical model name, if the request gives one.
    pub model: Option<String>,
    /// Whether the file of the requested model is on disk.
    pub model_file_exists: bool,
    /// The module-options layer of the request, if it has one.
    pub module_options: Option<TranscribeModuleOptions>,
    /// The per-task overrides of the request, if it has any.
    pub task_options: Option<TranscribeModuleOptions>,
}

/// The state of the server: its configuration, the model slot and the jobs.
pub struct ModelContext<H> {
    pub transcribe_config: TranscribeModuleConfig,
    pub model_config: ModelConfig,
    /// The model slot and its lease.
    pub whisper: ModelResource<H>,
    /// Every job ever submitted.
    pub results: JobRegistry,
}

/// What an optional layer holds: its fields, or nothing set.
pub open spec fn layer_or_unset(layer: Option<TranscribeModuleOptions>) -> LayerView {
    match layer {
        Some(l) => l@,
        None => unset_layer(),
    }
}

/// A layer with `path` injected as the audio file of its engine options.
pub open spec fn with_audio(layer: LayerView, path: Seq<char>) -> LayerView {
    LayerView {
        core_options: Some(CoreView { path, ..core_or_unset(layer.core_options) }),
        ..layer
    }
}

/// The name of the model that a submission asks for: its own, or the default.
pub open spec fn requested_model(catalog: ModelConfig, submission: Submission) -> Seq<char> {
    match submission.model {
        Some(name) => name@,
        None => catalog.default_model@,
    }
}

/// The merged layer of a submission: the server's defaults, the request's
/// module options, and the task overrides with the saved upload injected as
/// the audio file.
pub open spec fn submitted_layer(
    config: TranscribeModuleConfig,
    submission: Submission,
) -> LayerView
    recommends
        submission.file_path is Some,
{
    merge_layers(
        defaults_of(config),
        layer_or_unset(submission.module_options),
        with_audio(layer_or_unset(submission.task_options), submission.file_path->0@),
    )
}

/// Why a submission is turned down, if it is. The checks run in this order:
/// a file was uploaded; it is on disk; the catalog knows the model; the
/// model's file is on disk; the merged options name the audio file.
pub open spec fn rejection(
    config: TranscribeModuleConfig,
    catalog: ModelConfig,
    submission: Submission,
) -> Option<(ErrorKind, Seq<char>)> {
    let model = requested_model(catalog, submission);
    if submission.file_path is None {
        Some((ErrorKind::InvalidRequest, "No file uploaded"@))
    } else if !submission.file_exists {
        Some((ErrorKind::InvalidRequest, "Uploaded file not found"@))
    } else if catalog.filename_of(model) is None {
        Some((ErrorKind::ModelNotFound, "Model '"@ + model + "' not found in configuration"@))
    } else if !submission.model_file_exists {
        Some((ErrorKind::ModelNotFound, "Model file for '"@ + model + "' not found"@))
    } else if !names_audio(submitted_layer(config, submission)) {
        Some((ErrorKind::InvalidRequest, crate::config::missing_audio_message()))
    } else {
        None
    }
}

/// The description of a submission whose identifier was already in use.
pub open spec fn collision_message() -> Seq<char> {
    "Job identifier already in use"@
}

/// A layer with `path` injected as the audio file of its engine options.
pub fn inject_audio(layer: Option<&TranscribeModuleOptions>, path: &str) -> (injected:
    TranscribeModuleOptions)
    ensures
        injected@ == with_audio(
            match layer {
                Some(l) => l@,
                None => unset_layer(),
            },
            path@,
        ),
{
    match layer {
        Some(l) => {
            let core = match &l.core_options {
                Some(c) => c.with_path(path),
                None => TranscribeOptions::default().with_path(path),
            };
            TranscribeModuleOptions {
                core_options: Some(core),
                diarize: l.diarize,
                max_speakers: l.max_speakers,
                speaker_recognition_threshold: l.speaker_recognition_threshold,
                vad_filter: l.vad_filter,
                vad_parameters: l.vad_parameters,
                segment_model_path: crate::config::copy_text(&l.segment_model_path),
                embedding_model_path: crate::config::copy_text(&l.embedding_model_path),
            }
        },
        None => {
            let mut unset = TranscribeModuleOptions::default();
            unset.core_options = Some(TranscribeOptions::default().with_path(path));
            unset
        },
    }
}

/// The answer to a question about the result of a job that has none.
pub open spec fn not_found_transcript() -> TranscriptView {
    TranscriptView { text: "Job not found"@, segments: Seq::empty() }
}

/// The word that status answers carry for a job: that of its state, or
/// `not_found` for an identifier that was never issued.
pub open spec fn status_word(records: Map<Seq<char>, JobRecord>, id: Seq<char>) -> Seq<char> {
    if records.contains_key(id) {
        records[id].state_of().label_of()
    } else {
        "not_found"@
    }
}

impl<H> ModelContext<H> {
    /// The state of a server that has loaded no model and taken no job.
    pub fn new(transcribe_config: TranscribeModuleConfig, model_config: ModelConfig) -> (context:
        Result<ModelContext<H>, JobError>)
        ensures
            context matches Ok(c) && c.transcribe_config == transcribe_config && c.model_config
                == model_config && !c.whisper.is_held() && c.whisper.slot_of().content() is None
                && c.results@ == Map::<Seq<char>, JobRecord>::empty(),
    {
        Ok(
            ModelContext {
                transcribe_config,
                model_config,
                whisper: ModelResource::new(),
                results: JobRegistry::new(),
            },
        )
    }

    /// Checks a submission and resolves what its job will run with: the
    /// place of the model file and the merged options. Nothing is changed
    /// and no identifier is drawn.
    pub fn validate(&self, submission: &Submission) -> (checked: Result<
        (ModelPath, crate::config::ResolvedTranscribeOptions),
        JobError,
    >)
        ensures
            checked is Err <==> rejection(self.transcribe_config, self.model_config, *submission)
                is Some,
            checked matches Err(e) ==> Some(e@) == rejection(
                self.transcribe_config,
                self.model_config,
                *submission,
            ),
            checked matches Ok(found) ==> found.0@ == (
                self.model_config.model_directory@,
                self.model_config.filename_of(requested_model(self.model_config, *submission))->0,
            ) && found.1@ == resolved_of(submitted_layer(self.transcribe_config, *submission)),
    {
        let file_path = match &submission.file_path {
            Some(path) => path,
            None => {
                return Err(
                    JobError::new(ErrorKind::InvalidRequest, String::from_str("No file uploaded")),
                );
            },
        };
        if !submission.file_exists {
            return Err(
                JobError::new(
                    ErrorKind::InvalidRequest,
                    String::from_str("Uploaded file not found"),
                ),
            );
        }
        let model_name = match &submission.model {
            Some(name) => name,
            None => &self.model_config.default_model,
        };
        let model_path = match self.model_config.resolve(model_name.as_str()) {
            Ok(path) => path,
            Err(e) => {
                return Err(e);
            },
        };
        if !submission.model_file_exists {
            return Err(
                JobError::describe(
                    ErrorKind::ModelNotFound,
                    "Model file for '",
                    model_name.as_str(),
                    "' not found",
                ),
            );
        }
        let server = self.transcribe_config.defaults();
        let unset = TranscribeModuleOptions::default();
        let module = match &submission.module_options {
            Some(m) => m,
            None => &unset,
        };
        let task = inject_audio(submission.task_options.as_ref(), file_path.as_str());
        match resolve_transcribe_options(&server, module, &task) {
            Ok(options) => Ok((model_path, options)),
            Err(e) => Err(e),
        }
    }

    /// Takes a submission in under the identifier `token`. A submission
    /// that fails a check is turned down with the error of the first check
    /// that fails; so is one whose identifier is already in use. Then
    /// nothing changes. Otherwise the job is registered as `Processing` and
    /// the ticket for its execution is handed out.
    pub fn transcribe_with(&mut self, submission: &Submission, token: String) -> (taken: Result<
        JobTicket,
        JobError,
    >)
        ensures
            final(self).transcribe_config == old(self).transcribe_config,
            final(self).model_config == old(self).model_config,
            final(self).whisper == old(self).whisper,
            taken is Err ==> final(self).results@ == old(self).results@,
            taken is Ok <==> rejection(
                old(self).transcribe_config,
                old(self).model_config,
                *submission,
            ) is None && !old(self).results@.contains_key(token@),
            taken matches Err(e) ==> Some(e@) == (match rejection(
                old(self).transcribe_config,
                old(self).model_config,
                *submission,
            ) {
                Some(why) => Some(why),
                None => Some((ErrorKind::IdentifierCollision, collision_message())),
            }),
            taken matches Ok(ticket) ==> {
                &&& ticket.job_id@ == token@
                &&& final(self).results@ == old(self).results@.insert(token@, JobRecord::Processing)
                &&& ticket.model_path@ == (
                    old(self).model_config.model_directory@,
                    old(self).model_config.filename_of(
                        requested_model(old(self).model_config, *submission),
                    )->0,
                )
                &&& ticket.options@ == resolved_of(
                    submitted_layer(old(self).transcribe_config, *submission),
                )
            },
    {
        let (model_path, options) = match self.validate(submission) {
            Ok(found) => found,
            Err(e) => {
                return Err(e);
            },
        };
        let job_id = token.clone();
        if self.results.create_with(token) {
            Ok(JobTicket { job_id, model_path, options })
        } else {
            Err(
                JobError::new(
                    ErrorKind::IdentifierCollision,
                    String::from_str("Job identifier already in use"),
                ),
            )
        }
    }

}

/// What to do about a request to load a model.
pub enum LoadPlan {
    /// Turn the request down with this answer.
    Refuse(LoadResponse),
    /// The model is loaded already: give this answer.
    Reuse(LoadResponse),
    /// Have the engine load the model from this path, then report its answer.
    Create(ModelPath),
}

/// An auxiliary model file to fetch: from where, and to which place.
#[derive(Clone, Debug, PartialEq, Eq)]
pub struct Download {
    pub url: String,
    pub target: ModelPath,
}

/// The text that names a model file in a message: directory, slash, file name.
pub open spec fn shown_path(path: (Seq<char>, Seq<char>)) -> Seq<char> {
    path.0 + "/"@ + path.1
}

/// The message of a load that succeeded, or that found the model loaded.
pub open spec fn loaded_message(name: Seq<char>, filename: Seq<char>) -> Seq<char> {
    "Model "@ + name + " (file: "@ + filename + ") loaded successfully"@
}

/// The message of a load that names a model unknown to the catalog.
pub open spec fn unknown_model_message(name: Seq<char>) -> Seq<char> {
    "Model '"@ + name + "' not found in mappings"@
}

/// The message of a load whose model file is not on disk.
pub open spec fn missing_file_message(path: (Seq<char>, Seq<char>)) -> Seq<char> {
    "Model file not found: "@ + shown_path(path)
}

/// The answer that tells of a model loaded from the file `filename`.
fn loaded_response(name: &str, filename: &str) -> (answer: LoadResponse)
    ensures
        answer.success,
        answer.message@ == loaded_message(name@, filename@),
{
    let mut message = concat3("Model ", name, " (file: ");
    message.append(filename);
    message.append(") loaded successfully");
    LoadResponse { success: true, message }
}

impl<H> ModelContext<H> {
    /// The auxiliary model files to fetch before a load, in order: the
    /// embedding model where it is not on disk, then the segmentation model
    /// where it is not.
    pub fn auxiliary_downloads(&self, embedding_exists: bool, segment_exists: bool) -> (wanted: Vec<
        Download,
    >)
        ensures
            wanted@.len() == (if embedding_exists { 0int } else { 1int }) + (if segment_exists {
                0int
            } else {
                1int
            }),
            !embedding_exists ==> wanted@[0].url@ == self.transcribe_config.embedding_model_url@
                && wanted@[0].target@ == (
                self.model_config.model_directory@,
                self.transcribe_config.embedding_model_filename@,
            ),
            !segment_exists ==> wanted@[wanted@.len() - 1].url@
                == self.transcribe_config.segment_model_url@ && wanted@[wanted@.len() - 1].target@
                == (
                self.model_config.model_directory@,
                self.transcribe_config.segment_model_filename@,
            ),
    {
        let mut wanted: Vec<Download> = Vec::new();
        if !embedding_exists {
            wanted.push(
                Download {
                    url: self.transcribe_config.embedding_model_url.clone(),
                    target: self.model_config.auxiliary(
                        self.transcribe_config.embedding_model_filename.as_str(),
                    ),
                },
            );
        }
        if !segment_exists {
            wanted.push(
                Download {
                    url: self.transcribe_config.segment_model_url.clone(),
                    target: self.model_config.auxiliary(
                        self.transcribe_config.segment_model_filename.as_str(),
                    ),
                },
            );
        }
        wanted
    }

    /// Takes in the engine's answer to the load that [`load`]
    /// asked for. A handle is recorded in the slot together with `path`; a
    /// refusal leaves the slot as it was. The answer says which it was.
    pub fn complete_load(
        &self,
        slot: &mut ModelLease<H>,
        payload: &LoadPayload,
        path: &ModelPath,
        created: Result<H, String>,
    ) -> (answer: LoadResponse)
        ensures
            answer.success == created is Ok,
            match created {
                Ok(handle) => {
                    &&& final(slot).slot_of().handle_of() == Some(handle)
                    &&& final(slot).slot_of().recorded() == Some(path@)
                    &&& answer.message@ == loaded_message(payload.model_name@, path@.1)
                },
                Err(reason) => final(slot).slot_of() == old(slot).slot_of() && answer.message@
                    == crate::model::load_failure_message(reason@),
            },
    {
        match slot.complete_load(path, created) {
            Ok(()) => loaded_response(payload.model_name.as_str(), path.filename.as_str()),
            Err(e) => LoadResponse { success: false, message: e.message },
        }
    }

    /// Ends a job: records its outcome and gives the lease back, in one
    /// step. Afterwards the job is no longer `Processing` and the model is
    /// free again, whatever the outcome was. A job that is ended before its
    /// outcome was decided is recorded as failed.
    pub fn finish_job(&mut self, executor: JobExecutor, lease: ModelLease<H>) -> (recorded: bool)
        ensures
            final(self).transcribe_config == old(self).transcribe_config,
            final(self).model_config == old(self).model_config,
            !final(self).whisper.is_held(),
            final(self).whisper.slot_of() == lease.slot_of(),
            recorded == old(self).results@.contains_key(executor.job_id_of()),
            !recorded ==> final(self).results@ == old(self).results@,
            recorded ==> {
                &&& final(self).results@.dom() == old(self).results@.dom()
                &&& final(self).results@[executor.job_id_of()].is_terminal()
                &&& final(self).results@[executor.job_id_of()]@ == (match executor.outcome_of() {
                    Some(outcome) => outcome.record(),
                    None => OutcomeView::Failed(
                        ErrorKind::EngineFailure,
                        abandoned_message(),
                    ).record(),
                })
                &&& forall|id: Seq<char>|
                    id != executor.job_id_of() && old(self).results@.contains_key(id)
                        ==> final(self).results@[id] == old(self).results@[id]
            },
    {
        let (job_id, outcome) = executor.into_outcome();
        let recorded = self.results.write_terminal(job_id.as_str(), outcome);
        self.whisper.release(lease);
        proof {
            if recorded {
                assert(self.results@.dom() =~= old(self).results@.dom());
            }
        }
        recorded
    }
}

/// Takes a submission in: checks it, draws a fresh identifier and
/// registers the job as `Processing`. A submission that fails a check
/// is turned down before any identifier is drawn, and the registry
/// stays as it is. A submission that passes every check is turned down
/// only where the drawn identifier is already in use, which takes a
/// registry that holds an identifier of the drawn length: on a server
/// without one, such as a new server, it is always accepted. The answer
/// does not wait for the job: the ticket is for the background to execute.
pub fn transcribe<H>(context: &mut ModelContext<H>, submission: &Submission) -> (taken: Result<
    JobTicket,
    JobError,
>)
    ensures
        final(context).transcribe_config == old(context).transcribe_config,
        final(context).model_config == old(context).model_config,
        final(context).whisper == old(context).whisper,
        taken is Err ==> final(context).results@ == old(context).results@,
        rejection(
            old(context).transcribe_config,
            old(context).model_config,
            *submission,
        ) matches Some(why) ==> taken is Err && taken->Err_0@ == why,
        taken matches Err(e) ==> rejection(
            old(context).transcribe_config,
            old(context).model_config,
            *submission,
        ) == Some(e@) || e@ == (ErrorKind::IdentifierCollision, collision_message()),
        taken is Err && rejection(
            old(context).transcribe_config,
            old(context).model_config,
            *submission,
        ) is None ==> crate::registry::holds_drawn_length(old(context).results@),
        taken matches Ok(ticket) ==> {
            &&& ticket.job_id@.len() == 36
            &&& !old(context).results@.contains_key(ticket.job_id@)
            &&& final(context).results@ == old(context).results@.insert(
                ticket.job_id@,
                JobRecord::Processing,
            )
            &&& ticket.model_path@ == (
                old(context).model_config.model_directory@,
                old(context).model_config.filename_of(
                    requested_model(old(context).model_config, *submission),
                )->0,
            )
            &&& ticket.options@ == resolved_of(
                submitted_layer(old(context).transcribe_config, *submission),
            )
        },
{
    match context.validate(submission) {
        Err(e) => Err(e),
        Ok(_) => {
            let token = fresh_token();
            context.transcribe_with(submission, token)
        },
    }
}

/// Answers a question about the state of a job.
pub fn get_transcription_status<H>(
    context: &ModelContext<H>,
    request: &JobStatusRequest,
) -> (answer: TranscriptionResponse)
    ensures
        answer.job_id@ == request.job_id@,
        answer.status@ == status_word(context.results@, request.job_id@),
{
    let status = match context.results.status(request.job_id.as_str()) {
        Some(state) => String::from_str(state.label()),
        None => String::from_str("not_found"),
    };
    TranscriptionResponse { job_id: request.job_id.clone(), status }
}

/// Answers a question about the result of a job: the transcript of a
/// completed job, and a transcript without segments that says that the
/// job was not found for any other.
pub fn get_transcription_result<H>(
    context: &ModelContext<H>,
    request: &JobStatusRequest,
) -> (answer: TranscriptionResult)
    ensures
        answer@ == (if context.results@.contains_key(request.job_id@) {
            match context.results@[request.job_id@] {
                JobRecord::Completed(r) => r@,
                _ => not_found_transcript(),
            }
        } else {
            not_found_transcript()
        }),
{
    let found = match context.results.get(request.job_id.as_str()) {
        Some(record) => record.result(),
        None => None,
    };
    match found {
        Some(result) => result.duplicate(),
        None => {
            let answer = TranscriptionResult {
                text: String::from_str("Job not found"),
                segments: Vec::new(),
            };
            assert(answer@.segments =~= Seq::empty());
            answer
        },
    }
}

/// Lists the models: see [`ModelConfig::list_models`].
pub fn list_models<H>(context: &ModelContext<H>, on_disk: &Vec<bool>) -> (listing: ModelListing)
    ensures
        crate::catalog::texts(listing.models@) == crate::catalog::available_names(
            context.model_config.mappings@,
            on_disk@,
            context.model_config.mappings@.len() as int,
        ),
        listing.default_model@ == context.model_config.default_model@,
        crate::catalog::texts(listing.configured_models@) == crate::catalog::configured_names(
            context.model_config.mappings@,
            context.model_config.mappings@.len() as int,
        ),
{
    context.model_config.list_models(on_disk)
}

/// Decides what a request to load a model leads to, given the slot
/// under lease and whether the model's file is on disk: a refusal where
/// the catalog does not know the name or the file is missing, nothing
/// to do where the slot holds that model already, a load otherwise.
pub fn load<H>(
    context: &ModelContext<H>,
    slot: &ModelLease<H>,
    payload: &LoadPayload,
    model_file_exists: bool,
) -> (plan: LoadPlan)
    ensures
        match context.model_config.filename_of(payload.model_name@) {
            None => plan matches LoadPlan::Refuse(answer) && !answer.success && answer.message@
                == unknown_model_message(payload.model_name@),
            Some(filename) => {
                let path = (context.model_config.model_directory@, filename);
                if !model_file_exists {
                    plan matches LoadPlan::Refuse(answer) && !answer.success && answer.message@
                        == missing_file_message(path)
                } else if crate::model::must_load(slot.slot_of().recorded(), path) {
                    plan matches LoadPlan::Create(wanted) && wanted@ == path
                } else {
                    plan matches LoadPlan::Reuse(answer) && answer.success && answer.message@
                        == loaded_message(payload.model_name@, filename)
                }
            },
        },
{
    let path = match context.model_config.resolve(payload.model_name.as_str()) {
        Ok(path) => path,
        Err(_) => {
            return LoadPlan::Refuse(
                LoadResponse {
                    success: false,
                    message: concat3(
                        "Model '",
                        payload.model_name.as_str(),
                        "' not found in mappings",
                    ),
                },
            );
        },
    };
    if !model_file_exists {
        let mut message = concat3("Model file not found: ", path.directory.as_str(), "/");
        message.append(path.filename.as_str());
        assert(message@ =~= missing_file_message(path@));
        return LoadPlan::Refuse(LoadResponse { success: false, message });
    }
    if slot.needs_load(&path) {
        LoadPlan::Create(path)
    } else {
        LoadPlan::Reuse(loaded_response(payload.model_name.as_str(), path.filename.as_str()))
    }
}

} // verus!
