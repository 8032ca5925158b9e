//! The execution of one job, from the grant of the model to its outcome.
//!
//! The work that only the surroundings can do (waiting for the model,
//! calling the engine, looking at the disk) is asked for by a [`JobAction`]
//! and answered by a [`JobEvent`]; every decision in between is taken here.
//! A job runs straight through its stages, without retries, and always
//! ends with an outcome.

use vstd::prelude::*;
use vstd::string::*;
use crate::catalog::ModelPath;
use crate::config::{ResolvedTranscribeOptions, ResolvedView};
use crate::error::{ErrorKind, JobError};
use crate::model::{load_failure_message, must_load, ModelLease, ModelSlot};
use crate::registry::{
    JobOutcome, OutcomeView, Segment, SegmentView, TranscriptView, TranscriptionResult,
};
use crate::text::concat2;

verus! {

/// A segment as the engine returns it. Times are in hundredths of a second.
#[derive(Clone, Debug, PartialEq, Eq)]
pub struct EngineSegment {
    pub start: i64,
    pub stop: i64,
    pub text: String,
    /// The engine's tag of the speaker, where it told speakers apart.
    pub speaker: Option<String>,
}

/// What an [`EngineSegment`] holds.
pub struct EngineSegmentView {
    pub start: i64,
    pub stop: i64,
    pub text: Seq<char>,
    pub speaker: Option<Seq<char>>,
}

impl View for EngineSegment {
    type V = EngineSegmentView;

    open spec fn view(&self) -> EngineSegmentView {
        EngineSegmentView {
            start: self.start,
            stop: self.stop,
            text: self.text@,
            speaker: match self.speaker {
                Some(s) => Some(s@),
                None => None,
            },
        }
    }
}

/// What each engine segment of a sequence holds.
pub open spec fn engine_views(segments: Seq<EngineSegment>) -> Seq<EngineSegmentView> {
    Seq::new(segments.len(), |i: int| segments[i]@)
}

/// The label of a speaker with the engine's tag `tag`.
pub open spec fn speaker_label(tag: Seq<char>) -> Seq<char> {
    "Speaker "@ + tag
}

/// The public shape of an engine segment: same times, same text, and the
/// speaker's tag turned into a label.
pub open spec fn public_shape(segment: EngineSegmentView) -> SegmentView {
    SegmentView {
        start: segment.start,
        end: segment.stop,
        text: segment.text,
        speaker: match segment.speaker {
            Some(tag) => Some(speaker_label(tag)),
            None => None,
        },
    }
}

/// The texts of the first `n` segments, joined by single spaces.
pub open spec fn joined_text(segments: Seq<EngineSegmentView>, n: int) -> Seq<char>
    decreases n,
{
    if n <= 0 {
        Seq::empty()
    } else if n == 1 {
        segments[0].text
    } else {
        joined_text(segments, n - 1) + seq![' '] + segments[n - 1].text
    }
}

/// The transcript that a sequence of engine segments makes.
pub open spec fn transcript(segments: Seq<EngineSegmentView>) -> TranscriptView {
    TranscriptView {
        text: joined_text(segments, segments.len() as int),
        segments: Seq::new(segments.len(), |i: int| public_shape(segments[i])),
    }
}

/// Turns an engine segment into its public shape.
pub fn public_segment(segment: &EngineSegment) -> (public: Segment)
    ensures
        public@ == public_shape(segment@),
{
    Segment {
        start: segment.start,
        end: segment.stop,
        text: segment.text.clone(),
        speaker: match &segment.speaker {
            Some(tag) => Some(concat2("Speaker ", tag.as_str())),
            None => None,
        },
    }
}

/// Builds the transcript of a job from what the engine returned: every
/// segment in its public shape, in order, and the full text, which is the
/// segments' texts joined by single spaces.
pub fn build_transcript(segments: &Vec<EngineSegment>) -> (result: TranscriptionResult)
    ensures
        result@ == transcript(engine_views(segments@)),
{
    let mut text = String::new();
    let mut public: Vec<Segment> = Vec::new();
    let ghost views = engine_views(segments@);
    let mut i: usize = 0;
    while i < segments.len()
        invariant
            i <= segments@.len(),
            views == engine_views(segments@),
            text@ == joined_text(views, i as int),
            public@.len() == i,
            forall|j: int| 0 <= j < i ==> (#[trigger] public@[j])@ == public_shape(views[j]),
        decreases segments@.len() - i,
    {
        proof {
            reveal_strlit(" ");
            assert(" "@ =~= seq![' ']);
        }
        if i > 0 {
            text.append(" ");
            text.append(segments[i].text.as_str());
        } else {
            text.append(segments[i].text.as_str());
            assert(text@ =~= views[0].text);
        }
        public.push(public_segment(&segments[i]));
        i = i + 1;
    }
    let result = TranscriptionResult { text, segments: public };
    assert(result@.segments =~= transcript(views).segments);
    result
}

/// A transcript keeps the engine's times: where the engine's segments end no
/// earlier than they start and start in order, so do the transcript's.
pub proof fn transcript_keeps_times(segments: Seq<EngineSegmentView>)
    requires
        forall|i: int|
            0 <= i < segments.len() ==> (#[trigger] segments[i]).start <= segments[i].stop,
        forall|i: int, j: int|
            0 <= i <= j < segments.len() ==> (#[trigger] segments[i]).start <= (
            #[trigger] segments[j]).start,
    ensures
        crate::registry::well_timed(transcript(segments).segments),
        transcript(segments).segments.len() == segments.len(),
{
    let out = transcript(segments).segments;
    assert forall|i: int| 0 <= i < out.len() implies (#[trigger] out[i]).start <= out[i].end by {
        assert(segments[i].start <= segments[i].stop);
    }
    assert forall|i: int, j: int| 0 <= i <= j < out.len() implies (#[trigger] out[i]).start <= (
    #[trigger] out[j]).start by {
        assert(segments[i].start <= segments[j].start);
    }
}

/// Where the execution of a job stands.
#[derive(Clone, Copy, Debug, PartialEq, Eq, Structural)]
pub enum JobStage {
    /// Waiting for the exclusive use of the model slot.
    AwaitingModel,
    /// Waiting for the engine to load the model.
    LoadingModel,
    /// Waiting to learn whether the diarization model files are on disk.
    CheckingAuxiliary,
    /// Waiting for the engine to transcribe.
    Transcribing,
    /// The outcome is decided; it remains to record it and to release the model.
    Finishing,
}

/// What the surroundings are asked to do next.
#[derive(Clone, Copy, Debug, PartialEq, Eq, Structural)]
pub enum JobAction {
    /// Obtain the lease of the model slot, then report `ModelAcquired`.
    AcquireModel,
    /// Have the engine load the job's model, then report `ContextCreated`.
    CreateContext,
    /// Look for the two diarization model files, then report `AuxiliaryChecked`.
    CheckAuxiliary,
    /// Run the engine on the job's options, then report `EngineFinished`.
    Transcribe,
    /// Record the outcome and release the lease.
    Finish,
}

/// What the surroundings report back.
pub enum JobEvent<H> {
    /// The lease passed along with this event was granted to the job.
    ModelAcquired,
    /// The engine's answer to the load: a handle, or the reason of its refusal.
    ContextCreated(Result<H, String>),
    /// Whether each diarization model file is on disk.
    AuxiliaryChecked { embedding_exists: bool, segment_exists: bool },
    /// The engine's answer to the transcription: the segments, or its error.
    EngineFinished(Result<Vec<EngineSegment>, String>),
}

/// What a submission hands to the background: the job, its model and its options.
#[derive(Clone, Debug, PartialEq, Eq)]
pub struct JobTicket {
    pub job_id: String,
    pub model_path: ModelPath,
    pub options: ResolvedTranscribeOptions,
}

/// The stage of a job, with its outcome once that is decided.
enum JobProgress {
    AwaitingModel,
    LoadingModel,
    CheckingAuxiliary,
    Transcribing,
    Finishing(JobOutcome),
}

/// The execution of one job.
pub struct JobExecutor {
    job_id: String,
    model_path: ModelPath,
    options: ResolvedTranscribeOptions,
    progress: JobProgress,
}

/// The action that a stage waits for.
pub open spec fn pending_action(stage: JobStage) -> JobAction {
    match stage {
        JobStage::AwaitingModel => JobAction::AcquireModel,
        JobStage::LoadingModel => JobAction::CreateContext,
        JobStage::CheckingAuxiliary => JobAction::CheckAuxiliary,
        JobStage::Transcribing => JobAction::Transcribe,
        JobStage::Finishing => JobAction::Finish,
    }
}

/// How far a stage is along the way.
pub open spec fn rank(stage: JobStage) -> nat {
    match stage {
        JobStage::AwaitingModel => 0,
        JobStage::LoadingModel => 1,
        JobStage::CheckingAuxiliary => 2,
        JobStage::Transcribing => 3,
        JobStage::Finishing => 4,
    }
}

/// Whether an event is the one that a stage waits for.
pub open spec fn in_turn<H>(stage: JobStage, event: JobEvent<H>) -> bool {
    match stage {
        JobStage::AwaitingModel => event is ModelAcquired,
        JobStage::LoadingModel => event is ContextCreated,
        JobStage::CheckingAuxiliary => event is AuxiliaryChecked,
        JobStage::Transcribing => event is EngineFinished,
        JobStage::Finishing => false,
    }
}

/// The stage that follows once the model is loaded: the check of the
/// diarization models where speaker attribution is requested, the
/// transcription otherwise.
pub open spec fn ready_stage(options: ResolvedView) -> JobStage {
    if options.diarize is Some {
        JobStage::CheckingAuxiliary
    } else {
        JobStage::Transcribing
    }
}

/// Whether both diarization models are named and on disk.
pub open spec fn auxiliary_ready(
    options: ResolvedView,
    embedding_exists: bool,
    segment_exists: bool,
) -> bool {
    &&& options.diarize is Some
    &&& options.diarize->0.embedding_model is Some
    &&& options.diarize->0.segment_model is Some
    &&& embedding_exists
    &&& segment_exists
}

/// The description of a job that fails for want of a diarization model file.
pub open spec fn missing_auxiliary_message() -> Seq<char> {
    "Diarization model files not found in the model directory"@
}

/// The description of a job that was ended before its outcome was decided.
pub open spec fn abandoned_message() -> Seq<char> {
    "Job ended before the engine answered"@
}

/// The outcome that the engine's answer decides: the transcript of its
/// segments, or a failure that carries its error.
pub open spec fn engine_outcome(answer: Result<Vec<EngineSegment>, String>) -> OutcomeView {
    match answer {
        Ok(segments) => OutcomeView::Completed(transcript(engine_views(segments@))),
        Err(reason) => OutcomeView::Failed(ErrorKind::EngineFailure, reason@),
    }
}

impl JobProgress {
    spec fn stage(self) -> JobStage {
        match self {
            JobProgress::AwaitingModel => JobStage::AwaitingModel,
            JobProgress::LoadingModel => JobStage::LoadingModel,
            JobProgress::CheckingAuxiliary => JobStage::CheckingAuxiliary,
            JobProgress::Transcribing => JobStage::Transcribing,
            JobProgress::Finishing(_) => JobStage::Finishing,
        }
    }

    spec fn outcome(self) -> Option<OutcomeView> {
        match self {
            JobProgress::Finishing(o) => Some(o@),
            _ => None,
        }
    }
}

impl JobExecutor {
    /// The identifier of the job.
    pub closed spec fn job_id_of(&self) -> Seq<char> {
        self.job_id@
    }

    /// The path of the job's model.
    pub closed spec fn model_of(&self) -> (Seq<char>, Seq<char>) {
        self.model_path@
    }

    /// The options of the job.
    pub closed spec fn options_of(&self) -> ResolvedView {
        self.options@
    }

    /// The stage of the job.
    pub closed spec fn stage_of(&self) -> JobStage {
        self.progress.stage()
    }

    /// The outcome of the job, once it is decided.
    pub closed spec fn outcome_of(&self) -> Option<OutcomeView> {
        self.progress.outcome()
    }

    /// The outcome is decided exactly in the last stage.
    pub proof fn outcome_comes_last(&self)
        ensures
            self.outcome_of() is Some <==> self.stage_of() == JobStage::Finishing,
    {
    }

    /// The execution of the job of `ticket`, before anything was done.
    pub fn new(ticket: JobTicket) -> (executor: JobExecutor)
        ensures
            executor.job_id_of() == ticket.job_id@,
            executor.model_of() == ticket.model_path@,
            executor.options_of() == ticket.options@,
            executor.stage_of() == JobStage::AwaitingModel,
            executor.outcome_of() is None,
    {
        JobExecutor {
            job_id: ticket.job_id,
            model_path: ticket.model_path,
            options: ticket.options,
            progress: JobProgress::AwaitingModel,
        }
    }

    /// The identifier of the job.
    pub fn job_id(&self) -> (id: &String)
        ensures
            id@ == self.job_id_of(),
    {
        &self.job_id
    }

    /// The path of the job's model.
    pub fn model_path(&self) -> (path: &ModelPath)
        ensures
            path@ == self.model_of(),
    {
        &self.model_path
    }

    /// The options of the job.
    pub fn options(&self) -> (options: &ResolvedTranscribeOptions)
        ensures
            options@ == self.options_of(),
    {
        &self.options
    }

    /// The stage of the job.
    pub fn stage(&self) -> (stage: JobStage)
        ensures
            stage == self.stage_of(),
    {
        match &self.progress {
            JobProgress::AwaitingModel => JobStage::AwaitingModel,
            JobProgress::LoadingModel => JobStage::LoadingModel,
            JobProgress::CheckingAuxiliary => JobStage::CheckingAuxiliary,
            JobProgress::Transcribing => JobStage::Transcribing,
            JobProgress::Finishing(_) => JobStage::Finishing,
        }
    }

    /// The action that the job waits for.
    pub fn action(&self) -> (action: JobAction)
        ensures
            action == pending_action(self.stage_of()),
    {
        match &self.progress {
            JobProgress::AwaitingModel => JobAction::AcquireModel,
            JobProgress::LoadingModel => JobAction::CreateContext,
            JobProgress::CheckingAuxiliary => JobAction::CheckAuxiliary,
            JobProgress::Transcribing => JobAction::Transcribe,
            JobProgress::Finishing(_) => JobAction::Finish,
        }
    }
}

/// What one step does. The job's identity, model and options never change,
/// and the action returned is the one that the new stage waits for. The
/// event that the stage waits for moves the job strictly forward:
///
/// - the grant of the model leads to the load where the slot holds another
///   model or none, and past it where the slot holds the job's model;
/// - the engine's handle is recorded in the slot together with the job's
///   model path, and its refusal fails the job and leaves the slot alone;
/// - the check of the diarization models leads to the transcription where
///   both are there, and fails the job where one is missing;
/// - the engine's answer decides the outcome.
///
/// Any other event changes nothing.
pub open spec fn stepped<H>(
    before: JobExecutor,
    slot_before: ModelSlot<H>,
    event: JobEvent<H>,
    after: JobExecutor,
    slot_after: ModelSlot<H>,
    action: JobAction,
) -> bool {
    &&& after.job_id_of() == before.job_id_of()
    &&& after.model_of() == before.model_of()
    &&& after.options_of() == before.options_of()
    &&& action == pending_action(after.stage_of())
    &&& rank(after.stage_of()) >= rank(before.stage_of())
    &&& in_turn(before.stage_of(), event) ==> rank(after.stage_of()) > rank(before.stage_of())
    &&& !in_turn(before.stage_of(), event) ==> after == before && slot_after == slot_before
    &&& in_turn(before.stage_of(), event) ==> match event {
        JobEvent::ModelAcquired => {
            &&& slot_after == slot_before
            &&& after.outcome_of() is None
            &&& after.stage_of() == if must_load(slot_before.recorded(), before.model_of()) {
                JobStage::LoadingModel
            } else {
                ready_stage(before.options_of())
            }
        },
        JobEvent::ContextCreated(created) => match created {
            Ok(handle) => {
                &&& slot_after.handle_of() == Some(handle)
                &&& slot_after.recorded() == Some(before.model_of())
                &&& after.outcome_of() is None
                &&& after.stage_of() == ready_stage(before.options_of())
            },
            Err(reason) => {
                &&& slot_after == slot_before
                &&& after.stage_of() == JobStage::Finishing
                &&& after.outcome_of() == Some(
                    OutcomeView::Failed(ErrorKind::ModelLoadFailed, load_failure_message(reason@)),
                )
            },
        },
        JobEvent::AuxiliaryChecked { embedding_exists, segment_exists } => {
            &&& slot_after == slot_before
            &&& if auxiliary_ready(before.options_of(), embedding_exists, segment_exists) {
                after.stage_of() == JobStage::Transcribing && after.outcome_of() is None
            } else {
                after.stage_of() == JobStage::Finishing && after.outcome_of() == Some(
                    OutcomeView::Failed(ErrorKind::ModelNotFound, missing_auxiliary_message()),
                )
            }
        },
        JobEvent::EngineFinished(answer) => {
            &&& slot_after == slot_before
            &&& after.stage_of() == JobStage::Finishing
            &&& after.outcome_of() == Some(engine_outcome(answer))
        },
    }
}

impl JobExecutor {
    /// The stage that follows once the model is loaded.
    fn progress_when_ready(&self) -> (progress: JobProgress)
        ensures
            progress.stage() == ready_stage(self.options_of()),
            progress.outcome() is None,
    {
        if self.options.diarize.is_some() {
            JobProgress::CheckingAuxiliary
        } else {
            JobProgress::Transcribing
        }
    }

    /// Whether both diarization models are named and on disk.
    fn has_auxiliary(&self, embedding_exists: bool, segment_exists: bool) -> (ready: bool)
        ensures
            ready == auxiliary_ready(self.options_of(), embedding_exists, segment_exists),
    {
        match &self.options.diarize {
            Some(d) => d.embedding_model.is_some() && d.segment_model.is_some() && embedding_exists
                && segment_exists,
            None => false,
        }
    }

    /// Takes the job one step further on `event`, and says what to do next.
    /// `lease` is the job's lease of the model slot.
    pub fn step<H>(&mut self, lease: &mut ModelLease<H>, event: JobEvent<H>) -> (action: JobAction)
        ensures
            stepped(
                *old(self),
                old(lease).slot_of(),
                event,
                *final(self),
                final(lease).slot_of(),
                action,
            ),
    {
        let stage = self.stage();
        match event {
            JobEvent::ModelAcquired => {
                if stage == JobStage::AwaitingModel {
                    if lease.needs_load(&self.model_path) {
                        self.progress = JobProgress::LoadingModel;
                    } else {
                        self.progress = self.progress_when_ready();
                    }
                }
            },
            JobEvent::ContextCreated(created) => {
                if stage == JobStage::LoadingModel {
                    match lease.complete_load(&self.model_path, created) {
                        Ok(()) => {
                            self.progress = self.progress_when_ready();
                        },
                        Err(e) => {
                            self.progress = JobProgress::Finishing(JobOutcome::Failed(e));
                        },
                    }
                }
            },
            JobEvent::AuxiliaryChecked { embedding_exists, segment_exists } => {
                if stage == JobStage::CheckingAuxiliary {
                    if self.has_auxiliary(embedding_exists, segment_exists) {
                        self.progress = JobProgress::Transcribing;
                    } else {
                        self.progress = JobProgress::Finishing(
                            JobOutcome::Failed(
                                JobError::new(
                                    ErrorKind::ModelNotFound,
                                    String::from_str(
                                        "Diarization model files not found in the model directory",
                                    ),
                                ),
                            ),
                        );
                    }
                }
            },
            JobEvent::EngineFinished(answer) => {
                if stage == JobStage::Transcribing {
                    let outcome = match answer {
                        Ok(segments) => JobOutcome::Completed(build_transcript(&segments)),
                        Err(reason) => JobOutcome::Failed(
                            JobError::new(ErrorKind::EngineFailure, reason),
                        ),
                    };
                    self.progress = JobProgress::Finishing(outcome);
                }
            },
        }
        self.action()
    }

    /// Ends the execution and hands out the job's identifier and outcome.
    /// A job that is ended before its outcome was decided has failed.
    pub fn into_outcome(self) -> (ended: (String, JobOutcome))
        ensures
            ended.0@ == self.job_id_of(),
            match self.outcome_of() {
                Some(outcome) => ended.1@ == outcome,
                None => ended.1@ == OutcomeView::Failed(
                    ErrorKind::EngineFailure,
                    abandoned_message(),
                ),
            },
    {
        let outcome = match self.progress {
            JobProgress::Finishing(outcome) => outcome,
            _ => JobOutcome::Failed(
                JobError::new(
                    ErrorKind::EngineFailure,
                    String::from_str("Job ended before the engine answered"),
                ),
            ),
        };
        (self.job_id, outcome)
    }
}

impl JobExecutor {
    /// The places of the two diarization model files, embedding model
    /// first, in the directory of the job's model. `None` where speaker
    /// attribution is not requested or one of the files is not named.
    pub fn auxiliary_paths(&self) -> (paths: Option<(ModelPath, ModelPath)>)
        ensures
            paths is Some <==> auxiliary_ready(self.options_of(), true, true),
            paths matches Some(p) ==> p.0@ == (
                self.model_of().0,
                self.options_of().diarize->0.embedding_model->0,
            ) && p.1@ == (self.model_of().0, self.options_of().diarize->0.segment_model->0),
    {
        match &self.options.diarize {
            Some(d) => match (&d.embedding_model, &d.segment_model) {
                (Some(embedding), Some(segment)) => Some(
                    (
                        ModelPath {
                            directory: self.model_path.directory.clone(),
                            filename: embedding.clone(),
                        },
                        ModelPath {
                            directory: self.model_path.directory.clone(),
                            filename: segment.clone(),
                        },
                    ),
                ),
                _ => None,
            },
            None => None,
        }
    }
}

} // verus!
