//! The job registry: every job ever submitted, by identifier.
//!
//! A record is created as `Processing` and later overwritten once with its
//! outcome. Nothing is ever evicted: the registry grows for the life of the
//! process.

use vstd::prelude::*;
use crate::error::{ErrorKind, JobError};
use crate::text::same_text;

verus! {

/// Where a job stands.
#[derive(Clone, Copy, Debug, PartialEq, Eq, Structural)]
pub enum JobState {
    Processing,
    Completed,
    Failed,
}

/// A stretch of transcribed speech. Times are in hundredths of a second.
#[derive(Clone, Debug, PartialEq, Eq)]
pub struct Segment {
    pub start: i64,
    pub end: i64,
    pub text: String,
    pub speaker: Option<String>,
}

/// A finished transcript: the segments, and their texts joined by single spaces.
#[derive(Clone, Debug, PartialEq, Eq)]
pub struct TranscriptionResult {
    pub text: String,
    pub segments: Vec<Segment>,
}

/// How a job ended.
#[derive(Clone, Debug, PartialEq, Eq)]
pub enum JobOutcome {
    Completed(TranscriptionResult),
    Failed(JobError),
}

/// What the registry keeps of a job: its state, with the transcript of a
/// completed job or the error of a failed one.
#[derive(Clone, Debug, PartialEq, Eq)]
pub enum JobRecord {
    Processing,
    Completed(TranscriptionResult),
    Failed(JobError),
}

/// What a [`Segment`] holds.
pub struct SegmentView {
    pub start: i64,
    pub end: i64,
    pub text: Seq<char>,
    pub speaker: Option<Seq<char>>,
}

/// What a [`TranscriptionResult`] holds.
pub struct TranscriptView {
    pub text: Seq<char>,
    pub segments: Seq<SegmentView>,
}

/// What a [`JobOutcome`] holds.
pub enum OutcomeView {
    Completed(TranscriptView),
    Failed(ErrorKind, Seq<char>),
}

impl View for Segment {
    type V = SegmentView;

    open spec fn view(&self) -> SegmentView {
        SegmentView {
            start: self.start,
            end: self.end,
            text: self.text@,
            speaker: match self.speaker {
                Some(s) => Some(s@),
                None => None,
            },
        }
    }
}

impl View for TranscriptionResult {
    type V = TranscriptView;

    open spec fn view(&self) -> TranscriptView {
        TranscriptView {
            text: self.text@,
            segments: Seq::new(self.segments@.len(), |i: int| self.segments@[i]@),
        }
    }
}

impl View for JobOutcome {
    type V = OutcomeView;

    open spec fn view(&self) -> OutcomeView {
        match self {
            JobOutcome::Completed(r) => OutcomeView::Completed(r@),
            JobOutcome::Failed(e) => OutcomeView::Failed(e.kind, e.message@),
        }
    }
}

/// What a [`JobRecord`] holds.
pub enum RecordView {
    Processing,
    Completed(TranscriptView),
    Failed(ErrorKind, Seq<char>),
}

impl View for JobRecord {
    type V = RecordView;

    open spec fn view(&self) -> RecordView {
        match self {
            JobRecord::Processing => RecordView::Processing,
            JobRecord::Completed(r) => RecordView::Completed(r@),
            JobRecord::Failed(e) => RecordView::Failed(e.kind, e.message@),
        }
    }
}

impl OutcomeView {
    /// What the record of this outcome holds.
    pub open spec fn record(self) -> RecordView {
        match self {
            OutcomeView::Completed(t) => RecordView::Completed(t),
            OutcomeView::Failed(kind, message) => RecordView::Failed(kind, message),
        }
    }
}

impl Segment {
    /// A copy of this segment.
    pub fn duplicate(&self) -> (copy: Segment)
        ensures
            copy@ == self@,
    {
        Segment {
            start: self.start,
            end: self.end,
            text: self.text.clone(),
            speaker: match &self.speaker {
                Some(s) => Some(s.clone()),
                None => None,
            },
        }
    }
}

impl TranscriptionResult {
    /// A copy of this transcript.
    pub fn duplicate(&self) -> (copy: TranscriptionResult)
        ensures
            copy@ == self@,
    {
        let mut segments: Vec<Segment> = Vec::new();
        let mut i: usize = 0;
        while i < self.segments.len()
            invariant
                i <= self.segments@.len(),
                segments@.len() == i,
                forall|j: int| 0 <= j < i ==> (#[trigger] segments@[j])@ == self.segments@[j]@,
            decreases self.segments@.len() - i,
        {
            segments.push(self.segments[i].duplicate());
            i = i + 1;
        }
        let copy = TranscriptionResult { text: self.text.clone(), segments };
        assert(copy@.segments =~= self@.segments);
        copy
    }

    /// Whether every segment ends no earlier than it starts, and none
    /// starts earlier than the one before it.
    pub fn is_well_timed(&self) -> (ok: bool)
        ensures
            ok == well_timed(self@.segments),
    {
        let mut i: usize = 0;
        while i < self.segments.len()
            invariant
                i <= self.segments@.len(),
                forall|j: int| 0 <= j < i ==> (#[trigger] self.segments@[j]).start
                    <= self.segments@[j].end,
                forall|j: int, k: int|
                    0 <= j <= k < i ==> (#[trigger] self.segments@[j]).start <= (
                    #[trigger] self.segments@[k]).start,
            decreases self.segments@.len() - i,
        {
            if self.segments[i].start > self.segments[i].end {
                assert(self@.segments[i as int].start > self@.segments[i as int].end);
                return false;
            }
            if i > 0 && self.segments[i - 1].start > self.segments[i].start {
                assert(self@.segments[i - 1].start > self@.segments[i as int].start);
                return false;
            }
            i = i + 1;
        }
        assert forall|j: int| 0 <= j < self@.segments.len() implies (
        #[trigger] self@.segments[j]).start <= self@.segments[j].end by {
            assert(self.segments@[j].start <= self.segments@[j].end);
        }
        assert forall|j: int, k: int| 0 <= j <= k < self@.segments.len() implies (
        #[trigger] self@.segments[j]).start <= (#[trigger] self@.segments[k]).start by {
            assert(self.segments@[j].start <= self.segments@[k].start);
        }
        true
    }
}

/// Whether every segment ends no earlier than it starts, and none starts
/// earlier than the one before it.
pub open spec fn well_timed(segments: Seq<SegmentView>) -> bool {
    &&& forall|i: int| 0 <= i < segments.len() ==> (#[trigger] segments[i]).start <= segments[i].end
    &&& forall|i: int, j: int|
        0 <= i <= j < segments.len() ==> (#[trigger] segments[i]).start <= (
        #[trigger] segments[j]).start
}

impl JobOutcome {
    /// The record that stores this outcome.
    pub open spec fn record(self) -> JobRecord {
        match self {
            JobOutcome::Completed(r) => JobRecord::Completed(r),
            JobOutcome::Failed(e) => JobRecord::Failed(e),
        }
    }

    /// The record that stores this outcome.
    pub fn into_record(self) -> (record: JobRecord)
        ensures
            record == self.record(),
            record.is_terminal(),
    {
        match self {
            JobOutcome::Completed(r) => JobRecord::Completed(r),
            JobOutcome::Failed(e) => JobRecord::Failed(e),
        }
    }
}

impl JobRecord {
    /// The state of the job.
    pub open spec fn state_of(self) -> JobState {
        match self {
            JobRecord::Processing => JobState::Processing,
            JobRecord::Completed(_) => JobState::Completed,
            JobRecord::Failed(_) => JobState::Failed,
        }
    }

    /// Whether the job has ended.
    pub open spec fn is_terminal(self) -> bool {
        !(self is Processing)
    }

    /// The state of the job.
    pub fn state(&self) -> (state: JobState)
        ensures
            state == self.state_of(),
    {
        match self {
            JobRecord::Processing => JobState::Processing,
            JobRecord::Completed(_) => JobState::Completed,
            JobRecord::Failed(_) => JobState::Failed,
        }
    }

    /// The transcript, if the job completed.
    pub fn result(&self) -> (result: Option<&TranscriptionResult>)
        ensures
            result is Some <==> self is Completed,
            result matches Some(r) ==> *self == JobRecord::Completed(*r),
    {
        match self {
            JobRecord::Completed(r) => Some(r),
            _ => None,
        }
    }

    /// The error, if the job failed.
    pub fn error(&self) -> (error: Option<&JobError>)
        ensures
            error is Some <==> self is Failed,
            error matches Some(e) ==> *self == JobRecord::Failed(*e),
    {
        match self {
            JobRecord::Failed(e) => Some(e),
            _ => None,
        }
    }
}

impl JobState {
    /// The word that status answers carry for this state.
    pub open spec fn label_of(self) -> Seq<char> {
        match self {
            JobState::Processing => "processing"@,
            JobState::Completed => "completed"@,
            JobState::Failed => "failed"@,
        }
    }

    /// The word that status answers carry for this state.
    pub fn label(&self) -> (label: &'static str)
        ensures
            label@ == self.label_of(),
    {
        match self {
            JobState::Processing => "processing",
            JobState::Completed => "completed",
            JobState::Failed => "failed",
        }
    }
}

/// One job of the registry.
pub struct JobEntry {
    id: String,
    record: JobRecord,
}

/// The position of the first entry for `id` at or after `from`.
pub closed spec fn position(entries: Seq<JobEntry>, id: Seq<char>, from: int) -> Option<int>
    decreases entries.len() - from,
{
    if from < 0 || from >= entries.len() {
        None
    } else if entries[from].id@ == id {
        Some(from)
    } else {
        position(entries, id, from + 1)
    }
}

/// The records of a sequence of entries, by identifier.
pub closed spec fn records_of(entries: Seq<JobEntry>) -> Map<Seq<char>, JobRecord> {
    Map::new(
        |id: Seq<char>| position(entries, id, 0) is Some,
        |id: Seq<char>| entries[position(entries, id, 0)->0].record,
    )
}

proof fn position_is_first(entries: Seq<JobEntry>, id: Seq<char>, from: int)
    requires
        0 <= from,
    ensures
        match position(entries, id, from) {
            Some(at) => from <= at < entries.len() && entries[at].id@ == id && forall|j: int|
                from <= j < at ==> entries[j].id@ != id,
            None => forall|j: int| from <= j < entries.len() ==> entries[j].id@ != id,
        },
    decreases entries.len() - from,
{
    if from < entries.len() && entries[from].id@ != id {
        position_is_first(entries, id, from + 1);
    }
}

proof fn position_by_first(entries: Seq<JobEntry>, id: Seq<char>, from: int, at: int)
    requires
        0 <= from <= at < entries.len(),
        entries[at].id@ == id,
        forall|j: int| from <= j < at ==> entries[j].id@ != id,
    ensures
        position(entries, id, from) == Some(at),
    decreases at - from,
{
    if from < at {
        position_by_first(entries, id, from + 1, at);
    }
}

proof fn position_of_none(entries: Seq<JobEntry>, id: Seq<char>, from: int)
    requires
        0 <= from,
        forall|j: int| from <= j < entries.len() ==> entries[j].id@ != id,
    ensures
        position(entries, id, from) is None,
    decreases entries.len() - from,
{
    if from < entries.len() {
        position_of_none(entries, id, from + 1);
    }
}

/// A change to the registry.
pub enum RegistryOp {
    /// A job is created under this identifier.
    Create(Seq<char>),
    /// The outcome of the job with this identifier is written.
    WriteTerminal(Seq<char>, JobOutcome),
}

/// The records after one change: creation adds a `Processing` record under
/// an identifier that is new and does nothing under one in use; a write
/// replaces the record of a known job and does nothing for an unknown one.
pub open spec fn step(records: Map<Seq<char>, JobRecord>, op: RegistryOp) -> Map<
    Seq<char>,
    JobRecord,
> {
    match op {
        RegistryOp::Create(token) => if records.contains_key(token) {
            records
        } else {
            records.insert(token, JobRecord::Processing)
        },
        RegistryOp::WriteTerminal(id, outcome) => if records.contains_key(id) {
            records.insert(id, outcome.record())
        } else {
            records
        },
    }
}

/// The records after a series of changes, applied in order.
pub open spec fn replay(records: Map<Seq<char>, JobRecord>, ops: Seq<RegistryOp>) -> Map<
    Seq<char>,
    JobRecord,
>
    decreases ops.len(),
{
    if ops.len() == 0 {
        records
    } else {
        step(replay(records, ops.drop_last()), ops.last())
    }
}

/// A job that was just created under a new identifier is `Processing`.
pub proof fn created_job_is_processing(records: Map<Seq<char>, JobRecord>, token: Seq<char>)
    requires
        !records.contains_key(token),
    ensures
        step(records, RegistryOp::Create(token)).contains_key(token),
        step(records, RegistryOp::Create(token))[token].state_of() == JobState::Processing,
{
}

/// Once the outcome of a job is written, its state is exactly one of
/// `Completed` and `Failed`, as the outcome says, and not `Processing`.
pub proof fn written_job_is_terminal(
    records: Map<Seq<char>, JobRecord>,
    id: Seq<char>,
    outcome: JobOutcome,
)
    requires
        records.contains_key(id),
    ensures
        step(records, RegistryOp::WriteTerminal(id, outcome))[id].is_terminal(),
        outcome is Completed ==> step(
            records,
            RegistryOp::WriteTerminal(id, outcome),
        )[id].state_of() == JobState::Completed,
        outcome is Failed ==> step(records, RegistryOp::WriteTerminal(id, outcome))[id].state_of()
            == JobState::Failed,
{
}

/// A change under one identifier leaves the record of every other job as it was.
pub proof fn other_jobs_are_untouched(
    records: Map<Seq<char>, JobRecord>,
    op: RegistryOp,
    id: Seq<char>,
)
    requires
        records.contains_key(id),
        match op {
            RegistryOp::Create(token) => token != id,
            RegistryOp::WriteTerminal(written, _) => written != id,
        },
    ensures
        step(records, op).contains_key(id),
        step(records, op)[id] == records[id],
{
}

/// No series of changes evicts a job, and none moves a job that has ended
/// back to `Processing`.
pub proof fn ended_jobs_stay_ended(
    records: Map<Seq<char>, JobRecord>,
    ops: Seq<RegistryOp>,
    id: Seq<char>,
)
    requires
        records.contains_key(id),
    ensures
        replay(records, ops).contains_key(id),
        records[id].is_terminal() ==> replay(records, ops)[id].is_terminal(),
    decreases ops.len(),
{
    if ops.len() > 0 {
        ended_jobs_stay_ended(records, ops.drop_last(), id);
    }
}

/// Whether some job of the registry has an identifier as long as the drawn
/// ones are: only such an identifier can be drawn a second time.
pub open spec fn holds_drawn_length(records: Map<Seq<char>, JobRecord>) -> bool {
    exists|id: Seq<char>| id.len() == 36 && #[trigger] records.contains_key(id)
}

/// The registry of jobs.
pub struct JobRegistry {
    entries: Vec<JobEntry>,
}

impl View for JobRegistry {
    type V = Map<Seq<char>, JobRecord>;

    closed spec fn view(&self) -> Map<Seq<char>, JobRecord> {
        records_of(self.entries@)
    }
}

impl JobRegistry {
    /// A registry without jobs.
    pub fn new() -> (registry: JobRegistry)
        ensures
            registry@ == Map::<Seq<char>, JobRecord>::empty(),
    {
        let registry = JobRegistry { entries: Vec::new() };
        assert(registry@ =~= Map::<Seq<char>, JobRecord>::empty());
        registry
    }

    /// The position of the entry for `id`.
    fn find(&self, id: &str) -> (at: Option<usize>)
        ensures
            at is Some <==> self@.contains_key(id@),
            at matches Some(i) ==> i < self.entries@.len() && position(self.entries@, id@, 0)
                == Some(i as int) && self.entries@[i as int].id@ == id@,
    {
        let mut i: usize = 0;
        while i < self.entries.len()
            invariant
                i <= self.entries@.len(),
                forall|j: int| 0 <= j < i ==> self.entries@[j].id@ != id@,
            decreases self.entries@.len() - i,
        {
            if same_text(id, &self.entries[i].id) {
                proof {
                    position_by_first(self.entries@, id@, 0, i as int);
                }
                return Some(i);
            }
            i = i + 1;
        }
        proof {
            position_of_none(self.entries@, id@, 0);
        }
        None
    }

    /// Whether a job with this identifier was ever created.
    pub fn contains(&self, id: &str) -> (known: bool)
        ensures
            known == self@.contains_key(id@),
    {
        self.find(id).is_some()
    }

    /// The current record of a job, or `None` for an identifier that was never issued.
    pub fn get(&self, id: &str) -> (record: Option<&JobRecord>)
        ensures
            record is Some <==> self@.contains_key(id@),
            record matches Some(r) ==> *r == self@[id@],
    {
        match self.find(id) {
            Some(i) => Some(&self.entries[i].record),
            None => None,
        }
    }

    /// The current state of a job, or `None` for an identifier that was never issued.
    pub fn status(&self, id: &str) -> (state: Option<JobState>)
        ensures
            state is Some <==> self@.contains_key(id@),
            state matches Some(s) ==> s == self@[id@].state_of(),
    {
        match self.get(id) {
            Some(record) => Some(record.state()),
            None => None,
        }
    }

    /// Registers `token` as the identifier of a new job in state `Processing`,
    /// unless a job already has it: then nothing changes and the answer is `false`.
    pub fn create_with(&mut self, token: String) -> (created: bool)
        ensures
            created == !old(self)@.contains_key(token@),
            created ==> final(self)@ == old(self)@.insert(token@, JobRecord::Processing),
            !created ==> final(self)@ == old(self)@,
            final(self)@ == step(old(self)@, RegistryOp::Create(token@)),
    {
        if self.find(token.as_str()).is_some() {
            return false;
        }
        let ghost before = self.entries@;
        let ghost id = token@;
        self.entries.push(JobEntry { id: token, record: JobRecord::Processing });
        proof {
            let after = self.entries@;
            position_is_first(before, id, 0);
            assert forall|k: Seq<char>| #[trigger]
                records_of(after).contains_key(k) == records_of(before).insert(
                    id,
                    JobRecord::Processing,
                ).contains_key(k) && (records_of(after).contains_key(k) ==> records_of(after)[k]
                    == records_of(before).insert(id, JobRecord::Processing)[k]) by {
                position_is_first(before, k, 0);
                if k == id {
                    position_by_first(after, k, 0, before.len() as int);
                } else {
                    match position(before, k, 0) {
                        Some(at) => {
                            position_by_first(after, k, 0, at);
                        },
                        None => {
                            position_of_none(after, k, 0);
                        },
                    }
                }
            }
            assert(records_of(after) =~= records_of(before).insert(id, JobRecord::Processing));
        }
        true
    }

    /// Creates a job: draws a fresh identifier and registers it in state
    /// `Processing`. The identifier differs from every one issued before. In
    /// the event that the drawn identifier is already in use nothing changes
    /// and the answer is `None`; that can only happen where the registry
    /// already holds an identifier of the drawn length, so on a registry
    /// without one the job is always created.
    pub fn create(&mut self) -> (id: Option<String>)
        ensures
            id matches Some(token) ==> token@.len() == 36 && !old(self)@.contains_key(token@)
                && final(self)@ == old(self)@.insert(token@, JobRecord::Processing),
            id is None ==> final(self)@ == old(self)@,
            id is None ==> holds_drawn_length(old(self)@),
    {
        let token = fresh_token();
        let copy = token.clone();
        if self.create_with(token) {
            Some(copy)
        } else {
            None
        }
    }

    /// Records how a job ended. The last outcome written for a job is the one
    /// kept. For an identifier that was never issued nothing changes and the
    /// answer is `false`.
    pub fn write_terminal(&mut self, id: &str, outcome: JobOutcome) -> (written: bool)
        ensures
            written == old(self)@.contains_key(id@),
            written ==> final(self)@ == old(self)@.insert(id@, outcome.record()),
            !written ==> final(self)@ == old(self)@,
            final(self)@ == step(old(self)@, RegistryOp::WriteTerminal(id@, outcome)),
    {
        match self.find(id) {
            None => false,
            Some(i) => {
                let ghost before = self.entries@;
                let key = self.entries[i].id.clone();
                self.entries.set(i, JobEntry { id: key, record: outcome.into_record() });
                proof {
                    let after = self.entries@;
                    assert forall|k: Seq<char>| #[trigger]
                        records_of(after).contains_key(k) == records_of(before).insert(
                            id@,
                            outcome.record(),
                        ).contains_key(k) && (records_of(after).contains_key(k) ==> records_of(
                            after,
                        )[k] == records_of(before).insert(id@, outcome.record())[k]) by {
                        position_is_first(before, k, 0);
                        match position(before, k, 0) {
                            Some(at) => {
                                position_by_first(after, k, 0, at);
                            },
                            None => {
                                position_of_none(after, k, 0);
                            },
                        }
                    }
                    assert(records_of(after) =~= records_of(before).insert(id@, outcome.record()));
                }
                true
            },
        }
    }
}

/// Draws a random version-4 identifier with `uuid::Uuid::new_v4` and renders
/// it with its `to_string`: 36 characters, hyphenated. Nothing is claimed
/// about which identifier is drawn. The draw stops the process if the
/// operating system cannot supply random bytes.
#[verifier::external_body]
pub(crate) fn fresh_token() -> (token: String)
    ensures
        token@.len() == 36,
{
    uuid::Uuid::new_v4().to_string()
}

} // verus!
