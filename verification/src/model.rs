//! The model slot and its exclusive use.
//!
//! The process has one slot. It holds at most one loaded model handle,
//! always together with the path the handle was loaded from. A job uses the
//! slot only through a lease, and the resource gives out one lease at a
//! time: whoever holds it keeps it for checking the path, for loading and
//! for the whole inference call, so inference is serialised by design.
//!
//! The handle type `H` is the engine's own; the library only stores it.

use vstd::prelude::*;
use crate::catalog::ModelPath;
use crate::error::{ErrorKind, JobError};
use crate::text::concat2;

verus! {

/// What a [`ModelPath`] holds: the directory and the file name.
pub type PathView = (Seq<char>, Seq<char>);

/// A loaded model: the engine's handle and the path it was loaded from.
pub struct LoadedModel<H> {
    pub handle: H,
    pub path: ModelPath,
}

/// The slot: empty, or one loaded model.
pub struct ModelSlot<H> {
    loaded: Option<LoadedModel<H>>,
}

/// A request to have a model loaded, and whether the engine accepts the file
/// should it be asked to load it.
pub struct LoadRequest {
    pub path: PathView,
    pub engine_accepts: bool,
}

/// Whether a slot that records `recorded` must load to serve `path`.
pub open spec fn must_load(recorded: Option<PathView>, path: PathView) -> bool {
    recorded != Some(path)
}

/// Whether a request completes: the model is there already, or the engine loads it.
pub open spec fn completes(recorded: Option<PathView>, request: LoadRequest) -> bool {
    !must_load(recorded, request.path) || request.engine_accepts
}

/// The path that the slot records after a request: the requested one where
/// a load took place and succeeded, the former one otherwise.
pub open spec fn recorded_after(
    recorded: Option<PathView>,
    request: LoadRequest,
) -> Option<PathView> {
    if must_load(recorded, request.path) && request.engine_accepts {
        Some(request.path)
    } else {
        recorded
    }
}

/// The path that the slot records after a series of requests, served one at a time.
pub open spec fn recorded_after_all(
    recorded: Option<PathView>,
    requests: Seq<LoadRequest>,
) -> Option<PathView>
    decreases requests.len(),
{
    if requests.len() == 0 {
        recorded
    } else {
        recorded_after(recorded_after_all(recorded, requests.drop_last()), requests.last())
    }
}

/// The path of the most recent request of a series that completed, or the
/// path recorded before the series where none did.
pub open spec fn last_completed(
    recorded: Option<PathView>,
    requests: Seq<LoadRequest>,
) -> Option<PathView>
    decreases requests.len(),
{
    if requests.len() == 0 {
        recorded
    } else if completes(recorded_after_all(recorded, requests.drop_last()), requests.last()) {
        Some(requests.last().path)
    } else {
        last_completed(recorded, requests.drop_last())
    }
}

/// The number of loads that a series of requests asks of the engine.
pub open spec fn loads_asked(recorded: Option<PathView>, requests: Seq<LoadRequest>) -> nat
    decreases requests.len(),
{
    if requests.len() == 0 {
        0
    } else {
        let before = loads_asked(recorded, requests.drop_last());
        if must_load(recorded_after_all(recorded, requests.drop_last()), requests.last().path) {
            before + 1
        } else {
            before
        }
    }
}

/// Whatever models a series of requests names and whichever loads fail, the
/// slot ends up recording the path of the most recent request that
/// completed.
pub proof fn slot_follows_last_completed_load(
    recorded: Option<PathView>,
    requests: Seq<LoadRequest>,
)
    ensures
        recorded_after_all(recorded, requests) == last_completed(recorded, requests),
    decreases requests.len(),
{
    if requests.len() > 0 {
        slot_follows_last_completed_load(recorded, requests.drop_last());
    }
}

/// A request for the model that the previous request left loaded asks no
/// load of the engine and leaves the slot as it is.
pub proof fn same_model_loads_once(
    recorded: Option<PathView>,
    first: LoadRequest,
    second: LoadRequest,
)
    requires
        first.path == second.path,
        completes(recorded, first),
    ensures
        !must_load(recorded_after(recorded, first), second.path),
        recorded_after(recorded_after(recorded, first), second) == recorded_after(recorded, first),
        loads_asked(recorded, seq![first, second]) == loads_asked(recorded, seq![first]),
{
    let both = seq![first, second];
    let one = seq![first];
    assert(both.drop_last() =~= one);
    assert(one.drop_last() =~= Seq::<LoadRequest>::empty());
    assert(recorded_after_all(recorded, one.drop_last()) == recorded);
    assert(recorded_after_all(recorded, one) == recorded_after(recorded, first));
}

/// The description of a load that the engine refused.
pub open spec fn load_failure_message(reason: Seq<char>) -> Seq<char> {
    "Failed to initialize Whisper context: "@ + reason
}

/// What taking in the engine's answer to a load of `path` does to a slot:
/// a handle replaces the former model and is recorded with `path`; a refusal
/// changes nothing and is reported as a failed load.
pub open spec fn load_completed<H>(
    before: ModelSlot<H>,
    path: PathView,
    created: Result<H, String>,
    after: ModelSlot<H>,
    done: Result<(), JobError>,
) -> bool {
    match created {
        Ok(h) => done is Ok && after.handle_of() == Some(h) && after.recorded() == Some(path),
        Err(reason) => after == before && done is Err && done->Err_0.kind
            == ErrorKind::ModelLoadFailed && done->Err_0.message@ == load_failure_message(reason@),
    }
}

impl<H> ModelSlot<H> {
    /// The loaded model, if any.
    pub closed spec fn content(&self) -> Option<LoadedModel<H>> {
        self.loaded
    }

    /// The path that the slot records, if a model is loaded.
    pub open spec fn recorded(&self) -> Option<PathView> {
        match self.content() {
            Some(m) => Some(m.path@),
            None => None,
        }
    }

    /// The handle in the slot, if a model is loaded.
    pub open spec fn handle_of(&self) -> Option<H> {
        match self.content() {
            Some(m) => Some(m.handle),
            None => None,
        }
    }

    /// An empty slot.
    pub fn new() -> (slot: ModelSlot<H>)
        ensures
            slot.content() is None,
    {
        ModelSlot { loaded: None }
    }

    /// The loaded handle, if any.
    pub fn handle(&self) -> (handle: Option<&H>)
        ensures
            handle is Some <==> self.content() is Some,
            handle matches Some(h) ==> self.handle_of() == Some(*h),
    {
        match &self.loaded {
            Some(m) => Some(&m.handle),
            None => None,
        }
    }

    /// The path that the loaded handle came from, if any.
    pub fn path(&self) -> (path: Option<&ModelPath>)
        ensures
            path is Some <==> self.content() is Some,
            path matches Some(p) ==> self.recorded() == Some(p@),
    {
        match &self.loaded {
            Some(m) => Some(&m.path),
            None => None,
        }
    }

    /// Whether serving `path` takes a load: the slot is empty, or its model
    /// came from another path.
    pub fn needs_load(&self, path: &ModelPath) -> (needed: bool)
        ensures
            needed == must_load(self.recorded(), path@),
    {
        match &self.loaded {
            Some(m) => !m.path.same_as(path),
            None => true,
        }
    }

    /// Takes in what the engine answered to a load of `path`. A handle
    /// replaces the former model, and the slot records `path` with it in the
    /// same step. A refusal leaves the slot exactly as it was and is
    /// reported as a failed load.
    pub fn complete_load(&mut self, path: &ModelPath, created: Result<H, String>) -> (done: Result<
        (),
        JobError,
    >)
        ensures
            load_completed(*old(self), path@, created, *final(self), done),
            final(self).recorded() == recorded_after(
                old(self).recorded(),
                LoadRequest { path: path@, engine_accepts: created is Ok },
            ),
    {
        match created {
            Ok(handle) => {
                self.loaded = Some(LoadedModel { handle, path: path.duplicate() });
                Ok(())
            },
            Err(reason) => Err(
                JobError::new(
                    ErrorKind::ModelLoadFailed,
                    concat2("Failed to initialize Whisper context: ", reason.as_str()),
                ),
            ),
        }
    }
}

impl<H> ModelSlot<H> {
    /// Makes sure that the model of `path` is loaded. Where the slot already
    /// holds it, nothing happens and `create` is not called. Otherwise
    /// `create` is called once, with `path`, and its answer is taken in as
    /// by [`ModelSlot::complete_load`].
    pub fn ensure_loaded<F: FnOnce(&ModelPath) -> Result<H, String>>(
        &mut self,
        path: &ModelPath,
        create: F,
    ) -> (done: Result<(), JobError>)
        requires
            must_load(old(self).recorded(), path@) ==> call_requires(create, (path,)),
        ensures
            !must_load(old(self).recorded(), path@) ==> done is Ok && *final(self) == *old(self),
            must_load(old(self).recorded(), path@) ==> exists|created: Result<H, String>|
                call_ensures(create, (path,), created) && load_completed(
                    *old(self),
                    path@,
                    created,
                    *final(self),
                    done,
                ),
            done is Ok ==> final(self).recorded() == Some(path@),
            done is Err ==> *final(self) == *old(self),
    {
        if self.needs_load(path) {
            let created = create(path);
            self.complete_load(path, created)
        } else {
            Ok(())
        }
    }
}

/// What is asked of the resource: the lease, or to take it back.
pub enum LeaseOp {
    Acquire,
    Release,
}

/// Whether the lease is out after a request, given whether it was out before.
pub open spec fn held_after(held: bool, op: LeaseOp) -> bool {
    op is Acquire
}

/// Whether a request is granted the lease: it asks for it, and it is not out.
pub open spec fn granted(held: bool, op: LeaseOp) -> bool {
    op is Acquire && !held
}

/// Whether the lease is out before the request at position `at` of a series
/// that starts with the lease in.
pub open spec fn held_before(ops: Seq<LeaseOp>, at: int) -> bool
    decreases at,
{
    if at <= 0 || at > ops.len() {
        false
    } else {
        held_after(held_before(ops, at - 1), ops[at - 1])
    }
}

/// From a request for the lease on, the lease is out until a release follows.
proof fn held_until_released(ops: Seq<LeaseOp>, first: int, at: int)
    requires
        0 <= first < at <= ops.len(),
        ops[first] is Acquire,
        forall|k: int| first < k < at ==> !(ops[k] is Release),
    ensures
        held_before(ops, at),
    decreases at - first,
{
    if at > first + 1 {
        held_until_released(ops, first, at - 1);
        assert(!(ops[at - 1] is Release));
    }
}

/// Two grants of the lease are always separated by a release: whoever is
/// granted the lease has the slot, and with it every load and every
/// inference call, to themselves until they give it back.
pub proof fn grants_are_separated_by_releases(ops: Seq<LeaseOp>, first: int, second: int)
    requires
        0 <= first < second < ops.len(),
        granted(held_before(ops, first), ops[first]),
        granted(held_before(ops, second), ops[second]),
    ensures
        exists|between: int| first < between < second && ops[between] is Release,
{
    if forall|k: int| first < k < second ==> !(ops[k] is Release) {
        held_until_released(ops, first, second);
    }
}

/// The exclusive use of the slot. While a lease is out, the resource gives
/// out no other.
pub struct ModelLease<H> {
    slot: ModelSlot<H>,
}

impl<H> ModelLease<H> {
    /// The slot under lease.
    pub closed spec fn slot_of(&self) -> ModelSlot<H> {
        self.slot
    }

    /// The slot under lease.
    pub fn slot(&self) -> (slot: &ModelSlot<H>)
        ensures
            *slot == self.slot_of(),
    {
        &self.slot
    }

    /// Whether serving `path` takes a load.
    pub fn needs_load(&self, path: &ModelPath) -> (needed: bool)
        ensures
            needed == must_load(self.slot_of().recorded(), path@),
    {
        self.slot.needs_load(path)
    }

    /// Takes in what the engine answered to a load of `path`, as
    /// [`ModelSlot::complete_load`] does.
    pub fn complete_load(&mut self, path: &ModelPath, created: Result<H, String>) -> (done: Result<
        (),
        JobError,
    >)
        ensures
            load_completed(old(self).slot_of(), path@, created, final(self).slot_of(), done),
            final(self).slot_of().recorded() == recorded_after(
                old(self).slot_of().recorded(),
                LoadRequest { path: path@, engine_accepts: created is Ok },
            ),
    {
        self.slot.complete_load(path, created)
    }

    /// Makes sure that the model of `path` is loaded, as
    /// [`ModelSlot::ensure_loaded`] does.
    pub fn ensure_loaded<F: FnOnce(&ModelPath) -> Result<H, String>>(
        &mut self,
        path: &ModelPath,
        create: F,
    ) -> (done: Result<(), JobError>)
        requires
            must_load(old(self).slot_of().recorded(), path@) ==> call_requires(create, (path,)),
        ensures
            !must_load(old(self).slot_of().recorded(), path@) ==> done is Ok
                && final(self).slot_of() == old(self).slot_of(),
            must_load(old(self).slot_of().recorded(), path@) ==> exists|created: Result<H, String>|
                call_ensures(create, (path,), created) && load_completed(
                    old(self).slot_of(),
                    path@,
                    created,
                    final(self).slot_of(),
                    done,
                ),
            done is Ok ==> final(self).slot_of().recorded() == Some(path@),
            done is Err ==> final(self).slot_of() == old(self).slot_of(),
    {
        self.slot.ensure_loaded(path, create)
    }
}

/// The owner of the slot. It either has the slot, or has leased it out.
pub struct ModelResource<H> {
    slot: Option<ModelSlot<H>>,
}

impl<H> ModelResource<H> {
    /// Whether the lease is out.
    pub closed spec fn is_held(&self) -> bool {
        self.slot is None
    }

    /// The slot, while no lease is out.
    pub closed spec fn slot_of(&self) -> ModelSlot<H>
        recommends
            !self.is_held(),
    {
        self.slot->0
    }

    /// A resource with an empty slot and no lease out.
    pub fn new() -> (resource: ModelResource<H>)
        ensures
            !resource.is_held(),
            resource.slot_of().content() is None,
    {
        ModelResource { slot: Some(ModelSlot::new()) }
    }

    /// Whether the lease is out.
    pub fn held(&self) -> (held: bool)
        ensures
            held == self.is_held(),
    {
        self.slot.is_none()
    }

    /// Asks for the exclusive use of the slot. It is granted exactly when no
    /// lease is out; the lease then carries the slot as it was left. While
    /// the lease is out every further request is turned down, and the one
    /// who asked has to wait for the release.
    pub fn acquire_exclusive(&mut self) -> (lease: Option<ModelLease<H>>)
        ensures
            lease is Some <==> granted(old(self).is_held(), LeaseOp::Acquire),
            final(self).is_held() == held_after(old(self).is_held(), LeaseOp::Acquire),
            lease matches Some(l) ==> l.slot_of() == old(self).slot_of(),
    {
        match self.slot.take() {
            Some(slot) => Some(ModelLease { slot }),
            None => None,
        }
    }

    /// Gives the lease back. The resource has the slot again, as the holder
    /// left it, and the next request is granted.
    pub fn release(&mut self, lease: ModelLease<H>)
        ensures
            final(self).is_held() == held_after(old(self).is_held(), LeaseOp::Release),
            final(self).slot_of() == lease.slot_of(),
    {
        self.slot = Some(lease.slot);
    }
}

} // verus!
