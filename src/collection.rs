use vstd::prelude::*;

use crate::error::PipelineError;

verus! {

/// Length of every vector held by a collection.
pub const VECTOR_SIZE: u64 = 1536;

/// How the store compares vectors.
#[derive(Clone, Copy, Debug, PartialEq, Eq, Structural)]
pub enum Distance {
    Cosine,
}

/// What a collection is created with.
#[derive(Clone, Copy, Debug, PartialEq, Eq, Structural)]
pub struct CollectionParams {
    pub size: u64,
    pub distance: Distance,
}

/// The parameters of every collection this library creates.
pub open spec fn spec_default_params() -> CollectionParams {
    CollectionParams { size: VECTOR_SIZE, distance: Distance::Cosine }
}

pub fn default_params() -> (r: CollectionParams)
    ensures
        r == spec_default_params(),
{
    CollectionParams { size: VECTOR_SIZE, distance: Distance::Cosine }
}

/// The request the lifecycle manager is waiting on.
#[derive(Clone, Copy, Debug, PartialEq, Eq, Structural)]
pub enum Ensuring {
    /// The first description of the collection.
    Describing,
    /// The creation of the collection, after the first description failed.
    Creating,
    /// The description that follows the creation.
    Redescribing,
}

/// What the store answered to the last request.
#[derive(Clone, Copy, Debug, PartialEq, Eq, Structural)]
pub enum StoreReply {
    /// The point count, or `None` where the description failed or held no result.
    Described(Option<u64>),
    /// Whether the creation succeeded.
    Created(bool),
}

/// What the lifecycle manager asks for next.
#[derive(Clone, Copy, Debug)]
pub enum EnsureNext {
    /// Describe the collection, then report the reply in the given phase.
    Describe(Ensuring),
    /// Create the collection with these parameters, then report the reply in the given phase.
    Create(Ensuring, CollectionParams),
    /// The point count of the collection, or why there is none.
    Done(Result<u64, PipelineError>),
}

/// The first request of `ensure_collection`.
pub open spec fn spec_ensure_start() -> EnsureNext {
    EnsureNext::Describe(Ensuring::Describing)
}

/// One decision of `ensure_collection`: describe, create once if that failed, describe again.
pub open spec fn spec_ensure_next(phase: Ensuring, reply: StoreReply) -> EnsureNext {
    match (phase, reply) {
        (Ensuring::Describing, StoreReply::Described(Some(count))) => EnsureNext::Done(Ok(count)),
        (Ensuring::Describing, StoreReply::Described(None)) => EnsureNext::Create(
            Ensuring::Creating,
            spec_default_params(),
        ),
        (Ensuring::Creating, StoreReply::Created(true)) => EnsureNext::Describe(
            Ensuring::Redescribing,
        ),
        (Ensuring::Redescribing, StoreReply::Described(Some(count))) => EnsureNext::Done(
            Ok(count),
        ),
        _ => EnsureNext::Done(Err(PipelineError::CollectionUnavailable)),
    }
}

pub fn ensure_start() -> (r: EnsureNext)
    ensures
        r == spec_ensure_start(),
{
    EnsureNext::Describe(Ensuring::Describing)
}

/// Decides what follows the store's `reply` to the request made in `phase`.
pub fn ensure_step(phase: Ensuring, reply: StoreReply) -> (r: EnsureNext)
    ensures
        r == spec_ensure_next(phase, reply),
{
    match (phase, reply) {
        (Ensuring::Describing, StoreReply::Described(Some(count))) => EnsureNext::Done(Ok(count)),
        (Ensuring::Describing, StoreReply::Described(None)) => EnsureNext::Create(
            Ensuring::Creating,
            default_params(),
        ),
        (Ensuring::Creating, StoreReply::Created(true)) => EnsureNext::Describe(
            Ensuring::Redescribing,
        ),
        (Ensuring::Redescribing, StoreReply::Described(Some(count))) => EnsureNext::Done(
            Ok(count),
        ),
        _ => EnsureNext::Done(Err(PipelineError::CollectionUnavailable)),
    }
}

/// A request sent to the store.
#[derive(Clone, Copy, Debug, PartialEq, Eq, Structural)]
pub enum StoreOp {
    Describe,
    Create,
}

/// A model of one named collection in the store: the ids of its points if it exists,
/// and whether its describe and create requests work.
pub struct StoreModel {
    pub points: Option<Set<u64>>,
    pub describe_works: bool,
    pub create_works: bool,
}

/// The store's answer to a describe request.
pub open spec fn model_describe(s: StoreModel) -> Option<u64> {
    match s.points {
        Some(ids) if s.describe_works => Some(ids.len() as u64),
        _ => None,
    }
}

/// A create request succeeds only on an absent collection and leaves it empty.
pub open spec fn model_create(s: StoreModel) -> (StoreModel, bool) {
    if s.create_works && s.points is None {
        (StoreModel { points: Some(Set::empty()), ..s }, true)
    } else {
        (s, false)
    }
}

/// A run of `ensure_collection` against a store model.
pub struct EnsureRun {
    pub store: StoreModel,
    /// `None` where the fuel ran out first.
    pub outcome: Option<Result<u64, PipelineError>>,
    pub trace: Seq<StoreOp>,
}

/// Performs the requests of `ensure_collection`, from `next` on, against `s`.
pub open spec fn run_ensure_from(s: StoreModel, next: EnsureNext, fuel: nat) -> EnsureRun
    decreases fuel,
{
    match next {
        EnsureNext::Done(r) => EnsureRun { store: s, outcome: Some(r), trace: Seq::empty() },
        EnsureNext::Describe(phase) => {
            if fuel == 0 {
                EnsureRun { store: s, outcome: None, trace: Seq::empty() }
            } else {
                let rest = run_ensure_from(
                    s,
                    spec_ensure_next(phase, StoreReply::Described(model_describe(s))),
                    (fuel - 1) as nat,
                );
                EnsureRun { trace: seq![StoreOp::Describe] + rest.trace, ..rest }
            }
        },
        EnsureNext::Create(phase, _) => {
            if fuel == 0 {
                EnsureRun { store: s, outcome: None, trace: Seq::empty() }
            } else {
                let (s2, ok) = model_create(s);
                let rest = run_ensure_from(
                    s2,
                    spec_ensure_next(phase, StoreReply::Created(ok)),
                    (fuel - 1) as nat,
                );
                EnsureRun { trace: seq![StoreOp::Create] + rest.trace, ..rest }
            }
        },
    }
}

/// A whole run of `ensure_collection`; three requests are always enough.
pub open spec fn run_ensure(s: StoreModel) -> EnsureRun {
    run_ensure_from(s, spec_ensure_start(), 3)
}

/// Calling `ensure_collection` twice in a row gives the same outcome, and so the same
/// point count, both times, and the second call changes nothing in the store.
pub proof fn lemma_ensure_idempotent(s: StoreModel)
    ensures
        run_ensure(run_ensure(s).store).outcome == run_ensure(s).outcome,
        run_ensure(run_ensure(s).store).store == run_ensure(s).store,
        run_ensure(s).outcome is Some,
{
    reveal_with_fuel(run_ensure_from, 4);
}

/// On a store whose describe always fails, `ensure_collection` makes exactly one create
/// request, describes again where the create succeeded, and reports the collection
/// unavailable.
pub proof fn lemma_ensure_describe_fails(s: StoreModel)
    requires
        !s.describe_works,
    ensures
        run_ensure(s).trace == (if model_create(s).1 {
            seq![StoreOp::Describe, StoreOp::Create, StoreOp::Describe]
        } else {
            seq![StoreOp::Describe, StoreOp::Create]
        }),
        run_ensure(s).outcome == Some(Err::<u64, PipelineError>(PipelineError::CollectionUnavailable)),
{
    reveal_with_fuel(run_ensure_from, 4);
    if model_create(s).1 {
        assert(run_ensure(s).trace =~= seq![StoreOp::Describe, StoreOp::Create, StoreOp::Describe]);
    } else {
        assert(run_ensure(s).trace =~= seq![StoreOp::Describe, StoreOp::Create]);
    }
}

} // verus!
