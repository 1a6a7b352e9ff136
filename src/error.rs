use vstd::prelude::*;

verus! {

/// Why a run of the retrieval pipeline stopped.
#[derive(Clone, Copy, Debug, PartialEq, Eq, Structural)]
pub enum PipelineError {
    /// The dataset could not be fetched.
    FetchError,
    /// The dataset did not have the expected shape.
    ParseError,
    /// The collection could not be described or created.
    CollectionUnavailable,
    /// The embedding provider gave no vector.
    EmbeddingError,
    /// The store refused the batch of points.
    UpsertError,
    /// A vector's length differs from the collection's configured size.
    DimensionMismatch,
    /// The search found nothing.
    EmptyResult,
    /// The chat provider gave no usable reply.
    NoAnswer,
}

/// The message reported for each error.
pub open spec fn error_message(e: PipelineError) -> Seq<char> {
    match e {
        PipelineError::FetchError => "dataset could not be fetched"@,
        PipelineError::ParseError => "dataset has an unexpected shape"@,
        PipelineError::CollectionUnavailable => "vector collection is unavailable"@,
        PipelineError::EmbeddingError => "embedding provider returned no vector"@,
        PipelineError::UpsertError => "vector store rejected the points"@,
        PipelineError::DimensionMismatch => "vector length differs from the collection's size"@,
        PipelineError::EmptyResult => "vector search returned no match"@,
        PipelineError::NoAnswer => "chat provider returned no answer"@,
    }
}

impl PipelineError {
    /// A short message for the process boundary.
    pub fn message(&self) -> (r: &'static str)
        ensures
            r@ == error_message(*self),
    {
        match self {
            PipelineError::FetchError => "dataset could not be fetched",
            PipelineError::ParseError => "dataset has an unexpected shape",
            PipelineError::CollectionUnavailable => "vector collection is unavailable",
            PipelineError::EmbeddingError => "embedding provider returned no vector",
            PipelineError::UpsertError => "vector store rejected the points",
            PipelineError::DimensionMismatch => "vector length differs from the collection's size",
            PipelineError::EmptyResult => "vector search returned no match",
            PipelineError::NoAnswer => "chat provider returned no answer",
        }
    }
}

} // verus!
