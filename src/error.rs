use vstd::prelude::*;

verus! {

/// The external tools that the pipeline runs.
#[derive(Clone, Copy, Debug, PartialEq, Eq, Structural)]
pub enum Tool {
    Extractor,
    Transcriber,
}

/// Why a run ended before producing a summary.
#[derive(Clone, Copy, Debug, PartialEq, Eq, Structural)]
pub enum PipelineError {
    InvalidInvocation,
    MalformedPath,
    ExternalToolFailure { tool: Tool },
    ArtifactMissing,
    PersistenceFailure,
    MissingCredential,
    TransportFailure,
    MalformedResponse,
    EmptyOrUnexpectedResponse,
}

} // verus!
