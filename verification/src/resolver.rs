use crate::error::SourceError;
use crate::session::AudioStream;
use vstd::prelude::*;

verus! {

/// How the decode pipeline failed to start, stage by stage: a fetcher that
/// reads the remote resource, and a decoder that turns what was fetched into
/// frames.
#[derive(Clone, Copy, Debug, PartialEq, Eq, Structural)]
pub enum PipelineFault {
    /// A process of the pipeline could not be started, or its pipe broke.
    Io,
    /// The fetcher's report on the resource was not the description that it
    /// gives of a resource it has reached.
    Json,
    /// The fetcher's report could not be read at all.
    Metadata,
    /// The fetcher ran and reported a failure.
    FetchRun,
    /// The fetcher's description of the resource could not be processed.
    FetchProcessing,
    /// The fetcher's description of the resource names no location.
    FetchUrl,
    /// The fetcher's output could not be handed to the decoder.
    Stdout,
    /// The layout of the audio channels could not be determined.
    Streams,
    /// The codec refused the data.
    Opus,
    /// The container of the audio data is malformed.
    Dca,
    /// The decoded stream could not be buffered as configured.
    Streamcatcher,
    /// A fault of a kind not known here.
    Unclassified,
}

/// The failure class of a pipeline fault: a fetcher that did not deliver is a
/// network failure, everything behind it a decode failure.
pub open spec fn classified(fault: PipelineFault) -> SourceError {
    match fault {
        PipelineFault::Json
        | PipelineFault::Metadata
        | PipelineFault::FetchRun
        | PipelineFault::FetchProcessing
        | PipelineFault::FetchUrl => SourceError::NetworkFailure,
        PipelineFault::Io
        | PipelineFault::Stdout
        | PipelineFault::Streams
        | PipelineFault::Opus
        | PipelineFault::Dca
        | PipelineFault::Streamcatcher
        | PipelineFault::Unclassified => SourceError::DecodeFailure,
    }
}

/// What resolving yields for each outcome of starting the pipeline.
pub open spec fn resolution(outcome: Result<AudioStream, PipelineFault>) -> Result<
    AudioStream,
    SourceError,
> {
    match outcome {
        Ok(stream) => Ok(stream),
        Err(fault) => Err(classified(fault)),
    }
}

/// Turns the outcome of starting a decode pipeline on a remote resource into
/// a frame stream, or into the class of its failure.
pub struct AudioSourceResolver;

impl AudioSourceResolver {
    /// The failure class of a pipeline fault.
    pub fn classify(fault: PipelineFault) -> (error: SourceError)
        ensures
            error == classified(fault),
    {
        match fault {
            PipelineFault::Json
            | PipelineFault::Metadata
            | PipelineFault::FetchRun
            | PipelineFault::FetchProcessing
            | PipelineFault::FetchUrl => SourceError::NetworkFailure,
            PipelineFault::Io
            | PipelineFault::Stdout
            | PipelineFault::Streams
            | PipelineFault::Opus
            | PipelineFault::Dca
            | PipelineFault::Streamcatcher
            | PipelineFault::Unclassified => SourceError::DecodeFailure,
        }
    }

    /// The stream of a pipeline that started, or the class of the fault that
    /// kept it from starting.
    pub fn resolve(outcome: Result<AudioStream, PipelineFault>) -> (resolved: Result<
        AudioStream,
        SourceError,
    >)
        ensures
            resolved == resolution(outcome),
    {
        match outcome {
            Ok(stream) => Ok(stream),
            Err(fault) => Err(AudioSourceResolver::classify(fault)),
        }
    }
}

} // verus!
