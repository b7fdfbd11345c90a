use voice_sessions::error::{CommandError, SourceError};
use voice_sessions::resolver::{AudioSourceResolver, PipelineFault};
use voice_sessions::session::AudioStream;

#[test]
fn fetcher_faults_are_network_failures() {
    for fault in [
        PipelineFault::Json,
        PipelineFault::Metadata,
        PipelineFault::FetchRun,
        PipelineFault::FetchProcessing,
        PipelineFault::FetchUrl,
    ] {
        assert_eq!(AudioSourceResolver::classify(fault), SourceError::NetworkFailure);
        assert_eq!(AudioSourceResolver::resolve(Err(fault)), Err(SourceError::NetworkFailure));
    }
}

#[test]
fn decoder_faults_are_decode_failures() {
    for fault in [
        PipelineFault::Io,
        PipelineFault::Stdout,
        PipelineFault::Streams,
        PipelineFault::Opus,
        PipelineFault::Dca,
        PipelineFault::Streamcatcher,
        PipelineFault::Unclassified,
    ] {
        assert_eq!(AudioSourceResolver::classify(fault), SourceError::DecodeFailure);
        assert_eq!(AudioSourceResolver::resolve(Err(fault)), Err(SourceError::DecodeFailure));
    }
}

#[test]
fn started_pipeline_resolves_to_its_stream() {
    let stream = AudioStream { token: 17 };
    assert_eq!(AudioSourceResolver::resolve(Ok(stream)), Ok(stream));
}

#[test]
fn source_failures_keep_their_class_as_command_failures() {
    assert_eq!(
        CommandError::from_source(SourceError::NetworkFailure),
        CommandError::SourceNetworkFailure
    );
    assert_eq!(
        CommandError::from_source(SourceError::DecodeFailure),
        CommandError::SourceDecodeFailure
    );
}
