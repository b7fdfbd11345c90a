use vstd::prelude::*;

verus! {

/// Why a remote resource could not be turned into an audio stream.
#[derive(Clone, Copy, Debug, PartialEq, Eq, Structural)]
pub enum SourceError {
    /// The resource could not be fetched.
    NetworkFailure,
    /// The decode pipeline could not produce a valid stream.
    DecodeFailure,
}

/// The failure classes of a command.
#[derive(Clone, Copy, Debug, PartialEq, Eq, Structural)]
pub enum CommandError {
    /// The command names no group.
    MissingGroupContext,
    /// The invoking user occupies no voice channel of the group.
    NotInVoiceChannel,
    /// The group has no voice session.
    NoActiveSession,
    /// The option that the command needs is absent or of the wrong kind.
    InvalidOption,
    /// The resource to play could not be fetched.
    SourceNetworkFailure,
    /// The resource to play could not be decoded.
    SourceDecodeFailure,
    /// The stream could not be installed as the session's output.
    AttachFailure,
    /// The command's name is not one the dispatcher knows.
    UnknownCommand,
}

impl CommandError {
    /// The command failure that a source failure turns into.
    pub open spec fn of_source(error: SourceError) -> CommandError {
        match error {
            SourceError::NetworkFailure => CommandError::SourceNetworkFailure,
            SourceError::DecodeFailure => CommandError::SourceDecodeFailure,
        }
    }

    /// Turns a source failure into the command failure of the same class.
    pub fn from_source(error: SourceError) -> (failure: CommandError)
        ensures
            failure == CommandError::of_source(error),
    {
        match error {
            SourceError::NetworkFailure => CommandError::SourceNetworkFailure,
            SourceError::DecodeFailure => CommandError::SourceDecodeFailure,
        }
    }

    /// The wording that tells the user of this failure.
    pub open spec fn wording(self) -> Seq<char> {
        match self {
            CommandError::MissingGroupContext => "invalid guild"@,
            CommandError::NotInVoiceChannel => "not in a voice channel"@,
            CommandError::NoActiveSession => "no active voice session"@,
            CommandError::InvalidOption => "please provide a valid attachment"@,
            CommandError::SourceNetworkFailure => "network error"@,
            CommandError::SourceDecodeFailure => "decode error"@,
            CommandError::AttachFailure => "error playing track"@,
            CommandError::UnknownCommand => "not implemented"@,
        }
    }

    /// The user-visible description of this failure class.
    pub fn message(&self) -> (text: &'static str)
        ensures
            text@ == self.wording(),
    {
        match self {
            CommandError::MissingGroupContext => "invalid guild",
            CommandError::NotInVoiceChannel => "not in a voice channel",
            CommandError::NoActiveSession => "no active voice session",
            CommandError::InvalidOption => "please provide a valid attachment",
            CommandError::SourceNetworkFailure => "network error",
            CommandError::SourceDecodeFailure => "decode error",
            CommandError::AttachFailure => "error playing track",
            CommandError::UnknownCommand => "not implemented",
        }
    }
}

/// The single acknowledgement that a command ends with.
#[derive(Clone, Copy, Debug, PartialEq, Eq, Structural)]
pub enum Reply {
    /// The bot joined the invoker's voice channel.
    Joined,
    /// The requested resource is now playing.
    Playing,
    /// The bot left the voice channel.
    Bye,
    /// The command failed.
    Failed(CommandError),
}

impl Reply {
    /// The text of this acknowledgement.
    pub open spec fn wording(self) -> Seq<char> {
        match self {
            Reply::Joined => "joined voice channel"@,
            Reply::Playing => "playing song"@,
            Reply::Bye => "bye :)"@,
            Reply::Failed(error) => error.wording(),
        }
    }

    /// The text to send to the user.
    pub fn text(&self) -> (text: &'static str)
        ensures
            text@ == self.wording(),
    {
        match self {
            Reply::Joined => "joined voice channel",
            Reply::Playing => "playing song",
            Reply::Bye => "bye :)",
            Reply::Failed(error) => error.message(),
        }
    }

    /// The reply that a command's outcome calls for: the acknowledgement on
    /// success, the failure's description otherwise.
    pub open spec fn of(outcome: Result<Reply, CommandError>) -> Reply {
        match outcome {
            Ok(reply) => reply,
            Err(error) => Reply::Failed(error),
        }
    }
}

} // verus!
