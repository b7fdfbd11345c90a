use crate::error::CommandError;
use crate::session::{ChannelId, GroupId, UserId};
use crate::text::same_text;
use std::collections::HashMap;
use vstd::prelude::*;

verus! {

broadcast use vstd::std_specs::hash::group_hash_axioms;

/// The value that the platform resolved an option to.
#[derive(Clone, Debug)]
pub enum OptionValue {
    /// An attached resource, reachable under the URL.
    Attachment { url: String },
    /// A channel of the group.
    Channel { channel_id: ChannelId },
    /// A value of a kind that no command reads.
    Other,
}

/// One option of a command, under its name. The value is absent where the
/// platform could not resolve it.
#[derive(Clone, Debug)]
pub struct CommandOption {
    pub name: String,
    pub value: Option<OptionValue>,
}

/// One incoming command.
#[derive(Clone, Debug)]
pub struct CommandRequest {
    pub name: String,
    pub group_id: Option<GroupId>,
    pub invoking_user_id: UserId,
    /// The options in the order in which the platform sent them.
    pub resolved_options: Vec<CommandOption>,
}

/// The commands that the dispatcher tells apart.
#[derive(Clone, Copy, Debug, PartialEq, Eq, Structural)]
pub enum CommandKind {
    Join,
    Play,
    Stop,
    Unknown,
}

/// The kind of the command of a given name.
pub open spec fn kind_of(name: Seq<char>) -> CommandKind {
    if name == "join"@ {
        CommandKind::Join
    } else if name == "play"@ {
        CommandKind::Play
    } else if name == "stop"@ {
        CommandKind::Stop
    } else {
        CommandKind::Unknown
    }
}

impl CommandRequest {
    /// The kind of this command.
    pub fn kind(&self) -> (kind: CommandKind)
        ensures
            kind == kind_of(self.name@),
    {
        let name = self.name.as_str();
        if same_text(name, "join") {
            CommandKind::Join
        } else if same_text(name, "play") {
            CommandKind::Play
        } else if same_text(name, "stop") {
            CommandKind::Stop
        } else {
            CommandKind::Unknown
        }
    }

    /// The value of the command's first option: absent where the command has
    /// no option, or the platform did not resolve the first.
    pub open spec fn first_value(self) -> Option<OptionValue> {
        if self.resolved_options@.len() > 0 {
            self.resolved_options@[0].value
        } else {
            None
        }
    }

    /// True where the command's first option is a resolved attachment.
    pub open spec fn carries_attachment(self) -> bool {
        self.first_value() matches Some(OptionValue::Attachment { url })
    }

    /// The group that the command is for.
    pub open spec fn group(self) -> Result<GroupId, CommandError> {
        match self.group_id {
            Some(group_id) => Ok(group_id),
            None => Err(CommandError::MissingGroupContext),
        }
    }

    /// Gives the group that the command is for. Fails with
    /// `MissingGroupContext` exactly when the command names none.
    pub fn require_group(&self) -> (group: Result<GroupId, CommandError>)
        ensures
            group == self.group(),
    {
        match self.group_id {
            Some(group_id) => Ok(group_id),
            None => Err(CommandError::MissingGroupContext),
        }
    }
}

/// Which voice channel each user of a group occupies, as seen at one moment.
pub struct PresenceSnapshot {
    channels: HashMap<UserId, ChannelId>,
}

impl View for PresenceSnapshot {
    type V = Map<UserId, ChannelId>;

    closed spec fn view(&self) -> Map<UserId, ChannelId> {
        self.channels@
    }
}

/// The channel that a user occupies, if any.
pub open spec fn occupied(presence: Map<UserId, ChannelId>, user_id: UserId) -> Option<ChannelId> {
    if presence.contains_key(user_id) {
        Some(presence[user_id])
    } else {
        None
    }
}

impl PresenceSnapshot {
    /// A snapshot in which no user occupies a channel.
    pub fn new() -> (snapshot: PresenceSnapshot)
        ensures
            snapshot@ == Map::<UserId, ChannelId>::empty(),
    {
        PresenceSnapshot { channels: HashMap::new() }
    }

    /// Records that the user occupies the channel, in place of any channel
    /// recorded for the user before.
    pub fn record(&mut self, user_id: UserId, channel_id: ChannelId)
        ensures
            final(self)@ == old(self)@.insert(user_id, channel_id),
    {
        self.channels.insert(user_id, channel_id);
    }

    /// The channel that the user occupies, if any.
    pub fn channel_of(&self, user_id: UserId) -> (channel: Option<ChannelId>)
        ensures
            channel == occupied(self@, user_id),
    {
        match self.channels.get(&user_id) {
            Some(channel_id) => Some(*channel_id),
            None => None,
        }
    }
}

} // verus!
