use crate::command::{kind_of, CommandKind};
use vstd::prelude::*;

verus! {

/// The kinds of option that the commands declare.
#[derive(Clone, Copy, Debug, PartialEq, Eq, Structural)]
pub enum OptionKind {
    /// A channel of the group.
    Channel,
    /// An attached resource, carrying a URL.
    Attachment,
}

/// The declaration of one option of a command.
#[derive(Clone, Debug, PartialEq, Eq)]
pub struct OptionSchema {
    pub name: &'static str,
    pub description: &'static str,
    pub kind: OptionKind,
    pub required: bool,
}

/// The declaration of one command, as it is registered with the platform.
#[derive(Clone, Debug, PartialEq, Eq)]
pub struct CommandSchema {
    pub name: &'static str,
    pub description: &'static str,
    pub options: Vec<OptionSchema>,
}

/// An option's declaration as a mathematical value.
pub struct OptionSchemaView {
    pub name: Seq<char>,
    pub description: Seq<char>,
    pub kind: OptionKind,
    pub required: bool,
}

/// A command's declaration as a mathematical value.
pub struct CommandSchemaView {
    pub name: Seq<char>,
    pub description: Seq<char>,
    pub options: Seq<OptionSchemaView>,
}

impl View for OptionSchema {
    type V = OptionSchemaView;

    open spec fn view(&self) -> OptionSchemaView {
        OptionSchemaView {
            name: self.name@,
            description: self.description@,
            kind: self.kind,
            required: self.required,
        }
    }
}

impl View for CommandSchema {
    type V = CommandSchemaView;

    open spec fn view(&self) -> CommandSchemaView {
        CommandSchemaView {
            name: self.name@,
            description: self.description@,
            options: Seq::new(self.options@.len(), |i: int| self.options@[i]@),
        }
    }
}

/// The declaration of `join`. Its channel option is informational: the
/// channel joined is the one that the invoker occupies.
pub open spec fn join_schema() -> CommandSchemaView {
    CommandSchemaView {
        name: "join"@,
        description: "join a voice channel"@,
        options: seq![
            OptionSchemaView {
                name: "id"@,
                description: "the channel id to join"@,
                kind: OptionKind::Channel,
                required: false,
            },
        ],
    }
}

/// The declaration of `play`, which needs an attachment.
pub open spec fn play_schema() -> CommandSchemaView {
    CommandSchemaView {
        name: "play"@,
        description: "Play a song"@,
        options: seq![
            OptionSchemaView {
                name: "file"@,
                description: "The file to play"@,
                kind: OptionKind::Attachment,
                required: true,
            },
        ],
    }
}

/// The declaration of `stop`, which takes no option.
pub open spec fn stop_schema() -> CommandSchemaView {
    CommandSchemaView {
        name: "stop"@,
        description: "leave the voice channel"@,
        options: Seq::empty(),
    }
}

/// The commands to register with the platform: `join`, `play` and `stop`, in
/// this order.
pub fn command_schema() -> (schema: Vec<CommandSchema>)
    ensures
        schema@.len() == 3,
        schema@[0]@ == join_schema(),
        schema@[1]@ == play_schema(),
        schema@[2]@ == stop_schema(),
{
    let mut join_options: Vec<OptionSchema> = Vec::new();
    join_options.push(
        OptionSchema {
            name: "id",
            description: "the channel id to join",
            kind: OptionKind::Channel,
            required: false,
        },
    );
    let join = CommandSchema {
        name: "join",
        description: "join a voice channel",
        options: join_options,
    };
    let mut play_options: Vec<OptionSchema> = Vec::new();
    play_options.push(
        OptionSchema {
            name: "file",
            description: "The file to play",
            kind: OptionKind::Attachment,
            required: true,
        },
    );
    let play = CommandSchema { name: "play", description: "Play a song", options: play_options };
    let stop = CommandSchema {
        name: "stop",
        description: "leave the voice channel",
        options: Vec::new(),
    };
    assert(join@.options =~= join_schema().options);
    assert(play@.options =~= play_schema().options);
    assert(stop@.options =~= stop_schema().options);
    let mut schema: Vec<CommandSchema> = Vec::new();
    schema.push(join);
    schema.push(play);
    schema.push(stop);
    schema
}

/// Every command that is registered is one that the dispatcher knows, under
/// the kind of its name.
pub proof fn law_registered_commands_are_dispatched()
    ensures
        kind_of(join_schema().name) == CommandKind::Join,
        kind_of(play_schema().name) == CommandKind::Play,
        kind_of(stop_schema().name) == CommandKind::Stop,
{
    reveal_strlit("join");
    reveal_strlit("play");
    reveal_strlit("stop");
    assert("join"@[0] == 'j');
    assert("play"@[0] == 'p');
    assert("stop"@[0] == 's');
}

} // verus!
