use crate::command::{
    kind_of, occupied, CommandKind, CommandRequest, OptionValue, PresenceSnapshot,
};
use crate::effect::Effect;
use crate::error::{CommandError, Reply};
use crate::playback::{
    attach_effects, attached, cancel_effects, detached, handle_for, set_volume_effects,
    volume_set, PlaybackController,
};
use crate::registry::{
    connect_effects, connected, disconnect_effects, disconnected, lookup, loss_effects, lost,
    VoiceSessionRegistry,
};
use crate::resolver::{resolution, AudioSourceResolver, PipelineFault};
use crate::session::{
    AudioStream, ChannelId, ConnectionHandle, GroupId, PlaybackHandle, UserId, VoiceSession,
    UNIT_VOLUME_BITS,
};
use vstd::prelude::*;

verus! {

/// What the caller is to do after a step of the dispatcher.
#[derive(Debug, PartialEq, Eq)]
pub enum Directive {
    /// Carry the instructions out in order, then send the reply. The command
    /// is done.
    Reply { effects: Vec<Effect>, reply: Reply },
    /// Start the decode pipeline on the resource under the URL, then hand the
    /// outcome to [`CommandDispatcher::resolved`] for the same group.
    Resolve { group_id: GroupId, url: String },
    /// Carry the instructions out in order, then tell
    /// [`CommandDispatcher::started`] whether the playback took hold.
    Confirm { effects: Vec<Effect>, playback: PlaybackHandle },
}

/// A directive as a mathematical value.
pub enum DirectiveView {
    Reply { effects: Seq<Effect>, reply: Reply },
    Resolve { group_id: GroupId, url: Seq<char> },
    Confirm { effects: Seq<Effect>, playback: PlaybackHandle },
}

impl View for Directive {
    type V = DirectiveView;

    open spec fn view(&self) -> DirectiveView {
        match *self {
            Directive::Reply { effects, reply } => DirectiveView::Reply {
                effects: effects@,
                reply,
            },
            Directive::Resolve { group_id, url } => DirectiveView::Resolve { group_id, url: url@ },
            Directive::Confirm { effects, playback } => DirectiveView::Confirm {
                effects: effects@,
                playback,
            },
        }
    }
}

impl DirectiveView {
    /// The instructions that the directive has carried out.
    pub open spec fn effects(self) -> Seq<Effect> {
        match self {
            DirectiveView::Reply { effects, reply } => effects,
            DirectiveView::Resolve { group_id, url } => Seq::empty(),
            DirectiveView::Confirm { effects, playback } => effects,
        }
    }
}

/// One step of the dispatcher: the sessions that it leaves, and what it
/// directs.
pub struct Step {
    pub sessions: Map<GroupId, VoiceSession>,
    pub directive: DirectiveView,
}

/// The step that ends a command with a reply.
pub open spec fn settled(
    sessions: Map<GroupId, VoiceSession>,
    effects: Seq<Effect>,
    reply: Reply,
) -> Step {
    Step { sessions, directive: DirectiveView::Reply { effects, reply } }
}

/// The step that ends a command with the description of a failure: no
/// session changes and nothing is asked of the outside.
pub open spec fn refused(sessions: Map<GroupId, VoiceSession>, error: CommandError) -> Step {
    settled(sessions, Seq::empty(), Reply::Failed(error))
}

/// The group to connect and the channel to connect it to, for a join.
pub open spec fn join_target(command: CommandRequest, presence: Map<UserId, ChannelId>) -> Result<
    (GroupId, ChannelId),
    CommandError,
> {
    match command.group_id {
        None => Err(CommandError::MissingGroupContext),
        Some(group_id) => match occupied(presence, command.invoking_user_id) {
            None => Err(CommandError::NotInVoiceChannel),
            Some(channel_id) => Ok((group_id, channel_id)),
        },
    }
}

/// The group to play in and the URL of the resource to play, for a play.
///
/// The first option must be there and resolved, the command must name a
/// group, the option must be an attachment, and the group must have a
/// session: the first of these that fails decides the error.
pub open spec fn play_target(sessions: Map<GroupId, VoiceSession>, command: CommandRequest)
    -> Result<(GroupId, Seq<char>), CommandError> {
    match command.first_value() {
        None => Err(CommandError::InvalidOption),
        Some(value) => match command.group_id {
            None => Err(CommandError::MissingGroupContext),
            Some(group_id) => match value {
                OptionValue::Attachment { url } => if sessions.contains_key(group_id) {
                    Ok((group_id, url@))
                } else {
                    Err(CommandError::NoActiveSession)
                },
                _ => Err(CommandError::InvalidOption),
            },
        },
    }
}

/// The step that a join takes.
pub open spec fn join_step(
    sessions: Map<GroupId, VoiceSession>,
    command: CommandRequest,
    presence: Map<UserId, ChannelId>,
) -> Step {
    match join_target(command, presence) {
        Ok((group_id, channel_id)) => settled(
            connected(sessions, group_id, channel_id),
            connect_effects(sessions, group_id, channel_id),
            Reply::Joined,
        ),
        Err(error) => refused(sessions, error),
    }
}

/// The step that a play takes.
pub open spec fn play_step(sessions: Map<GroupId, VoiceSession>, command: CommandRequest) -> Step {
    match play_target(sessions, command) {
        Ok((group_id, url)) => Step {
            sessions,
            directive: DirectiveView::Resolve { group_id, url },
        },
        Err(error) => refused(sessions, error),
    }
}

/// The step that a stop takes.
pub open spec fn stop_step(sessions: Map<GroupId, VoiceSession>, command: CommandRequest) -> Step {
    match command.group() {
        Ok(group_id) => settled(
            disconnected(sessions, group_id),
            disconnect_effects(sessions, group_id),
            Reply::Bye,
        ),
        Err(error) => refused(sessions, error),
    }
}

/// The step that an incoming command takes.
pub open spec fn handle_step(
    sessions: Map<GroupId, VoiceSession>,
    command: CommandRequest,
    presence: Map<UserId, ChannelId>,
) -> Step {
    match kind_of(command.name@) {
        CommandKind::Join => join_step(sessions, command, presence),
        CommandKind::Play => play_step(sessions, command),
        CommandKind::Stop => stop_step(sessions, command),
        CommandKind::Unknown => refused(sessions, CommandError::UnknownCommand),
    }
}

/// The step that a play takes once the decode pipeline has been tried.
///
/// A stream whose group has lost its session in the meantime is released,
/// never dropped.
pub open spec fn resolved_step(
    sessions: Map<GroupId, VoiceSession>,
    group_id: GroupId,
    outcome: Result<AudioStream, PipelineFault>,
) -> Step {
    match resolution(outcome) {
        Err(error) => refused(sessions, CommandError::of_source(error)),
        Ok(stream) => if sessions.contains_key(group_id) {
            Step {
                sessions: attached(sessions, group_id, stream, UNIT_VOLUME_BITS),
                directive: DirectiveView::Confirm {
                    effects: attach_effects(sessions, group_id, stream, UNIT_VOLUME_BITS),
                    playback: handle_for(group_id, stream),
                },
            }
        } else {
            settled(
                sessions,
                seq![Effect::Release { stream }],
                Reply::Failed(CommandError::NoActiveSession),
            )
        },
    }
}

/// The step that a play takes once the outside has tried to start the
/// playback.
pub open spec fn started_step(
    sessions: Map<GroupId, VoiceSession>,
    playback: PlaybackHandle,
    took_hold: bool,
) -> Step {
    if took_hold {
        settled(sessions, Seq::empty(), Reply::Playing)
    } else {
        settled(
            detached(sessions, playback),
            cancel_effects(sessions, playback),
            Reply::Failed(CommandError::AttachFailure),
        )
    }
}

/// Routes commands to the registry, the resolver and the playback controller,
/// and ends each with one reply.
pub struct CommandDispatcher {
    registry: VoiceSessionRegistry,
}

impl View for CommandDispatcher {
    type V = Map<GroupId, VoiceSession>;

    closed spec fn view(&self) -> Map<GroupId, VoiceSession> {
        self.registry@
    }
}

impl CommandDispatcher {
    /// The dispatcher's invariant is that of its registry.
    pub closed spec fn wf(&self) -> bool {
        self.registry.wf()
    }

    /// A dispatcher over a registry without sessions.
    pub fn new() -> (dispatcher: CommandDispatcher)
        ensures
            dispatcher.wf(),
            dispatcher@ == Map::<GroupId, VoiceSession>::empty(),
    {
        CommandDispatcher { registry: VoiceSessionRegistry::new() }
    }

    /// A dispatcher over the given registry.
    pub fn with_registry(registry: VoiceSessionRegistry) -> (dispatcher: CommandDispatcher)
        requires
            registry.wf(),
        ensures
            dispatcher.wf(),
            dispatcher@ == registry@,
    {
        CommandDispatcher { registry }
    }

    /// The registry that the dispatcher owns.
    pub fn registry(&self) -> (registry: &VoiceSessionRegistry)
        ensures
            registry@ == self@,
            registry.wf() == self.wf(),
    {
        &self.registry
    }

    /// Looks a group's session up.
    pub fn session(&self, group_id: GroupId) -> (found: Option<VoiceSession>)
        ensures
            found == lookup(self@, group_id),
    {
        self.registry.get(group_id)
    }

    /// Connects the command's group to the channel that the invoking user
    /// occupies.
    ///
    /// Fails with `MissingGroupContext` when the command names no group, else
    /// with `NotInVoiceChannel` when the user occupies no channel; a failure
    /// changes nothing.
    pub fn join(&mut self, command: &CommandRequest, presence: &PresenceSnapshot) -> (out: Result<
        Vec<Effect>,
        CommandError,
    >)
        requires
            old(self).wf(),
        ensures
            final(self).wf(),
            match join_target(*command, presence@) {
                Ok((group_id, channel_id)) => {
                    &&& final(self)@ == connected(old(self)@, group_id, channel_id)
                    &&& out matches Ok(effects)
                    &&& effects@ == connect_effects(old(self)@, group_id, channel_id)
                },
                Err(error) => final(self)@ == old(self)@ && out == Err::<Vec<Effect>, _>(error),
            },
    {
        let group_id = match command.group_id {
            Some(group_id) => group_id,
            None => {
                return Err(CommandError::MissingGroupContext);
            },
        };
        match presence.channel_of(command.invoking_user_id) {
            None => Err(CommandError::NotInVoiceChannel),
            Some(channel_id) => Ok(self.registry.connect(group_id, channel_id).effects),
        }
    }

    /// Decides whether the command's resource is to be resolved, and for
    /// which group. Changes nothing; no pipeline is started for a group
    /// without a session.
    pub fn play(&self, command: &CommandRequest) -> (out: Result<(GroupId, String), CommandError>)
        ensures
            match play_target(self@, *command) {
                Ok((group_id, url)) => out matches Ok(target) && target.0 == group_id && target.1@
                    == url,
                Err(error) => out == Err::<(GroupId, String), _>(error),
            },
            out is Ok ==> self@.contains_key(out->Ok_0.0),
            command.carries_attachment() && command.group_id is Some && !self@.contains_key(
                command.group_id->Some_0,
            ) ==> out == Err::<(GroupId, String), _>(CommandError::NoActiveSession),
    {
        if command.resolved_options.len() == 0 {
            return Err(CommandError::InvalidOption);
        }
        let value = match &command.resolved_options[0].value {
            Some(value) => value,
            None => {
                return Err(CommandError::InvalidOption);
            },
        };
        let group_id = match command.group_id {
            Some(group_id) => group_id,
            None => {
                return Err(CommandError::MissingGroupContext);
            },
        };
        match value {
            OptionValue::Attachment { url } => {
                if self.registry.get(group_id).is_some() {
                    Ok((group_id, url.clone()))
                } else {
                    Err(CommandError::NoActiveSession)
                }
            },
            _ => Err(CommandError::InvalidOption),
        }
    }

    /// Disconnects the command's group. Succeeds also when the group has no
    /// session.
    ///
    /// Fails with `MissingGroupContext`, and changes nothing, exactly when the
    /// command names no group.
    pub fn stop(&mut self, command: &CommandRequest) -> (out: Result<Vec<Effect>, CommandError>)
        requires
            old(self).wf(),
        ensures
            final(self).wf(),
            match command.group() {
                Ok(group_id) => {
                    &&& final(self)@ == disconnected(old(self)@, group_id)
                    &&& out matches Ok(effects)
                    &&& effects@ == disconnect_effects(old(self)@, group_id)
                },
                Err(error) => final(self)@ == old(self)@ && out == Err::<Vec<Effect>, _>(error),
            },
    {
        let group_id = command.require_group()?;
        self.registry.disconnect(group_id)
    }

    /// Takes the first step of a command.
    pub fn handle(&mut self, command: &CommandRequest, presence: &PresenceSnapshot) -> (out:
        Directive)
        requires
            old(self).wf(),
        ensures
            final(self).wf(),
            (Step { sessions: final(self)@, directive: out@ }) == handle_step(
                old(self)@,
                *command,
                presence@,
            ),
            out@ is Resolve ==> old(self)@.contains_key(out@->Resolve_group_id),
    {
        match command.kind() {
            CommandKind::Join => match self.join(command, presence) {
                Ok(effects) => Directive::Reply { effects, reply: Reply::Joined },
                Err(error) => refuse(error),
            },
            CommandKind::Play => match self.play(command) {
                Ok((group_id, url)) => Directive::Resolve { group_id, url },
                Err(error) => refuse(error),
            },
            CommandKind::Stop => match self.stop(command) {
                Ok(effects) => Directive::Reply { effects, reply: Reply::Bye },
                Err(error) => refuse(error),
            },
            CommandKind::Unknown => refuse(CommandError::UnknownCommand),
        }
    }

    /// Takes the step of a play that follows the attempt to start the decode
    /// pipeline.
    pub fn resolved(&mut self, group_id: GroupId, outcome: Result<AudioStream, PipelineFault>) -> (out:
        Directive)
        requires
            old(self).wf(),
        ensures
            final(self).wf(),
            (Step { sessions: final(self)@, directive: out@ }) == resolved_step(
                old(self)@,
                group_id,
                outcome,
            ),
    {
        let stream = match AudioSourceResolver::resolve(outcome) {
            Ok(stream) => stream,
            Err(error) => {
                return refuse(CommandError::from_source(error));
            },
        };
        match PlaybackController::attach(&mut self.registry, group_id, stream, UNIT_VOLUME_BITS) {
            Ok(attachment) => Directive::Confirm {
                effects: attachment.effects,
                playback: attachment.handle,
            },
            Err(error) => {
                let mut effects: Vec<Effect> = Vec::new();
                effects.push(Effect::Release { stream });
                Directive::Reply { effects, reply: Reply::Failed(error) }
            },
        }
    }

    /// Takes the last step of a play: the outside has tried to start the
    /// playback, and it took hold or did not.
    pub fn started(&mut self, playback: PlaybackHandle, took_hold: bool) -> (out: Directive)
        requires
            old(self).wf(),
        ensures
            final(self).wf(),
            (Step { sessions: final(self)@, directive: out@ }) == started_step(
                old(self)@,
                playback,
                took_hold,
            ),
    {
        if took_hold {
            Directive::Reply { effects: Vec::new(), reply: Reply::Playing }
        } else {
            let effects = PlaybackController::cancel(&mut self.registry, playback);
            Directive::Reply { effects, reply: Reply::Failed(CommandError::AttachFailure) }
        }
    }

    /// Adjusts the volume of a live playback; see
    /// [`PlaybackController::set_volume`].
    pub fn set_volume(&mut self, playback: PlaybackHandle, volume_bits: u32) -> (effects: Vec<
        Effect,
    >)
        requires
            old(self).wf(),
        ensures
            final(self).wf(),
            final(self)@ == volume_set(old(self)@, playback, volume_bits),
            effects@ == set_volume_effects(old(self)@, playback, volume_bits),
    {
        PlaybackController::set_volume(&mut self.registry, playback, volume_bits)
    }

    /// Records that a playback has ended by itself; see
    /// [`PlaybackController::finished`].
    pub fn playback_finished(&mut self, playback: PlaybackHandle)
        requires
            old(self).wf(),
        ensures
            final(self).wf(),
            final(self)@ == detached(old(self)@, playback),
    {
        PlaybackController::finished(&mut self.registry, playback)
    }

    /// Records that the outside has lost a connection; see
    /// [`VoiceSessionRegistry::connection_lost`].
    pub fn connection_lost(&mut self, connection: ConnectionHandle) -> (effects: Vec<Effect>)
        requires
            old(self).wf(),
        ensures
            final(self).wf(),
            final(self)@ == lost(old(self)@, connection),
            effects@ == loss_effects(old(self)@, connection),
    {
        self.registry.connection_lost(connection)
    }
}

/// The directive that ends a command with the description of a failure.
fn refuse(error: CommandError) -> (out: Directive)
    ensures
        out@ == (DirectiveView::Reply { effects: Seq::empty(), reply: Reply::Failed(error) }),
{
    Directive::Reply { effects: Vec::new(), reply: Reply::Failed(error) }
}

} // verus!
