use voice_sessions::command::{CommandKind, CommandRequest};
use voice_sessions::schema::{command_schema, CommandSchema, OptionKind, OptionSchema};
use voice_sessions::text::same_text;

#[test]
fn schema_declares_join_play_and_stop() {
    let schema = command_schema();
    assert_eq!(
        schema,
        vec![
            CommandSchema {
                name: "join",
                description: "join a voice channel",
                options: vec![OptionSchema {
                    name: "id",
                    description: "the channel id to join",
                    kind: OptionKind::Channel,
                    required: false,
                }],
            },
            CommandSchema {
                name: "play",
                description: "Play a song",
                options: vec![OptionSchema {
                    name: "file",
                    description: "The file to play",
                    kind: OptionKind::Attachment,
                    required: true,
                }],
            },
            CommandSchema {
                name: "stop",
                description: "leave the voice channel",
                options: vec![],
            },
        ]
    );
}

#[test]
fn every_declared_command_is_dispatched() {
    for declared in command_schema() {
        let request = CommandRequest {
            name: declared.name.to_string(),
            group_id: None,
            invoking_user_id: 0,
            resolved_options: vec![],
        };
        assert_ne!(request.kind(), CommandKind::Unknown);
    }
}

#[test]
fn same_text_compares_characters() {
    assert!(same_text("", ""));
    assert!(same_text("join", "join"));
    assert!(same_text("héllo", "héllo"));
    assert!(!same_text("join", "joins"));
    assert!(!same_text("join", "joim"));
    assert!(!same_text("", "a"));
    assert!(!same_text("é", "e"));
}
