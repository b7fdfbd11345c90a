use voice_sessions::config::{parse_id, ConfigError, StartupConfig};

fn some(text: &str) -> Option<String> {
    Some(text.to_string())
}

#[test]
fn parse_id_reads_decimal_digits() {
    assert_eq!(parse_id("0"), Some(0));
    assert_eq!(parse_id("42"), Some(42));
    assert_eq!(parse_id("+42"), Some(42));
    assert_eq!(parse_id("007"), Some(7));
    assert_eq!(parse_id("18446744073709551615"), Some(u64::MAX));
    assert_eq!(parse_id("00018446744073709551615"), Some(u64::MAX));
}

#[test]
fn parse_id_refuses_everything_else() {
    for text in [
        "", "+", "-1", "-0", "++1", "1+", " 1", "1 ", "1_000", "0x10", "12a", "１２",
        "+é1", "18446744073709551616", "99999999999999999999999",
    ] {
        assert_eq!(parse_id(text), None, "{:?}", text);
    }
}

#[test]
fn parse_id_agrees_with_the_standard_parser() {
    for text in ["", "+", "+0", "1", "-1", "340282366920938463463374607431768211455", "٣", "9a"] {
        assert_eq!(parse_id(text), text.parse::<u64>().ok(), "{:?}", text);
    }
}

#[test]
fn startup_config_takes_the_three_values() {
    let config = StartupConfig::from_values(some("bot-token"), some("123"), some("456")).unwrap();
    assert_eq!(config.token, "bot-token");
    assert_eq!(config.application_id, 123);
    assert_eq!(config.guild_id, 456);
}

#[test]
fn startup_config_reports_the_first_failure() {
    let failure = |token, application, guild| {
        StartupConfig::from_values(token, application, guild).err()
    };
    assert_eq!(failure(None, None, None), Some(ConfigError::MissingToken));
    assert_eq!(failure(some("t"), None, None), Some(ConfigError::MissingApplicationId));
    assert_eq!(failure(some("t"), some("x"), None), Some(ConfigError::InvalidApplicationId));
    assert_eq!(failure(some("t"), some("1"), None), Some(ConfigError::MissingGuildId));
    assert_eq!(failure(some("t"), some("1"), some("")), Some(ConfigError::InvalidGuildId));
}

#[test]
fn config_failures_have_their_wording() {
    assert_eq!(ConfigError::MissingToken.message(), "Expected a token in the environment");
    assert_eq!(
        ConfigError::MissingApplicationId.message(),
        "Expected an application id in the environment"
    );
    assert_eq!(ConfigError::InvalidApplicationId.message(), "application id is not a valid id");
    assert_eq!(ConfigError::MissingGuildId.message(), "Expected GUILD_ID in environment");
    assert_eq!(ConfigError::InvalidGuildId.message(), "GUILD_ID must be an integer");
}
