use crate::session::GroupId;
use vstd::prelude::*;
use vstd::string::*;
use vstd::utf8::*;

verus! {

/// True of the decimal digits `0` to `9`.
pub open spec fn is_digit(c: char) -> bool {
    '0' <= c <= '9'
}

/// The number that a decimal digit stands for.
pub open spec fn digit_value(c: char) -> nat {
    (c as u32 - '0' as u32) as nat
}

/// True where every character is a decimal digit.
pub open spec fn all_digits(text: Seq<char>) -> bool {
    forall|i: int| 0 <= i < text.len() ==> is_digit(#[trigger] text[i])
}

/// The number that a sequence of decimal digits stands for, the empty
/// sequence for zero.
pub open spec fn decimal(digits: Seq<char>) -> nat
    decreases digits.len(),
{
    if digits.len() == 0 {
        0
    } else {
        decimal(digits.drop_last()) * 10 + digit_value(digits.last())
    }
}

/// The text without the plus sign that may lead it.
pub open spec fn unsigned_part(text: Seq<char>) -> Seq<char> {
    if text.len() > 0 && text[0] == '+' {
        text.drop_first()
    } else {
        text
    }
}

/// The identifier that a text denotes: one or more decimal digits, which a
/// plus sign may lead, standing for a number of at most 64 bits. Any other
/// text denotes none.
pub open spec fn id_of(text: Seq<char>) -> Option<u64> {
    let digits = unsigned_part(text);
    if digits.len() > 0 && all_digits(digits) && decimal(digits) <= u64::MAX {
        Some(decimal(digits) as u64)
    } else {
        None
    }
}

/// A longer run of leading digits stands for no smaller a number.
proof fn lemma_decimal_grows(digits: Seq<char>, shorter: int, longer: int)
    requires
        0 <= shorter <= longer <= digits.len(),
    ensures
        decimal(digits.take(shorter)) <= decimal(digits.take(longer)),
    decreases longer - shorter,
{
    if shorter < longer {
        lemma_decimal_grows(digits, shorter, longer - 1);
        assert(digits.take(longer).drop_last() =~= digits.take(longer - 1));
    }
}

/// Reads an identifier from a text.
pub fn parse_id(text: &str) -> (id: Option<u64>)
    ensures
        id == id_of(text@),
{
    if !text.is_ascii() {
        proof {
            let at = choose|i: int|
                0 <= i < text@.len() && !('\0' <= #[trigger] text@[i] <= '\u{7f}');
            let digits = unsigned_part(text@);
            if text@[0] == '+' {
                assert(!is_digit(digits[at - 1]));
            } else {
                assert(!is_digit(digits[at]));
            }
        }
        return None;
    }
    let bytes = text.as_bytes();
    proof {
        is_ascii_chars_encode_utf8(text@);
    }
    let start: usize = if bytes.len() > 0 && bytes[0] == 43u8 {
        1
    } else {
        0
    };
    let ghost digits = unsigned_part(text@);
    assert(digits =~= text@.skip(start as int));
    if start == bytes.len() {
        return None;
    }
    let mut value: u64 = 0;
    let mut index: usize = start;
    while index < bytes.len()
        invariant
            start <= index <= bytes@.len(),
            bytes@.len() == text@.len(),
            forall|i: int| 0 <= i < text@.len() ==> text@[i] as u8 == #[trigger] bytes@[i],
            is_ascii_chars(text@),
            digits == text@.skip(start as int),
            digits == unsigned_part(text@),
            all_digits(digits.take(index - start)),
            value == decimal(digits.take(index - start)),
        decreases bytes@.len() - index,
    {
        let byte: u8 = bytes[index];
        let ghost seen = index - start;
        let ghost c = text@[index as int];
        assert(digits[seen] == c);
        assert('\0' <= c <= '\u{7f}');
        assert(c as u8 == byte);
        if byte < 48u8 || byte > 57u8 {
            assert(!is_digit(digits[seen]));
            return None;
        }
        let digit: u64 = (byte - 48u8) as u64;
        proof {
            assert(digits.take(seen + 1).drop_last() =~= digits.take(seen));
            assert(digit == digit_value(digits[seen]));
            assert(decimal(digits.take(seen + 1)) == value * 10 + digit);
            lemma_decimal_grows(digits, seen + 1, digits.len() as int);
            assert(digits.take(digits.len() as int) =~= digits);
        }
        if value > (u64::MAX - digit) / 10 {
            return None;
        }
        value = value * 10 + digit;
        index += 1;
    }
    assert(digits.take(index - start) =~= digits);
    Some(value)
}

/// Why the process cannot start.
#[derive(Clone, Copy, Debug, PartialEq, Eq, Structural)]
pub enum ConfigError {
    /// No authentication token is configured.
    MissingToken,
    /// No application identifier is configured.
    MissingApplicationId,
    /// The configured application identifier denotes no identifier.
    InvalidApplicationId,
    /// No group is configured to register the commands with.
    MissingGuildId,
    /// The configured group denotes no identifier.
    InvalidGuildId,
}

impl ConfigError {
    /// The wording of this failure.
    pub open spec fn wording(self) -> Seq<char> {
        match self {
            ConfigError::MissingToken => "Expected a token in the environment"@,
            ConfigError::MissingApplicationId => "Expected an application id in the environment"@,
            ConfigError::InvalidApplicationId => "application id is not a valid id"@,
            ConfigError::MissingGuildId => "Expected GUILD_ID in environment"@,
            ConfigError::InvalidGuildId => "GUILD_ID must be an integer"@,
        }
    }

    /// The description of this failure, for the operator.
    pub fn message(&self) -> (text: &'static str)
        ensures
            text@ == self.wording(),
    {
        match self {
            ConfigError::MissingToken => "Expected a token in the environment",
            ConfigError::MissingApplicationId => "Expected an application id in the environment",
            ConfigError::InvalidApplicationId => "application id is not a valid id",
            ConfigError::MissingGuildId => "Expected GUILD_ID in environment",
            ConfigError::InvalidGuildId => "GUILD_ID must be an integer",
        }
    }
}

/// What the process needs to know before it serves commands.
#[derive(Clone, Debug)]
pub struct StartupConfig {
    /// The token that authenticates the bot to the platform.
    pub token: String,
    /// The application that the commands belong to.
    pub application_id: u64,
    /// The group that the command schema is registered with.
    pub guild_id: GroupId,
}

/// The configuration that the three configured values make, or the first
/// failure among them: the token, then the application, then the group.
pub open spec fn configured(
    token: Option<String>,
    application_id: Option<String>,
    guild_id: Option<String>,
) -> Result<StartupConfig, ConfigError> {
    match token {
        None => Err(ConfigError::MissingToken),
        Some(token) => match application_id {
            None => Err(ConfigError::MissingApplicationId),
            Some(application) => match id_of(application@) {
                None => Err(ConfigError::InvalidApplicationId),
                Some(application_id) => match guild_id {
                    None => Err(ConfigError::MissingGuildId),
                    Some(guild) => match id_of(guild@) {
                        None => Err(ConfigError::InvalidGuildId),
                        Some(guild_id) => Ok(StartupConfig { token, application_id, guild_id }),
                    },
                },
            },
        },
    }
}

impl StartupConfig {
    /// Makes the configuration from the three configured values, each absent
    /// where it is not set.
    pub fn from_values(
        token: Option<String>,
        application_id: Option<String>,
        guild_id: Option<String>,
    ) -> (config: Result<StartupConfig, ConfigError>)
        ensures
            config == configured(token, application_id, guild_id),
    {
        let token = match token {
            Some(token) => token,
            None => {
                return Err(ConfigError::MissingToken);
            },
        };
        let application = match application_id {
            Some(application) => application,
            None => {
                return Err(ConfigError::MissingApplicationId);
            },
        };
        let application_id = match parse_id(application.as_str()) {
            Some(id) => id,
            None => {
                return Err(ConfigError::InvalidApplicationId);
            },
        };
        let guild = match guild_id {
            Some(guild) => guild,
            None => {
                return Err(ConfigError::MissingGuildId);
            },
        };
        let guild_id = match parse_id(guild.as_str()) {
            Some(id) => id,
            None => {
                return Err(ConfigError::InvalidGuildId);
            },
        };
        Ok(StartupConfig { token, application_id, guild_id })
    }
}

} // verus!
