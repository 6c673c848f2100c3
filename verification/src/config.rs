//! Start-up settings of the receiver and their defaults.

use vstd::prelude::*;

verus! {

/// The port that is listened on when none is configured.
pub const DEFAULT_PORT: u16 = 11112;

/// The application title that is used when none is configured.
pub open spec fn default_title() -> Seq<char> {
    "NOCTIS_SCP"@
}

/// The downstream endpoint that is used when none is configured.
pub open spec fn default_endpoint() -> Seq<char> {
    "http://127.0.0.1:9000/dicom/ingest"@
}

/// The storage root that is used when none is configured.
pub open spec fn default_storage_root() -> Seq<char> {
    "./media/dicom/received"@
}

/// The value of a decimal digit.
pub open spec fn digit_value(c: char) -> int {
    c as u32 - '0' as u32
}

/// Whether a character is one of `0` to `9`.
pub open spec fn is_digit(c: char) -> bool {
    '0' as u32 <= c as u32 <= '9' as u32
}

/// Whether a text is made of decimal digits only.
pub open spec fn all_digits(s: Seq<char>) -> bool {
    forall|i: int| 0 <= i < s.len() ==> is_digit(#[trigger] s[i])
}

/// The number that a text of decimal digits denotes; the empty text
/// denotes zero.
pub open spec fn decimal_value(s: Seq<char>) -> nat
    decreases s.len(),
{
    if s.len() == 0 {
        0
    } else {
        (decimal_value(s.drop_last()) * 10 + digit_value(s.last())) as nat
    }
}

/// The digits of a port text: the text itself, without one leading `+`.
pub open spec fn unsigned_part(s: Seq<char>) -> Seq<char> {
    if s.len() > 0 && s[0] == '+' {
        s.drop_first()
    } else {
        s
    }
}

/// The port that a text denotes: an optional `+`, then at least one decimal
/// digit and nothing else, with a value of at most 65535.
pub open spec fn port_of(s: Seq<char>) -> Option<u16> {
    let digits = unsigned_part(s);
    if digits.len() > 0 && all_digits(digits) && decimal_value(digits) <= u16::MAX {
        Some(decimal_value(digits) as u16)
    } else {
        None
    }
}

/// A text of digits denotes at least what each of its beginnings denotes.
pub proof fn lemma_decimal_value_grows(s: Seq<char>, n: int)
    requires
        0 <= n <= s.len(),
        all_digits(s),
    ensures
        decimal_value(s.take(n)) <= decimal_value(s),
    decreases s.len() - n,
{
    if n < s.len() {
        lemma_decimal_value_grows(s, n + 1);
        let longer = s.take(n + 1);
        assert(longer.drop_last() == s.take(n));
    } else {
        assert(s.take(n) == s);
    }
}

/// Reads a port number. The text is an optional `+` followed by decimal
/// digits; anything else, or a value above 65535, is refused.
pub fn parse_port(text: &str) -> (port: Option<u16>)
    ensures
        port == port_of(text@),
{
    let len = text.unicode_len();
    let mut value: u32 = 0;
    let mut index: usize = 0;
    // The place of the first digit: 1 after a leading `+`, else 0.
    let mut start: usize = 0;
    for c in it: text.chars()
        invariant
            len == text@.len(),
            it.seq() == text@,
            index == it.index(),
            index <= len,
            start <= index,
            start <= 1,
            start == 1 <==> index > 0 && text@[0] == '+',
            all_digits(text@.subrange(start as int, index as int)),
            value == decimal_value(text@.subrange(start as int, index as int)),
            value <= u16::MAX,
    {
        if index == 0 && c == '+' {
            start = 1;
        } else {
            let ghost digits = unsigned_part(text@);
            let code: u32 = c as u32;
            if code < 48 || code > 57 {
                assert(!is_digit(digits[index - start]));
                return None;
            }
            let ghost before = text@.subrange(start as int, index as int);
            let ghost after = text@.subrange(start as int, index + 1);
            assert(after.drop_last() == before);
            assert(all_digits(after));
            value = value * 10 + (code - 48);
            if value > 65535 {
                proof {
                    if all_digits(digits) {
                        assert(digits.take(index - start + 1) == after);
                        lemma_decimal_value_grows(digits, index - start + 1);
                    }
                }
                return None;
            }
        }
        index = index + 1;
    }
    assert(unsigned_part(text@) == text@.subrange(start as int, index as int));
    if index == start {
        return None;
    }
    Some(value as u16)
}

/// Why the settings could not be resolved.
#[derive(Debug, Clone, Copy, PartialEq, Eq, Structural)]
pub enum ConfigError {
    /// The configured port is no port number.
    InvalidPort,
}

/// The settings that the receiver starts with.
#[derive(Debug, Clone)]
pub struct Config {
    /// The TCP port that is listened on.
    pub port: u16,
    /// The application title of the receiver itself.
    pub local_title: String,
    /// The address of the downstream service.
    pub endpoint: String,
    /// The directory under which datasets are stored.
    pub storage_root: String,
}

/// The text that is configured, or the default where none is.
pub open spec fn text_or(configured: Option<String>, fallback: Seq<char>) -> Seq<char> {
    match configured {
        Some(text) => text@,
        None => fallback,
    }
}

/// The port that results from what is configured.
pub open spec fn resolved_port(configured: Option<String>) -> Option<u16> {
    match configured {
        Some(text) => port_of(text@),
        None => Some(DEFAULT_PORT),
    }
}

fn or_default(configured: Option<String>, fallback: &str) -> (text: String)
    ensures
        text@ == text_or(configured, fallback@),
{
    match configured {
        Some(text) => text,
        None => fallback.to_owned(),
    }
}

impl Config {
    /// Resolves the settings from what is configured, each option being the
    /// configured text or `None` where it is unset. Unset options take their
    /// defaults; a port that is set and is no port number is an error.
    pub fn resolve(
        port: Option<String>,
        local_title: Option<String>,
        endpoint: Option<String>,
        storage_root: Option<String>,
    ) -> (resolved: Result<Config, ConfigError>)
        ensures
            resolved_port(port) is None ==> resolved == Err::<Config, ConfigError>(
                ConfigError::InvalidPort,
            ),
            resolved_port(port) matches Some(number) ==> (resolved matches Ok(config)
                && config.port == number
                && config.local_title@ == text_or(local_title, default_title())
                && config.endpoint@ == text_or(endpoint, default_endpoint())
                && config.storage_root@ == text_or(storage_root, default_storage_root())),
    {
        let number = match port {
            Some(text) => match parse_port(text.as_str()) {
                Some(number) => number,
                None => {
                    return Err(ConfigError::InvalidPort);
                },
            },
            None => DEFAULT_PORT,
        };
        Ok(
            Config {
                port: number,
                local_title: or_default(local_title, "NOCTIS_SCP"),
                endpoint: or_default(endpoint, "http://127.0.0.1:9000/dicom/ingest"),
                storage_root: or_default(storage_root, "./media/dicom/received"),
            },
        )
    }
}

} // verus!
