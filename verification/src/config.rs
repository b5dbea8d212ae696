//! Settings as the library reads them. The caller fetches the raw values
//! from the environment; what they mean is decided here.

use crate::clock::{duration_nanos, whole_seconds};
use std::time::Duration;
use vstd::prelude::*;
use vstd::string::StrSliceExecFns;

verus! {

/// Seconds between two periodic detail lines where the setting is absent
/// or cannot be read.
pub const DEFAULT_LOG_INTERVAL_SECONDS: u64 = 5;

/// Whether `c` is one of the ten decimal digits.
pub open spec fn is_digit(c: char) -> bool {
    '0' <= c && c <= '9'
}

/// The value of a decimal digit; zero for any other character.
pub open spec fn digit_value(c: char) -> nat {
    if is_digit(c) {
        (c as nat - '0' as nat) as nat
    } else {
        0
    }
}

/// The number that a sequence of decimal digits writes.
pub open spec fn digits_value(digits: Seq<char>) -> nat
    decreases digits.len(),
{
    if digits.len() == 0 {
        0
    } else {
        digits_value(digits.drop_last()) * 10 + digit_value(digits.last())
    }
}

/// The digits of a decimal number: the text without its leading `+`, if it
/// has one.
pub open spec fn unsigned_part(text: Seq<char>) -> Seq<char> {
    if text.len() > 0 && text[0] == '+' {
        text.subrange(1, text.len() as int)
    } else {
        text
    }
}

/// The 64-bit number that `text` writes in decimal: an optional `+`, then
/// one or more digits and nothing else, of a value that fits. Any other
/// text writes no number.
pub open spec fn decimal_u64(text: Seq<char>) -> Option<u64> {
    let digits = unsigned_part(text);
    if digits.len() > 0 && (forall|i: int| 0 <= i < digits.len() ==> is_digit(#[trigger] digits[i]))
        && digits_value(digits) <= u64::MAX {
        Some(digits_value(digits) as u64)
    } else {
        None
    }
}

/// A number grows, or stays, with every digit appended to it.
proof fn lemma_prefix_value(digits: Seq<char>, upto: int)
    requires
        0 <= upto <= digits.len(),
    ensures
        digits_value(digits.subrange(0, upto)) <= digits_value(digits),
    decreases digits.len() - upto,
{
    if upto == digits.len() {
        assert(digits.subrange(0, upto) =~= digits);
    } else {
        lemma_prefix_value(digits, upto + 1);
        let longer = digits.subrange(0, upto + 1);
        assert(longer.drop_last() =~= digits.subrange(0, upto));
    }
}

/// Reads a decimal 64-bit number.
pub fn parse_decimal_u64(text: &str) -> (value: Option<u64>)
    ensures
        value == decimal_u64(text@),
{
    let len = text.unicode_len();
    let start: usize = if len > 0 && text.get_char(0) == '+' {
        1
    } else {
        0
    };
    let ghost digits = unsigned_part(text@);
    assert(digits =~= text@.subrange(start as int, len as int));
    if start == len {
        return None;
    }
    let mut value: u64 = 0;
    let mut i: usize = start;
    while i < len
        invariant
            start <= i <= len,
            len == text@.len(),
            digits == unsigned_part(text@),
            digits == text@.subrange(start as int, len as int),
            forall|j: int| 0 <= j < i - start ==> is_digit(#[trigger] digits[j]),
            value == digits_value(digits.subrange(0, i - start)),
        decreases len - i,
    {
        let c = text.get_char(i);
        assert(c == digits[i - start]);
        if c < '0' || c > '9' {
            assert(!is_digit(digits[i - start]));
            return None;
        }
        let digit = (c as u32 - '0' as u32) as u64;
        let ghost longer = digits.subrange(0, i - start + 1);
        assert(longer.drop_last() =~= digits.subrange(0, i - start));
        assert(digits_value(longer) == value * 10 + digit);
        proof {
            lemma_prefix_value(digits, i - start + 1);
        }
        let tens = match value.checked_mul(10) {
            Some(tens) => tens,
            None => {
                return None;
            },
        };
        value = match tens.checked_add(digit) {
            Some(sum) => sum,
            None => {
                return None;
            },
        };
        i += 1;
    }
    assert(digits.subrange(0, len - start) =~= digits);
    Some(value)
}

/// Seconds between two periodic detail lines, or nothing where the log is
/// switched off: the default where the setting is absent or writes no
/// number, nothing where it writes zero, else the number it writes.
pub open spec fn log_interval_seconds(setting: Option<Seq<char>>) -> Option<u64> {
    match setting {
        None => Some(DEFAULT_LOG_INTERVAL_SECONDS),
        Some(text) => match decimal_u64(text) {
            None => Some(DEFAULT_LOG_INTERVAL_SECONDS),
            Some(seconds) => if seconds == 0 {
                None
            } else {
                Some(seconds)
            },
        },
    }
}

/// Reads the interval of the periodic detail log from its setting.
pub fn parse_log_packet_interval(setting: Option<&str>) -> (interval: Option<Duration>)
    ensures
        match log_interval_seconds(
            match setting {
                Some(text) => Some(text@),
                None => None,
            },
        ) {
            Some(seconds) => interval matches Some(span) && duration_nanos(span) == seconds
                * 1_000_000_000,
            None => interval is None,
        },
{
    let seconds = match setting {
        None => DEFAULT_LOG_INTERVAL_SECONDS,
        Some(text) => match parse_decimal_u64(text) {
            None => DEFAULT_LOG_INTERVAL_SECONDS,
            Some(seconds) => seconds,
        },
    };
    if seconds == 0 {
        None
    } else {
        Some(whole_seconds(seconds))
    }
}

/// What validation makes of the three settings the bridge cannot run
/// without: all three, or the complaint about the first that is missing.
pub open spec fn required_settings(
    ps5_ip: Option<Seq<char>>,
    pulsar_url: Option<Seq<char>>,
    pulsar_topic: Option<Seq<char>>,
) -> Result<(Seq<char>, Seq<char>, Seq<char>), Seq<char>> {
    match (ps5_ip, pulsar_url, pulsar_topic) {
        (None, _, _) => Err("Error: The PS5_IP_ADDRESS environment variable must be set."@),
        (Some(_), None, _) => Err(
            "Error: The PULSAR_SERVICE_URL environment variable must be set."@,
        ),
        (Some(_), Some(_), None) => Err(
            "Error: The PULSAR_TOPIC environment variable must be set."@,
        ),
        (Some(ip), Some(url), Some(topic)) => Ok((ip, url, topic)),
    }
}

/// The view of an optional text.
pub open spec fn text_of(setting: Option<String>) -> Option<Seq<char>> {
    match setting {
        Some(text) => Some(text@),
        None => None,
    }
}

/// Checks that the console's address, the broker's address and the topic
/// are all set.
pub fn validate_required_env_vars(
    ps5_ip: Option<String>,
    pulsar_url: Option<String>,
    pulsar_topic: Option<String>,
) -> (outcome: Result<(String, String, String), String>)
    ensures
        match required_settings(text_of(ps5_ip), text_of(pulsar_url), text_of(pulsar_topic)) {
            Ok((ip, url, topic)) => outcome matches Ok(found) && found.0@ == ip && found.1@ == url
                && found.2@ == topic,
            Err(complaint) => outcome matches Err(message) && message@ == complaint,
        },
{
    let ip = match ps5_ip {
        Some(ip) => ip,
        None => {
            return Err("Error: The PS5_IP_ADDRESS environment variable must be set.".to_string());
        },
    };
    let url = match pulsar_url {
        Some(url) => url,
        None => {
            return Err(
                "Error: The PULSAR_SERVICE_URL environment variable must be set.".to_string(),
            );
        },
    };
    let topic = match pulsar_topic {
        Some(topic) => topic,
        None => {
            return Err("Error: The PULSAR_TOPIC environment variable must be set.".to_string());
        },
    };
    Ok((ip, url, topic))
}

} // verus!
