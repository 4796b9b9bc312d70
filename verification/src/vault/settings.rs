//! The two values that configure a vault at startup: the master key and the
//! time to live. Both come from the environment as text; a value that is
//! missing is replaced by its default, and a value that is present but
//! unusable stops the startup.

use vstd::prelude::*;
use vstd::string::StringSliceAdditionalSpecFns;
use crate::vault::crypto::KEY_LEN;

verus! {

/// The key that is used where the environment names none.
pub const DEFAULT_MASTER_KEY: &'static str = "default-32-byte-key-change-me!!!";

/// The seconds a record lives where the environment names no time to live.
pub const DEFAULT_TTL_SECONDS: u64 = 60;

/// The seconds between two sweeps of the reaper. It is short against the
/// default time to live, since the sweep is all that bounds the store's size.
pub const REAPER_INTERVAL_SECONDS: u64 = 10;

/// Why the configuration is refused.
#[derive(Debug, Clone, Copy, PartialEq, Eq, Structural)]
pub enum ConfigError {
    /// The master key is not exactly 32 bytes long.
    KeyLength,
    /// The time to live is not a decimal number that fits in 64 bits.
    InvalidTtl,
}

/// A configuration that was accepted.
#[derive(Debug, Clone, PartialEq, Eq)]
pub struct VaultSettings {
    pub master_key: Vec<u8>,
    pub ttl_seconds: u64,
}

/// Whether a byte is an ASCII decimal digit.
pub open spec fn is_digit(byte: u8) -> bool {
    0x30 <= byte <= 0x39
}

/// The number that a sequence of decimal digits denotes.
pub open spec fn decimal_value(digits: Seq<u8>) -> nat
    decreases digits.len(),
{
    if digits.len() == 0 {
        0
    } else {
        decimal_value(digits.drop_last()) * 10 + (digits.last() - 0x30) as nat
    }
}

/// The digits of a number's text: the text itself, without one leading plus
/// sign if it has one.
pub open spec fn digits_of(text: Seq<u8>) -> Seq<u8> {
    if text.len() > 0 && text[0] == 0x2b {
        text.skip(1)
    } else {
        text
    }
}

/// The number that a text denotes: its digits must be at least one, all
/// decimal, and denote a number that fits in 64 bits.
pub open spec fn parse_seconds_spec(text: Seq<u8>) -> Option<u64> {
    let digits = digits_of(text);
    if digits.len() > 0 && (forall|i: int| 0 <= i < digits.len() ==> is_digit(#[trigger] digits[i]))
        && decimal_value(digits) <= u64::MAX {
        Some(decimal_value(digits) as u64)
    } else {
        None
    }
}

proof fn lemma_value_grows(digits: Seq<u8>, shorter: int)
    requires
        0 <= shorter <= digits.len(),
        forall|i: int| 0 <= i < digits.len() ==> is_digit(#[trigger] digits[i]),
    ensures
        decimal_value(digits.take(shorter)) <= decimal_value(digits),
    decreases digits.len() - shorter,
{
    if shorter < digits.len() {
        let longer = digits.take(shorter + 1);
        assert(longer.drop_last() =~= digits.take(shorter));
        assert(longer.last() == digits[shorter]);
        lemma_value_grows(digits, shorter + 1);
    } else {
        assert(digits.take(shorter) =~= digits);
    }
}

/// Reads a number of seconds from its decimal text.
pub fn parse_seconds(text: &str) -> (r: Option<u64>)
    ensures
        r == parse_seconds_spec(text.spec_bytes()),
{
    let raw = text.as_bytes();
    let start: usize = if raw.len() > 0 && raw[0] == 0x2b {
        1
    } else {
        0
    };
    let ghost digits = digits_of(raw@);
    assert(digits =~= raw@.skip(start as int));
    if raw.len() == start {
        return None;
    }
    let mut value: u64 = 0;
    let mut i: usize = start;
    while i < raw.len()
        invariant
            start <= i <= raw.len(),
            raw@ == text.spec_bytes(),
            digits == digits_of(raw@),
            digits == raw@.skip(start as int),
            forall|j: int| 0 <= j < i - start ==> is_digit(#[trigger] digits[j]),
            value == decimal_value(digits.take(i - start)),
        decreases raw.len() - i,
    {
        let byte = raw[i];
        if byte < 0x30 || byte > 0x39 {
            assert(!is_digit(digits[i - start]));
            return None;
        }
        let ghost longer = digits.take(i - start + 1);
        proof {
            assert(longer.drop_last() =~= digits.take(i - start));
            assert(longer.last() == byte);
        }
        let digit: u64 = (byte - 0x30) as u64;
        let grown = match value.checked_mul(10) {
            Some(tens) => tens.checked_add(digit),
            None => None,
        };
        match grown {
            Some(next) => {
                value = next;
            },
            None => {
                proof {
                    assert(decimal_value(longer) > u64::MAX);
                    if forall|j: int| 0 <= j < digits.len() ==> is_digit(#[trigger] digits[j]) {
                        lemma_value_grows(digits, i - start + 1);
                    }
                }
                return None;
            },
        }
        i += 1;
    }
    assert(digits.take(i - start) =~= digits);
    Some(value)
}

/// What the configuration is, given the two values of the environment: a
/// missing key is the default key and a missing time to live the default
/// one; a key that is not 32 bytes long is refused first, then a time to
/// live that is no number.
pub open spec fn settings_spec(master_key: Option<Seq<char>>, ttl_seconds: Option<Seq<char>>) -> Result<
    (Seq<u8>, u64),
    ConfigError,
> {
    let key = vstd::utf8::encode_utf8(
        match master_key {
            Some(text) => text,
            None => DEFAULT_MASTER_KEY@,
        },
    );
    let ttl = match ttl_seconds {
        Some(text) => parse_seconds_spec(vstd::utf8::encode_utf8(text)),
        None => Some(DEFAULT_TTL_SECONDS),
    };
    if key.len() != KEY_LEN {
        Err(ConfigError::KeyLength)
    } else {
        match ttl {
            Some(seconds) => Ok((key, seconds)),
            None => Err(ConfigError::InvalidTtl),
        }
    }
}

/// Decides the configuration from the two values of the environment.
pub fn load_settings(master_key: Option<&str>, ttl_seconds: Option<&str>) -> (r: Result<
    VaultSettings,
    ConfigError,
>)
    ensures
        match r {
            Ok(settings) => settings_spec(
                match master_key {
                    Some(text) => Some(text@),
                    None => None,
                },
                match ttl_seconds {
                    Some(text) => Some(text@),
                    None => None,
                },
            ) == Ok::<(Seq<u8>, u64), ConfigError>((settings.master_key@, settings.ttl_seconds)),
            Err(e) => settings_spec(
                match master_key {
                    Some(text) => Some(text@),
                    None => None,
                },
                match ttl_seconds {
                    Some(text) => Some(text@),
                    None => None,
                },
            ) == Err::<(Seq<u8>, u64), ConfigError>(e),
        },
{
    let key_text: &str = match master_key {
        Some(text) => text,
        None => DEFAULT_MASTER_KEY,
    };
    let key = vstd::slice::slice_to_vec(key_text.as_bytes());
    if key.len() != KEY_LEN {
        return Err(ConfigError::KeyLength);
    }
    let ttl = match ttl_seconds {
        Some(text) => parse_seconds(text),
        None => Some(DEFAULT_TTL_SECONDS),
    };
    match ttl {
        Some(seconds) => Ok(VaultSettings { master_key: key, ttl_seconds: seconds }),
        None => Err(ConfigError::InvalidTtl),
    }
}

} // verus!
