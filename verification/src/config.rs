//! The settings of a run, checked and parsed.

use crate::primitives::Address;
use crate::sink::is_digit;
use vstd::prelude::*;
use vstd::string::*;

verus! {

/// The settings that a run needs.
#[derive(Clone, Copy, Debug, PartialEq, Eq, Structural)]
pub enum Setting {
    HttpRpc,
    ChainId,
    SenderAddress,
    StartTimestamp,
    EndTimestamp,
}

/// Why the settings give no configuration.
#[derive(Clone, Copy, Debug, PartialEq, Eq, Structural)]
pub enum ConfigError {
    /// A required setting is not set.
    Missing(Setting),
    /// A setting is set to a text that cannot be read.
    Unparseable(Setting),
}

/// The settings as the environment holds them: each a text, or absent.
#[derive(Clone, Debug)]
pub struct Settings {
    pub http_rpc: Option<String>,
    pub chain_id: Option<String>,
    pub sender_address: Option<String>,
    pub start_timestamp: Option<String>,
    pub end_timestamp: Option<String>,
}

/// The settings as texts.
pub ghost struct SettingsText {
    pub http_rpc: Option<Seq<char>>,
    pub chain_id: Option<Seq<char>>,
    pub sender_address: Option<Seq<char>>,
    pub start_timestamp: Option<Seq<char>>,
    pub end_timestamp: Option<Seq<char>>,
}

/// The text of a setting, if it is set.
pub open spec fn text_of(value: Option<String>) -> Option<Seq<char>> {
    match value {
        Some(text) => Some(text@),
        None => None,
    }
}

impl View for Settings {
    type V = SettingsText;

    open spec fn view(&self) -> SettingsText {
        SettingsText {
            http_rpc: text_of(self.http_rpc),
            chain_id: text_of(self.chain_id),
            sender_address: text_of(self.sender_address),
            start_timestamp: text_of(self.start_timestamp),
            end_timestamp: text_of(self.end_timestamp),
        }
    }
}

/// The configuration of a run.
#[derive(Clone, Debug)]
pub struct Config {
    /// The endpoint of the chain's provider: a text that is a URL.
    pub http_rpc: String,
    pub chain_id: u64,
    pub sender: Address,
    pub start_timestamp: u64,
    pub end_timestamp: u64,
}

/// The configuration with its strings taken as texts.
pub ghost struct ConfigText {
    pub http_rpc: Seq<char>,
    pub chain_id: u64,
    pub sender: Seq<u8>,
    pub start_timestamp: u64,
    pub end_timestamp: u64,
}

impl View for Config {
    type V = ConfigText;

    open spec fn view(&self) -> ConfigText {
        ConfigText {
            http_rpc: self.http_rpc@,
            chain_id: self.chain_id,
            sender: self.sender@,
            start_timestamp: self.start_timestamp,
            end_timestamp: self.end_timestamp,
        }
    }
}

/// Whether a text is a URL.
pub uninterp spec fn is_url_text(text: Seq<char>) -> bool;

/// The chain ID that a text denotes, if it denotes one.
pub uninterp spec fn chain_id_of_text(text: Seq<char>) -> Option<u64>;

/// The value of a hexadecimal digit, in either case.
pub open spec fn hex_value(c: char) -> Option<nat> {
    if is_digit(c) {
        Some(digit_value(c))
    } else if c == 'a' || c == 'A' {
        Some(10)
    } else if c == 'b' || c == 'B' {
        Some(11)
    } else if c == 'c' || c == 'C' {
        Some(12)
    } else if c == 'd' || c == 'D' {
        Some(13)
    } else if c == 'e' || c == 'E' {
        Some(14)
    } else if c == 'f' || c == 'F' {
        Some(15)
    } else {
        None
    }
}

/// A text without the `0x` or `0X` that it may start with.
pub open spec fn without_hex_prefix(s: Seq<char>) -> Seq<char> {
    if s.len() >= 2 && s[0] == '0' && (s[1] == 'x' || s[1] == 'X') {
        s.subrange(2, s.len() as int)
    } else {
        s
    }
}

/// The address that a text denotes: forty hexadecimal digits, two for each
/// byte, with or without `0x` before them.
pub open spec fn address_of_text(text: Seq<char>) -> Option<Seq<u8>> {
    let digits = without_hex_prefix(text);
    if digits.len() == 40 && (forall|i: int| 0 <= i < 40 ==> hex_value(#[trigger] digits[i]) is Some) {
        Some(
            Seq::new(
                20,
                |i: int|
                    (16 * hex_value(digits[2 * i]).unwrap() + hex_value(
                        digits[2 * i + 1],
                    ).unwrap()) as u8,
            ),
        )
    } else {
        None
    }
}

/// `Url::parse` of the `reqwest` that `alloy` hands on: whether it accepts
/// the text depends on the text alone.
#[verifier::external_body]
fn is_url(text: &str) -> (r: bool)
    ensures
        r == is_url_text(text@),
{
    alloy::transports::http::reqwest::Url::parse(text).is_ok()
}

/// `from_str` of `alloy::primitives::U64`: the number that it reads from
/// the text, if it reads one, depends on the text alone.
#[verifier::external_body]
fn parse_chain_id(text: &str) -> (r: Option<u64>)
    ensures
        r == chain_id_of_text(text@),
{
    match text.parse::<alloy::primitives::U64>() {
        Ok(id) => Some(id.to::<u64>()),
        Err(_) => None,
    }
}

/// `from_str` of `alloy::primitives::Address`: it reads an address from
/// forty hexadecimal digits of either case, after `0x` or `0X` or without
/// it, and from no other text. Each pair of digits gives one byte.
#[verifier::external_body]
fn parse_address(text: &str) -> (r: Option<Address>)
    ensures
        r matches Some(address) ==> address_of_text(text@) == Some(address@),
        r is None ==> address_of_text(text@) is None,
{
    match text.parse::<alloy::primitives::Address>() {
        Ok(address) => Some(Address { bytes: address.0.0 }),
        Err(_) => None,
    }
}

/// The value of a decimal digit.
pub open spec fn digit_value(c: char) -> nat
    recommends
        is_digit(c),
{
    if c == '1' {
        1
    } else if c == '2' {
        2
    } else if c == '3' {
        3
    } else if c == '4' {
        4
    } else if c == '5' {
        5
    } else if c == '6' {
        6
    } else if c == '7' {
        7
    } else if c == '8' {
        8
    } else if c == '9' {
        9
    } else {
        0
    }
}

/// Whether a text is made of decimal digits alone.
pub open spec fn all_digits(s: Seq<char>) -> bool {
    forall|i: int| 0 <= i < s.len() ==> is_digit(#[trigger] s[i])
}

/// The number that a text of decimal digits denotes.
pub open spec fn digits_value(s: Seq<char>) -> nat
    decreases s.len(),
{
    if s.len() == 0 {
        0
    } else {
        digits_value(s.drop_last()) * 10 + digit_value(s.last())
    }
}

/// A text without the plus sign that it may start with.
pub open spec fn without_plus(s: Seq<char>) -> Seq<char> {
    if s.len() > 0 && s[0] == '+' {
        s.subrange(1, s.len() as int)
    } else {
        s
    }
}

/// The number below 2^64 that a text denotes: decimal digits, at least one,
/// with or without a plus sign before them.
pub open spec fn u64_of_text(s: Seq<char>) -> Option<u64> {
    let digits = without_plus(s);
    if digits.len() > 0 && all_digits(digits) && digits_value(digits) <= u64::MAX {
        Some(digits_value(digits) as u64)
    } else {
        None
    }
}

/// A longer text of digits denotes no smaller number than its beginning.
pub proof fn lemma_digits_value_grows(s: Seq<char>, k: int)
    requires
        0 <= k <= s.len(),
    ensures
        digits_value(s.subrange(0, k)) <= digits_value(s),
    decreases s.len() - k,
{
    if k == s.len() {
        assert(s.subrange(0, k) =~= s);
    } else {
        lemma_digits_value_grows(s.drop_last(), k);
        assert(s.drop_last().subrange(0, k) =~= s.subrange(0, k));
    }
}

/// The value of a character that is a decimal digit.
pub fn digit_of(c: char) -> (r: Option<u8>)
    ensures
        r.is_some() == is_digit(c),
        r matches Some(d) ==> d == digit_value(c) && d < 10,
{
    if c == '0' {
        Some(0)
    } else if c == '1' {
        Some(1)
    } else if c == '2' {
        Some(2)
    } else if c == '3' {
        Some(3)
    } else if c == '4' {
        Some(4)
    } else if c == '5' {
        Some(5)
    } else if c == '6' {
        Some(6)
    } else if c == '7' {
        Some(7)
    } else if c == '8' {
        Some(8)
    } else if c == '9' {
        Some(9)
    } else {
        None
    }
}

/// Reads a number below 2^64 from its decimal text.
pub fn parse_u64(text: &str) -> (r: Option<u64>)
    ensures
        r == u64_of_text(text@),
{
    let len: usize = text.unicode_len();
    let start: usize = if len > 0 && text.get_char(0) == '+' { 1 } else { 0 };
    if start == len {
        return None;
    }
    let ghost digits = without_plus(text@);
    assert(digits =~= text@.subrange(start as int, len as int));
    let mut acc: u64 = 0;
    let mut i: usize = start;
    while i < len
        invariant
            start <= i <= len,
            len == text@.len(),
            digits == text@.subrange(start as int, len as int),
            digits == without_plus(text@),
            all_digits(digits.subrange(0, i - start)),
            acc == digits_value(digits.subrange(0, i - start)),
        decreases len - i,
    {
        let ghost before = digits.subrange(0, i - start);
        let ghost after = digits.subrange(0, i - start + 1);
        proof {
            assert(after.drop_last() =~= before);
            assert(after.last() == text@[i as int]);
        }
        let d: u8 = match digit_of(text.get_char(i)) {
            Some(d) => d,
            None => {
                assert(!is_digit(digits[i - start]));
                return None;
            },
        };
        if acc > (u64::MAX - d as u64) / 10 {
            proof {
                lemma_digits_value_grows(digits, i - start + 1);
                assert(digits_value(after) == acc * 10 + d);
            }
            return None;
        }
        acc = acc * 10 + d as u64;
        i += 1;
        assert forall|j: int| 0 <= j < after.len() implies is_digit(#[trigger] after[j]) by {
            if j < before.len() {
                assert(after[j] == before[j]);
            }
        }
    }
    assert(digits.subrange(0, i - start) =~= digits);
    Some(acc)
}

/// The first fault of the settings, in the order in which they are read:
/// the endpoint, the chain, the sender, the start and the end of the window.
pub open spec fn settings_fault(s: SettingsText) -> Option<ConfigError> {
    if s.http_rpc is None {
        Some(ConfigError::Missing(Setting::HttpRpc))
    } else if !is_url_text(s.http_rpc.unwrap()) {
        Some(ConfigError::Unparseable(Setting::HttpRpc))
    } else if s.chain_id is None {
        Some(ConfigError::Missing(Setting::ChainId))
    } else if chain_id_of_text(s.chain_id.unwrap()) is None {
        Some(ConfigError::Unparseable(Setting::ChainId))
    } else if s.sender_address is None {
        Some(ConfigError::Missing(Setting::SenderAddress))
    } else if address_of_text(s.sender_address.unwrap()) is None {
        Some(ConfigError::Unparseable(Setting::SenderAddress))
    } else if s.start_timestamp is None {
        Some(ConfigError::Missing(Setting::StartTimestamp))
    } else if u64_of_text(s.start_timestamp.unwrap()) is None {
        Some(ConfigError::Unparseable(Setting::StartTimestamp))
    } else if s.end_timestamp is None {
        Some(ConfigError::Missing(Setting::EndTimestamp))
    } else if u64_of_text(s.end_timestamp.unwrap()) is None {
        Some(ConfigError::Unparseable(Setting::EndTimestamp))
    } else {
        None
    }
}

/// The configuration that settings without a fault give.
pub open spec fn settings_config(s: SettingsText) -> ConfigText
    recommends
        settings_fault(s) is None,
{
    ConfigText {
        http_rpc: s.http_rpc.unwrap(),
        chain_id: chain_id_of_text(s.chain_id.unwrap()).unwrap(),
        sender: address_of_text(s.sender_address.unwrap()).unwrap(),
        start_timestamp: u64_of_text(s.start_timestamp.unwrap()).unwrap(),
        end_timestamp: u64_of_text(s.end_timestamp.unwrap()).unwrap(),
    }
}

impl Config {
    /// The configuration that the settings give, or their first fault.
    pub fn from_settings(settings: &Settings) -> (r: Result<Config, ConfigError>)
        ensures
            r matches Ok(config) ==> settings_fault(settings@) is None && config@
                == settings_config(settings@),
            r matches Err(e) ==> settings_fault(settings@) == Some(e),
    {
        let http_rpc = match &settings.http_rpc {
            Some(text) => text,
            None => {
                return Err(ConfigError::Missing(Setting::HttpRpc));
            },
        };
        if !is_url(http_rpc.as_str()) {
            return Err(ConfigError::Unparseable(Setting::HttpRpc));
        }
        let chain_id = match &settings.chain_id {
            Some(text) => match parse_chain_id(text.as_str()) {
                Some(id) => id,
                None => {
                    return Err(ConfigError::Unparseable(Setting::ChainId));
                },
            },
            None => {
                return Err(ConfigError::Missing(Setting::ChainId));
            },
        };
        let sender = match &settings.sender_address {
            Some(text) => match parse_address(text.as_str()) {
                Some(address) => address,
                None => {
                    return Err(ConfigError::Unparseable(Setting::SenderAddress));
                },
            },
            None => {
                return Err(ConfigError::Missing(Setting::SenderAddress));
            },
        };
        let start_timestamp = match &settings.start_timestamp {
            Some(text) => match parse_u64(text.as_str()) {
                Some(seconds) => seconds,
                None => {
                    return Err(ConfigError::Unparseable(Setting::StartTimestamp));
                },
            },
            None => {
                return Err(ConfigError::Missing(Setting::StartTimestamp));
            },
        };
        let end_timestamp = match &settings.end_timestamp {
            Some(text) => match parse_u64(text.as_str()) {
                Some(seconds) => seconds,
                None => {
                    return Err(ConfigError::Unparseable(Setting::EndTimestamp));
                },
            },
            None => {
                return Err(ConfigError::Missing(Setting::EndTimestamp));
            },
        };
        Ok(Config { http_rpc: http_rpc.clone(), chain_id, sender, start_timestamp, end_timestamp })
    }
}

} // verus!
