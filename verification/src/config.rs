//! Service configuration: endpoint URL, server port, log level and the
//! verify-on-start flag, built from raw environment values with fallback
//! to defaults.

use vstd::prelude::*;

use crate::error::ReporteerError;

verus! {

/// What url::Url::parse makes of a text: the normalized rendering of the
/// URL when the text parses, nothing otherwise.
pub uninterp spec fn spec_url_normalized(s: Seq<char>) -> Option<Seq<char>>;

/// Relies on url::Url::parse: whether a text parses, and the normalized
/// form it parses to, depend on the text alone.
#[verifier::external_body]
fn parse_url(s: &str) -> (res: Option<String>)
    ensures
        res matches Some(u) ==> spec_url_normalized(s@) == Some(u@),
        res is None ==> spec_url_normalized(s@) is None,
{
    match url::Url::parse(s) {
        Ok(u) => Some(String::from(u)),
        Err(_) => None,
    }
}

pub open spec fn is_dec_digit(c: char) -> bool {
    0x30 <= c as int <= 0x39
}

pub open spec fn digit_val(c: char) -> int {
    c as int - 0x30
}

pub open spec fn all_dec_digits(s: Seq<char>) -> bool {
    forall|i: int| 0 <= i < s.len() ==> is_dec_digit(#[trigger] s[i])
}

/// The value of a decimal digit string.
pub open spec fn dec_val(s: Seq<char>) -> int
    decreases s.len(),
{
    if s.len() == 0 {
        0
    } else {
        dec_val(s.drop_last()) * 10 + digit_val(s.last())
    }
}

/// The digit part of a number text: everything after an optional
/// leading plus sign.
pub open spec fn spec_digits_part(s: Seq<char>) -> Seq<char> {
    if s.len() > 0 && s[0] == '+' {
        s.drop_first()
    } else {
        s
    }
}

/// What std's u16 parsing makes of a text: an optional leading plus
/// sign, then one or more decimal digits, valued at most 65535.
pub open spec fn spec_parse_u16(s: Seq<char>) -> Option<u16> {
    if spec_digits_part(s).len() > 0 && all_dec_digits(spec_digits_part(s)) && dec_val(
        spec_digits_part(s),
    ) <= 65535 {
        Some(dec_val(spec_digits_part(s)) as u16)
    } else {
        None
    }
}

proof fn lemma_dec_val_take_succ(s: Seq<char>, i: int)
    requires
        0 <= i < s.len(),
    ensures
        dec_val(s.take(i + 1)) == dec_val(s.take(i)) * 10 + digit_val(s[i]),
{
    assert(s.take(i + 1).drop_last() =~= s.take(i));
    assert(s.take(i + 1).last() == s[i]);
}

/// Once a prefix of a digit string already exceeds the bound, the whole
/// string does.
proof fn lemma_dec_val_prefix_exceeds(s: Seq<char>, i: int)
    requires
        all_dec_digits(s),
        0 <= i <= s.len(),
        dec_val(s.take(i)) > 65535,
    ensures
        dec_val(s) > 65535,
    decreases s.len() - i,
{
    if i < s.len() {
        lemma_dec_val_take_succ(s, i);
        lemma_dec_val_prefix_exceeds(s, i + 1);
    } else {
        assert(s.take(i) =~= s);
    }
}

/// Parses a decimal port number exactly as std's u16 parsing does.
pub fn parse_port(s: &str) -> (res: Option<u16>)
    ensures
        res == spec_parse_u16(s@),
{
    let n = s.unicode_len();
    let start: usize = if n > 0 && s.get_char(0) == '+' {
        1
    } else {
        0
    };
    let ghost digits = spec_digits_part(s@);
    proof {
        assert(digits =~= s@.skip(start as int));
    }
    if start >= n {
        return None;
    }
    let mut value: u32 = 0;
    for i in start..n
        invariant
            n == s@.len(),
            start <= i <= n,
            digits == spec_digits_part(s@),
            digits =~= s@.skip(start as int),
            all_dec_digits(digits.take(i - start)),
            value == dec_val(digits.take(i - start)),
            value <= 65535,
    {
        let c = s.get_char(i);
        let code = c as u32;
        proof {
            assert(digits[i - start] == s@[i as int]);
            assert(code as int == c as int);
        }
        if code < 0x30 || code > 0x39 {
            proof {
                assert(!is_dec_digit(digits[i - start]));
            }
            return None;
        }
        let d: u32 = code - 0x30;
        let next: u32 = value * 10 + d;
        proof {
            lemma_dec_val_take_succ(digits, i - start);
            assert(is_dec_digit(digits[i - start]));
            assert(digit_val(digits[i - start]) == d as int);
            assert(dec_val(digits.take(i - start + 1)) == next);
            assert forall|j: int| 0 <= j < i - start + 1 implies is_dec_digit(
                #[trigger] digits.take(i - start + 1)[j],
            ) by {
                if j < i - start {
                    assert(digits.take(i - start + 1)[j] == digits.take(i - start)[j]);
                } else {
                    assert(digits.take(i - start + 1)[j] == digits[i - start]);
                }
            }
        }
        if next > 65535 {
            proof {
                if all_dec_digits(digits) {
                    lemma_dec_val_prefix_exceeds(digits, i - start + 1);
                }
            }
            return None;
        }
        value = next;
    }
    proof {
        assert(digits.take(n - start) =~= digits);
    }
    Some(value as u16)
}

/// The truth test the verify flag goes through: the value lowercased
/// must be exactly "true"; here letter case is ignored directly.
pub open spec fn spec_is_true_value(s: Seq<char>) -> bool {
    s.len() == 4 && (s[0] == 't' || s[0] == 'T') && (s[1] == 'r' || s[1] == 'R') && (s[2] == 'u'
        || s[2] == 'U') && (s[3] == 'e' || s[3] == 'E')
}

fn is_true_value(s: &str) -> (res: bool)
    ensures
        res == spec_is_true_value(s@),
{
    if s.unicode_len() != 4 {
        return false;
    }
    let c0 = s.get_char(0);
    let c1 = s.get_char(1);
    let c2 = s.get_char(2);
    let c3 = s.get_char(3);
    (c0 == 't' || c0 == 'T') && (c1 == 'r' || c1 == 'R') && (c2 == 'u' || c2 == 'U') && (c3 == 'e'
        || c3 == 'E')
}

/// The default endpoint the secret is fetched from.
pub open spec fn spec_default_endpoint() -> Seq<char> {
    "http://127.0.0.1:8006/derived_key"@
}

/// The service configuration.
#[derive(Debug, Clone)]
pub struct Config {
    endpoint_url: String,
    server_port: u16,
    log_level: String,
    verify_on_start: bool,
}

impl Config {
    pub closed spec fn spec_endpoint_url(&self) -> Seq<char> {
        self.endpoint_url@
    }

    pub closed spec fn spec_server_port(&self) -> u16 {
        self.server_port
    }

    pub closed spec fn spec_log_level(&self) -> Seq<char> {
        self.log_level@
    }

    pub closed spec fn spec_verify_on_start(&self) -> bool {
        self.verify_on_start
    }

    /// Builds the configuration from the raw environment values, each
    /// absent when its variable is unset. Reading the environment itself
    /// stays with the caller; an invalid URL or port is a configuration
    /// error, an absent value falls back to its default.
    pub fn from_env(
        endpoint_url: Option<String>,
        server_port: Option<String>,
        log_level: Option<String>,
        verify_on_start: Option<String>,
    ) -> (res: Result<Config, ReporteerError>)
        ensures
            res matches Ok(c) ==> {
                &&& match endpoint_url {
                    Option::Some(raw) => spec_url_normalized(raw@) matches Some(u)
                        && c.spec_endpoint_url() == u,
                    Option::None => c.spec_endpoint_url() == spec_default_endpoint(),
                }
                &&& match server_port {
                    Option::Some(raw) => spec_parse_u16(raw@) matches Some(p)
                        && c.spec_server_port() == p,
                    Option::None => c.spec_server_port() == 3000,
                }
                &&& match log_level {
                    Option::Some(raw) => c.spec_log_level() == raw@,
                    Option::None => c.spec_log_level() == "info"@,
                }
                &&& match verify_on_start {
                    Option::Some(raw) => c.spec_verify_on_start() == spec_is_true_value(raw@),
                    Option::None => !c.spec_verify_on_start(),
                }
            },
            res matches Err(e) ==> {
                ||| {
                    &&& endpoint_url matches Some(raw)
                    &&& spec_url_normalized(raw@) is None
                    &&& e matches ReporteerError::ConfigError(m) && m@ == "Invalid endpoint URL"@
                }
                ||| {
                    &&& (endpoint_url is None || (endpoint_url matches Some(raw)
                        && spec_url_normalized(raw@) is Some))
                    &&& server_port matches Some(raw)
                    &&& spec_parse_u16(raw@) is None
                    &&& e matches ReporteerError::ConfigError(m) && m@ == "Invalid server port"@
                }
            },
    {
        let endpoint_url = match endpoint_url {
            Some(raw) => match parse_url(raw.as_str()) {
                Some(u) => u,
                None => {
                    return Err(
                        ReporteerError::ConfigError(String::from_str("Invalid endpoint URL")),
                    );
                },
            },
            None => String::from_str("http://127.0.0.1:8006/derived_key"),
        };
        let server_port: u16 = match server_port {
            Some(raw) => match parse_port(raw.as_str()) {
                Some(p) => p,
                None => {
                    return Err(
                        ReporteerError::ConfigError(String::from_str("Invalid server port")),
                    );
                },
            },
            None => 3000,
        };
        let log_level = match log_level {
            Some(raw) => raw,
            None => String::from_str("info"),
        };
        let verify_on_start = match verify_on_start {
            Some(raw) => is_true_value(raw.as_str()),
            None => false,
        };
        Ok(Config { endpoint_url, server_port, log_level, verify_on_start })
    }

    pub fn endpoint_url(&self) -> (u: &String)
        ensures
            u@ == self.spec_endpoint_url(),
    {
        &self.endpoint_url
    }

    pub fn server_port(&self) -> (p: u16)
        ensures
            p == self.spec_server_port(),
    {
        self.server_port
    }

    pub fn verify_on_start(&self) -> (v: bool)
        ensures
            v == self.spec_verify_on_start(),
    {
        self.verify_on_start
    }

    pub fn log_level(&self) -> (l: &str)
        ensures
            l@ == self.spec_log_level(),
    {
        self.log_level.as_str()
    }
}

impl Default for Config {
    /// The configuration every invalid environment falls back to.
    fn default() -> (c: Config)
        ensures
            c.spec_endpoint_url() == spec_default_endpoint(),
            c.spec_server_port() == 3000,
            c.spec_log_level() == "info"@,
            !c.spec_verify_on_start(),
    {
        Config {
            endpoint_url: String::from_str("http://127.0.0.1:8006/derived_key"),
            server_port: 3000,
            log_level: String::from_str("info"),
            verify_on_start: false,
        }
    }
}

} // verus!
