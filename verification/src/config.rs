//! The configuration of the service, read from named values.

use vstd::prelude::*;
use vstd::string::StrSliceExecFns;
use crate::api_error::{ApiError, ApiErrorView};

verus! {

/// The configuration of the mail service.
#[derive(Debug, Clone, PartialEq, Eq)]
pub struct EmailConfig {
    pub smtp_host: String,
    pub smtp_port: u16,
    pub smtp_username: String,
    pub smtp_password: String,
    pub from_email: String,
}

/// The configuration of the service. It holds the signing secret, so it
/// has no printed form.
#[derive(Clone, PartialEq, Eq)]
pub struct Config {
    pub database_url: String,
    pub port: u16,
    pub email: EmailConfig,
    pub jwt_secret: String,
}

/// The values that the configuration is read from, each as the
/// environment holds it or does not.
#[derive(Debug, Clone, PartialEq, Eq)]
pub struct ConfigVars {
    pub database_url: Option<String>,
    pub port: Option<String>,
    pub smtp_host: Option<String>,
    pub smtp_port: Option<String>,
    pub smtp_username: Option<String>,
    pub smtp_password: Option<String>,
    pub from_email: Option<String>,
    pub jwt_secret: Option<String>,
}

/// Whether every character is a decimal digit.
pub open spec fn all_digits(s: Seq<char>) -> bool {
    forall|i: int| 0 <= i < s.len() ==> 48 <= (#[trigger] s[i]) as u32 <= 57
}

/// The number that a sequence of decimal digits stands for.
pub open spec fn decimal_value(digits: Seq<char>) -> nat
    decreases digits.len(),
{
    if digits.len() == 0 {
        0
    } else {
        decimal_value(digits.drop_last()) * 10 + (digits.last() as u32 - 48) as nat
    }
}

/// The digits of a number text: the text without a leading `+`.
pub open spec fn unsigned_part(s: Seq<char>) -> Seq<char> {
    if s.len() > 0 && s[0] == '+' {
        s.drop_first()
    } else {
        s
    }
}

/// The port that a text stands for: an optional `+` and then at least one
/// decimal digit and nothing else, with a value of at most 65535.
pub open spec fn port_of(s: Seq<char>) -> Option<u16> {
    let digits = unsigned_part(s);
    if digits.len() > 0 && all_digits(digits) && decimal_value(digits) <= u16::MAX {
        Some(decimal_value(digits) as u16)
    } else {
        None
    }
}

/// A longer run of digits stands for no smaller number.
proof fn lemma_decimal_value_grows(digits: Seq<char>, n: int)
    requires
        0 <= n <= digits.len(),
        all_digits(digits),
    ensures
        decimal_value(digits.take(n)) <= decimal_value(digits),
    decreases digits.len() - n,
{
    if n == digits.len() {
        assert(digits.take(n) =~= digits);
    } else {
        lemma_decimal_value_grows(digits, n + 1);
        let longer = digits.take(n + 1);
        assert(longer.drop_last() =~= digits.take(n));
        assert(48 <= longer.last() as u32) by {
            assert(longer.last() == digits[n]);
        }
    }
}

/// Reads a port out of a text.
pub fn parse_port(s: &str) -> (port: Option<u16>)
    ensures
        port == port_of(s@),
{
    let n = s.unicode_len();
    let start: usize = if n > 0 && s.get_char(0) == '+' {
        1
    } else {
        0
    };
    let ghost digits = unsigned_part(s@);
    assert(digits =~= s@.subrange(start as int, n as int));
    if start == n {
        return None;
    }
    let mut value: u32 = 0;
    let mut i: usize = start;
    while i < n
        invariant
            start <= i <= n,
            n == s@.len(),
            digits == unsigned_part(s@),
            digits == s@.subrange(start as int, n as int),
            all_digits(digits.take(i - start)),
            value == decimal_value(digits.take(i - start)),
            value <= u16::MAX,
        decreases n - i,
    {
        let c = s.get_char(i);
        if !(c >= '0' && c <= '9') {
            assert(!all_digits(digits)) by {
                assert(digits[i - start] == c);
            }
            return None;
        }
        let d: u32 = (c as u32) - 48;
        let next: u32 = value * 10 + d;
        let ghost longer = digits.take(i - start + 1);
        proof {
            assert(longer.drop_last() =~= digits.take(i - start));
            assert(longer.last() == c);
            assert(all_digits(longer)) by {
                assert forall|j: int| 0 <= j < longer.len() implies 48 <= (
                #[trigger] longer[j]) as u32 <= 57 by {
                    if j < i - start {
                        assert(digits.take(i - start)[j] == longer[j]);
                    }
                }
            }
            assert(decimal_value(longer) == next);
        }
        if next > 65535 {
            proof {
                if all_digits(digits) {
                    lemma_decimal_value_grows(digits, i - start + 1);
                }
            }
            return None;
        }
        value = next;
        i += 1;
    }
    assert(digits.take(n - start) =~= digits);
    Some(value as u16)
}

/// The text of a value, or `default` where the value is not set.
fn or_default(value: &Option<String>, default: &str) -> (text: String)
    ensures
        text@ == match value {
            Some(v) => v@,
            None => default@,
        },
{
    match value {
        Some(v) => v.clone(),
        None => default.to_owned(),
    }
}

/// The text of a value that may be unset, with its default.
pub open spec fn text_or(value: Option<String>, default: Seq<char>) -> Seq<char> {
    match value {
        Some(v) => v@,
        None => default,
    }
}

/// The mail port that the values give: 587 where none is set or the text
/// stands for no port.
pub open spec fn smtp_port_of(value: Option<String>) -> u16 {
    match port_of(text_or(value, "587"@)) {
        Some(port) => port,
        None => 587,
    }
}

impl Config {
    /// Reads the configuration out of the named values.
    ///
    /// The database URL has to be set, the port, 8080 where none is set,
    /// has to be a number, and the signing secret has to be set: each is
    /// an `Internal` error otherwise, judged in this order. Every value of
    /// the mail service has a default.
    pub fn from_vars(vars: &ConfigVars) -> (r: Result<Config, ApiError>)
        ensures
            match r {
                Ok(config) => {
                    &&& vars.database_url matches Some(url) && config.database_url@ == url@
                    &&& port_of(text_or(vars.port, "8080"@)) == Some(config.port)
                    &&& config.email.smtp_host@ == text_or(vars.smtp_host, "smtp.gmail.com"@)
                    &&& config.email.smtp_port == smtp_port_of(vars.smtp_port)
                    &&& config.email.smtp_username@ == text_or(vars.smtp_username, ""@)
                    &&& config.email.smtp_password@ == text_or(vars.smtp_password, ""@)
                    &&& config.email.from_email@ == text_or(
                        vars.from_email,
                        "noreply@inheritx.com"@,
                    )
                    &&& vars.jwt_secret matches Some(secret) && config.jwt_secret@ == secret@
                },
                Err(e) => if vars.database_url is None {
                    e@ == ApiErrorView::Internal("DATABASE_URL must be set"@)
                } else if port_of(text_or(vars.port, "8080"@)) is None {
                    e@ == ApiErrorView::Internal("PORT must be a valid number"@)
                } else {
                    vars.jwt_secret is None && e@ == ApiErrorView::Internal(
                        "JWT_SECRET must be set"@,
                    )
                },
            },
    {
        let database_url = match &vars.database_url {
            Some(url) => url.clone(),
            None => {
                return Err(ApiError::internal("DATABASE_URL must be set"));
            },
        };
        let port_text = or_default(&vars.port, "8080");
        let port = match parse_port(port_text.as_str()) {
            Some(port) => port,
            None => {
                return Err(ApiError::internal("PORT must be a valid number"));
            },
        };
        let jwt_secret = match &vars.jwt_secret {
            Some(secret) => secret.clone(),
            None => {
                return Err(ApiError::internal("JWT_SECRET must be set"));
            },
        };
        let smtp_port_text = or_default(&vars.smtp_port, "587");
        let smtp_port = match parse_port(smtp_port_text.as_str()) {
            Some(port) => port,
            None => 587,
        };
        let email = EmailConfig {
            smtp_host: or_default(&vars.smtp_host, "smtp.gmail.com"),
            smtp_port,
            smtp_username: or_default(&vars.smtp_username, ""),
            smtp_password: or_default(&vars.smtp_password, ""),
            from_email: or_default(&vars.from_email, "noreply@inheritx.com"),
        };
        Ok(Config { database_url, port, email, jwt_secret })
    }
}

} // verus!
