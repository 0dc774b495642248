//! Configuration of the client: constants and the settings read from the
//! environment.

use vstd::prelude::*;

use std::time::Duration;

use crate::clock::{duration_from_secs, duration_of_secs};
use crate::text::{parse_bool, parse_bool_spec, parse_u64, parse_u64_spec};

verus! {

/// Address of the clipboard endpoint.
pub const SERVER_URL: &'static str = "http://127.0.0.1:3000/clipboard";

/// Request timeout, in seconds.
pub const REQUEST_TIMEOUT: u64 = 5;

/// Environment variable holding the authentication token.
pub const TOKEN_ENV_VAR: &'static str = "CLIPSHARE_TOKEN";

/// Polling interval of the daemon when none is configured, in seconds.
pub const DEFAULT_POLL_INTERVAL: u64 = 2;

/// Settings of a client run.
#[derive(Debug)]
pub struct Args {
    pub poll_interval: Duration,
    pub one_shot: bool,
    pub verbose: bool,
}

/// A setting read from an optional text with `parse`, falling back to a default
/// when the text is absent or does not parse.
pub open spec fn setting_or<T>(parsed: Option<T>, default: T) -> T {
    match parsed {
        Some(v) => v,
        None => default,
    }
}

/// The parsed value of an optional number text.
pub open spec fn parsed_u64(text: Option<Seq<char>>) -> Option<u64> {
    match text {
        Some(t) => parse_u64_spec(t),
        None => None,
    }
}

/// The parsed value of an optional flag text.
pub open spec fn parsed_bool(text: Option<Seq<char>>) -> Option<bool> {
    match text {
        Some(t) => parse_bool_spec(t),
        None => None,
    }
}

/// The text of an optional string as a model.
pub open spec fn text_of(s: Option<&str>) -> Option<Seq<char>> {
    match s {
        Some(t) => Some(t@),
        None => None,
    }
}

fn parse_opt_u64(text: Option<&str>) -> (r: Option<u64>)
    ensures
        r == parsed_u64(text_of(text)),
{
    match text {
        Some(t) => parse_u64(t),
        None => None,
    }
}

fn parse_opt_bool(text: Option<&str>) -> (r: Option<bool>)
    ensures
        r == parsed_bool(text_of(text)),
{
    match text {
        Some(t) => parse_bool(t),
        None => None,
    }
}

impl Clone for Args {
    fn clone(&self) -> (copy: Self)
        ensures
            copy == *self,
    {
        Args { poll_interval: self.poll_interval, one_shot: self.one_shot, verbose: self.verbose }
    }
}

impl Args {
    /// The settings from the values of `CLIPSHARE_POLL_INTERVAL` (seconds),
    /// `CLIPSHARE_ONE_SHOT` and `CLIPSHARE_VERBOSE` (`true`/`false`); a value
    /// that is unset or does not parse gives the default: 2 seconds, `false`,
    /// `false`.
    pub fn from_env(
        poll_interval: Option<&str>,
        one_shot: Option<&str>,
        verbose: Option<&str>,
    ) -> (args: Args)
        ensures
            args.poll_interval == duration_of_secs(
                setting_or(parsed_u64(text_of(poll_interval)), DEFAULT_POLL_INTERVAL),
            ),
            args.one_shot == setting_or(parsed_bool(text_of(one_shot)), false),
            args.verbose == setting_or(parsed_bool(text_of(verbose)), false),
    {
        let secs = match parse_opt_u64(poll_interval) {
            Some(s) => s,
            None => DEFAULT_POLL_INTERVAL,
        };
        let one_shot = match parse_opt_bool(one_shot) {
            Some(b) => b,
            None => false,
        };
        let verbose = match parse_opt_bool(verbose) {
            Some(b) => b,
            None => false,
        };
        Args { poll_interval: duration_from_secs(secs), one_shot, verbose }
    }

    /// Settings for tests: a one-second interval, one-shot, quiet.
    pub fn test_default() -> (args: Args)
        ensures
            args.poll_interval == duration_of_secs(1),
            args.one_shot,
            !args.verbose,
    {
        Args { poll_interval: duration_from_secs(1), one_shot: true, verbose: false }
    }
}

/// The poll interval is the configured number of seconds whenever the value
/// parses as one (for every 64-bit number written in decimal), and the
/// default of 2 seconds when the value is unset; the flags are `true` and
/// `false` exactly for those words, and `false` when unset.
pub proof fn settings_follow_the_values(t: Seq<char>, n: u64)
    ensures
        parse_u64_spec(t) == Some(n) ==> setting_or(parsed_u64(Some(t)), DEFAULT_POLL_INTERVAL)
            == n,
        setting_or(parsed_u64(Some(crate::text::decimal(n as nat))), DEFAULT_POLL_INTERVAL) == n,
        setting_or(parsed_u64(None), DEFAULT_POLL_INTERVAL) == 2,
        setting_or(parsed_bool(Some("true"@)), false) == true,
        setting_or(parsed_bool(Some("false"@)), false) == false,
        setting_or(parsed_bool(None), false) == false,
{
    crate::text::decimal_parses_back(n);
    reveal_strlit("true");
    reveal_strlit("false");
    assert("false"@ != "true"@) by {
        assert("false"@[0] == 'f');
    }
}

} // verus!
