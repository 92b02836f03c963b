//! The switch daemon's pipe protocol: `PING`, `SWITCH chinese`, `SWITCH english`.
use vstd::prelude::*;
use crate::ime::InputMode;
use crate::text::{char_is_whitespace, is_whitespace, str_equals, string_chars};

verus! {

broadcast use vstd::seq_lib::group_seq_properties;

/// `s` without its leading whitespace.
pub open spec fn trim_start_spec(s: Seq<char>) -> Seq<char>
    decreases s.len(),
{
    if s.len() > 0 && char_is_whitespace(s[0]) {
        trim_start_spec(s.drop_first())
    } else {
        s
    }
}

/// `s` without its trailing whitespace.
pub open spec fn trim_end_spec(s: Seq<char>) -> Seq<char>
    decreases s.len(),
{
    if s.len() > 0 && char_is_whitespace(s.last()) {
        trim_end_spec(s.drop_last())
    } else {
        s
    }
}

/// `s` without leading and trailing whitespace (what `str::trim` returns).
pub open spec fn trim_spec(s: Seq<char>) -> Seq<char> {
    trim_end_spec(trim_start_spec(s))
}

/// Removes leading and trailing whitespace.
pub fn trim(s: &str) -> (r: String)
    ensures
        r@ == trim_spec(s@),
{
    let chars = string_chars(s);
    let mut start: usize = 0;
    while start < chars.len() && is_whitespace(chars[start])
        invariant
            chars@ == s@,
            start <= chars.len(),
            trim_start_spec(s@) == trim_start_spec(s@.skip(start as int)),
        decreases chars.len() - start,
    {
        assert(s@.skip(start as int).drop_first() =~= s@.skip(start + 1));
        start = start + 1;
    }
    let ghost rest = s@.skip(start as int);
    assert(trim_start_spec(rest) == rest);
    let mut end: usize = chars.len();
    while end > start && is_whitespace(chars[end - 1])
        invariant
            chars@ == s@,
            start <= end <= chars.len(),
            rest == s@.skip(start as int),
            trim_end_spec(rest) == trim_end_spec(s@.subrange(start as int, end as int)),
        decreases end,
    {
        assert(s@.subrange(start as int, end as int).drop_last() =~= s@.subrange(
            start as int,
            end - 1,
        ));
        end = end - 1;
    }
    assert(rest =~= s@.subrange(start as int, chars.len() as int));
    let mut r = String::new();
    let mut i: usize = start;
    while i < end
        invariant
            chars@ == s@,
            start <= i <= end <= chars.len(),
            r@ == s@.subrange(start as int, i as int),
        decreases end - i,
    {
        r.push(chars[i]);
        i = i + 1;
    }
    r
}

/// A request read from the pipe.
#[derive(Debug, Clone, Copy, PartialEq, Eq, Structural)]
pub enum DaemonRequest {
    Ping,
    Switch(InputMode),
    Unknown,
}

/// The request a message stands for, once surrounding whitespace is removed.
pub open spec fn daemon_request_spec(raw: Seq<char>) -> DaemonRequest {
    let t = trim_spec(raw);
    if t == "PING"@ {
        DaemonRequest::Ping
    } else if t == "SWITCH chinese"@ {
        DaemonRequest::Switch(InputMode::Chinese)
    } else if t == "SWITCH english"@ {
        DaemonRequest::Switch(InputMode::English)
    } else {
        DaemonRequest::Unknown
    }
}

/// Reads a request from the text received on the pipe.
pub fn parse_daemon_request(raw: &str) -> (r: DaemonRequest)
    ensures
        r == daemon_request_spec(raw@),
{
    let t = trim(raw);
    if str_equals(t.as_str(), "PING") {
        DaemonRequest::Ping
    } else if str_equals(t.as_str(), "SWITCH chinese") {
        DaemonRequest::Switch(InputMode::Chinese)
    } else if str_equals(t.as_str(), "SWITCH english") {
        DaemonRequest::Switch(InputMode::English)
    } else {
        DaemonRequest::Unknown
    }
}

/// The answer to a request, and the error of a switch that failed.
pub struct DaemonReply {
    pub response: &'static str,
    pub switch_error: Option<String>,
}

/// Answers a request: `PONG` to a ping; for a switch, `OK` when `switch_ime`
/// succeeds and `ERR` (keeping its error) when it fails; `ERR unknown` to
/// anything else. Each answer ends in a newline. Only a switch calls `switch_ime`.
pub fn daemon_reply<F>(request: DaemonRequest, switch_ime: F) -> (r: DaemonReply) where
    F: FnOnce(InputMode) -> Result<(), String>,

    requires
        request matches DaemonRequest::Switch(m) ==> call_requires(switch_ime, (m,)),
    ensures
        request == DaemonRequest::Ping ==> r.response@ == "PONG\n"@ && r.switch_error.is_none(),
        request == DaemonRequest::Unknown ==> r.response@ == "ERR unknown\n"@
            && r.switch_error.is_none(),
        request matches DaemonRequest::Switch(m) ==> exists|done: Result<(), String>|
            call_ensures(switch_ime, (m,), done) && match done {
                Ok(_) => r.response@ == "OK\n"@ && r.switch_error.is_none(),
                Err(e) => r.response@ == "ERR\n"@ && r.switch_error == Some(e),
            },
{
    match request {
        DaemonRequest::Ping => DaemonReply { response: "PONG\n", switch_error: None },
        DaemonRequest::Switch(mode) => {
            let done = switch_ime(mode);
            match done {
                Ok(()) => DaemonReply { response: "OK\n", switch_error: None },
                Err(e) => DaemonReply { response: "ERR\n", switch_error: Some(e) },
            }
        },
        DaemonRequest::Unknown => DaemonReply { response: "ERR unknown\n", switch_error: None },
    }
}

} // verus!
