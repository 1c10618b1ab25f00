//! The interactive console protocol: framing of responses and the fixed
//! command grammar.
//!
//! A response captured off the wire runs up to the next prompt marker; its
//! first line is the echo of the command just sent and carries no meaning.
//! The functions here strip that echo, hold the remainder against the
//! acknowledgement text a command expects, and inspect the second raw line
//! for the marker that says a subscriber does not exist yet. They also build
//! the exact command lines of the console's grammar, so that the application
//! only moves bytes.

use crate::text::dec_digits;
use crate::text::push_decimal;
use crate::text::starts_with;
use vstd::prelude::*;
use vstd::string::StrSliceExecFns;
use vstd::string::StringExecFns;

verus! {

/// Index of the first newline in `s`, or `s.len()` where there is none.
pub open spec fn nl_index(s: Seq<char>) -> int
    decreases s.len(),
{
    if s.len() == 0 {
        0
    } else if s[0] == '\n' {
        0
    } else {
        1 + nl_index(s.skip(1))
    }
}

proof fn lemma_nl_index(s: Seq<char>)
    ensures
        0 <= nl_index(s) <= s.len(),
        forall|j: int| 0 <= j < nl_index(s) ==> s[j] != '\n',
        nl_index(s) < s.len() ==> s[nl_index(s)] == '\n',
    decreases s.len(),
{
    if s.len() > 0 && s[0] != '\n' {
        lemma_nl_index(s.skip(1));
        assert(forall|j: int| 0 <= j < nl_index(s.skip(1)) ==> s.skip(1)[j] != '\n');
        assert(forall|j: int| 1 <= j < nl_index(s) ==> s[j] == s.skip(1)[j - 1]);
    }
}

/// Whether a raw response holds the echoed command line, that is, a
/// newline to strip it at.
pub open spec fn has_echo(raw: Seq<char>) -> bool {
    nl_index(raw) < raw.len()
}

/// The semantic part of a raw response: everything after the echoed
/// command line.
pub open spec fn response_body(raw: Seq<char>) -> Seq<char> {
    raw.skip(nl_index(raw) + 1)
}

/// The leading line of `s`, up to but not including its first newline.
pub open spec fn first_line(s: Seq<char>) -> Seq<char> {
    s.take(nl_index(s))
}

/// A line as the console's line splitting yields it: a trailing carriage
/// return is dropped.
pub open spec fn strip_cr(l: Seq<char>) -> Seq<char> {
    if l.len() > 0 && l.last() == '\r' {
        l.drop_last()
    } else {
        l
    }
}

/// The second line of a raw response: the first line after the echoed
/// command.
pub open spec fn second_line(raw: Seq<char>) -> Seq<char> {
    strip_cr(first_line(response_body(raw)))
}

/// Whether a raw response has a second line at all.
pub open spec fn has_second_line(raw: Seq<char>) -> bool {
    has_echo(raw) && response_body(raw).len() > 0
}

/// Whether a response body passes for the acknowledgement a command
/// expects: it must start with the expected text, and where nothing is
/// expected it must be empty.
pub open spec fn ack_matches(body: Seq<char>, want: Seq<char>) -> bool {
    want.is_prefix_of(body) && (want.len() == 0 ==> body.len() == 0)
}

/// The marker the console prints when a queried subscriber does not
/// exist.
pub open spec fn absence_marker() -> Seq<char> {
    "% No subscriber"@
}

/// Acknowledgement expected from a create command.
pub open spec fn created_ack() -> Seq<char> {
    "% Created subscriber"@
}

/// Acknowledgement expected from a default-number update command.
pub open spec fn updated_ack() -> Seq<char> {
    "% Updated subscriber"@
}

/// Prompt the console shows before privileges are elevated.
pub open spec fn unauthenticated_prompt() -> Seq<char> {
    "OsmoHLR> "@
}

/// Prompt the console shows once privileges are elevated; every response
/// is read up to its next occurrence.
pub open spec fn privileged_prompt() -> Seq<char> {
    "OsmoHLR# "@
}

pub fn unauthenticated_prompt_text() -> (s: &'static str)
    ensures
        s@ == unauthenticated_prompt(),
{
    "OsmoHLR> "
}

pub fn privileged_prompt_text() -> (s: &'static str)
    ensures
        s@ == privileged_prompt(),
{
    "OsmoHLR# "
}

pub fn created_ack_text() -> (s: &'static str)
    ensures
        s@ == created_ack(),
{
    "% Created subscriber"
}

pub fn updated_ack_text() -> (s: &'static str)
    ensures
        s@ == updated_ack(),
{
    "% Updated subscriber"
}

/// Position of the first newline of `s`, if there is one.
pub fn find_newline(s: &str) -> (r: Option<usize>)
    ensures
        match r {
            Some(i) => i == nl_index(s@) && i < s@.len(),
            None => nl_index(s@) == s@.len(),
        },
{
    proof {
        lemma_nl_index(s@);
    }
    let len = s.unicode_len();
    let mut i: usize = 0;
    while i < len
        invariant
            len == s@.len(),
            i <= len,
            forall|j: int| 0 <= j < i ==> s@[j] != '\n',
            0 <= nl_index(s@) <= s@.len(),
            forall|j: int| 0 <= j < nl_index(s@) ==> s@[j] != '\n',
            nl_index(s@) < s@.len() ==> s@[nl_index(s@)] == '\n',
        decreases len - i,
    {
        if s.get_char(i) == '\n' {
            return Some(i);
        }
        i += 1;
    }
    None
}

/// The response body of `raw`: what stands after the echoed command line,
/// or nothing where no echo can be stripped.
pub fn body_of<'a>(raw: &'a str) -> (r: Option<&'a str>)
    ensures
        match r {
            Some(body) => has_echo(raw@) && body@ == response_body(raw@),
            None => !has_echo(raw@),
        },
{
    match find_newline(raw) {
        None => None,
        Some(i) => {
            let len = raw.unicode_len();
            let body = raw.substring_char(i + 1, len);
            proof {
                assert(body@ =~= response_body(raw@));
            }
            Some(body)
        },
    }
}

/// Whether an echo can be stripped off `raw` at all; the application must
/// not go on with a response where it cannot.
pub fn response_has_body(raw: &str) -> (b: bool)
    ensures
        b == has_echo(raw@),
{
    match find_newline(raw) {
        Some(_) => true,
        None => false,
    }
}

/// The second line of the raw response `raw`, if it has one.
pub fn second_line_of<'a>(raw: &'a str) -> (r: Option<&'a str>)
    ensures
        match r {
            Some(l) => has_second_line(raw@) && l@ == second_line(raw@),
            None => !has_second_line(raw@),
        },
{
    let rest = match body_of(raw) {
        None => {
            return None;
        },
        Some(rest) => rest,
    };
    let rest_len = rest.unicode_len();
    if rest_len == 0 {
        return None;
    }
    let end = match find_newline(rest) {
        Some(i) => i,
        None => rest_len,
    };
    proof {
        lemma_nl_index(rest@);
    }
    let line = rest.substring_char(0, end);
    proof {
        assert(line@ =~= first_line(rest@));
    }
    let line_len = line.unicode_len();
    if line_len > 0 && line.get_char(line_len - 1) == '\r' {
        let stripped = line.substring_char(0, line_len - 1);
        proof {
            assert(line@.last() == '\r');
            assert(stripped@ =~= strip_cr(line@));
        }
        Some(stripped)
    } else {
        Some(line)
    }
}

/// Whether `raw` has a second line for the existence check to inspect.
pub fn response_has_second_line(raw: &str) -> (b: bool)
    ensures
        b == has_second_line(raw@),
{
    match second_line_of(raw) {
        Some(_) => true,
        None => false,
    }
}

/// Strips the echo off a raw response and holds the remainder against the
/// acknowledgement `expected_prefix`; the body comes back only where it
/// passes, and a failure is a protocol violation that must end the run.
pub fn validate_response<'a>(raw: &'a str, expected_prefix: &str) -> (r: Option<&'a str>)
    requires
        has_echo(raw@),
    ensures
        match r {
            Some(body) => {
                &&& body@ == response_body(raw@)
                &&& ack_matches(response_body(raw@), expected_prefix@)
            },
            None => !ack_matches(response_body(raw@), expected_prefix@),
        },
{
    let body = match body_of(raw) {
        None => {
            return None;
        },
        Some(body) => body,
    };
    if !starts_with(body, expected_prefix) {
        return None;
    }
    if expected_prefix.unicode_len() == 0 && body.unicode_len() != 0 {
        return None;
    }
    Some(body)
}

/// Whether the raw response to an existence query reports the subscriber
/// as missing: its second line starts with the absence marker. `None`
/// where the response has no second line to inspect.
pub fn subscriber_missing(raw: &str) -> (r: Option<bool>)
    ensures
        match r {
            Some(m) => {
                &&& has_second_line(raw@)
                &&& m == absence_marker().is_prefix_of(second_line(raw@))
            },
            None => !has_second_line(raw@),
        },
{
    match second_line_of(raw) {
        None => None,
        Some(line) => Some(starts_with(line, "% No subscriber")),
    }
}

/// The command elevating the session to the privileged prompt.
pub open spec fn elevate_command() -> Seq<char> {
    "enable"@
}

/// The query for an existing subscriber by identity.
pub open spec fn show_command(id: Seq<char>) -> Seq<char> {
    "subscriber imsi "@ + id + " show"@
}

/// The command creating a subscriber by identity.
pub open spec fn create_command(id: Seq<char>) -> Seq<char> {
    "subscriber imsi "@ + id + " create"@
}

/// The command setting a subscriber's default number.
pub open spec fn msisdn_command(id: Seq<char>, number: u64) -> Seq<char> {
    "subscriber imsi "@ + id + " update msisdn "@ + dec_digits(number as nat)
}

/// The command installing a subscriber's key material.
pub open spec fn key_command(id: Seq<char>, key: Seq<char>, operator_code: Seq<char>) -> Seq<
    char,
> {
    "subscriber imsi "@ + id + " update aud3g milenage k "@ + key + " opc "@ + operator_code
}

pub fn elevate_command_text() -> (s: &'static str)
    ensures
        s@ == elevate_command(),
{
    "enable"
}

pub fn build_show_command(identity: &str) -> (s: String)
    ensures
        s@ == show_command(identity@),
{
    let mut s = String::new();
    s.append("subscriber imsi ");
    s.append(identity);
    s.append(" show");
    proof {
        assert(s@ =~= show_command(identity@));
    }
    s
}

pub fn build_create_command(identity: &str) -> (s: String)
    ensures
        s@ == create_command(identity@),
{
    let mut s = String::new();
    s.append("subscriber imsi ");
    s.append(identity);
    s.append(" create");
    proof {
        assert(s@ =~= create_command(identity@));
    }
    s
}

pub fn build_msisdn_command(identity: &str, number: u64) -> (s: String)
    ensures
        s@ == msisdn_command(identity@, number),
{
    let mut s = String::new();
    s.append("subscriber imsi ");
    s.append(identity);
    s.append(" update msisdn ");
    push_decimal(&mut s, number);
    proof {
        assert(s@ =~= msisdn_command(identity@, number));
    }
    s
}

pub fn build_key_command(identity: &str, key: &str, operator_code: &str) -> (s: String)
    ensures
        s@ == key_command(identity@, key@, operator_code@),
{
    let mut s = String::new();
    s.append("subscriber imsi ");
    s.append(identity);
    s.append(" update aud3g milenage k ");
    s.append(key);
    s.append(" opc ");
    s.append(operator_code);
    proof {
        assert(s@ =~= key_command(identity@, key@, operator_code@));
    }
    s
}

} // verus!
