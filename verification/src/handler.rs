//! What a tool call makes of its outcome: the wording of parameter and
//! framework errors, the kind of response an error gets, and the file that
//! takes a response too large to send.

use vstd::prelude::*;
use vstd::string::*;
use crate::error::{Error, ErrorView};
use crate::text::{chars_of, decimal, push_decimal, string_of_chars};

verus! {

/// How many characters are counted as one token.
pub const CHARS_PER_TOKEN: usize = 4;

/// Whether a path separator ends at a position of a text.
pub open spec fn separator_ends_at(text: Seq<char>, end: int) -> bool {
    2 <= end <= text.len() && text[end - 2] == ':' && text[end - 1] == ':'
}

/// Where the last segment of a type path begins: after the last path
/// separator, or at the start where there is none.
pub open spec fn last_segment_start(text: Seq<char>, start: int) -> bool {
    &&& 0 <= start <= text.len()
    &&& start == 0 || separator_ends_at(text, start)
    &&& forall|end: int| start < end <= text.len() ==> !separator_ends_at(text, end)
}

/// The last segment of a type path: the name of the type without the path
/// to it.
pub open spec fn simple_name(text: Seq<char>) -> Seq<char> {
    text.skip(choose|start: int| last_segment_start(text, start))
}

/// The name of a type without the path to it.
pub fn simple_type_name(type_path: &str) -> (r: String)
    ensures
        r@ == simple_name(type_path@),
{
    let chars = chars_of(type_path);
    let mut start: usize = chars.len();
    while start >= 2 && !(chars[start - 2] == ':' && chars[start - 1] == ':')
        invariant
            start <= chars.len(),
            chars@ == type_path@,
            forall|end: int| start < end <= chars.len() ==> !separator_ends_at(chars@, end),
        decreases start,
    {
        start -= 1;
    }
    if start < 2 {
        assert forall|end: int| 0 < end <= chars.len() implies !separator_ends_at(chars@, end) by {
            if end <= start {
                assert(end < 2);
            }
        }
        start = 0;
    }
    let name = string_of_chars(&chars, start, chars.len());
    proof {
        assert(chars@.subrange(start as int, chars.len() as int) =~= type_path@.skip(start as int));
        assert(last_segment_start(type_path@, start as int));
        let chosen = choose|k: int| last_segment_start(type_path@, k);
        lemma_last_segment_is_unique(type_path@, start as int, chosen);
    }
    name
}

/// The last segment of a type path is determined by the path.
pub proof fn lemma_last_segment_is_unique(text: Seq<char>, first: int, second: int)
    requires
        last_segment_start(text, first),
        last_segment_start(text, second),
    ensures
        first == second,
{
    if first < second {
        assert(separator_ends_at(text, second));
    } else if second < first {
        assert(separator_ends_at(text, first));
    }
}

/// The message for parameters that cannot be read into a type.
pub open spec fn parameter_error_text(simple_name: Seq<char>, reason: Seq<char>) -> Seq<char> {
    "Invalid parameter format for '"@ + simple_name + "': "@ + reason
        + ". Check the parameter types and structure match the tool's requirements"@
}

/// The error for parameters that cannot be read into the type at
/// `type_path`, for the reason that the reader gave.
pub fn parameter_format_error(type_path: &str, reason: &str) -> (r: Error)
    ensures
        r@ == (ErrorView::ToolCall {
            message: parameter_error_text(simple_name(type_path@), reason@),
            details: None,
        }),
{
    let simple = simple_type_name(type_path);
    let mut message = String::from_str("Invalid parameter format for '");
    message.append(simple.as_str());
    message.append("': ");
    message.append(reason);
    message.append(". Check the parameter types and structure match the tool's requirements");
    Error::tool_call_failed(message)
}

/// The kind of response that an error gets.
#[derive(Clone, Copy, Debug, PartialEq, Eq, Hash, Structural)]
pub enum ErrorResponseKind {
    /// The data of a resolution error, laid out for the caller.
    Structured,
    /// The message of a failed tool call, with its context where it has
    /// one.
    WithDetails,
    /// A plain message for an internal error.
    Message,
}

impl ErrorView {
    /// Whether the error is a failed tool call: a generic failure, or a
    /// request for ports that cannot be had.
    pub open spec fn is_tool_call(self) -> bool {
        self is ToolCall || self is InstanceCountTooLarge || self is PortRangeExceeded
    }

    /// The kind of response that the error gets: a resolution error its
    /// data, a failed tool call its message, any other error a message
    /// marked as internal.
    pub open spec fn response_kind(self) -> ErrorResponseKind {
        if self.is_structured() {
            ErrorResponseKind::Structured
        } else if self.is_tool_call() {
            ErrorResponseKind::WithDetails
        } else {
            ErrorResponseKind::Message
        }
    }

    /// The text of the response: the message of the error, marked as
    /// internal unless the error gets a response of its own kind.
    pub open spec fn response_text(self) -> Seq<char> {
        if self.response_kind() == ErrorResponseKind::Message {
            "Internal error: "@ + self.message()
        } else {
            self.message()
        }
    }
}

/// Decides the kind and the text of the response to a failed tool call.
pub fn error_response(error: &Error) -> (r: (ErrorResponseKind, String))
    ensures
        r.0 == error@.response_kind(),
        r.1@ == error@.response_text(),
{
    if error.is_structured() {
        (ErrorResponseKind::Structured, error.message())
    } else {
        match error {
            Error::ToolCall { .. } => (ErrorResponseKind::WithDetails, error.message()),
            Error::InstanceCountTooLarge { .. } => (
                ErrorResponseKind::WithDetails,
                error.message(),
            ),
            Error::PortRangeExceeded { .. } => (ErrorResponseKind::WithDetails, error.message()),
            _ => {
                let mut text = String::from_str("Internal error: ");
                text.append(error.message().as_str());
                (ErrorResponseKind::Message, text)
            },
        }
    }
}

/// Words a failure of the framework itself.
pub fn framework_error_message(error: &Error) -> (r: String)
    ensures
        r@ == "Framework error: "@ + error@.message(),
{
    let mut text = String::from_str("Framework error: ");
    text.append(error.message().as_str());
    text
}

/// When a response goes to a file instead of the wire, and how the file is
/// named.
#[derive(Clone, Debug, PartialEq, Eq)]
pub struct LargeResponseConfig {
    /// How the name of the file begins.
    pub file_prefix: String,
    /// The most tokens that a response may have on the wire.
    pub max_tokens: usize,
}

/// The tokens that a text of a given length is counted as.
pub open spec fn token_estimate(length: nat) -> nat {
    length / (CHARS_PER_TOKEN as nat)
}

/// Estimates the tokens of a text of a given length.
pub fn estimated_tokens(length: usize) -> (r: usize)
    ensures
        r == token_estimate(length as nat),
{
    length / CHARS_PER_TOKEN
}

/// A name with an underscore in place of each slash and each space.
pub open spec fn sanitized(name: Seq<char>) -> Seq<char> {
    Seq::new(
        name.len(),
        |i: int|
            if name[i] == '/' || name[i] == ' ' {
                '_'
            } else {
                name[i]
            },
    )
}

/// Replaces the slashes and spaces of a name by underscores.
pub fn sanitized_identifier(name: &str) -> (r: String)
    ensures
        r@ == sanitized(name@),
{
    let chars = chars_of(name);
    let mut out = String::new();
    let mut i: usize = 0;
    while i < chars.len()
        invariant
            i <= chars.len(),
            chars@ == name@,
            out@ == sanitized(name@).take(i as int),
        decreases chars.len() - i,
    {
        let c = chars[i];
        if c == '/' || c == ' ' {
            out.push('_');
        } else {
            out.push(c);
        }
        assert(out@ =~= sanitized(name@).take(i + 1));
        i += 1;
    }
    assert(sanitized(name@).take(chars.len() as int) =~= sanitized(name@));
    out
}

impl LargeResponseConfig {
    /// Whether a response of `length` characters goes to a file: where it
    /// is counted as more tokens than may go on the wire and has a result
    /// to save.
    pub fn goes_to_file(&self, length: usize, has_result: bool) -> (r: bool)
        ensures
            r == (token_estimate(length as nat) > self.max_tokens && has_result),
    {
        estimated_tokens(length) > self.max_tokens && has_result
    }

    /// The name of the file for the response of a tool at a time, given in
    /// seconds.
    pub fn file_name(&self, tool_name: &str, timestamp: u64) -> (r: String)
        ensures
            r@ == self.file_prefix@ + sanitized(tool_name@) + decimal(timestamp as nat)
                + ".json"@,
    {
        let mut name = self.file_prefix.clone();
        name.append(sanitized_identifier(tool_name).as_str());
        push_decimal(&mut name, timestamp as u128);
        name.append(".json");
        name
    }
}

} // verus!
