//! Framing and accumulation for the proxied chat stream.
//!
//! The upstream answer arrives as server-sent-event text: lines of the
//! form `data: <json>`, cut across arbitrary chunk boundaries. The framing
//! here carries the unfinished last line between chunks and extracts the
//! data payloads; the JSON payloads themselves are decoded outside and
//! handed back as events, which the accumulator folds into the final
//! response.

use vstd::prelude::*;
use vstd::string::StringExecFns;

use crate::text::lemma_split_chars_len;
use crate::text::split_chars;
use crate::text::split_str;
use crate::text::str_eq_chars;
use crate::text::strip_prefix_str;
use crate::text::trim_of;
use crate::text::trim_str;

verus! {

broadcast use vstd::string::group_string_axioms;

/// A chat request as the API receives it; `history` is carried but never
/// read here.
#[derive(Debug)]
pub struct ChatRequest {
    pub query: Option<String>,
    pub locale: Option<String>,
    pub thread_id: Option<String>,
    pub history: Option<String>,
}

/// The non-streaming chat answer.
#[derive(Debug)]
pub struct ChatSimpleResponse {
    pub response: String,
    pub has_context: bool,
    pub source_count: usize,
}

/// An error answer, with optional upstream detail.
#[derive(Debug)]
pub struct ErrorResponse {
    pub error: String,
    pub details: Option<String>,
}

/// The query a chat request asks, trimmed; `None` when absent or blank.
pub fn chat_query(query: Option<String>) -> (r: Option<String>)
    ensures
        match query {
            None => r is None,
            Some(q) => if trim_of(q@).len() == 0 {
                r is None
            } else {
                r matches Some(t) && t@ == trim_of(q@)
            },
        },
{
    match query {
        Some(q) => {
            let t = trim_str(q.as_str());
            if t.unicode_len() == 0 {
                None
            } else {
                Some(t.to_owned())
            }
        },
        None => None,
    }
}

/// Append a chunk to the carried buffer and cut out the complete lines:
/// everything up to the last newline is returned as lines, the remainder
/// becomes the new buffer.
pub fn split_stream_chunk(buffer: String, chunk: &str) -> (r: (String, Vec<String>))
    ensures
        ({
            let parts = split_chars(buffer@ + chunk@, '\n');
            r.1.deep_view() == parts.drop_last() && r.0@ == parts.last()
        }),
{
    let combined = buffer.concat(chunk);
    let mut lines = split_str(combined.as_str(), '\n');
    proof {
        lemma_split_chars_len(combined@, '\n');
        assert(lines.deep_view().len() == lines@.len());
    }
    let last = lines.pop().unwrap();
    proof {
        let parts = split_chars(buffer@ + chunk@, '\n');
        assert(lines.deep_view() =~= parts.drop_last());
    }
    (last, lines)
}

/// The payload a stream line carries: the text after `data: `, trimmed.
/// Lines without the prefix, blank payloads and the `[DONE]` marker carry
/// nothing.
pub fn extract_data_payload(line: &str) -> (r: Option<String>)
    ensures
        ({
            let pfx = "data: "@;
            if pfx.is_prefix_of(line@) {
                let d = trim_of(line@.skip(pfx.len() as int));
                if d.len() == 0 || d == "[DONE]"@ {
                    r is None
                } else {
                    r matches Some(p) && p@ == d
                }
            } else {
                r is None
            }
        }),
{
    let rest = match strip_prefix_str(line, "data: ") {
        Some(rest) => rest,
        None => {
            return None;
        },
    };
    let data = trim_str(rest);
    if data.unicode_len() == 0 || str_eq_chars(data, "[DONE]") {
        None
    } else {
        Some(data.to_owned())
    }
}

/// One decoded stream event.
#[derive(Debug)]
pub enum ChatEvent {
    /// A `sources` event carrying how many sources ground the answer.
    Sources { count: usize },
    /// A `content` event carrying a piece of the answer text.
    Content { text: String },
    /// The `done` event.
    Done,
    /// Any other event type; ignored.
    Other,
}

/// The folded state of a chat stream.
#[derive(Debug)]
pub struct ChatAccum {
    pub response: String,
    pub source_count: usize,
    pub done: bool,
}

impl ChatAccum {
    /// An empty accumulator: no text, no sources, not done.
    pub fn new() -> (r: Self)
        ensures
            r.response@.len() == 0,
            r.source_count == 0,
            !r.done,
    {
        ChatAccum { response: String::new(), source_count: 0, done: false }
    }
}

/// Fold one event into the accumulator: `sources` overwrites the count,
/// `content` appends its text, `done` marks the end, anything else
/// changes nothing.
pub fn apply_chat_event(accum: &mut ChatAccum, event: ChatEvent)
    ensures
        match event {
            ChatEvent::Sources { count } => {
                &&& final(accum).source_count == count
                &&& final(accum).response@ == old(accum).response@
                &&& final(accum).done == old(accum).done
            },
            ChatEvent::Content { text } => {
                &&& final(accum).response@ == old(accum).response@ + text@
                &&& final(accum).source_count == old(accum).source_count
                &&& final(accum).done == old(accum).done
            },
            ChatEvent::Done => {
                &&& final(accum).done
                &&& final(accum).response@ == old(accum).response@
                &&& final(accum).source_count == old(accum).source_count
            },
            ChatEvent::Other => *final(accum) == *old(accum),
        },
{
    match event {
        ChatEvent::Sources { count } => {
            accum.source_count = count;
        },
        ChatEvent::Content { text } => {
            accum.response.append(text.as_str());
        },
        ChatEvent::Done => {
            accum.done = true;
        },
        ChatEvent::Other => {},
    }
}

/// The answer built from a finished stream: the accumulated text, and
/// context exactly when at least one source grounded it.
pub fn chat_simple_response(accum: ChatAccum) -> (r: ChatSimpleResponse)
    ensures
        r.response@ == accum.response@,
        r.has_context == (accum.source_count > 0),
        r.source_count == accum.source_count,
{
    ChatSimpleResponse {
        has_context: accum.source_count > 0,
        source_count: accum.source_count,
        response: accum.response,
    }
}

} // verus!
