//! The inbound half of the protocol: classifying each line of the worker's
//! output stream and naming the event-bus channel it is republished on.
//!
//! A line that is not valid JSON is never dropped silently: it maps to a
//! synthetic error event with a null correlation id, so consumers learn of
//! stream corruption. A line whose `type` is a control tag (`ready`,
//! `shutdown`) or unknown is dropped with no event.

use vstd::prelude::*;

verus! {

/// The `type` tag that the JSON reader sees in a worker output line: `None`
/// when the line is not one valid JSON document, otherwise the value of the
/// line's `"type"` field when that is a string, and the empty sequence when
/// the field is absent or not a string.
pub uninterp spec fn worker_line_tag(line: Seq<char>) -> Option<Seq<char>>;

/// What the reader found in one output line.
enum DecodedTag {
    /// The line is not valid JSON.
    Malformed,
    /// The line is valid JSON with this `type` tag (empty when absent).
    Tag(String),
}

/// Relies on `serde_json::from_str::<Value>`, `Value::get` and
/// `Value::as_str`: whether a line parses as one JSON document, and what its
/// `"type"` field holds, are functions of the line's characters alone.
#[verifier::external_body]
fn decode_line_tag(line: &str) -> (r: DecodedTag)
    ensures
        (r is Malformed) == (worker_line_tag(line@) is None),
        r matches DecodedTag::Tag(t) ==> worker_line_tag(line@) == Option::Some(t@),
{
    match serde_json::from_str::<serde_json::Value>(line) {
        Result::Err(_) => DecodedTag::Malformed,
        Result::Ok(v) => {
            let tag = v.get("type").and_then(|x| x.as_str()).unwrap_or("");
            DecodedTag::Tag(tag.to_string())
        },
    }
}

/// An event-bus channel the router republishes on.
#[derive(Clone, Copy, Debug, PartialEq, Eq, Structural)]
pub enum Channel {
    ChatToken,
    ChatDone,
    ChatError,
    DownloadStarted,
    DownloadProgress,
    DownloadDone,
    DownloadError,
}

/// What the router does with one line of worker output.
#[derive(Clone, Copy, Debug, PartialEq, Eq, Structural)]
pub enum RouterAction {
    /// Republish the decoded line on this channel.
    Publish(Channel),
    /// The line was not valid JSON: publish one synthetic error event with a
    /// null correlation id on the chat error channel.
    InvalidLine,
    /// A control or unknown tag: drop the line, no event.
    Ignore,
}

/// The channel for a recognized `type` tag.
pub open spec fn classify_tag(tag: Seq<char>) -> RouterAction {
    if tag == "chat_token"@ {
        RouterAction::Publish(Channel::ChatToken)
    } else if tag == "done"@ {
        RouterAction::Publish(Channel::ChatDone)
    } else if tag == "error"@ {
        RouterAction::Publish(Channel::ChatError)
    } else if tag == "download_started"@ {
        RouterAction::Publish(Channel::DownloadStarted)
    } else if tag == "download_progress"@ {
        RouterAction::Publish(Channel::DownloadProgress)
    } else if tag == "download_done"@ {
        RouterAction::Publish(Channel::DownloadDone)
    } else if tag == "download_error"@ {
        RouterAction::Publish(Channel::DownloadError)
    } else {
        RouterAction::Ignore
    }
}

/// The action for one whole line.
pub open spec fn route_of(line: Seq<char>) -> RouterAction {
    match worker_line_tag(line) {
        Option::None => RouterAction::InvalidLine,
        Option::Some(tag) => classify_tag(tag),
    }
}

/// Classifies one line of worker output.
pub fn route_line(line: &str) -> (r: RouterAction)
    ensures
        r == route_of(line@),
{
    match decode_line_tag(line) {
        DecodedTag::Malformed => RouterAction::InvalidLine,
        DecodedTag::Tag(tag) => {
            if tag == String::from_str("chat_token") {
                RouterAction::Publish(Channel::ChatToken)
            } else if tag == String::from_str("done") {
                RouterAction::Publish(Channel::ChatDone)
            } else if tag == String::from_str("error") {
                RouterAction::Publish(Channel::ChatError)
            } else if tag == String::from_str("download_started") {
                RouterAction::Publish(Channel::DownloadStarted)
            } else if tag == String::from_str("download_progress") {
                RouterAction::Publish(Channel::DownloadProgress)
            } else if tag == String::from_str("download_done") {
                RouterAction::Publish(Channel::DownloadDone)
            } else if tag == String::from_str("download_error") {
                RouterAction::Publish(Channel::DownloadError)
            } else {
                RouterAction::Ignore
            }
        },
    }
}

/// The view of each channel's bus name.
pub open spec fn channel_name_of(c: Channel) -> Seq<char> {
    match c {
        Channel::ChatToken => "cerebro:chat_token"@,
        Channel::ChatDone => "cerebro:chat_done"@,
        Channel::ChatError => "cerebro:chat_error"@,
        Channel::DownloadStarted => "cerebro:model_download_started"@,
        Channel::DownloadProgress => "cerebro:model_download_progress"@,
        Channel::DownloadDone => "cerebro:model_download_done"@,
        Channel::DownloadError => "cerebro:model_download_error"@,
    }
}

/// The event-bus name a channel publishes under.
pub fn channel_name(c: Channel) -> (r: &'static str)
    ensures
        r@ == channel_name_of(c),
{
    match c {
        Channel::ChatToken => "cerebro:chat_token",
        Channel::ChatDone => "cerebro:chat_done",
        Channel::ChatError => "cerebro:chat_error",
        Channel::DownloadStarted => "cerebro:model_download_started",
        Channel::DownloadProgress => "cerebro:model_download_progress",
        Channel::DownloadDone => "cerebro:model_download_done",
        Channel::DownloadError => "cerebro:model_download_error",
    }
}

/// The view of the synthetic payload published for a malformed line: a JSON
/// object with a null correlation id and a fixed diagnostic message.
pub open spec fn invalid_line_payload_seq() -> Seq<char> {
    "{\"generation_id\":null,\"message\":\"Invalid runner JSON\"}"@
}

/// The payload published on the chat error channel for a malformed line.
pub fn invalid_line_payload() -> (r: String)
    ensures
        r@ == invalid_line_payload_seq(),
{
    String::from_str("{\"generation_id\":null,\"message\":\"Invalid runner JSON\"}")
}

/// A malformed line yields exactly the synthetic error action — never a
/// publish, never silence — and a valid line never yields the synthetic
/// action; routing is a function of the line alone, so one line produces one
/// action and later lines are unaffected.
pub proof fn lemma_malformed_line_routing(line: Seq<char>)
    ensures
        (route_of(line) == RouterAction::InvalidLine) <==> (worker_line_tag(line) is None),
{
}

} // verus!
