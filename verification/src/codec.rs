//! The wire format: one JSON object to a line, in both directions.

use vstd::prelude::*;
use crate::events::BridgeEvent;
use crate::events::BridgeEventView;
use crate::json::Json;
use crate::json::json_of;
use crate::json::parse_value;
use crate::json::parsed_json;
use crate::json::render_value;
use crate::json::rendered_json;
use crate::json::value_empty_object;
use crate::json::value_from_str;
use crate::json::value_from_u64;
use crate::json::value_member;
use crate::json::value_null;
use crate::json::value_with_member;

verus! {

/// What one line of the worker's output is.
#[derive(Debug, PartialEq)]
pub enum InboundMessage {
    /// A line of white space only. It is ignored.
    Blank,
    /// An object with a string `event`: an event of the worker.
    Event(BridgeEvent),
    /// An object with a numeric `id`: the reply to a request. The outcome is
    /// the worker's result, or the worker's error text.
    Response { id: u64, outcome: Result<serde_json::Value, String> },
    /// JSON that is neither an event nor a reply. It is ignored.
    Unrecognized,
    /// A line that is no JSON: the line, and the parser's message.
    Unparsable { raw: String, reason: String },
}

/// What an [`InboundMessage`] holds.
pub enum InboundView {
    Blank,
    Event(BridgeEventView),
    Response { id: u64, outcome: Result<Json, Seq<char>> },
    Unrecognized,
    Unparsable { raw: Seq<char>, reason: Seq<char> },
}

/// What the outcome of a reply holds.
pub open spec fn outcome_view(outcome: Result<serde_json::Value, String>) -> Result<Json, Seq<char>> {
    match outcome {
        Ok(value) => Ok(json_of(value)),
        Err(text) => Err(text@),
    }
}

impl View for InboundMessage {
    type V = InboundView;

    open spec fn view(&self) -> InboundView {
        match self {
            InboundMessage::Blank => InboundView::Blank,
            InboundMessage::Event(event) => InboundView::Event(event@),
            InboundMessage::Response { id, outcome } => InboundView::Response {
                id: *id,
                outcome: outcome_view(*outcome),
            },
            InboundMessage::Unrecognized => InboundView::Unrecognized,
            InboundMessage::Unparsable { raw, reason } => InboundView::Unparsable {
                raw: raw@,
                reason: reason@,
            },
        }
    }
}

/// Whether a character is white space: the characters with the Unicode
/// property `White_Space`.
pub open spec fn is_white_space(c: char) -> bool {
    let n = c as u32;
    ||| 0x09 <= n <= 0x0D
    ||| n == 0x20
    ||| n == 0x85
    ||| n == 0xA0
    ||| n == 0x1680
    ||| 0x2000 <= n <= 0x200A
    ||| n == 0x2028
    ||| n == 0x2029
    ||| n == 0x202F
    ||| n == 0x205F
    ||| n == 0x3000
}

/// Whether a line holds white space only. The empty line does.
pub open spec fn is_blank(line: Seq<char>) -> bool {
    forall|i: int| 0 <= i < line.len() ==> is_white_space(#[trigger] line[i])
}

/// The text that stands for an error of the worker that is no string.
pub open spec fn unknown_error_text() -> Seq<char> {
    "unknown bridge error"@
}

/// The outcome that a reply object spells. With a member `error` it is a
/// failure, whose text is the member where that is a string and a fixed text
/// where it is not. Without one it is a success with the member `result`, or
/// `null` where there is none.
pub open spec fn reply_outcome(doc: Json) -> Result<Json, Seq<char>> {
    match doc.member("error"@) {
        Some(Json::Text(text)) => Err(text),
        Some(_) => Err(unknown_error_text()),
        None => Ok(doc.member_or_null("result"@)),
    }
}

/// What a document of the worker is. A string `event` makes it an event,
/// whatever else it holds; if there is none, an `id` that is an integer of 0
/// to `u64::MAX` makes it a reply; anything else is not recognized.
pub open spec fn classify_spec(doc: Json) -> InboundView {
    match doc.text_member("event"@) {
        Some(name) => InboundView::Event(
            BridgeEventView { name, payload: doc.member_or_null("payload"@) },
        ),
        None => match doc.member("id"@) {
            Some(number) => match number.as_unsigned() {
                Some(id) => InboundView::Response { id, outcome: reply_outcome(doc) },
                None => InboundView::Unrecognized,
            },
            None => InboundView::Unrecognized,
        },
    }
}

/// What a line of the worker's output is.
pub open spec fn decode_spec(line: Seq<char>) -> InboundView {
    if is_blank(line) {
        InboundView::Blank
    } else {
        match parsed_json(line) {
            Ok(doc) => classify_spec(doc),
            Err(reason) => InboundView::Unparsable { raw: line, reason },
        }
    }
}

/// The envelope of a request: an object with the members `id`, `method` and
/// `params`.
pub open spec fn envelope(id: u64, method: Seq<char>, params: Json) -> Json {
    Json::empty_object().with_member("id"@, Json::Integer(id as int)).with_member(
        "method"@,
        Json::Text(method),
    ).with_member("params"@, params)
}

/// The line that carries a request: the compact text of its envelope, and a
/// line feed.
pub open spec fn request_line(id: u64, method: Seq<char>, params: Json) -> Seq<char> {
    rendered_json(envelope(id, method, params)).push('\n')
}

/// Whether a character is white space.
pub fn white_space(c: char) -> (white: bool)
    ensures
        white == is_white_space(c),
{
    let n: u32 = c as u32;
    (0x09 <= n && n <= 0x0D) || n == 0x20 || n == 0x85 || n == 0xA0 || n == 0x1680 || (0x2000
        <= n && n <= 0x200A) || n == 0x2028 || n == 0x2029 || n == 0x202F || n == 0x205F || n
        == 0x3000
}

/// Whether a line holds white space only.
pub fn blank(line: &str) -> (blank: bool)
    ensures
        blank == is_blank(line@),
{
    for c in it: line.chars()
        invariant
            it.seq() == line@,
            forall|i: int| 0 <= i < it.index() ==> is_white_space(#[trigger] line@[i]),
    {
        if !white_space(c) {
            return false;
        }
    }
    true
}

/// The outcome that a reply object spells.
pub fn outcome_of(doc: &serde_json::Value) -> (outcome: Result<serde_json::Value, String>)
    ensures
        outcome_view(outcome) == reply_outcome(json_of(*doc)),
{
    match value_member(doc, "error") {
        Some(error) => match error.as_str() {
            Some(text) => Err(String::from_str(text)),
            None => Err(String::from_str("unknown bridge error")),
        },
        None => match value_member(doc, "result") {
            Some(result) => Ok(result.clone()),
            None => Ok(value_null()),
        },
    }
}

/// What a document of the worker is: an event, a reply, or neither.
pub fn classify(doc: &serde_json::Value) -> (message: InboundMessage)
    ensures
        message@ == classify_spec(json_of(*doc)),
{
    let name = match value_member(doc, "event") {
        Some(event) => event.as_str(),
        None => None,
    };
    match name {
        Some(name) => {
            let payload = match value_member(doc, "payload") {
                Some(payload) => payload.clone(),
                None => value_null(),
            };
            InboundMessage::Event(BridgeEvent { name: String::from_str(name), payload })
        },
        None => {
            let id = match value_member(doc, "id") {
                Some(number) => number.as_u64(),
                None => None,
            };
            match id {
                Some(id) => InboundMessage::Response { id, outcome: outcome_of(doc) },
                None => InboundMessage::Unrecognized,
            }
        },
    }
}

/// What a line of the worker's output is. A line of white space is blank. A
/// line that is no JSON is unparsable, and keeps the parser's message. Any
/// other line is what its document is.
pub fn decode_line(line: &str) -> (message: InboundMessage)
    ensures
        message@ == decode_spec(line@),
{
    if blank(line) {
        InboundMessage::Blank
    } else {
        match parse_value(line) {
            Ok(doc) => classify(&doc),
            Err(reason) => InboundMessage::Unparsable { raw: String::from_str(line), reason },
        }
    }
}

/// The line that carries a request to the worker: the envelope with `id`,
/// `method` and `params`, written compactly, and one line feed, which is the
/// only one in the line.
pub fn encode_request(id: u64, method: &str, params: serde_json::Value) -> (line: String)
    ensures
        line@ == request_line(id, method@, json_of(params)),
        line@.len() >= 1,
        line@.last() == '\n',
        !line@.drop_last().contains('\n'),
{
    let object = value_empty_object();
    let object = value_with_member(object, "id", value_from_u64(id));
    let object = value_with_member(object, "method", value_from_str(method));
    let object = value_with_member(object, "params", params);
    let mut line = render_value(&object);
    let ghost text = line@;
    line.append("\n");
    proof {
        reveal_strlit("\n");
        assert("\n"@ =~= seq!['\n']);
        assert(line@ =~= text.push('\n'));
        assert(line@.drop_last() =~= text);
    }
    line
}

} // verus!
