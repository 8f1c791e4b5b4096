//! Rendering buffered events as lines of text.
//!
//! A text message is decoded as JSON and queried with the filter; the
//! matched values are written out compactly and joined. Every failure on the
//! way becomes the line of that one event. Other events are shown as they
//! are, whatever the filter.

use jsonpath_lib::JsonPathError;
use serde_json::Value;
use vstd::prelude::*;
use vstd::string::StringExecFns;

use crate::buffer::EventBuffer;
use crate::event::{Event, Message};
use crate::query::{
    parse_path, is_bounded_path, is_root_path, is_supported_path, json_error_message,
    json_error_text, json_parse, json_select, json_text, parse, path_error_message,
    path_error_text, path_parse_error, select, serialize, supported_path, MAX_PATH_LEN,
};
use crate::text::{join, joined, views};

verus! {

/// The compact text of a value; should the codec refuse to write the value,
/// the message of its error.
pub open spec fn serialized(value: Value) -> Seq<char> {
    match json_text(value) {
        Ok(text) => text,
        Err(error) => json_error_text(error),
    }
}

/// The compact texts of the given values, in order.
pub open spec fn serialized_all(values: Seq<Value>) -> Seq<Seq<char>> {
    values.map_values(|value: Value| serialized(value))
}

/// The line for the matched values: their compact texts, joined by a comma
/// and a space.
pub open spec fn matches_line(matches: Seq<Value>) -> Seq<char> {
    joined(serialized_all(matches), ", "@)
}

/// The line for the outcome of a query: the matches joined, or the message
/// of the query error.
pub open spec fn selection_line(selection: Result<Seq<Value>, JsonPathError>) -> Seq<char> {
    match selection {
        Ok(matches) => matches_line(matches),
        Err(error) => path_error_text(error),
    }
}

/// The line shown for a filter that is not evaluated.
pub open spec fn unsupported_filter_line() -> Seq<char> {
    "unsupported filter expression"@
}

/// The line shown for a payload that is not JSON.
pub open spec fn invalid_payload_line(error: serde_json::Error) -> Seq<char> {
    "invalid JSON: "@ + json_error_text(error)
}

/// Whether a filter is put to the query engine: it is of bounded length,
/// and either the engine's parser refuses it, or it is one that the engine
/// evaluates.
pub open spec fn is_answered(filter: Seq<char>) -> bool {
    filter.len() <= MAX_PATH_LEN && (path_parse_error(filter).is_some() || supported_path(filter))
}

/// What the query engine answers to a filter that is put to it: the refusal
/// of its parser, else what it selects from the document.
pub open spec fn answer(document: Value, filter: Seq<char>) -> Result<Seq<Value>, JsonPathError> {
    match path_parse_error(filter) {
        Some(error) => Err(error),
        None => json_select(document, filter),
    }
}

/// Whether a filter selects from a document: it is put to the query engine,
/// and the engine answers with matches, few or none.
pub open spec fn has_selection(document: Value, filter: Seq<char>) -> bool {
    is_answered(filter) && answer(document, filter) is Ok
}

/// The line for a decoded document under a filter.
pub open spec fn document_line(document: Value, filter: Seq<char>) -> Seq<char> {
    if is_answered(filter) {
        selection_line(answer(document, filter))
    } else {
        unsupported_filter_line()
    }
}

/// The line for a text payload under a filter.
pub open spec fn text_line(text: Seq<char>, filter: Seq<char>) -> Seq<char> {
    match json_parse(text) {
        Ok(document) => document_line(document, filter),
        Err(error) => invalid_payload_line(error),
    }
}

/// The line for an event that is not a text message: a marker, then the
/// event or its message written out as it is.
pub open spec fn fallback_line(event: Event) -> Seq<char> {
    match event {
        Event::Message(message) => "non_text "@ + message.described(),
        _ => "non_msg "@ + event.described(),
    }
}

/// The line for one event under a filter.
pub open spec fn event_line(event: Event, filter: Seq<char>) -> Seq<char> {
    match event.text() {
        Some(text) => text_line(text, filter),
        None => fallback_line(event),
    }
}

/// Whether an event shows a selection: it is a text message whose payload
/// decodes and from which the filter selects.
pub open spec fn shows_selection(event: Event, filter: Seq<char>) -> bool {
    match event.text() {
        Some(text) => match json_parse(text) {
            Ok(document) => has_selection(document, filter),
            Err(_) => false,
        },
        None => false,
    }
}

/// The error with which the query engine answers the filter for an event:
/// `None` unless the event is a text message whose payload decodes and on
/// whose document the engine fails.
pub open spec fn engine_error(event: Event, filter: Seq<char>) -> Option<JsonPathError> {
    match event.text() {
        Some(text) => match json_parse(text) {
            Ok(document) => match json_select(document, filter) {
                Ok(_) => None,
                Err(error) => Some(error),
            },
            Err(_) => None,
        },
        None => None,
    }
}

/// The lines for the given events under one filter, in the events' order.
pub open spec fn event_lines(events: Seq<Event>, filter: Seq<char>) -> Seq<Seq<char>> {
    Seq::new(events.len(), |i: int| event_line(events[i], filter))
}

/// Writes a value as compact JSON text; should the codec refuse, the result
/// is the message of its error.
pub fn render_value(value: &Value) -> (text: String)
    ensures
        text@ == serialized(*value),
{
    match serialize(value) {
        Ok(text) => text,
        Err(error) => json_error_message(&error),
    }
}

/// Renders the matched values: each written as compact JSON text, joined by
/// a comma and a space. No match gives the empty line.
pub fn render_matches(matches: &Vec<Value>) -> (line: String)
    ensures
        line@ == matches_line(matches@),
        matches@.len() == 0 ==> line@.len() == 0,
        matches@.len() == 1 ==> line@ == serialized(matches@[0]),
{
    let mut parts: Vec<String> = Vec::new();
    let mut i: usize = 0;
    while i < matches.len()
        invariant
            i <= matches.len(),
            parts@.len() == i,
            forall|k: int| 0 <= k < i ==> (#[trigger] parts@[k])@ == serialized(matches@[k]),
        decreases matches.len() - i,
    {
        parts.push(render_value(&matches[i]));
        i += 1;
    }
    assert(views(parts@) =~= serialized_all(matches@));
    join(&parts, ", ")
}

/// Renders the outcome of a query: the matches joined, or the message of the
/// query error, which is never empty.
pub fn render_selection(selection: &Result<Vec<Value>, JsonPathError>) -> (line: String)
    ensures
        match selection {
            Ok(matches) => line@ == matches_line(matches@),
            Err(error) => line@ == path_error_text(*error) && line@.len() > 0,
        },
{
    match selection {
        Ok(matches) => render_matches(matches),
        Err(error) => path_error_message(error),
    }
}

/// Evaluates `filter` against `document`.
///
/// A filter that is too long to be parsed, or that parses but is not one
/// that the engine evaluates, gives `None`. Any other filter gives the
/// engine's answer: the refusal of its parser, or the matched values in
/// order, or its error. Whenever the engine would fail on a filter of
/// bounded length, the outcome is that failure. The filter `$` matches the
/// document itself and nothing else.
pub fn evaluate(document: &Value, filter: &str) -> (outcome: Option<
    Result<Vec<Value>, JsonPathError>,
>)
    ensures
        outcome is Some <==> is_answered(filter@),
        match outcome {
            Some(Ok(matches)) => answer(*document, filter@) == Ok::<Seq<Value>, JsonPathError>(
                matches@,
            ) && json_select(*document, filter@) == answer(*document, filter@),
            Some(Err(error)) => answer(*document, filter@) == Err::<Seq<Value>, JsonPathError>(
                error,
            ) && json_select(*document, filter@) == answer(*document, filter@),
            None => true,
        },
        filter@.len() <= MAX_PATH_LEN && json_select(*document, filter@) is Err ==> outcome
            == Some(
            Err::<Vec<Value>, JsonPathError>(json_select(*document, filter@)->Err_0),
        ),
        is_root_path(filter@) ==> (outcome matches Some(Ok(matches)) && matches@ == seq![
            *document,
        ]),
{
    if !is_bounded_path(filter) {
        return None;
    }
    match parse_path(filter) {
        Some(error) => Some(Err(error)),
        None => {
            if is_supported_path(filter) {
                Some(select(document, filter))
            } else {
                None
            }
        },
    }
}

/// Evaluates `filter` against `document` and renders the outcome.
///
/// A filter that is not put to the query engine gives a fixed line. Whenever
/// the engine would fail on a filter of bounded length, the line is the
/// message of its error. The filter `$` selects the whole document and
/// nothing else, so its line is the compact text of the document. Only a
/// selection can give an empty line.
pub fn render_document(document: &Value, filter: &str) -> (line: String)
    ensures
        line@ == document_line(*document, filter@),
        is_root_path(filter@) ==> line@ == serialized(*document),
        filter@.len() <= MAX_PATH_LEN && json_select(*document, filter@) is Err ==> line@
            == path_error_text(json_select(*document, filter@)->Err_0),
        !has_selection(*document, filter@) ==> line@.len() > 0,
{
    match evaluate(document, filter) {
        Some(selection) => render_selection(&selection),
        None => {
            proof {
                reveal_strlit("unsupported filter expression");
            }
            String::from_str("unsupported filter expression")
        },
    }
}

/// Decodes `text` as JSON, evaluates `filter` against it and renders the
/// outcome. A text that is not JSON gives a line that says so. Only a
/// selection can give an empty line.
pub fn render_text(text: &str, filter: &str) -> (line: String)
    ensures
        line@ == text_line(text@, filter@),
        match json_parse(text@) {
            Ok(document) => {
                &&& is_root_path(filter@) ==> line@ == serialized(document)
                &&& filter@.len() <= MAX_PATH_LEN && json_select(document, filter@) is Err
                    ==> line@ == path_error_text(json_select(document, filter@)->Err_0)
                &&& !has_selection(document, filter@) ==> line@.len() > 0
            },
            Err(error) => line@ == invalid_payload_line(error) && line@.len() > 0,
        },
{
    match parse(text) {
        Ok(document) => render_document(&document, filter),
        Err(error) => {
            proof {
                reveal_strlit("invalid JSON: ");
            }
            let mut line = String::from_str("invalid JSON: ");
            line.append(json_error_message(&error).as_str());
            line
        },
    }
}

/// Renders an event that is not filtered: a marker, then the event or its
/// message written out as it is.
pub fn render_fallback(event: &Event) -> (line: String)
    ensures
        line@ == fallback_line(*event),
        line@.len() > 0,
{
    proof {
        reveal_strlit("non_text ");
        reveal_strlit("non_msg ");
    }
    match event {
        Event::Message(message) => {
            let mut line = String::from_str("non_text ");
            line.append(message.describe().as_str());
            line
        },
        _ => {
            let mut line = String::from_str("non_msg ");
            line.append(event.describe().as_str());
            line
        },
    }
}

/// Renders one event under `filter`: a text message is decoded and queried,
/// any other event is shown as it is.
pub fn render_event(event: &Event, filter: &str) -> (line: String)
    ensures
        line@ == event_line(*event, filter@),
        !shows_selection(*event, filter@) ==> line@.len() > 0,
        filter@.len() <= MAX_PATH_LEN ==> match engine_error(*event, filter@) {
            Some(error) => line@ == path_error_text(error),
            None => true,
        },
{
    match event.as_text() {
        Some(text) => render_text(text.as_str(), filter),
        None => render_fallback(event),
    }
}

/// Renders every buffered event under the one `filter`, oldest first. The
/// buffer is left as it is. Only an event that shows a selection can have an
/// empty line, and wherever the engine fails on a filter of bounded length,
/// the line is the message of its error.
pub fn render_events(buffer: &EventBuffer, filter: &str) -> (lines: Vec<String>)
    ensures
        views(lines@) == event_lines(buffer@, filter@),
        lines@.len() == buffer@.len(),
        forall|i: int|
            0 <= i < buffer@.len() && !shows_selection(buffer@[i], filter@) ==> (
            #[trigger] lines@[i])@.len() > 0,
        forall|i: int|
            0 <= i < buffer@.len() && filter@.len() <= MAX_PATH_LEN && engine_error(
                buffer@[i],
                filter@,
            ) is Some ==> (#[trigger] lines@[i])@ == path_error_text(
                engine_error(buffer@[i], filter@)->Some_0,
            ),
{
    let mut lines: Vec<String> = Vec::new();
    let len = buffer.len();
    let mut i: usize = 0;
    while i < len
        invariant
            i <= len,
            len == buffer@.len(),
            lines@.len() == i,
            forall|k: int|
                0 <= k < i ==> (#[trigger] lines@[k])@ == event_line(buffer@[k], filter@),
            forall|k: int|
                0 <= k < i && !shows_selection(buffer@[k], filter@) ==> (
                #[trigger] lines@[k])@.len() > 0,
            forall|k: int|
                0 <= k < i && filter@.len() <= MAX_PATH_LEN && engine_error(buffer@[k], filter@)
                    is Some ==> (#[trigger] lines@[k])@ == path_error_text(
                    engine_error(buffer@[k], filter@)->Some_0,
                ),
        decreases len - i,
    {
        match buffer.get(i) {
            Some(event) => {
                lines.push(render_event(event, filter));
            },
            None => {
                assert(false);
            },
        }
        i += 1;
    }
    assert(views(lines@) =~= event_lines(buffer@, filter@));
    lines
}

/// Rendering is a function of the events and the filter alone: two passes
/// over the same events with the same filter give the same lines.
pub proof fn lemma_render_is_repeatable(
    events: Seq<Event>,
    filter: Seq<char>,
    first: Seq<Seq<char>>,
    second: Seq<Seq<char>>,
)
    requires
        first == event_lines(events, filter),
        second == event_lines(events, filter),
    ensures
        first == second,
{
}

/// Each line depends on its own event and the filter only: where two runs of
/// events agree at a position, their lines agree there.
pub proof fn lemma_line_depends_on_own_event(
    events: Seq<Event>,
    others: Seq<Event>,
    position: int,
    filter: Seq<char>,
)
    requires
        0 <= position < events.len(),
        position < others.len(),
        events[position] == others[position],
    ensures
        event_lines(events, filter)[position] == event_lines(others, filter)[position],
        event_lines(events, filter).len() == events.len(),
{
}

/// The filter bears on text messages only: any other event has the same
/// line under every filter.
pub proof fn lemma_filter_leaves_other_events(event: Event, filter: Seq<char>, other: Seq<char>)
    requires
        event.text().is_none(),
    ensures
        event_line(event, filter) == event_line(event, other),
        event_line(event, filter) == fallback_line(event),
{
}

/// A payload that is not JSON costs its own event's line and nothing else:
/// with such a text message put at one position, that line says that the
/// payload is invalid, all other lines stay as they were, and there are as
/// many lines as before.
pub proof fn lemma_invalid_payload_is_local(
    events: Seq<Event>,
    position: int,
    payload: String,
    filter: Seq<char>,
)
    requires
        0 <= position < events.len(),
        json_parse(payload@) is Err,
    ensures
        event_lines(events.update(position, Event::Message(Message::Text(payload))), filter)
            == event_lines(events, filter).update(
            position,
            invalid_payload_line(json_parse(payload@)->Err_0),
        ),
        invalid_payload_line(json_parse(payload@)->Err_0).len() > 0,
{
    reveal_strlit("invalid JSON: ");
    let changed = events.update(position, Event::Message(Message::Text(payload)));
    assert(event_lines(changed, filter) =~= event_lines(events, filter).update(
        position,
        invalid_payload_line(json_parse(payload@)->Err_0),
    ));
}

} // verus!
