//! The state of the application between two render passes, and the steps
//! that change it. Connecting, polling and drawing are left to the caller,
//! who reports what happened and shows what is returned.

use vstd::prelude::*;
use vstd::string::StringExecFns;

use crate::buffer::{after_push, EventBuffer, DEFAULT_CAPACITY};
use crate::event::Event;
use crate::query::{is_root_path, path_error_text, MAX_PATH_LEN};
use crate::render::{engine_error, event_lines, render_events, shows_selection};
use crate::text::views;

verus! {

/// The label that a fresh application shows.
pub open spec fn default_label() -> Seq<char> {
    "Hello World!"@
}

/// The endpoint that a fresh application connects to.
pub open spec fn default_url() -> Seq<char> {
    "wss://ws-feed.exchange.coinbase.com"@
}

/// The message that a fresh connection offers to send: a request to
/// subscribe to one channel of one product.
pub open spec fn default_message() -> Seq<char> {
    "{\"type\": \"subscribe\",\"product_ids\": [\"BTC-USD\"],\"channels\": [\"level2\"]}"@
}

/// The filter of a fresh connection: the path that selects the whole
/// document.
pub open spec fn default_filter() -> Seq<char> {
    "$"@
}

/// What belongs to one live connection: the events received on it, the
/// message being edited and the filter in force.
pub struct FrontEnd {
    /// The most recent events, oldest first.
    pub events: EventBuffer,
    /// The outbound message as the user has typed it so far.
    pub text_to_send: String,
    /// The path expression applied to every text message.
    pub json_path_filter: String,
}

impl FrontEnd {
    /// The state of a connection that was just opened: no event yet, the
    /// default message ready to send, and the filter that selects everything.
    pub fn new() -> (frontend: Self)
        ensures
            frontend.events@ == Seq::<Event>::empty(),
            frontend.events.spec_capacity() == DEFAULT_CAPACITY,
            frontend.text_to_send@ == default_message(),
            frontend.json_path_filter@ == default_filter(),
            is_root_path(frontend.json_path_filter@),
    {
        proof {
            reveal_strlit("$");
        }
        let filter = String::from_str("$");
        FrontEnd {
            events: EventBuffer::new(),
            text_to_send: String::from_str(
                "{\"type\": \"subscribe\",\"product_ids\": [\"BTC-USD\"],\"channels\": [\"level2\"]}",
            ),
            json_path_filter: filter,
        }
    }

    /// Takes in one event from the connection: it becomes the newest entry
    /// of the buffer, and the oldest is evicted if the buffer was full.
    pub fn receive(&mut self, event: Event)
        ensures
            final(self).events@ == after_push(
                old(self).events@,
                event,
                old(self).events.spec_capacity(),
            ),
            final(self).events.spec_capacity() == old(self).events.spec_capacity(),
            final(self).text_to_send == old(self).text_to_send,
            final(self).json_path_filter == old(self).json_path_filter,
    {
        self.events.push(event);
    }

    /// Hands out the outbound message for sending and leaves the field
    /// empty.
    pub fn take_message(&mut self) -> (message: String)
        ensures
            message == old(self).text_to_send,
            final(self).text_to_send@ == Seq::<char>::empty(),
            final(self).events == old(self).events,
            final(self).json_path_filter == old(self).json_path_filter,
    {
        let mut message = String::new();
        std::mem::swap(&mut self.text_to_send, &mut message);
        message
    }

    /// The state of a connection that takes the place of an earlier one: it
    /// keeps the events that were received so far, and starts over with the
    /// default message and the filter that selects everything.
    pub fn reopened(previous: FrontEnd) -> (frontend: Self)
        ensures
            frontend.events == previous.events,
            frontend.events@ == previous.events@,
            frontend.events.spec_capacity() == previous.events.spec_capacity(),
            frontend.text_to_send@ == default_message(),
            frontend.json_path_filter@ == default_filter(),
            is_root_path(frontend.json_path_filter@),
    {
        let fresh = FrontEnd::new();
        FrontEnd {
            events: previous.events,
            text_to_send: fresh.text_to_send,
            json_path_filter: fresh.json_path_filter,
        }
    }

    /// Renders the buffered events under the filter in force, oldest first.
    /// Only an event that shows a selection can have an empty line, and
    /// wherever the engine fails on a filter of bounded length, the line is
    /// the message of its error.
    pub fn lines(&self) -> (lines: Vec<String>)
        ensures
            views(lines@) == event_lines(self.events@, self.json_path_filter@),
            lines@.len() == self.events@.len(),
            forall|i: int|
                0 <= i < self.events@.len() && !shows_selection(
                    self.events@[i],
                    self.json_path_filter@,
                ) ==> (#[trigger] lines@[i])@.len() > 0,
            forall|i: int|
                0 <= i < self.events@.len() && self.json_path_filter@.len() <= MAX_PATH_LEN
                    && engine_error(self.events@[i], self.json_path_filter@) is Some ==> (
                #[trigger] lines@[i])@ == path_error_text(
                    engine_error(self.events@[i], self.json_path_filter@)->Some_0,
                ),
    {
        render_events(&self.events, self.json_path_filter.as_str())
    }
}

/// The part of the application state that is kept across restarts.
pub struct Snapshot {
    /// The label shown by the application.
    pub label: String,
    /// The endpoint to connect to.
    pub url: String,
}

/// The whole state of the application.
pub struct TemplateApp {
    /// A label; cosmetic.
    pub label: String,
    /// The endpoint to connect to.
    pub url: String,
    /// The message of the last failed connection attempt; empty when the
    /// last attempt succeeded or none was made.
    pub error: String,
    /// The live connection, if one was opened.
    pub frontend: Option<FrontEnd>,
}

impl Default for TemplateApp {
    /// The state of an application that has never run: default label and
    /// endpoint, no error, not connected.
    fn default() -> (app: Self)
        ensures
            app.label@ == default_label(),
            app.url@ == default_url(),
            app.error@ == Seq::<char>::empty(),
            app.frontend.is_none(),
    {
        TemplateApp {
            label: String::from_str("Hello World!"),
            url: String::from_str("wss://ws-feed.exchange.coinbase.com"),
            error: String::new(),
            frontend: None,
        }
    }
}

impl TemplateApp {
    /// The state at startup, and whether to connect at once.
    ///
    /// `storage` is `None` where nothing is kept across restarts; otherwise
    /// it holds the snapshot that was found, if any. Only an application
    /// without storage connects at once. With storage, label and endpoint
    /// come from the snapshot, or are the defaults where none was found, and
    /// the user connects when ready.
    pub fn new(storage: Option<Option<Snapshot>>) -> (startup: (Self, bool))
        ensures
            startup.1 == storage.is_none(),
            startup.0.error@ == Seq::<char>::empty(),
            startup.0.frontend.is_none(),
            match storage {
                Some(Some(snapshot)) => startup.0.label == snapshot.label && startup.0.url
                    == snapshot.url,
                _ => startup.0.label@ == default_label() && startup.0.url@ == default_url(),
            },
    {
        match storage {
            Some(Some(snapshot)) => (
                TemplateApp {
                    label: snapshot.label,
                    url: snapshot.url,
                    error: String::new(),
                    frontend: None,
                },
                false,
            ),
            Some(None) => (TemplateApp::default(), false),
            None => (TemplateApp::default(), true),
        }
    }

    /// Records how an attempt to connect to `self.url` ended.
    ///
    /// Success clears the error and opens a fresh connection state, with the
    /// default message and filter. The buffered events outlive the
    /// connection: they are kept as they were, and only a first connection
    /// starts with an empty buffer. Failure keeps the error message and
    /// whatever connection state there was.
    pub fn connect(&mut self, outcome: Result<(), String>)
        ensures
            final(self).label == old(self).label,
            final(self).url == old(self).url,
            match outcome {
                Ok(_) => {
                    &&& final(self).error@ == Seq::<char>::empty()
                    &&& final(self).frontend matches Some(frontend)
                    &&& frontend.text_to_send@ == default_message()
                    &&& frontend.json_path_filter@ == default_filter()
                    &&& is_root_path(frontend.json_path_filter@)
                    &&& match old(self).frontend {
                        Some(previous) => frontend.events == previous.events
                            && frontend.events@ == previous.events@
                            && frontend.events.spec_capacity()
                            == previous.events.spec_capacity(),
                        None => frontend.events@ == Seq::<Event>::empty()
                            && frontend.events.spec_capacity() == DEFAULT_CAPACITY,
                    }
                },
                Err(error) => {
                    &&& final(self).error == error
                    &&& final(self).frontend == old(self).frontend
                },
            },
    {
        match outcome {
            Ok(_) => {
                let frontend = match self.frontend.take() {
                    Some(previous) => FrontEnd::reopened(previous),
                    None => FrontEnd::new(),
                };
                self.frontend = Some(frontend);
                self.error = String::new();
            },
            Err(error) => {
                self.error = error;
            },
        }
    }

    /// Whether a failed connection attempt is to be shown.
    pub fn has_error(&self) -> (shown: bool)
        ensures
            shown == (self.error@.len() > 0),
    {
        !self.error.as_str().is_empty()
    }

    /// What is kept across restarts: the label and the endpoint.
    pub fn save(&self) -> (snapshot: Snapshot)
        ensures
            snapshot.label == self.label,
            snapshot.url == self.url,
    {
        Snapshot { label: self.label.clone(), url: self.url.clone() }
    }
}

} // verus!
