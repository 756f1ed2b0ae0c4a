//! Log streams and the paging of their events. A stream keeps the page it
//! fetched last and the two cursors that came with it; the next request
//! hands the forward cursor back as it was received.

use crate::error::{ListError, RemoteFailure};
use crate::group::{LogGroup, LogGroupView};
use crate::paint::{
    is_rendering, plain, push_plain, push_tinted, render, span_views, tinted, Span, SpanView, Tint,
};
use std::rc::Rc;
use vstd::prelude::*;
use vstd::string::StringExecFns;

verus! {

/// The characters of an optional text.
pub open spec fn text_of(text: Option<String>) -> Option<Seq<char>> {
    match text {
        Some(t) => Some(t@),
        None => None,
    }
}

/// One log event, as the logging service returns it.
#[derive(Clone, Debug, PartialEq, Eq)]
pub struct LogEvent {
    pub timestamp: Option<i64>,
    pub ingestion_time: Option<i64>,
    pub message: Option<String>,
}

/// What a log event stands for.
pub struct LogEventView {
    pub timestamp: Option<i64>,
    pub ingestion_time: Option<i64>,
    pub message: Option<Seq<char>>,
}

impl View for LogEvent {
    type V = LogEventView;

    open spec fn view(&self) -> LogEventView {
        LogEventView {
            timestamp: self.timestamp,
            ingestion_time: self.ingestion_time,
            message: text_of(self.message),
        }
    }
}

/// The views of `events`, in order.
pub open spec fn event_views(events: Seq<LogEvent>) -> Seq<LogEventView> {
    events.map_values(|e: LogEvent| e@)
}

/// The views of an optional page of events.
pub open spec fn page_views(events: Option<Vec<LogEvent>>) -> Option<Seq<LogEventView>> {
    match events {
        Some(list) => Some(event_views(list@)),
        None => None,
    }
}

/// The answer of the logging service to a request for events.
#[derive(Clone, Debug, PartialEq, Eq)]
pub struct EventsPage {
    pub events: Option<Vec<LogEvent>>,
    pub next_forward_token: Option<String>,
    pub next_backward_token: Option<String>,
}

/// What an answer with events stands for.
pub struct EventsPageView {
    pub events: Option<Seq<LogEventView>>,
    pub next_forward_token: Option<Seq<char>>,
    pub next_backward_token: Option<Seq<char>>,
}

impl View for EventsPage {
    type V = EventsPageView;

    open spec fn view(&self) -> EventsPageView {
        EventsPageView {
            events: page_views(self.events),
            next_forward_token: text_of(self.next_forward_token),
            next_backward_token: text_of(self.next_backward_token),
        }
    }
}

/// A request for events of one stream. What it leaves out is left to the
/// logging service's defaults.
#[derive(Clone, Debug, PartialEq, Eq)]
pub struct EventsRequest {
    pub log_group_name: String,
    pub log_stream_name: String,
    pub next_token: Option<String>,
    pub start_from_head: Option<bool>,
}

/// What a request for events stands for.
pub struct EventsRequestView {
    pub log_group_name: Seq<char>,
    pub log_stream_name: Seq<char>,
    pub next_token: Option<Seq<char>>,
    pub start_from_head: Option<bool>,
}

impl View for EventsRequest {
    type V = EventsRequestView;

    open spec fn view(&self) -> EventsRequestView {
        EventsRequestView {
            log_group_name: self.log_group_name@,
            log_stream_name: self.log_stream_name@,
            next_token: text_of(self.next_token),
            start_from_head: self.start_from_head,
        }
    }
}

/// A log stream as the logging service describes it.
#[derive(Clone, Debug, PartialEq, Eq)]
pub struct StreamDescriptor {
    pub log_stream_name: Option<String>,
}

/// A log stream of one group.
#[derive(Debug)]
pub struct LogStream {
    name: String,
    group: Rc<LogGroup>,
    last_event_ts: Option<i64>,
    last_ingest_ts: Option<i64>,
    events_page: Option<Vec<LogEvent>>,
    next_page: Option<String>,
    prev_page: Option<String>,
}

/// What a log stream stands for.
pub struct LogStreamView {
    pub name: Seq<char>,
    pub group: LogGroupView,
    pub last_event_ts: Option<i64>,
    pub last_ingest_ts: Option<i64>,
    pub events_page: Option<Seq<LogEventView>>,
    pub next_page: Option<Seq<char>>,
    pub prev_page: Option<Seq<char>>,
}

impl LogStreamView {
    /// The stream called `name` in `group`, before any fetch.
    pub open spec fn fresh(name: Seq<char>, group: LogGroupView) -> LogStreamView {
        LogStreamView {
            name,
            group,
            last_event_ts: None,
            last_ingest_ts: None,
            events_page: None,
            next_page: None,
            prev_page: None,
        }
    }

    /// The request for the first page: no cursor, direction left to the
    /// logging service.
    pub open spec fn first_request(self) -> EventsRequestView {
        EventsRequestView {
            log_group_name: self.group.name,
            log_stream_name: self.name,
            next_token: None,
            start_from_head: None,
        }
    }

    /// The request for the next fetch. Without a forward cursor it is the
    /// request for the first page; with one it carries the cursor as it was
    /// received and asks to read from the head of the stream.
    pub open spec fn request(self) -> EventsRequestView {
        match self.next_page {
            Some(token) => EventsRequestView {
                log_group_name: self.group.name,
                log_stream_name: self.name,
                next_token: Some(token),
                start_from_head: Some(true),
            },
            None => self.first_request(),
        }
    }

    /// The stream after a fetch that returned `page`: the page and both
    /// cursors are those of the answer, the rest is as before.
    pub open spec fn after(self, page: EventsPageView) -> LogStreamView {
        LogStreamView {
            events_page: page.events,
            next_page: page.next_forward_token,
            prev_page: page.next_backward_token,
            ..self
        }
    }

    /// The stream as a listing shows it: one line without a line end.
    pub open spec fn spans(self) -> Seq<SpanView> {
        seq![plain("Stream Name: "@), tinted(self.name, Tint::Green)]
    }
}

impl View for LogStream {
    type V = LogStreamView;

    closed spec fn view(&self) -> LogStreamView {
        LogStreamView {
            name: self.name@,
            group: self.group@,
            last_event_ts: self.last_event_ts,
            last_ingest_ts: self.last_ingest_ts,
            events_page: page_views(self.events_page),
            next_page: text_of(self.next_page),
            prev_page: text_of(self.prev_page),
        }
    }
}

impl LogStream {
    /// The stream called `name` in `group`, before any fetch.
    pub fn new(name: String, group: Rc<LogGroup>) -> (stream: LogStream)
        ensures
            stream@ == LogStreamView::fresh(name@, group@),
    {
        LogStream {
            name,
            group,
            last_event_ts: None,
            last_ingest_ts: None,
            events_page: None,
            next_page: None,
            prev_page: None,
        }
    }

    /// The request that the next fetch of events sends.
    pub fn events_request(&self) -> (request: EventsRequest)
        ensures
            request@ == self@.request(),
            request@.log_group_name == self@.group.name,
            request@.log_stream_name == self@.name,
            self@.next_page is None ==> request@.next_token is None
                && request@.start_from_head is None,
            self@.next_page matches Some(token) ==> request@.next_token == Some(token)
                && request@.start_from_head == Some(true),
    {
        let log_group_name = String::from_str(self.group.name());
        let log_stream_name = self.name.clone();
        match &self.next_page {
            Some(token) => EventsRequest {
                log_group_name,
                log_stream_name,
                next_token: Some(token.clone()),
                start_from_head: Some(true),
            },
            None => EventsRequest {
                log_group_name,
                log_stream_name,
                next_token: None,
                start_from_head: None,
            },
        }
    }

    /// The request for the first page of the stream, whatever was fetched
    /// before.
    pub fn first_page_request(&self) -> (request: EventsRequest)
        ensures
            request@ == self@.first_request(),
    {
        EventsRequest {
            log_group_name: String::from_str(self.group.name()),
            log_stream_name: self.name.clone(),
            next_token: None,
            start_from_head: None,
        }
    }

    /// Takes in the answer to the request of `events_request`. A page
    /// replaces the one held before, and its cursors replace the two held
    /// before; a failed call leaves the stream as it was.
    pub fn get_log_stream_events(&mut self, response: Result<EventsPage, RemoteFailure>) -> (out:
        Result<(), ListError>)
        ensures
            match response {
                Ok(page) => out is Ok && final(self)@ == old(self)@.after(page@),
                Err(_) => out == Err::<(), ListError>(ListError::RemoteError) && final(self)@
                    == old(self)@,
            },
            response matches Ok(page) ==> final(self)@.events_page == page@.events,
            final(self)@.name == old(self)@.name,
            final(self)@.group == old(self)@.group,
    {
        match response {
            Ok(page) => {
                self.events_page = page.events;
                self.next_page = page.next_forward_token;
                self.prev_page = page.next_backward_token;
                Ok(())
            },
            Err(_) => Err(ListError::RemoteError),
        }
    }

    /// The name of the stream.
    pub fn name(&self) -> (out: &str)
        ensures
            out@ == self@.name,
    {
        self.name.as_str()
    }

    /// The group that the stream belongs to.
    pub fn group(&self) -> (out: &Rc<LogGroup>)
        ensures
            out@ == self@.group,
    {
        &self.group
    }

    /// The time of the last event, if it is known.
    pub fn last_event_ts(&self) -> (out: Option<i64>)
        ensures
            out == self@.last_event_ts,
    {
        self.last_event_ts
    }

    /// The time of the last ingestion, if it is known.
    pub fn last_ingest_ts(&self) -> (out: Option<i64>)
        ensures
            out == self@.last_ingest_ts,
    {
        self.last_ingest_ts
    }

    /// The page of events fetched last, if any.
    pub fn events_page(&self) -> (out: &Option<Vec<LogEvent>>)
        ensures
            page_views(*out) == self@.events_page,
    {
        &self.events_page
    }

    /// The cursor to the page after the one fetched last, if any.
    pub fn next_page(&self) -> (out: &Option<String>)
        ensures
            text_of(*out) == self@.next_page,
    {
        &self.next_page
    }

    /// The cursor to the page before the one fetched last, if any.
    pub fn prev_page(&self) -> (out: &Option<String>)
        ensures
            text_of(*out) == self@.prev_page,
    {
        &self.prev_page
    }

    /// Appends the stream, as a listing shows it, to `out`.
    pub fn write_spans(&self, out: &mut Vec<Span>)
        ensures
            span_views(final(out)@) == span_views(old(out)@) + self@.spans(),
    {
        push_plain(out, "Stream Name: ");
        push_tinted(out, self.name.clone(), Tint::Green);
        assert(span_views(out@) =~= span_views(old(out)@) + self@.spans());
    }

    /// The stream as a listing shows it.
    pub fn spans(&self) -> (out: Vec<Span>)
        ensures
            span_views(out@) == self@.spans(),
    {
        let mut out: Vec<Span> = Vec::new();
        self.write_spans(&mut out);
        assert(span_views(out@) =~= self@.spans());
        out
    }

    /// The stream as the terminal shows it.
    pub fn to_text(&self) -> (out: String)
        ensures
            is_rendering(out@, self@.spans()),
    {
        render(&self.spans())
    }
}

impl Default for LogStream {
    /// The stream without a name, in the group without a name, before any
    /// fetch.
    fn default() -> (stream: LogStream)
        ensures
            stream@.name == Seq::<char>::empty(),
            stream@.group.name == Seq::<char>::empty(),
            stream@ == LogStreamView::fresh(stream@.name, stream@.group),
    {
        LogStream::new(String::new(), Rc::new(LogGroup::default()))
    }
}

} // verus!
