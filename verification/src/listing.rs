//! The three listings: the groups, the streams of a group, the events of a
//! stream. Each takes the answer of the logging service, says what was
//! found or why nothing was, and lays the text out.

use crate::error::{ListError, RemoteFailure};
use crate::group::{group_named, GroupDescriptor, LogGroup, LogGroupView};
use crate::paint::{
    is_rendering, plain, push_plain, push_tinted, render, span_views, tinted, Span, SpanView, Tint,
};
use crate::stream::{
    event_views, EventsPage, LogEvent, LogEventView, LogStream, LogStreamView, StreamDescriptor,
};
use crate::text::{decimal, decimal_text};
use std::rc::Rc;
use vstd::prelude::*;

verus! {

/// The text of a listing and how the listing ended.
#[derive(Debug, PartialEq, Eq)]
pub struct Listing {
    pub text: String,
    pub outcome: Result<(), ListError>,
}

/// How a listing ended that found `listed`.
pub open spec fn outcome_of<T>(listed: Result<T, ListError>) -> Result<(), ListError> {
    match listed {
        Ok(_) => Ok(()),
        Err(e) => Err(e),
    }
}

/// The views of `groups`, in order.
pub open spec fn group_views(groups: Seq<LogGroup>) -> Seq<LogGroupView> {
    groups.map_values(|g: LogGroup| g@)
}

/// The views of the groups found, or the error.
pub open spec fn found_groups(fetched: Result<Vec<LogGroup>, ListError>) -> Result<
    Seq<LogGroupView>,
    ListError,
> {
    match fetched {
        Ok(groups) => Ok(group_views(groups@)),
        Err(e) => Err(e),
    }
}

/// The group that a descriptor with a name stands for.
pub open spec fn described_group(descriptor: GroupDescriptor) -> LogGroupView {
    group_named(descriptor.log_group_name->0@, descriptor.stored_bytes)
}

/// Every descriptor holds a name.
pub open spec fn groups_named(descriptors: Seq<GroupDescriptor>) -> bool {
    forall|i: int| 0 <= i < descriptors.len() ==> (#[trigger] descriptors[i]).log_group_name is Some
}

/// What a call for the groups has found. A failed call is a remote error.
/// An answer without a group is an empty result. An answer in which a
/// descriptor lacks its name is of no use as a whole: a remote error.
/// Otherwise the groups are those described, in the order of the answer.
pub open spec fn listed_groups(
    response: Result<Option<Vec<GroupDescriptor>>, RemoteFailure>,
) -> Result<Seq<LogGroupView>, ListError> {
    match response {
        Err(_) => Err(ListError::RemoteError),
        Ok(None) => Err(ListError::EmptyResult),
        Ok(Some(descriptors)) => if descriptors@.len() == 0 {
            Err(ListError::EmptyResult)
        } else if !groups_named(descriptors@) {
            Err(ListError::RemoteError)
        } else {
            Ok(descriptors@.map_values(|d: GroupDescriptor| described_group(d)))
        },
    }
}

/// The three lines above the groups.
pub open spec fn groups_heading() -> Seq<SpanView> {
    seq![
        plain("\n=============================\n"@),
        plain("=== ls: Log Groups ==========\n"@),
        plain("=============================\n\n"@),
    ]
}

/// One group in the list: the group, a rule and an empty line.
pub open spec fn group_entry(group: LogGroupView) -> Seq<SpanView> {
    group.spans() + seq![plain("\n================\n\n"@)]
}

/// The groups in the list, one entry after the other.
pub open spec fn group_entries(groups: Seq<LogGroupView>) -> Seq<SpanView>
    decreases groups.len(),
{
    if groups.len() == 0 {
        Seq::empty()
    } else {
        group_entries(groups.drop_last()) + group_entry(groups.last())
    }
}

/// The listing of the groups: the heading and the entries, or the one line
/// that says that nothing was found, whatever the reason.
pub open spec fn groups_layout(listed: Result<Seq<LogGroupView>, ListError>) -> Seq<SpanView> {
    match listed {
        Ok(groups) => groups_heading() + group_entries(groups),
        Err(_) => seq![plain("No log groups found!\n"@)],
    }
}

/// Turns the answer to a call for the groups into the groups found.
pub fn get_log_groups(response: Result<Option<Vec<GroupDescriptor>>, RemoteFailure>) -> (out:
    Result<Vec<LogGroup>, ListError>)
    ensures
        found_groups(out) == listed_groups(response),
{
    let descriptors = match response {
        Err(_) => {
            return Err(ListError::RemoteError);
        },
        Ok(None) => {
            return Err(ListError::EmptyResult);
        },
        Ok(Some(descriptors)) => descriptors,
    };
    if descriptors.len() == 0 {
        return Err(ListError::EmptyResult);
    }
    let ghost all = descriptors@;
    let ghost wanted = all.map_values(|d: GroupDescriptor| described_group(d));
    let mut groups: Vec<LogGroup> = Vec::new();
    for descriptor in rest: descriptors.into_iter()
        invariant
            rest.seq() == all,
            wanted == all.map_values(|d: GroupDescriptor| described_group(d)),
            !groups_named(all) ==> listed_groups(response) == Err::<
                Seq<LogGroupView>,
                ListError,
            >(ListError::RemoteError),
            groups@.len() == rest.index(),
            forall|i: int| 0 <= i < rest.index() ==> (#[trigger] all[i]).log_group_name is Some,
            group_views(groups@) == wanted.subrange(0, rest.index()),
    {
        match LogGroup::from_descriptor(descriptor) {
            Some(group) => {
                groups.push(group);
                assert(group_views(groups@) =~= wanted.subrange(0, rest.index() + 1));
            },
            None => {
                assert(!groups_named(all));
                return Err(ListError::RemoteError);
            },
        }
    }
    assert(group_views(groups@) =~= wanted);
    Ok(groups)
}

/// Lays out the listing of the groups.
pub fn layout_groups(fetched: &Result<Vec<LogGroup>, ListError>) -> (out: Vec<Span>)
    ensures
        span_views(out@) == groups_layout(found_groups(*fetched)),
{
    let mut out: Vec<Span> = Vec::new();
    match fetched {
        Ok(groups) => {
            push_plain(&mut out, "\n=============================\n");
            push_plain(&mut out, "=== ls: Log Groups ==========\n");
            push_plain(&mut out, "=============================\n\n");
            assert(span_views(out@) =~= groups_heading());
            let ghost views = group_views(groups@);
            let mut i: usize = 0;
            while i < groups.len()
                invariant
                    i <= groups.len(),
                    views == group_views(groups@),
                    span_views(out@) == groups_heading() + group_entries(views.take(i as int)),
                decreases groups.len() - i,
            {
                let ghost before = span_views(out@);
                groups[i].write_spans(&mut out);
                push_plain(&mut out, "\n================\n\n");
                proof {
                    let shown = views.take(i + 1);
                    assert(shown.drop_last() =~= views.take(i as int));
                    assert(shown.last() == groups@[i as int]@);
                    assert(span_views(out@) =~= before + group_entry(groups@[i as int]@));
                }
                i = i + 1;
            }
            assert(views.take(groups.len() as int) =~= views);
        },
        Err(_) => {
            push_plain(&mut out, "No log groups found!\n");
            assert(span_views(out@) =~= groups_layout(found_groups(*fetched)));
        },
    }
    out
}

/// Lists the groups: takes the answer to the call for the groups and gives
/// the text to show and the outcome.
pub fn ls_log_groups(response: Result<Option<Vec<GroupDescriptor>>, RemoteFailure>) -> (out:
    Listing)
    ensures
        out.outcome == outcome_of(listed_groups(response)),
        is_rendering(out.text@, groups_layout(listed_groups(response))),
{
    let fetched = get_log_groups(response);
    let spans = layout_groups(&fetched);
    let outcome = match fetched {
        Ok(_) => Ok(()),
        Err(e) => Err(e),
    };
    Listing { text: render(&spans), outcome }
}

/// The views of `streams`, in order.
pub open spec fn stream_views(streams: Seq<LogStream>) -> Seq<LogStreamView> {
    streams.map_values(|s: LogStream| s@)
}

/// The views of the streams found, or the error.
pub open spec fn found_streams(fetched: Result<Vec<LogStream>, ListError>) -> Result<
    Seq<LogStreamView>,
    ListError,
> {
    match fetched {
        Ok(streams) => Ok(stream_views(streams@)),
        Err(e) => Err(e),
    }
}

/// The stream of `group` that a descriptor with a name stands for.
pub open spec fn described_stream(
    descriptor: StreamDescriptor,
    group: LogGroupView,
) -> LogStreamView {
    LogStreamView::fresh(descriptor.log_stream_name->0@, group)
}

/// Every descriptor holds a name.
pub open spec fn streams_named(descriptors: Seq<StreamDescriptor>) -> bool {
    forall|i: int|
        0 <= i < descriptors.len() ==> (#[trigger] descriptors[i]).log_stream_name is Some
}

/// What a call for the streams of `group` has found. A failed call is a
/// remote error. An answer without a stream is an empty result. An answer
/// in which a descriptor lacks its name is of no use as a whole: a remote
/// error. Otherwise the streams are those described, in the order of the
/// answer, each in `group` and before any fetch.
pub open spec fn listed_streams(
    group: LogGroupView,
    response: Result<Option<Vec<StreamDescriptor>>, RemoteFailure>,
) -> Result<Seq<LogStreamView>, ListError> {
    match response {
        Err(_) => Err(ListError::RemoteError),
        Ok(None) => Err(ListError::EmptyResult),
        Ok(Some(descriptors)) => if descriptors@.len() == 0 {
            Err(ListError::EmptyResult)
        } else if !streams_named(descriptors@) {
            Err(ListError::RemoteError)
        } else {
            Ok(descriptors@.map_values(|d: StreamDescriptor| described_stream(d, group)))
        },
    }
}

/// The lines above the streams: a title and the group.
pub open spec fn streams_heading(group: LogGroupView) -> Seq<SpanView> {
    seq![
        plain("\n=============================\n"@),
        plain("=== ls: Log Streams =========\n"@),
        plain("=============================\n"@),
        plain("for Log Group:\n"@),
    ] + group.spans() + seq![plain("\n"@), plain("=============================\n\n"@)]
}

/// One stream in the list: the stream and a line end.
pub open spec fn stream_entry(stream: LogStreamView) -> Seq<SpanView> {
    stream.spans() + seq![plain("\n"@)]
}

/// The streams in the list, one entry after the other.
pub open spec fn stream_entries(streams: Seq<LogStreamView>) -> Seq<SpanView>
    decreases streams.len(),
{
    if streams.len() == 0 {
        Seq::empty()
    } else {
        stream_entries(streams.drop_last()) + stream_entry(streams.last())
    }
}

/// The listing of the streams of `group`: the heading, then the entries or
/// the one line that says that nothing was found, whatever the reason.
pub open spec fn streams_layout(
    group: LogGroupView,
    listed: Result<Seq<LogStreamView>, ListError>,
) -> Seq<SpanView> {
    streams_heading(group) + match listed {
        Ok(streams) => stream_entries(streams),
        Err(_) => seq![plain("No log groups found!\n"@)],
    }
}

/// Turns the answer to a call for the streams of `group` into the streams
/// found. Each stream shares `group`.
pub fn get_log_streams_for(
    group: Rc<LogGroup>,
    response: Result<Option<Vec<StreamDescriptor>>, RemoteFailure>,
) -> (out: Result<Vec<LogStream>, ListError>)
    ensures
        found_streams(out) == listed_streams(group@, response),
{
    let descriptors = match response {
        Err(_) => {
            return Err(ListError::RemoteError);
        },
        Ok(None) => {
            return Err(ListError::EmptyResult);
        },
        Ok(Some(descriptors)) => descriptors,
    };
    if descriptors.len() == 0 {
        return Err(ListError::EmptyResult);
    }
    let ghost all = descriptors@;
    let ghost wanted = all.map_values(|d: StreamDescriptor| described_stream(d, group@));
    let mut streams: Vec<LogStream> = Vec::new();
    for descriptor in rest: descriptors.into_iter()
        invariant
            rest.seq() == all,
            wanted == all.map_values(|d: StreamDescriptor| described_stream(d, group@)),
            !streams_named(all) ==> listed_streams(group@, response) == Err::<
                Seq<LogStreamView>,
                ListError,
            >(ListError::RemoteError),
            streams@.len() == rest.index(),
            forall|i: int| 0 <= i < rest.index() ==> (#[trigger] all[i]).log_stream_name is Some,
            stream_views(streams@) == wanted.subrange(0, rest.index()),
    {
        match descriptor.log_stream_name {
            Some(name) => {
                streams.push(LogStream::new(name, Rc::clone(&group)));
                assert(stream_views(streams@) =~= wanted.subrange(0, rest.index() + 1));
            },
            None => {
                assert(!streams_named(all));
                return Err(ListError::RemoteError);
            },
        }
    }
    assert(stream_views(streams@) =~= wanted);
    Ok(streams)
}

/// Lays out the listing of the streams of `group`.
pub fn layout_streams(group: &LogGroup, fetched: &Result<Vec<LogStream>, ListError>) -> (out: Vec<
    Span,
>)
    ensures
        span_views(out@) == streams_layout(group@, found_streams(*fetched)),
{
    let mut out: Vec<Span> = Vec::new();
    push_plain(&mut out, "\n=============================\n");
    push_plain(&mut out, "=== ls: Log Streams =========\n");
    push_plain(&mut out, "=============================\n");
    push_plain(&mut out, "for Log Group:\n");
    group.write_spans(&mut out);
    push_plain(&mut out, "\n");
    push_plain(&mut out, "=============================\n\n");
    assert(span_views(out@) =~= streams_heading(group@));
    match fetched {
        Ok(streams) => {
            let ghost views = stream_views(streams@);
            let mut i: usize = 0;
            while i < streams.len()
                invariant
                    i <= streams.len(),
                    views == stream_views(streams@),
                    span_views(out@) == streams_heading(group@) + stream_entries(
                        views.take(i as int),
                    ),
                decreases streams.len() - i,
            {
                let ghost before = span_views(out@);
                streams[i].write_spans(&mut out);
                push_plain(&mut out, "\n");
                proof {
                    let shown = views.take(i + 1);
                    assert(shown.drop_last() =~= views.take(i as int));
                    assert(shown.last() == streams@[i as int]@);
                    assert(span_views(out@) =~= before + stream_entry(streams@[i as int]@));
                }
                i = i + 1;
            }
            assert(views.take(streams.len() as int) =~= views);
        },
        Err(_) => {
            push_plain(&mut out, "No log groups found!\n");
            assert(span_views(out@) =~= streams_layout(group@, found_streams(*fetched)));
        },
    }
    out
}

/// Lists the streams of `group`: takes the answer to the call for the
/// streams and gives the text to show and the outcome.
pub fn ls_log_streams_for(
    group: Rc<LogGroup>,
    response: Result<Option<Vec<StreamDescriptor>>, RemoteFailure>,
) -> (out: Listing)
    ensures
        out.outcome == outcome_of(listed_streams(group@, response)),
        is_rendering(out.text@, streams_layout(group@, listed_streams(group@, response))),
{
    let fetched = get_log_streams_for(Rc::clone(&group), response);
    let spans = layout_streams(&group, &fetched);
    let outcome = match fetched {
        Ok(_) => Ok(()),
        Err(e) => Err(e),
    };
    Listing { text: render(&spans), outcome }
}

/// Where an event stands in its page.
#[derive(Clone, Copy, Debug, PartialEq, Eq, Structural)]
pub enum Mark {
    /// The only event of a page: its first and its last at once.
    Only,
    /// The first event of a page of two or more.
    Begin,
    /// The last event of a page of two or more.
    End,
    /// Any other event.
    Inner,
}

/// The mark of the event at index `at` in a page of `count` events: the
/// first event is the beginning, the last is the end, and the event of a
/// page of one is both.
pub open spec fn mark_at(at: int, count: int) -> Mark {
    if at == 0 && at == count - 1 {
        Mark::Only
    } else if at == 0 {
        Mark::Begin
    } else if at == count - 1 {
        Mark::End
    } else {
        Mark::Inner
    }
}

/// The lines that open a page, with the two times of `event` above the
/// opening line.
pub open spec fn opening_block(event: LogEventView) -> Seq<SpanView> {
    event_times("Timestamp: "@, event, "\n=== BEGIN STREAM ===\n\n"@)
}

/// The lines that close a page, with the two times of `event` below the
/// closing line.
pub open spec fn closing_block(event: LogEventView) -> Seq<SpanView> {
    event_times("\n=== END STREAM ===\nTimestamp: "@, event, "\n\n"@)
}

/// The number shown for a time: -1 where the time is not known.
pub open spec fn shown_time(time: Option<i64>) -> int {
    match time {
        Some(t) => t as int,
        None => -1,
    }
}

/// The message of an event: empty where the event holds none.
pub open spec fn shown_message(event: LogEventView) -> Seq<char> {
    match event.message {
        Some(message) => message,
        None => Seq::empty(),
    }
}

/// The two numbers above a marked event, with `before` in front of them,
/// and `after` behind them.
pub open spec fn event_times(
    before: Seq<char>,
    event: LogEventView,
    after: Seq<char>,
) -> Seq<SpanView> {
    seq![
        plain(before),
        tinted(decimal(shown_time(event.timestamp)), Tint::Red),
        plain("\nIngestion: "@),
        tinted(decimal(shown_time(event.ingestion_time)), Tint::Red),
        plain(after),
    ]
}

/// One event in the list. The first event of a page has the opening block
/// above its message and the last has the closing block above its message;
/// the only event of a page has both, the opening block first; any other
/// event is its message alone. The message ends its line.
pub open spec fn event_entry(event: LogEventView, mark: Mark) -> Seq<SpanView> {
    let message = seq![plain(shown_message(event)), plain("\n"@)];
    match mark {
        Mark::Only => opening_block(event) + closing_block(event) + message,
        Mark::Begin => opening_block(event) + message,
        Mark::End => closing_block(event) + message,
        Mark::Inner => message,
    }
}

/// The first `upto` events of the page, one entry after the other.
pub open spec fn event_entries(events: Seq<LogEventView>, upto: int) -> Seq<SpanView>
    decreases upto,
{
    if upto <= 0 {
        Seq::empty()
    } else {
        event_entries(events, upto - 1) + event_entry(
            events[upto - 1],
            mark_at(upto - 1, events.len() as int),
        )
    }
}

/// The views of the events found, or the error.
pub open spec fn found_events(fetched: Result<Vec<LogEvent>, ListError>) -> Result<
    Seq<LogEventView>,
    ListError,
> {
    match fetched {
        Ok(events) => Ok(event_views(events@)),
        Err(e) => Err(e),
    }
}

/// What a call for the events of a stream has found. A failed call is a
/// remote error. An answer without an event is an empty result. Otherwise
/// the events are those of the answer, in its order.
pub open spec fn listed_events(response: Result<EventsPage, RemoteFailure>) -> Result<
    Seq<LogEventView>,
    ListError,
> {
    match response {
        Err(_) => Err(ListError::RemoteError),
        Ok(page) => match page.events {
            None => Err(ListError::EmptyResult),
            Some(events) => if events@.len() == 0 {
                Err(ListError::EmptyResult)
            } else {
                Ok(event_views(events@))
            },
        },
    }
}

/// The lines above the events: a title, the stream and its group.
pub open spec fn events_heading(stream: LogStreamView) -> Seq<SpanView> {
    seq![
        plain("\n=============================\n"@),
        plain("=== ls: Log Events ==========\n"@),
        plain("=============================\n"@),
        plain("for Log Stream:\n"@),
    ] + stream.spans() + seq![plain("\n"@)] + stream.group.spans() + seq![
        plain("\n"@),
        plain("=============================\n\n"@),
    ]
}

/// The listing of one page of events of `stream`: the heading, then the
/// entries or the one line that says that nothing was found, whatever the
/// reason.
pub open spec fn events_layout(
    stream: LogStreamView,
    listed: Result<Seq<LogEventView>, ListError>,
) -> Seq<SpanView> {
    events_heading(stream) + match listed {
        Ok(events) => event_entries(events, events.len() as int),
        Err(_) => seq![plain("No log streams found!\n"@)],
    }
}

/// Turns the answer to a call for one page of events into the events
/// found.
pub fn get_log_events_for(response: Result<EventsPage, RemoteFailure>) -> (out: Result<
    Vec<LogEvent>,
    ListError,
>)
    ensures
        found_events(out) == listed_events(response),
{
    match response {
        Err(_) => Err(ListError::RemoteError),
        Ok(page) => match page.events {
            None => Err(ListError::EmptyResult),
            Some(events) => if events.len() == 0 {
                Err(ListError::EmptyResult)
            } else {
                Ok(events)
            },
        },
    }
}

/// The mark of the event at index `at` in a page of `count` events.
pub fn mark_of(at: usize, count: usize) -> (mark: Mark)
    ensures
        mark == mark_at(at as int, count as int),
{
    if at == 0 && count == 1 {
        Mark::Only
    } else if at == 0 {
        Mark::Begin
    } else if count > 0 && at == count - 1 {
        Mark::End
    } else {
        Mark::Inner
    }
}

/// Appends the two times of `event` to `out`, with `before` in front of
/// them and `after` behind them.
fn write_times(out: &mut Vec<Span>, before: &str, event: &LogEvent, after: &str)
    ensures
        span_views(final(out)@) == span_views(old(out)@) + event_times(before@, event@, after@),
{
    let timestamp: i64 = match event.timestamp {
        Some(t) => t,
        None => -1,
    };
    let ingestion: i64 = match event.ingestion_time {
        Some(t) => t,
        None => -1,
    };
    push_plain(out, before);
    push_tinted(out, decimal_text(timestamp), Tint::Red);
    push_plain(out, "\nIngestion: ");
    push_tinted(out, decimal_text(ingestion), Tint::Red);
    push_plain(out, after);
    assert(span_views(out@) =~= span_views(old(out)@) + event_times(before@, event@, after@));
}

/// Appends `event`, as the list shows it under `mark`, to `out`.
pub fn write_event(out: &mut Vec<Span>, event: &LogEvent, mark: Mark)
    ensures
        span_views(final(out)@) == span_views(old(out)@) + event_entry(event@, mark),
{
    match mark {
        Mark::Only => {
            write_times(out, "Timestamp: ", event, "\n=== BEGIN STREAM ===\n\n");
            write_times(out, "\n=== END STREAM ===\nTimestamp: ", event, "\n\n");
        },
        Mark::Begin => {
            write_times(out, "Timestamp: ", event, "\n=== BEGIN STREAM ===\n\n");
        },
        Mark::End => {
            write_times(out, "\n=== END STREAM ===\nTimestamp: ", event, "\n\n");
        },
        Mark::Inner => {},
    }
    match &event.message {
        Some(message) => {
            push_plain(out, message.as_str());
        },
        None => {
            proof {
                reveal_strlit("");
            }
            push_plain(out, "");
            assert(""@ =~= Seq::<char>::empty());
        },
    }
    push_plain(out, "\n");
    assert(span_views(out@) =~= span_views(old(out)@) + event_entry(event@, mark));
}

/// Lays out the listing of one page of events of `stream`.
pub fn layout_events(stream: &LogStream, fetched: &Result<Vec<LogEvent>, ListError>) -> (out: Vec<
    Span,
>)
    ensures
        span_views(out@) == events_layout(stream@, found_events(*fetched)),
{
    let mut out: Vec<Span> = Vec::new();
    push_plain(&mut out, "\n=============================\n");
    push_plain(&mut out, "=== ls: Log Events ==========\n");
    push_plain(&mut out, "=============================\n");
    push_plain(&mut out, "for Log Stream:\n");
    stream.write_spans(&mut out);
    push_plain(&mut out, "\n");
    stream.group().write_spans(&mut out);
    push_plain(&mut out, "\n");
    push_plain(&mut out, "=============================\n\n");
    assert(span_views(out@) =~= events_heading(stream@));
    match fetched {
        Ok(events) => {
            let ghost views = event_views(events@);
            let count: usize = events.len();
            let mut i: usize = 0;
            while i < count
                invariant
                    i <= count,
                    count == events.len(),
                    views == event_views(events@),
                    span_views(out@) == events_heading(stream@) + event_entries(views, i as int),
                decreases count - i,
            {
                let ghost before = span_views(out@);
                write_event(&mut out, &events[i], mark_of(i, count));
                proof {
                    assert(views[i as int] == events@[i as int]@);
                    assert(span_views(out@) =~= events_heading(stream@) + event_entries(
                        views,
                        i + 1,
                    ));
                }
                i = i + 1;
            }
        },
        Err(_) => {
            push_plain(&mut out, "No log streams found!\n");
            assert(span_views(out@) =~= events_layout(stream@, found_events(*fetched)));
        },
    }
    out
}

/// Lists one page of events of `stream`: takes the answer to the call for
/// the first page and gives the text to show and the outcome.
pub fn ls_log_events_for(stream: LogStream, response: Result<EventsPage, RemoteFailure>) -> (out:
    Listing)
    ensures
        out.outcome == outcome_of(listed_events(response)),
        is_rendering(out.text@, events_layout(stream@, listed_events(response))),
{
    let fetched = get_log_events_for(response);
    let spans = layout_events(&stream, &fetched);
    let outcome = match fetched {
        Ok(_) => Ok(()),
        Err(e) => Err(e),
    };
    Listing { text: render(&spans), outcome }
}

} // verus!
