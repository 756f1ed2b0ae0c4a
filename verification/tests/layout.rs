use cw_cli::error::ListError;
use cw_cli::group::LogGroup;
use cw_cli::listing::{
    get_log_events_for, get_log_groups, get_log_streams_for, layout_events, layout_groups,
    layout_streams, mark_of, write_event, Mark,
};
use cw_cli::error::RemoteFailure;
use cw_cli::group::GroupDescriptor;
use cw_cli::paint::{push_plain, push_tinted, Span, Tint};
use cw_cli::service::AmazonService;
use cw_cli::stream::{EventsPage, LogEvent, LogStream, StreamDescriptor};
use std::rc::Rc;

fn plain(text: &str) -> Span {
    Span { text: String::from(text), tint: Tint::Plain }
}

fn tinted(text: &str, tint: Tint) -> Span {
    Span { text: String::from(text), tint }
}

fn event(timestamp: Option<i64>, ingestion_time: Option<i64>, message: Option<&str>) -> LogEvent {
    LogEvent { timestamp, ingestion_time, message: message.map(String::from) }
}

fn texts(spans: &Vec<Span>) -> String {
    let mut out = String::new();
    for span in spans {
        out.push_str(&span.text);
    }
    out
}

#[test]
fn marks_of_a_page_of_three() {
    assert_eq!(mark_of(0, 3), Mark::Begin);
    assert_eq!(mark_of(1, 3), Mark::Inner);
    assert_eq!(mark_of(2, 3), Mark::End);
}

#[test]
fn mark_of_an_only_event_is_only() {
    assert_eq!(mark_of(0, 1), Mark::Only);
}

#[test]
fn only_event_has_both_blocks_above_its_message() {
    let mut out = Vec::new();
    write_event(&mut out, &event(Some(1), Some(11), Some("only")), Mark::Only);
    assert_eq!(
        out,
        vec![
            plain("Timestamp: "),
            tinted("1", Tint::Red),
            plain("\nIngestion: "),
            tinted("11", Tint::Red),
            plain("\n=== BEGIN STREAM ===\n\n"),
            plain("\n=== END STREAM ===\nTimestamp: "),
            tinted("1", Tint::Red),
            plain("\nIngestion: "),
            tinted("11", Tint::Red),
            plain("\n\n"),
            plain("only"),
            plain("\n"),
        ]
    );
}

#[test]
fn events_layout_of_one_event_has_begin_and_end() {
    let stream = LogStream::new(String::from("S"), Rc::new(LogGroup::new(String::from("G"))));
    let out = layout_events(&stream, &Ok(vec![event(Some(1), Some(11), Some("only"))]));
    let heading = 4 + 2 + 1 + 6 + 2;
    assert_eq!(out.len(), heading + 12);
    assert_eq!(out[heading + 4], plain("\n=== BEGIN STREAM ===\n\n"));
    assert_eq!(out[heading + 5], plain("\n=== END STREAM ===\nTimestamp: "));
    assert_eq!(out[heading + 10], plain("only"));
    let begins = out.iter().filter(|s| s.text.contains("=== BEGIN STREAM ===")).count();
    let ends = out.iter().filter(|s| s.text.contains("=== END STREAM ===")).count();
    assert_eq!((begins, ends), (1, 1));
}

#[test]
fn marks_of_a_page_of_two() {
    assert_eq!(mark_of(0, 2), Mark::Begin);
    assert_eq!(mark_of(1, 2), Mark::End);
}

#[test]
fn marks_outside_a_page() {
    assert_eq!(mark_of(0, 0), Mark::Begin);
    assert_eq!(mark_of(5, 0), Mark::Inner);
    assert_eq!(mark_of(7, 3), Mark::Inner);
    assert_eq!(mark_of(usize::MAX, usize::MAX), Mark::Inner);
    assert_eq!(mark_of(usize::MAX - 1, usize::MAX), Mark::End);
}

#[test]
fn pushed_spans_go_to_the_end() {
    let mut out = vec![plain("a")];
    push_plain(&mut out, "b");
    push_tinted(&mut out, String::from("c"), Tint::Red);
    assert_eq!(out, vec![plain("a"), plain("b"), tinted("c", Tint::Red)]);
}

#[test]
fn service_is_one_span() {
    let mut out = vec![plain("x")];
    AmazonService::Lambda.write_spans(&mut out);
    AmazonService::Unknown.write_spans(&mut out);
    assert_eq!(
        out,
        vec![plain("x"), tinted("AWS Lambda", Tint::Green), tinted("Unknown", Tint::RedOnYellow)]
    );
}

#[test]
fn first_event_has_times_and_begin_line_above_its_message() {
    let mut out = Vec::new();
    write_event(&mut out, &event(Some(1), Some(2), Some("m")), Mark::Begin);
    assert_eq!(
        out,
        vec![
            plain("Timestamp: "),
            tinted("1", Tint::Red),
            plain("\nIngestion: "),
            tinted("2", Tint::Red),
            plain("\n=== BEGIN STREAM ===\n\n"),
            plain("m"),
            plain("\n"),
        ]
    );
}

#[test]
fn last_event_has_end_line_and_times_above_its_message() {
    let mut out = Vec::new();
    write_event(&mut out, &event(Some(-5), None, Some("m")), Mark::End);
    assert_eq!(
        out,
        vec![
            plain("\n=== END STREAM ===\nTimestamp: "),
            tinted("-5", Tint::Red),
            plain("\nIngestion: "),
            tinted("-1", Tint::Red),
            plain("\n\n"),
            plain("m"),
            plain("\n"),
        ]
    );
}

#[test]
fn inner_event_is_its_message_alone() {
    let mut out = vec![plain("before")];
    write_event(&mut out, &event(Some(1), Some(2), Some("m")), Mark::Inner);
    assert_eq!(out, vec![plain("before"), plain("m"), plain("\n")]);
}

#[test]
fn event_without_message_is_an_empty_line() {
    let mut out = Vec::new();
    write_event(&mut out, &event(Some(1), Some(2), None), Mark::Inner);
    assert_eq!(out, vec![plain(""), plain("\n")]);
}

#[test]
fn groups_layout_is_heading_and_entries() {
    let groups = vec![LogGroup::new(String::from("one")), LogGroup::new(String::from("two"))];
    let first = groups[0].spans();
    let second = groups[1].spans();
    let out = layout_groups(&Ok(groups));
    let mut wanted = vec![
        plain("\n=============================\n"),
        plain("=== ls: Log Groups ==========\n"),
        plain("=============================\n\n"),
    ];
    wanted.extend(first);
    wanted.push(plain("\n================\n\n"));
    wanted.extend(second);
    wanted.push(plain("\n================\n\n"));
    assert_eq!(out, wanted);
}

#[test]
fn groups_layout_of_any_error_is_one_line() {
    for error in [ListError::RemoteError, ListError::EmptyResult, ListError::UserInputError] {
        assert_eq!(layout_groups(&Err(error)), vec![plain("No log groups found!\n")]);
    }
}

#[test]
fn groups_layout_of_no_group_is_the_heading() {
    let out = layout_groups(&Ok(Vec::new()));
    assert_eq!(
        texts(&out),
        "\n=============================\n=== ls: Log Groups ==========\n=============================\n\n"
    );
}

#[test]
fn streams_layout_is_heading_group_and_entries() {
    let group = Rc::new(LogGroup::new(String::from("/aws/lambda/f")));
    let streams = vec![
        LogStream::new(String::from("s1"), Rc::clone(&group)),
        LogStream::new(String::from("s2"), Rc::clone(&group)),
    ];
    let out = layout_streams(&group, &Ok(streams));
    let mut wanted = vec![
        plain("\n=============================\n"),
        plain("=== ls: Log Streams =========\n"),
        plain("=============================\n"),
        plain("for Log Group:\n"),
    ];
    wanted.extend(group.spans());
    wanted.push(plain("\n"));
    wanted.push(plain("=============================\n\n"));
    wanted.push(plain("Stream Name: "));
    wanted.push(tinted("s1", Tint::Green));
    wanted.push(plain("\n"));
    wanted.push(plain("Stream Name: "));
    wanted.push(tinted("s2", Tint::Green));
    wanted.push(plain("\n"));
    assert_eq!(out, wanted);
}

#[test]
fn streams_layout_of_an_error_ends_with_one_line() {
    let group = LogGroup::new(String::from("g"));
    let out = layout_streams(&group, &Err(ListError::EmptyResult));
    assert_eq!(out.last(), Some(&plain("No log groups found!\n")));
    assert_eq!(out.len(), 4 + 6 + 2 + 1);
}

#[test]
fn events_layout_marks_first_and_last() {
    let stream = LogStream::new(String::from("S"), Rc::new(LogGroup::new(String::from("G"))));
    let events = vec![
        event(Some(1), Some(11), Some("one")),
        event(Some(2), Some(12), Some("two")),
        event(Some(3), Some(13), Some("three")),
    ];
    let out = layout_events(&stream, &Ok(events));
    let heading = 4 + 2 + 1 + 6 + 2;
    assert_eq!(out.len(), heading + 7 + 2 + 7);
    assert_eq!(out[heading + 4], plain("\n=== BEGIN STREAM ===\n\n"));
    assert_eq!(out[heading + 5], plain("one"));
    assert_eq!(out[heading + 7], plain("two"));
    assert_eq!(out[heading + 9], plain("\n=== END STREAM ===\nTimestamp: "));
    assert_eq!(out[heading + 10], tinted("3", Tint::Red));
    assert_eq!(out[heading + 12], tinted("13", Tint::Red));
    assert_eq!(out[heading + 14], plain("three"));
    assert_eq!(
        texts(&out),
        "\n=============================\n=== ls: Log Events ==========\n=============================\nfor Log Stream:\nStream Name: S\nGroup Name: G\nService: Unknown\nStored bytes: -1\n=============================\n\nTimestamp: 1\nIngestion: 11\n=== BEGIN STREAM ===\n\none\ntwo\n\n=== END STREAM ===\nTimestamp: 3\nIngestion: 13\n\nthree\n"
    );
}

#[test]
fn events_layout_of_an_error_ends_with_one_line() {
    let stream = LogStream::new(String::from("S"), Rc::new(LogGroup::new(String::from("G"))));
    let out = layout_events(&stream, &Err(ListError::RemoteError));
    assert_eq!(out.last(), Some(&plain("No log streams found!\n")));
    assert_eq!(out.len(), 4 + 2 + 1 + 6 + 2 + 1);
}

#[test]
fn groups_found_are_those_described() {
    let found = get_log_groups(Ok(Some(vec![
        GroupDescriptor { log_group_name: Some(String::from("/aws/lambda/a")), stored_bytes: Some(9) },
        GroupDescriptor { log_group_name: Some(String::from("b")), stored_bytes: None },
    ])))
    .unwrap();
    assert_eq!(found.len(), 2);
    assert_eq!(found[0].name(), "/aws/lambda/a");
    assert_eq!(found[0].service(), AmazonService::Lambda);
    assert_eq!(found[0].stored_bytes(), Some(9));
    assert_eq!(found[1].name(), "b");
    assert_eq!(found[1].service(), AmazonService::Unknown);
    assert_eq!(found[1].stored_bytes(), None);
}

#[test]
fn groups_not_found() {
    assert_eq!(get_log_groups(Err(RemoteFailure {})).unwrap_err(), ListError::RemoteError);
    assert_eq!(get_log_groups(Ok(None)).unwrap_err(), ListError::EmptyResult);
    assert_eq!(get_log_groups(Ok(Some(Vec::new()))).unwrap_err(), ListError::EmptyResult);
    let nameless = vec![GroupDescriptor { log_group_name: None, stored_bytes: None }];
    assert_eq!(get_log_groups(Ok(Some(nameless))).unwrap_err(), ListError::RemoteError);
}

#[test]
fn streams_found_share_the_group() {
    let group = Rc::new(LogGroup::new(String::from("g")));
    let found = get_log_streams_for(
        Rc::clone(&group),
        Ok(Some(vec![
            StreamDescriptor { log_stream_name: Some(String::from("s1")) },
            StreamDescriptor { log_stream_name: Some(String::from("s2")) },
        ])),
    )
    .unwrap();
    assert_eq!(found.len(), 2);
    assert_eq!(found[0].name(), "s1");
    assert_eq!(found[1].name(), "s2");
    for stream in &found {
        assert!(Rc::ptr_eq(stream.group(), &group));
        assert_eq!(stream.events_page(), &None);
        assert_eq!(stream.next_page(), &None);
        assert_eq!(stream.prev_page(), &None);
    }
}

#[test]
fn streams_not_found() {
    let group = Rc::new(LogGroup::new(String::from("g")));
    assert_eq!(
        get_log_streams_for(Rc::clone(&group), Err(RemoteFailure {})).unwrap_err(),
        ListError::RemoteError
    );
    assert_eq!(
        get_log_streams_for(Rc::clone(&group), Ok(None)).unwrap_err(),
        ListError::EmptyResult
    );
    assert_eq!(
        get_log_streams_for(Rc::clone(&group), Ok(Some(Vec::new()))).unwrap_err(),
        ListError::EmptyResult
    );
    let nameless = vec![StreamDescriptor { log_stream_name: None }];
    assert_eq!(
        get_log_streams_for(group, Ok(Some(nameless))).unwrap_err(),
        ListError::RemoteError
    );
}

#[test]
fn events_found_are_those_of_the_answer() {
    let events = vec![event(Some(1), None, Some("a")), event(None, Some(2), None)];
    let page = EventsPage {
        events: Some(events.clone()),
        next_forward_token: Some(String::from("f")),
        next_backward_token: None,
    };
    assert_eq!(get_log_events_for(Ok(page)), Ok(events));
}

#[test]
fn events_not_found() {
    assert_eq!(get_log_events_for(Err(RemoteFailure {})), Err(ListError::RemoteError));
    let without_list =
        EventsPage { events: None, next_forward_token: None, next_backward_token: None };
    assert_eq!(get_log_events_for(Ok(without_list)), Err(ListError::EmptyResult));
    let empty = EventsPage {
        events: Some(Vec::new()),
        next_forward_token: Some(String::from("f")),
        next_backward_token: Some(String::from("b")),
    };
    assert_eq!(get_log_events_for(Ok(empty)), Err(ListError::EmptyResult));
}
