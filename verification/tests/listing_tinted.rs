use colored::control::set_override;
use cw_cli::group::{GroupDescriptor, LogGroup};
use cw_cli::listing::{ls_log_events_for, ls_log_groups};
use cw_cli::paint::{paint, render, Span, Tint};
use cw_cli::service::AmazonService;
use cw_cli::stream::{EventsPage, LogEvent, LogStream};
use std::rc::Rc;

#[test]
fn plain_text_is_never_framed() {
    set_override(true);
    assert_eq!(paint("text", Tint::Plain), "text");
    assert_eq!(paint("", Tint::Plain), "");
}

#[test]
fn green_text_is_framed() {
    set_override(true);
    assert_eq!(paint("text", Tint::Green), "\x1b[32mtext\x1b[0m");
}

#[test]
fn red_text_is_framed() {
    set_override(true);
    assert_eq!(paint("text", Tint::Red), "\x1b[31mtext\x1b[0m");
}

#[test]
fn red_on_yellow_text_is_framed() {
    set_override(true);
    assert_eq!(paint("text", Tint::RedOnYellow), "\x1b[43;31mtext\x1b[0m");
}

#[test]
fn blue_bold_text_is_framed() {
    set_override(true);
    assert_eq!(paint("text", Tint::BlueBold), "\x1b[1;34mtext\x1b[0m");
}

#[test]
fn empty_text_is_framed_too() {
    set_override(true);
    assert_eq!(paint("", Tint::Green), "\x1b[32m\x1b[0m");
}

#[test]
fn tint_is_opened_again_after_a_reset_inside_the_text() {
    set_override(true);
    assert_eq!(paint("a\x1b[0mb", Tint::Green), "\x1b[32ma\x1b[0m\x1b[32mb\x1b[0m");
    assert_eq!(paint("a\x1b[0mb", Tint::Red), "\x1b[31ma\x1b[0m\x1b[31mb\x1b[0m");
    assert_eq!(
        paint("a\x1b[0mb", Tint::RedOnYellow),
        "\x1b[43;31ma\x1b[0m\x1b[43;31mb\x1b[0m"
    );
    assert_eq!(paint("a\x1b[0mb", Tint::BlueBold), "\x1b[1;34ma\x1b[0m\x1b[1;34mb\x1b[0m");
}

#[test]
fn every_reset_inside_the_text_is_followed_by_the_tint() {
    set_override(true);
    assert_eq!(
        paint("\x1b[0m\x1b[0m", Tint::Green),
        "\x1b[32m\x1b[0m\x1b[32m\x1b[0m\x1b[32m\x1b[0m"
    );
    assert_eq!(paint("x\x1b[0m", Tint::Red), "\x1b[31mx\x1b[0m\x1b[31m\x1b[0m");
    assert_eq!(
        paint("é\x1b[0mé\x1b[0mé", Tint::Green),
        "\x1b[32mé\x1b[0m\x1b[32mé\x1b[0m\x1b[32mé\x1b[0m"
    );
}

#[test]
fn other_escape_sequences_inside_the_text_stay_as_they_are() {
    set_override(true);
    assert_eq!(paint("a\x1b[1mb", Tint::Green), "\x1b[32ma\x1b[1mb\x1b[0m");
    assert_eq!(paint("\x1b[0", Tint::Green), "\x1b[32m\x1b[0\x1b[0m");
    assert_eq!(paint("\x1b", Tint::Red), "\x1b[31m\x1b\x1b[0m");
    assert_eq!(paint("[0m", Tint::Red), "\x1b[31m[0m\x1b[0m");
}

#[test]
fn group_name_with_a_reset_keeps_the_tint_to_its_end() {
    set_override(true);
    let group = LogGroup::new(String::from("a\x1b[0mb"));
    assert_eq!(
        group.to_text(),
        "Group Name: \x1b[1;34ma\x1b[0m\x1b[1;34mb\x1b[0m\nService: \x1b[43;31mUnknown\x1b[0m\nStored bytes: \x1b[31m-1\x1b[0m"
    );
}

#[test]
fn rendering_frames_each_tinted_span() {
    set_override(true);
    let spans = vec![
        Span { text: String::from("a "), tint: Tint::Plain },
        Span { text: String::from("b"), tint: Tint::Green },
        Span { text: String::from(" c "), tint: Tint::Plain },
        Span { text: String::from("d"), tint: Tint::Red },
    ];
    assert_eq!(render(&spans), "a \x1b[32mb\x1b[0m c \x1b[31md\x1b[0m");
}

#[test]
fn services_show_in_their_tints() {
    set_override(true);
    assert_eq!(AmazonService::Lambda.to_text(), "\x1b[32mAWS Lambda\x1b[0m");
    assert_eq!(AmazonService::Unknown.to_text(), "\x1b[43;31mUnknown\x1b[0m");
}

#[test]
fn group_shows_in_its_tints() {
    set_override(true);
    let group = LogGroup::from_descriptor(GroupDescriptor {
        log_group_name: Some(String::from("/aws/lambda/my-fn")),
        stored_bytes: Some(77),
    })
    .unwrap();
    assert_eq!(
        group.to_text(),
        "Group Name: \x1b[1;34m/aws/lambda/my-fn\x1b[0m\nService: \x1b[32mAWS Lambda\x1b[0m\nStored bytes: \x1b[31m77\x1b[0m"
    );
}

#[test]
fn stream_shows_in_green() {
    set_override(true);
    let stream = LogStream::new(String::from("S"), Rc::new(LogGroup::new(String::from("G"))));
    assert_eq!(stream.to_text(), "Stream Name: \x1b[32mS\x1b[0m");
}

#[test]
fn listed_group_shows_in_its_tints() {
    set_override(true);
    let listing = ls_log_groups(Ok(Some(vec![GroupDescriptor {
        log_group_name: Some(String::from("custom-app")),
        stored_bytes: None,
    }])));
    assert_eq!(listing.outcome, Ok(()));
    assert!(listing.text.ends_with(
        "Group Name: \x1b[1;34mcustom-app\x1b[0m\nService: \x1b[43;31mUnknown\x1b[0m\nStored bytes: \x1b[31m-1\x1b[0m\n================\n\n"
    ));
}

#[test]
fn times_of_events_show_in_red_and_messages_untouched() {
    set_override(true);
    let stream = LogStream::new(String::from("S"), Rc::new(LogGroup::new(String::from("G"))));
    let events = vec![
        LogEvent { timestamp: Some(1), ingestion_time: Some(2), message: Some(String::from("m1")) },
        LogEvent { timestamp: Some(3), ingestion_time: None, message: Some(String::from("m2")) },
    ];
    let page =
        EventsPage { events: Some(events), next_forward_token: None, next_backward_token: None };
    let listing = ls_log_events_for(stream, Ok(page));
    assert!(listing.text.ends_with(
        "Timestamp: \x1b[31m1\x1b[0m\nIngestion: \x1b[31m2\x1b[0m\n=== BEGIN STREAM ===\n\nm1\n\n=== END STREAM ===\nTimestamp: \x1b[31m3\x1b[0m\nIngestion: \x1b[31m-1\x1b[0m\n\nm2\n"
    ));
}
