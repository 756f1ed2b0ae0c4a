//! What holds of the library as a whole, beyond the contract of any one
//! function: how cursors travel from one fetch to the next, that a page is
//! never added to the one before, and what a caller can and cannot tell
//! apart when nothing is listed.

use crate::error::{exit_code_of, ListError, RemoteFailure};
use crate::group::{GroupDescriptor, LogGroupView};
use crate::listing::{
    closing_block, event_entries, event_entry, groups_layout, listed_groups, mark_at,
    opening_block, outcome_of, shown_message, Mark,
};
use crate::paint::{
    closing, escape, framed, is_rendering, join, opening, paints, plain, plain_text, reopened,
    SpanView, Tint,
};
use crate::service::{lambda_marker, AmazonService};
use crate::stream::{EventsPageView, LogEventView, LogStreamView};
use crate::text::has_substring;
use vstd::prelude::*;

verus! {

/// A name that holds the Lambda marker is classified as Lambda, and every
/// other name as unknown.
pub proof fn law_classification(name: Seq<char>)
    ensures
        has_substring(name, lambda_marker()) ==> AmazonService::of_name(name)
            == AmazonService::Lambda,
        !has_substring(name, lambda_marker()) ==> AmazonService::of_name(name)
            == AmazonService::Unknown,
{
}

/// A text in which the marker stands somewhere, whatever comes before and
/// after it, is classified as Lambda.
pub proof fn law_marker_anywhere(before: Seq<char>, after: Seq<char>)
    ensures
        AmazonService::of_name(before + lambda_marker() + after) == AmazonService::Lambda,
{
    let name = before + lambda_marker() + after;
    let at = before.len() as int;
    assert(name.subrange(at, at + lambda_marker().len()) =~= lambda_marker());
    assert(crate::text::occurs_at(name, lambda_marker(), at));
}

/// A name shorter than the marker is classified as unknown.
pub proof fn law_short_names_unknown(name: Seq<char>)
    requires
        name.len() < lambda_marker().len(),
    ensures
        AmazonService::of_name(name) == AmazonService::Unknown,
{
}

/// A stream without a forward cursor asks for its events without a cursor
/// and without a direction.
pub proof fn law_first_fetch_is_bare(stream: LogStreamView)
    requires
        stream.next_page is None,
    ensures
        stream.request().next_token is None,
        stream.request().start_from_head is None,
        stream.request().log_group_name == stream.group.name,
        stream.request().log_stream_name == stream.name,
{
}

/// A stream with the forward cursor `token` asks for its events with that
/// very cursor, and from the head of the stream.
pub proof fn law_next_fetch_carries_cursor(stream: LogStreamView, token: Seq<char>)
    requires
        stream.next_page == Some(token),
    ensures
        stream.request().next_token == Some(token),
        stream.request().start_from_head == Some(true),
        stream.request().log_group_name == stream.group.name,
        stream.request().log_stream_name == stream.name,
{
}

/// The forward cursor of one answer is the cursor of the next request,
/// unchanged; the request reads from the head exactly when there is such a
/// cursor. Group and stream stay the same from fetch to fetch.
pub proof fn law_cursor_round_trip(stream: LogStreamView, page: EventsPageView)
    ensures
        stream.after(page).request().next_token == page.next_forward_token,
        stream.after(page).request().start_from_head == if page.next_forward_token is Some {
            Some(true)
        } else {
            None
        },
        stream.after(page).request().log_group_name == stream.request().log_group_name,
        stream.after(page).request().log_stream_name == stream.request().log_stream_name,
        stream.after(page).group == stream.group,
        stream.after(page).name == stream.name,
{
}

/// After a fetch the stream holds the events of that answer and no others:
/// a second page takes the place of the first.
pub proof fn law_page_replaces_page(
    stream: LogStreamView,
    first: EventsPageView,
    second: EventsPageView,
)
    ensures
        stream.after(first).events_page == first.events,
        stream.after(first).after(second).events_page == second.events,
        stream.after(first).after(second) == stream.after(second),
{
}

/// A call for the groups that failed is a remote error, and one that found
/// no group is an empty result. Both end the run with exit code 1 and
/// with the same text: who sees only those cannot tell the two apart.
pub proof fn law_nothing_found_looks_like_failure(
    failed: Result<Option<Vec<GroupDescriptor>>, RemoteFailure>,
    empty: Result<Option<Vec<GroupDescriptor>>, RemoteFailure>,
)
    requires
        failed is Err,
        empty matches Ok(found) && (found matches Some(descriptors) ==> descriptors@.len() == 0),
    ensures
        listed_groups(failed) == Err::<Seq<LogGroupView>, ListError>(ListError::RemoteError),
        listed_groups(empty) == Err::<Seq<LogGroupView>, ListError>(ListError::EmptyResult),
        exit_code_of(outcome_of(listed_groups(failed))) == 1,
        exit_code_of(outcome_of(listed_groups(empty))) == 1,
        groups_layout(listed_groups(failed)) == groups_layout(listed_groups(empty)),
{
}

/// A text without an escape character stands in its frame as it is.
pub proof fn law_plain_text_keeps_in_frame(text: Seq<char>, open: Seq<char>)
    requires
        !text.contains(escape()),
    ensures
        reopened(text, open) == text,
    decreases text.len(),
{
    if text.len() > 0 {
        assert(text[0] != escape());
        assert(closing()[0] == escape());
        if text.len() >= 4 && text.subrange(0, 4) == closing() {
            assert(text.subrange(0, 4)[0] == text[0]);
        }
        let rest = text.skip(1);
        assert forall|i: int| 0 <= i < rest.len() implies rest[i] != escape() by {
            assert(rest[i] == text[i + 1]);
        }
        law_plain_text_keeps_in_frame(rest, open);
        assert(seq![text[0]] + rest =~= text);
    }
}

/// A framed text starts with the opening sequence of its tint and ends with
/// the closing sequence; without an escape character in the text, the text
/// and nothing else stands between the two.
pub proof fn law_frame(out: Seq<char>, text: Seq<char>, tint: Tint)
    requires
        framed(out, text, tint),
    ensures
        opening(tint).len() + closing().len() <= out.len(),
        out.subrange(0, opening(tint).len() as int) == opening(tint),
        out.subrange(out.len() - closing().len(), out.len() as int) == closing(),
        !text.contains(escape()) ==> out == opening(tint) + text + closing(),
{
    let open = opening(tint);
    assert(out.subrange(0, open.len() as int) =~= open);
    assert(out.subrange(out.len() - closing().len(), out.len() as int) =~= closing());
    if !text.contains(escape()) {
        law_plain_text_keeps_in_frame(text, open);
    }
}

/// The event of a page of one is the first and the last of its page: its
/// entry holds the opening block, the closing block and the message, each
/// once and in this order.
pub proof fn law_single_event_is_begin_and_end(event: LogEventView)
    ensures
        mark_at(0, 1) == Mark::Only,
        event_entries(seq![event], 1) == opening_block(event) + closing_block(event) + seq![
            plain(shown_message(event)),
            plain("\n"@),
        ],
{
    reveal_with_fuel(event_entries, 2);
    assert(event_entries(seq![event], 1) =~= event_entry(event, Mark::Only));
}

/// On a page of two or more events the first has the opening block and no
/// closing block, the last the closing block and no opening block, and
/// every event between them neither.
pub proof fn law_marks_of_a_page(at: int, count: int)
    requires
        2 <= count,
        0 <= at < count,
    ensures
        mark_at(at, count) == Mark::Begin <==> at == 0,
        mark_at(at, count) == Mark::End <==> at == count - 1,
        mark_at(at, count) == Mark::Inner <==> 0 < at < count - 1,
        mark_at(at, count) != Mark::Only,
{
}

/// Pieces that are each the bare text of their span make up the texts of
/// the spans in a row.
proof fn lemma_bare_pieces(pieces: Seq<Seq<char>>, spans: Seq<SpanView>)
    requires
        pieces.len() == spans.len(),
        forall|i: int| 0 <= i < spans.len() ==> #[trigger] pieces[i] == spans[i].text,
    ensures
        join(pieces) == plain_text(spans),
    decreases spans.len(),
{
    if spans.len() > 0 {
        lemma_bare_pieces(pieces.drop_last(), spans.drop_last());
    }
}

/// Where no span is tinted there is one rendering only: the texts of the
/// spans in a row. What a listing shows untinted, a message or the line
/// that says that nothing was found, reaches the terminal as it is.
pub proof fn law_untinted_rendering(out: Seq<char>, spans: Seq<SpanView>)
    requires
        is_rendering(out, spans),
        forall|i: int| 0 <= i < spans.len() ==> (#[trigger] spans[i]).tint == Tint::Plain,
    ensures
        out == plain_text(spans),
{
    let pieces = choose|pieces: Seq<Seq<char>>| paints(pieces, spans) && out == join(pieces);
    assert forall|i: int| 0 <= i < spans.len() implies #[trigger] pieces[i] == spans[i].text by {
        assert(spans[i].tint == Tint::Plain);
    }
    lemma_bare_pieces(pieces, spans);
}

/// The texts of the spans in a row are always a rendering: the one that
/// the terminal is sent when colours are switched off.
pub proof fn law_plain_text_is_a_rendering(spans: Seq<SpanView>)
    ensures
        is_rendering(plain_text(spans), spans),
{
    let pieces = spans.map_values(|s: SpanView| s.text);
    lemma_bare_pieces(pieces, spans);
    assert(paints(pieces, spans));
}

/// Success is the only outcome with exit code 0.
pub proof fn law_exit_code(outcome: Result<(), ListError>)
    ensures
        exit_code_of(outcome) == 0 <==> outcome is Ok,
        exit_code_of(outcome) == 1 <==> outcome is Err,
{
}

} // verus!
