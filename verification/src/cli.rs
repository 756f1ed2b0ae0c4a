//! From the command line to the call to make: what was asked for decides
//! which listing runs, on which group and stream, or that none can.

use crate::error::ListError;
use crate::group::{group_named, LogGroup, LogGroupView};
use crate::listing::Listing;
use crate::stream::{text_of, LogStream, LogStreamView};
use std::rc::Rc;
use vstd::prelude::*;
use vstd::string::StringExecFns;

verus! {

/// The filters that came with `ls`.
#[derive(Debug, PartialEq, Eq)]
pub struct LsArgs {
    pub group_name: Option<String>,
    pub stream_name: Option<String>,
}

/// What a run is to do.
#[derive(Debug)]
pub enum Command {
    /// Nothing but to point at `ls`: no subcommand was given.
    Hint,
    /// List the groups.
    ListGroups,
    /// List the streams of this group.
    ListStreams(Rc<LogGroup>),
    /// List one page of events of this stream.
    ListEvents(LogStream),
}

/// What a command stands for.
pub enum CommandView {
    Hint,
    ListGroups,
    ListStreams(LogGroupView),
    ListEvents(LogStreamView),
}

impl View for Command {
    type V = CommandView;

    open spec fn view(&self) -> CommandView {
        match self {
            Command::Hint => CommandView::Hint,
            Command::ListGroups => CommandView::ListGroups,
            Command::ListStreams(group) => CommandView::ListStreams(group@),
            Command::ListEvents(stream) => CommandView::ListEvents(stream@),
        }
    }
}

/// The command that was planned, or the error.
pub open spec fn planned(out: Result<Command, ListError>) -> Result<CommandView, ListError> {
    match out {
        Ok(command) => Ok(command@),
        Err(e) => Err(e),
    }
}

/// The command that the filters call for. Without `ls` there is only the
/// hint. `ls` alone lists the groups; with a group it lists the streams of
/// that group; with a group and a stream it lists events of that stream,
/// taken as a stream of that group before any fetch. A stream without a
/// group is an error of the user, and no command.
pub open spec fn command_for(
    ls: Option<(Option<Seq<char>>, Option<Seq<char>>)>,
) -> Result<CommandView, ListError> {
    match ls {
        None => Ok(CommandView::Hint),
        Some((None, None)) => Ok(CommandView::ListGroups),
        Some((Some(group), None)) => Ok(CommandView::ListStreams(group_named(group, None))),
        Some((Some(group), Some(stream))) => Ok(
            CommandView::ListEvents(LogStreamView::fresh(stream, group_named(group, None))),
        ),
        Some((None, Some(_))) => Err(ListError::UserInputError),
    }
}

/// The filters as characters.
pub open spec fn filters_of(ls: Option<LsArgs>) -> Option<(Option<Seq<char>>, Option<Seq<char>>)> {
    match ls {
        Some(args) => Some((text_of(args.group_name), text_of(args.stream_name))),
        None => None,
    }
}

/// Decides what a run is to do: `ls` holds the filters of the `ls`
/// subcommand, or nothing where the subcommand was not given.
pub fn dispatch(ls: Option<LsArgs>) -> (out: Result<Command, ListError>)
    ensures
        planned(out) == command_for(filters_of(ls)),
{
    let args = match ls {
        Some(args) => args,
        None => {
            return Ok(Command::Hint);
        },
    };
    match args.group_name {
        Some(group_name) => {
            let group = Rc::new(LogGroup::new(group_name));
            match args.stream_name {
                Some(stream_name) => Ok(Command::ListEvents(LogStream::new(stream_name, group))),
                None => Ok(Command::ListStreams(group)),
            }
        },
        None => match args.stream_name {
            Some(_) => Err(ListError::UserInputError),
            None => Ok(Command::ListGroups),
        },
    }
}

/// What a run without a subcommand shows: the hint, and success.
pub fn hint_listing() -> (out: Listing)
    ensures
        out.text@ == "Try again with ls subcommand.\n"@,
        out.outcome == Ok::<(), ListError>(()),
{
    Listing { text: String::from_str("Try again with ls subcommand.\n"), outcome: Ok(()) }
}

/// What a run shows that asked for a stream without its group: the demand
/// for the group, and the error.
pub fn group_required_listing() -> (out: Listing)
    ensures
        out.text@ == "You must supply the log group to which this belongs with -g.\n"@,
        out.outcome == Err::<(), ListError>(ListError::UserInputError),
{
    Listing {
        text: String::from_str("You must supply the log group to which this belongs with -g.\n"),
        outcome: Err(ListError::UserInputError),
    }
}

} // verus!
