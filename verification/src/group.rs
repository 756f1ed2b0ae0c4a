//! Log groups: a name, the service that the name stands for, and the
//! number of bytes stored, where the logging service has told it.

use crate::paint::{
    is_rendering, plain, push_plain, push_tinted, render, span_views, tinted, Span, SpanView, Tint,
};
use crate::service::AmazonService;
use crate::text::{decimal, decimal_text};
use vstd::prelude::*;
use vstd::string::StringExecFns;

verus! {

/// A log group as the logging service describes it.
#[derive(Clone, Debug, PartialEq, Eq)]
pub struct GroupDescriptor {
    pub log_group_name: Option<String>,
    pub stored_bytes: Option<i64>,
}

/// A request for the streams of one group. What it leaves out is left to
/// the logging service's defaults.
#[derive(Debug, PartialEq, Eq)]
pub struct StreamsRequest {
    pub log_group_name: String,
}

/// A log group. The service is always the one that the name calls for.
#[derive(Debug)]
pub struct LogGroup {
    name: String,
    service: AmazonService,
    stored_bytes: Option<i64>,
}

/// What a log group stands for.
pub struct LogGroupView {
    pub name: Seq<char>,
    pub service: AmazonService,
    pub stored_bytes: Option<i64>,
}

/// The group called `name`, classified by that name.
pub open spec fn group_named(name: Seq<char>, stored_bytes: Option<i64>) -> LogGroupView {
    LogGroupView { name, service: AmazonService::of_name(name), stored_bytes }
}

impl LogGroupView {
    /// The service is the one that the name calls for.
    pub open spec fn is_classified(self) -> bool {
        self.service == AmazonService::of_name(self.name)
    }

    /// The number shown for the stored bytes: -1 where it is not known.
    pub open spec fn shown_bytes(self) -> int {
        match self.stored_bytes {
            Some(bytes) => bytes as int,
            None => -1,
        }
    }

    /// The group as a listing shows it: three lines, the last without a
    /// line end.
    pub open spec fn spans(self) -> Seq<SpanView> {
        seq![plain("Group Name: "@), tinted(self.name, Tint::BlueBold), plain("\nService: "@)]
            + self.service.spans() + seq![
            plain("\nStored bytes: "@),
            tinted(decimal(self.shown_bytes()), Tint::Red),
        ]
    }
}

impl View for LogGroup {
    type V = LogGroupView;

    closed spec fn view(&self) -> LogGroupView {
        LogGroupView { name: self.name@, service: self.service, stored_bytes: self.stored_bytes }
    }
}

impl LogGroup {
    #[verifier::type_invariant]
    spec fn classified(self) -> bool {
        self.service == AmazonService::of_name(self.name@)
    }

    /// The group called `name`, with the service that the name calls for
    /// and no byte count.
    pub fn new(name: String) -> (group: LogGroup)
        ensures
            group@ == group_named(name@, None),
            group@.name == name@,
            group@.service == AmazonService::of_name(name@),
            group@.stored_bytes is None,
    {
        let service = AmazonService::classify(name.as_str());
        LogGroup { name, service, stored_bytes: None }
    }

    /// The group that a descriptor of the logging service stands for, if
    /// the descriptor holds a name.
    pub fn from_descriptor(descriptor: GroupDescriptor) -> (out: Option<LogGroup>)
        ensures
            match descriptor.log_group_name {
                Some(name) => out matches Some(group) && group@ == group_named(
                    name@,
                    descriptor.stored_bytes,
                ),
                None => out is None,
            },
    {
        match descriptor.log_group_name {
            Some(name) => {
                let service = AmazonService::classify(name.as_str());
                Some(LogGroup { name, service, stored_bytes: descriptor.stored_bytes })
            },
            None => None,
        }
    }

    /// The request for the streams of the group: one call, by the group's
    /// name.
    pub fn streams_request(&self) -> (request: StreamsRequest)
        ensures
            request.log_group_name@ == self@.name,
    {
        StreamsRequest { log_group_name: self.name.clone() }
    }

    /// The name of the group.
    pub fn name(&self) -> (out: &str)
        ensures
            out@ == self@.name,
    {
        self.name.as_str()
    }

    /// The service of the group: always the one that its name calls for.
    pub fn service(&self) -> (out: AmazonService)
        ensures
            out == self@.service,
            self@.is_classified(),
    {
        proof {
            use_type_invariant(self);
        }
        self.service
    }

    /// The number of bytes stored, if it is known.
    pub fn stored_bytes(&self) -> (out: Option<i64>)
        ensures
            out == self@.stored_bytes,
    {
        self.stored_bytes
    }

    /// Appends the group, as a listing shows it, to `out`.
    pub fn write_spans(&self, out: &mut Vec<Span>)
        ensures
            span_views(final(out)@) == span_views(old(out)@) + self@.spans(),
    {
        let shown: i64 = match self.stored_bytes {
            Some(bytes) => bytes,
            None => -1,
        };
        push_plain(out, "Group Name: ");
        push_tinted(out, self.name.clone(), Tint::BlueBold);
        push_plain(out, "\nService: ");
        self.service.write_spans(out);
        push_plain(out, "\nStored bytes: ");
        push_tinted(out, decimal_text(shown), Tint::Red);
        assert(span_views(out@) =~= span_views(old(out)@) + self@.spans());
    }

    /// The group as a listing shows it.
    pub fn spans(&self) -> (out: Vec<Span>)
        ensures
            span_views(out@) == self@.spans(),
    {
        let mut out: Vec<Span> = Vec::new();
        self.write_spans(&mut out);
        assert(span_views(out@) =~= self@.spans());
        out
    }

    /// The group as the terminal shows it.
    pub fn to_text(&self) -> (out: String)
        ensures
            is_rendering(out@, self@.spans()),
    {
        render(&self.spans())
    }
}

impl Default for LogGroup {
    /// The group without a name: service unknown, no byte count.
    fn default() -> (group: LogGroup)
        ensures
            group@ == (LogGroupView {
                name: Seq::empty(),
                service: AmazonService::Unknown,
                stored_bytes: None,
            }),
    {
        LogGroup { name: String::new(), service: AmazonService::Unknown, stored_bytes: None }
    }
}

} // verus!
