//! The service that writes to a log group, told from the group's name.

use crate::paint::{is_painting, paint, push_tinted, span_views, tinted, Span, SpanView, Tint};
use crate::text::{contains_text, has_substring};
use vstd::prelude::*;
use vstd::string::StringExecFns;

verus! {

/// The producer of a log group.
#[derive(Clone, Copy, Debug, PartialEq, Eq, Structural)]
pub enum AmazonService {
    Lambda,
    Unknown,
}

/// The run of characters that the name of a Lambda function's log group
/// holds: `/aws/lambda/`.
pub open spec fn lambda_marker() -> Seq<char> {
    seq!['/', 'a', 'w', 's', '/', 'l', 'a', 'm', 'b', 'd', 'a', '/']
}

impl AmazonService {
    /// The service of a group called `name`: Lambda where the name holds
    /// the marker, unknown otherwise.
    pub open spec fn of_name(name: Seq<char>) -> AmazonService {
        if has_substring(name, lambda_marker()) {
            AmazonService::Lambda
        } else {
            AmazonService::Unknown
        }
    }

    /// The words that stand for the service in a listing.
    pub open spec fn label(self) -> Seq<char> {
        match self {
            AmazonService::Lambda => "AWS Lambda"@,
            AmazonService::Unknown => "Unknown"@,
        }
    }

    /// The tint of the label.
    pub open spec fn tint(self) -> Tint {
        match self {
            AmazonService::Lambda => Tint::Green,
            AmazonService::Unknown => Tint::RedOnYellow,
        }
    }

    /// The service as a listing shows it: its label in its tint.
    pub open spec fn spans(self) -> Seq<SpanView> {
        seq![tinted(self.label(), self.tint())]
    }

    /// Tells the service from the name of a log group.
    pub fn classify(name: &str) -> (service: AmazonService)
        ensures
            service == Self::of_name(name@),
            has_substring(name@, lambda_marker()) ==> service == AmazonService::Lambda,
            !has_substring(name@, lambda_marker()) ==> service == AmazonService::Unknown,
    {
        proof {
            reveal_strlit("/aws/lambda/");
            assert("/aws/lambda/"@ =~= lambda_marker());
        }
        if contains_text(name, "/aws/lambda/") {
            AmazonService::Lambda
        } else {
            AmazonService::Unknown
        }
    }

    /// The label of the service.
    pub fn label_text(&self) -> (out: &'static str)
        ensures
            out@ == self.label(),
    {
        match self {
            AmazonService::Lambda => "AWS Lambda",
            AmazonService::Unknown => "Unknown",
        }
    }

    /// The tint of the label.
    pub fn label_tint(&self) -> (out: Tint)
        ensures
            out == self.tint(),
    {
        match self {
            AmazonService::Lambda => Tint::Green,
            AmazonService::Unknown => Tint::RedOnYellow,
        }
    }

    /// The service as the terminal shows it.
    pub fn to_text(&self) -> (out: String)
        ensures
            is_painting(out@, self.label(), self.tint()),
    {
        paint(self.label_text(), self.label_tint())
    }

    /// Appends the service, as a listing shows it, to `out`.
    pub fn write_spans(&self, out: &mut Vec<Span>)
        ensures
            span_views(final(out)@) == span_views(old(out)@) + self.spans(),
    {
        push_tinted(out, String::from_str(self.label_text()), self.label_tint());
        assert(span_views(out@) =~= span_views(old(out)@) + self.spans());
    }
}

} // verus!
