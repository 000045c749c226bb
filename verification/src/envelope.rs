//! The notification envelope: what the transport delivers, as the monitor
//! reads it.
//!
//! The monitor reads two things of an envelope: the netlink message type of
//! its payload, and a rendering of the payload's attributes as text. The
//! attributes themselves stay opaque.

use vstd::prelude::*;
use crate::classify::{
    classification, classify_message_type, is_control, law_del_is_deleted, law_new_is_created,
    law_set_is_modified, law_unreported, tag_of, Tag, Verb,
};
use crate::event::{Action, Event, Variant};
use crate::sink::{law_line_opens_with_verb, line_of, report_line};

verus! {

/// One notification as delivered by the transport.
#[derive(Clone, Debug, PartialEq, Eq)]
pub struct Envelope {
    /// The netlink message type of the payload.
    pub message_type: u16,
    /// The attributes of the payload, rendered as text.
    pub rendering: String,
}

/// The mathematical content of an [`Envelope`].
pub struct EnvelopeView {
    pub message_type: u16,
    pub rendering: Seq<char>,
}

impl View for Envelope {
    type V = EnvelopeView;

    open spec fn view(&self) -> EnvelopeView {
        EnvelopeView { message_type: self.message_type, rendering: self.rendering@ }
    }
}

/// The line that an envelope is reported with: the report of its event on its
/// rendering, or none where its message type reports no event.
pub open spec fn report_of(envelope: EnvelopeView) -> Option<Seq<char>> {
    match classification(envelope.message_type) {
        Some(event) => Some(line_of(event.action, envelope.rendering)),
        None => None,
    }
}

impl Envelope {
    /// The envelope of a payload of type `message_type` rendered as `rendering`.
    pub fn new(message_type: u16, rendering: String) -> (envelope: Envelope)
        ensures
            envelope@ == (EnvelopeView { message_type, rendering: rendering@ }),
    {
        Envelope { message_type, rendering }
    }

    /// The event that the envelope reports, if any. The rendering plays no part.
    pub fn classify(&self) -> (event: Option<Event>)
        ensures
            event == classification(self@.message_type),
    {
        classify_message_type(self.message_type)
    }

    /// The line to write for the envelope, if it reports an event.
    pub fn report(&self) -> (line: Option<String>)
        ensures
            match line {
                Some(text) => report_of(self@) == Some(text@),
                None => report_of(self@) is None,
            },
    {
        match classify_message_type(self.message_type) {
            Some(event) => Some(report_line(event.action, self.rendering.as_str())),
            None => None,
        }
    }
}

/// An envelope with a "new" message about a tracked class reports the creation
/// of an object of that class, on a line that opens with `Created: ` and goes
/// on with the rendering.
pub proof fn law_new_is_reported_as_created(envelope: EnvelopeView, variant: Variant)
    requires
        tag_of(envelope.message_type) == Some(Tag { variant, verb: Verb::New }),
    ensures
        classification(envelope.message_type) == Some(Event { variant, action: Action::Created }),
        report_of(envelope) matches Some(line) && "Created: "@.is_prefix_of(line) && line.skip(9)
            == envelope.rendering,
{
    law_new_is_created(envelope.message_type, variant);
    law_line_opens_with_verb(Action::Created, envelope.rendering);
}

/// An envelope with a "delete" message about a tracked class other than the
/// neighbour table reports the deletion of an object of that class, on a line
/// that opens with `Deleted: ` and goes on with the rendering.
pub proof fn law_del_is_reported_as_deleted(envelope: EnvelopeView, variant: Variant)
    requires
        tag_of(envelope.message_type) == Some(Tag { variant, verb: Verb::Del }),
        variant != Variant::NeighbourTable,
    ensures
        classification(envelope.message_type) == Some(Event { variant, action: Action::Deleted }),
        report_of(envelope) matches Some(line) && "Deleted: "@.is_prefix_of(line) && line.skip(9)
            == envelope.rendering,
{
    law_del_is_deleted(envelope.message_type, variant);
    law_line_opens_with_verb(Action::Deleted, envelope.rendering);
}

/// An envelope with a "set" message about a link or a neighbour table reports
/// the modification of an object of that class, on a line that opens with
/// `Setting: ` and goes on with the rendering.
pub proof fn law_set_is_reported_as_setting(envelope: EnvelopeView, variant: Variant)
    requires
        tag_of(envelope.message_type) == Some(Tag { variant, verb: Verb::Modify }),
        variant == Variant::Link || variant == Variant::NeighbourTable,
    ensures
        classification(envelope.message_type) == Some(Event { variant, action: Action::Modified }),
        report_of(envelope) matches Some(line) && "Setting: "@.is_prefix_of(line) && line.skip(9)
            == envelope.rendering,
{
    law_set_is_modified(envelope.message_type, variant);
    law_line_opens_with_verb(Action::Modified, envelope.rendering);
}

/// An envelope with a query, with a message about a class that is not tracked,
/// or with a control payload reports no event and gets no line.
pub proof fn law_others_are_not_reported(envelope: EnvelopeView)
    requires
        ({
            ||| is_control(envelope.message_type)
            ||| tag_of(envelope.message_type) is None
            ||| tag_of(envelope.message_type) matches Some(tag) && tag.verb == Verb::Get
        }),
    ensures
        classification(envelope.message_type) is None,
        report_of(envelope) is None,
{
    law_unreported(envelope.message_type);
}

/// The report of an envelope is a function of its message type and its
/// rendering: two results for one envelope are the same result.
pub proof fn law_report_is_deterministic(
    envelope: EnvelopeView,
    first: Option<Seq<char>>,
    second: Option<Seq<char>>,
)
    requires
        first == report_of(envelope),
        second == report_of(envelope),
    ensures
        first == second,
{
}

} // verus!
