//! The downlink loop: what becomes of each item of the notification stream.

use vstd::prelude::*;
use vstd::utf8::{decode_utf8, valid_utf8};
use crate::error::SessionError;
use crate::text::labelled;

verus! {

/// One item of the notification stream.
#[derive(Clone, Debug, PartialEq, Eq)]
pub enum Notification {
    /// The bytes the peripheral pushed.
    Payload(Vec<u8>),
    /// The transport delivered an error in place of a payload.
    Failed,
}

/// What the loop does with one item.
#[derive(Clone, Debug, PartialEq, Eq)]
pub enum DownlinkEvent {
    /// The payload was UTF-8: its text is reported.
    Text(String),
    /// The payload was not UTF-8: a warning is reported and the item dropped.
    Warning(SessionError),
    /// The transport delivered no payload: the item is passed over.
    Skipped,
}

/// A `DownlinkEvent` as plain values.
pub enum Decoded {
    Text(Seq<char>),
    Warning(SessionError),
    Skipped,
}

impl View for DownlinkEvent {
    type V = Decoded;

    open spec fn view(&self) -> Decoded {
        match self {
            DownlinkEvent::Text(s) => Decoded::Text(s@),
            DownlinkEvent::Warning(e) => Decoded::Warning(*e),
            DownlinkEvent::Skipped => Decoded::Skipped,
        }
    }
}

impl Decoded {
    /// The line to show for an event, if it has one.
    pub open spec fn line_of(self) -> Option<Seq<char>> {
        match self {
            Decoded::Text(text) => Some("Read: "@ + text),
            Decoded::Warning(e) => Some(e.message_of()),
            Decoded::Skipped => None,
        }
    }
}

impl DownlinkEvent {
    /// The line to show for this event: the text received, a warning, or
    /// nothing for an item that was passed over.
    pub fn line(&self) -> (line: Option<String>)
        ensures
            match line {
                Some(l) => self@.line_of() == Some(l@),
                None => self@.line_of() is None,
            },
    {
        match self {
            DownlinkEvent::Text(text) => Some(labelled("Read: ", text.as_str())),
            DownlinkEvent::Warning(e) => Some(e.message().to_owned()),
            DownlinkEvent::Skipped => None,
        }
    }
}

/// What the loop owes for `item`.
pub open spec fn decoded(item: Notification) -> Decoded {
    match item {
        Notification::Payload(bytes) => if valid_utf8(bytes@) {
            Decoded::Text(decode_utf8(bytes@))
        } else {
            Decoded::Warning(SessionError::NotifyDecodeError)
        },
        Notification::Failed => Decoded::Skipped,
    }
}

/// Calls `String::from_utf8` of std. Taken from its documentation and not
/// proved here: the call succeeds exactly on bytes that are well-formed
/// UTF-8, and the string it gives holds the characters that those bytes
/// encode. Both are stated with vstd's definitions of UTF-8.
#[verifier::external_body]
fn text_of_utf8(bytes: Vec<u8>) -> (text: Option<String>)
    ensures
        text is Some <==> valid_utf8(bytes@),
        text matches Some(s) ==> s@ == decode_utf8(bytes@),
{
    String::from_utf8(bytes).ok()
}

/// Handles one item of the stream. No item ends the loop.
pub fn receive(item: Notification) -> (event: DownlinkEvent)
    ensures
        event@ == decoded(item),
{
    match item {
        Notification::Payload(bytes) => match text_of_utf8(bytes) {
            Some(text) => DownlinkEvent::Text(text),
            None => DownlinkEvent::Warning(SessionError::NotifyDecodeError),
        },
        Notification::Failed => DownlinkEvent::Skipped,
    }
}

/// Runs the loop over a whole stream: one event for each item, in order,
/// up to the end of the stream.
pub fn drain(items: Vec<Notification>) -> (events: Vec<DownlinkEvent>)
    ensures
        events.len() == items.len(),
        forall|i: int| 0 <= i < items.len() ==> (#[trigger] events[i])@ == decoded(items[i]),
{
    let ghost all = items@;
    let mut events: Vec<DownlinkEvent> = Vec::new();
    for item in it: items
        invariant
            it.seq() == all,
            events.len() == it.index(),
            forall|i: int| 0 <= i < events.len() ==> (#[trigger] events[i])@ == decoded(all[i]),
    {
        events.push(receive(item));
    }
    events
}

/// How many members of `s` satisfy `p`.
pub open spec fn count<T>(s: Seq<T>, p: spec_fn(T) -> bool) -> nat
    decreases s.len(),
{
    if s.len() == 0 {
        0
    } else {
        count(s.drop_last(), p) + if p(s.last()) {
            1nat
        } else {
            0nat
        }
    }
}

/// The item carries a payload that is well-formed UTF-8.
pub open spec fn is_valid_item(item: Notification) -> bool {
    item matches Notification::Payload(bytes) && valid_utf8(bytes@)
}

/// The item carries a payload that is not well-formed UTF-8.
pub open spec fn is_invalid_item(item: Notification) -> bool {
    item matches Notification::Payload(bytes) && !valid_utf8(bytes@)
}

/// The event reports text.
pub open spec fn is_report(event: DownlinkEvent) -> bool {
    event is Text
}

/// The event is a warning.
pub open spec fn is_warning(event: DownlinkEvent) -> bool {
    event is Warning
}

/// Over any stream, the loop gives exactly one report for each valid
/// payload and one warning for each invalid one, and nothing else but a
/// pass for each item that the transport failed to deliver: an invalid
/// payload costs the stream nothing of what follows it.
pub proof fn lemma_one_event_per_item(items: Seq<Notification>, events: Seq<DownlinkEvent>)
    requires
        events.len() == items.len(),
        forall|i: int| 0 <= i < items.len() ==> (#[trigger] events[i])@ == decoded(items[i]),
    ensures
        count(events, |e: DownlinkEvent| is_report(e)) == count(
            items,
            |n: Notification| is_valid_item(n),
        ),
        count(events, |e: DownlinkEvent| is_warning(e)) == count(
            items,
            |n: Notification| is_invalid_item(n),
        ),
        count(events, |e: DownlinkEvent| is_report(e)) + count(
            events,
            |e: DownlinkEvent| is_warning(e),
        ) + count(items, |n: Notification| n is Failed) == items.len(),
    decreases items.len(),
{
    if items.len() > 0 {
        let n = items.len() - 1;
        assert(events[n]@ == decoded(items[n]));
        assert forall|i: int| 0 <= i < n implies (#[trigger] events.drop_last()[i])@ == decoded(
            items.drop_last()[i],
        ) by {
            assert(events.drop_last()[i] == events[i]);
            assert(events[i]@ == decoded(items[i]));
        }
        lemma_one_event_per_item(items.drop_last(), events.drop_last());
    }
}

} // verus!
