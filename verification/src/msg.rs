//! The unit of application data exchanged over a connection.

use vstd::prelude::*;

verus! {

/// The spec-level value of a [`Message`]: its variant together with the
/// character content of the text payload, if any.
pub enum MessageView {
    Print(Seq<char>),
    Ack,
}

/// The unit of application data exchanged over a connection: either a
/// text payload to print, or an empty acknowledgment.
///
/// The variant set is closed: the wire format knows exactly these two
/// encodings, and every decode site matches exhaustively. Values are
/// immutable once constructed.
#[derive(Debug)]
pub enum Message {
    Print(String),
    Ack(),
}

impl View for Message {
    type V = MessageView;

    open spec fn view(&self) -> MessageView {
        match self {
            Message::Print(s) => MessageView::Print(s@),
            Message::Ack() => MessageView::Ack,
        }
    }
}

impl PartialEq for Message {
    fn eq(&self, other: &Message) -> (r: bool) {
        match (self, other) {
            (Message::Print(a), Message::Print(b)) => a.eq(b),
            (Message::Ack(), Message::Ack()) => true,
            _ => false,
        }
    }
}

impl vstd::std_specs::cmp::PartialEqSpecImpl for Message {
    open spec fn obeys_eq_spec() -> bool {
        true
    }

    open spec fn eq_spec(&self, other: &Message) -> bool {
        self@ == other@
    }
}

} // verus!
