//! The connection handshake, as a state machine on each side.
//!
//! Each machine is a pure decision function: fed the outcome of the
//! last pipe operation, it moves to its next state and answers with the
//! next operation to perform. The surrounding program owns the pipes
//! and the blocking calls; it performs each action and reports the
//! result back as the next event. Every failure report closes the
//! attempt in hand and orders the attempt's connection pipes removed,
//! so no failure path leaves a stale pipe behind.
//!
//! Both sides open the write endpoint before the read endpoint. A FIFO
//! `open` blocks until a peer opens the complementary direction, so the
//! two sides must order their opens consistently or the handshake
//! deadlocks.

use vstd::prelude::*;
use vstd::bytes::spec_u32_to_le_bytes;
use crate::error::Error;
use crate::fifo::identifier_bytes;
use crate::frame::{encode_frame, framed};
use crate::msg::{Message, MessageView};
use crate::paths::{read_path, spec_read_path, spec_write_path, write_path};

verus! {

/// Sender-side handshake states, reached in this order; `Closed` is
/// terminal, reached after the exchange or on the first failure.
#[derive(Clone, Copy, Debug, PartialEq, Eq, Structural)]
pub enum SenderState {
    Idle,
    PipesCreated,
    IdentifierSent,
    ChannelOpen,
    Closed,
}

/// What the surrounding program reports to the sender machine: the
/// start of the attempt, then the outcome of each action.
#[derive(Debug)]
pub enum SenderEvent {
    /// Begin the connection attempt.
    Start,
    /// Both connection pipes now exist on the filesystem.
    PipesReady,
    /// The 4 identifier bytes were written to the rendezvous pipe and
    /// flushed, and the pipe was closed again.
    IdentifierWritten,
    /// Both connection pipes are open, write endpoint then read
    /// endpoint.
    Opened,
    /// The request was written and this reply came back.
    ReplyReceived(Message),
    /// The last action failed.
    Failed,
}

/// The spec-level value of a [`SenderEvent`].
pub enum SenderEventView {
    Start,
    PipesReady,
    IdentifierWritten,
    Opened,
    ReplyReceived(MessageView),
    Failed,
}

impl View for SenderEvent {
    type V = SenderEventView;

    open spec fn view(&self) -> SenderEventView {
        match self {
            SenderEvent::Start => SenderEventView::Start,
            SenderEvent::PipesReady => SenderEventView::PipesReady,
            SenderEvent::IdentifierWritten => SenderEventView::IdentifierWritten,
            SenderEvent::Opened => SenderEventView::Opened,
            SenderEvent::ReplyReceived(m) => SenderEventView::ReplyReceived(m@),
            SenderEvent::Failed => SenderEventView::Failed,
        }
    }
}

/// What the sender machine asks the surrounding program to do next.
#[derive(Debug)]
pub enum SenderAction {
    /// Create both connection FIFOs, removing any stale entry at either
    /// path first.
    CreatePipes { read_path: String, write_path: String },
    /// Open the rendezvous pipe for writing, write these bytes whole,
    /// flush, and close it.
    AnnounceIdentifier { rendezvous: String, bytes: Vec<u8> },
    /// Open `open_for_writing` for writing, then `open_for_reading` for
    /// reading — in that order.
    OpenPipes { open_for_writing: String, open_for_reading: String },
    /// Write this frame to the write endpoint, flush, then read one
    /// frame from the read endpoint.
    Exchange { frame: Vec<u8> },
    /// Remove both connection pipes from the filesystem.
    Cleanup { read_path: String, write_path: String },
    /// Nothing is left to do.
    Done,
}

/// The spec-level value of a [`SenderAction`].
pub enum SenderActionView {
    CreatePipes(Seq<char>, Seq<char>),
    AnnounceIdentifier(Seq<char>, Seq<u8>),
    OpenPipes(Seq<char>, Seq<char>),
    Exchange(Seq<u8>),
    Cleanup(Seq<char>, Seq<char>),
    Done,
}

impl View for SenderAction {
    type V = SenderActionView;

    open spec fn view(&self) -> SenderActionView {
        match self {
            SenderAction::CreatePipes { read_path, write_path } => SenderActionView::CreatePipes(
                read_path@,
                write_path@,
            ),
            SenderAction::AnnounceIdentifier { rendezvous, bytes } => (
            SenderActionView::AnnounceIdentifier(rendezvous@, bytes@)),
            SenderAction::OpenPipes { open_for_writing, open_for_reading } => (
            SenderActionView::OpenPipes(open_for_writing@, open_for_reading@)),
            SenderAction::Exchange { frame } => SenderActionView::Exchange(frame@),
            SenderAction::Cleanup { read_path, write_path } => SenderActionView::Cleanup(
                read_path@,
                write_path@,
            ),
            SenderAction::Done => SenderActionView::Done,
        }
    }
}

/// The spec-level value of a [`SenderMachine`].
pub struct SenderMachineView {
    pub rendezvous: Seq<char>,
    pub base: Seq<char>,
    pub id: u32,
    pub payload: Seq<char>,
    pub state: SenderState,
}

/// The sender side of one connection attempt: single-threaded and
/// linear — create the pipes, announce the identifier, open the pipes,
/// exchange once, close.
#[derive(Debug)]
pub struct SenderMachine {
    pub rendezvous: String,
    pub base: String,
    pub id: u32,
    pub payload: String,
    pub state: SenderState,
}

impl View for SenderMachine {
    type V = SenderMachineView;

    open spec fn view(&self) -> SenderMachineView {
        SenderMachineView {
            rendezvous: self.rendezvous@,
            base: self.base@,
            id: self.id,
            payload: self.payload@,
            state: self.state,
        }
    }
}

/// The transition function of the sender machine: from the machine's
/// value and an event to the next state and the next action. An event
/// out of protocol order counts as a failure; every failure, in any
/// state short of `Closed`, closes the attempt and orders both
/// connection pipes removed.
pub open spec fn spec_sender_step(m: SenderMachineView, ev: SenderEventView) -> (
    SenderState,
    SenderActionView,
) {
    let rp = spec_read_path(m.base, m.id as nat);
    let wp = spec_write_path(m.base, m.id as nat);
    match (m.state, ev) {
        (SenderState::Idle, SenderEventView::Start) => (
            SenderState::Idle,
            SenderActionView::CreatePipes(rp, wp),
        ),
        (SenderState::Idle, SenderEventView::PipesReady) => (
            SenderState::PipesCreated,
            SenderActionView::AnnounceIdentifier(m.rendezvous, spec_u32_to_le_bytes(m.id)),
        ),
        (SenderState::PipesCreated, SenderEventView::IdentifierWritten) => (
            SenderState::IdentifierSent,
            SenderActionView::OpenPipes(wp, rp),
        ),
        (SenderState::IdentifierSent, SenderEventView::Opened) => (
            SenderState::ChannelOpen,
            SenderActionView::Exchange(framed(MessageView::Print(m.payload))),
        ),
        (SenderState::ChannelOpen, SenderEventView::ReplyReceived(_)) => (
            SenderState::Closed,
            SenderActionView::Cleanup(rp, wp),
        ),
        (SenderState::Closed, _) => (SenderState::Closed, SenderActionView::Done),
        (_, _) => (SenderState::Closed, SenderActionView::Cleanup(rp, wp)),
    }
}

impl SenderMachine {
    /// A machine at `Idle`, for one attempt keyed by `id` that will
    /// request `payload` be printed.
    pub fn new(rendezvous: String, base: String, id: u32, payload: String) -> (m: SenderMachine)
        ensures
            m@ == (SenderMachineView {
                rendezvous: rendezvous@,
                base: base@,
                id: id,
                payload: payload@,
                state: SenderState::Idle,
            }),
    {
        SenderMachine { rendezvous, base, id, payload, state: SenderState::Idle }
    }

    /// Both connection pipes of this attempt, for a cleanup order.
    fn cleanup_action(&self) -> (a: SenderAction)
        ensures
            a@ == SenderActionView::Cleanup(
                spec_read_path(self@.base, self@.id as nat),
                spec_write_path(self@.base, self@.id as nat),
            ),
    {
        SenderAction::Cleanup {
            read_path: read_path(self.base.as_str(), self.id),
            write_path: write_path(self.base.as_str(), self.id),
        }
    }

    /// Advances the handshake: `ev` reports the outcome of the last
    /// action, the result is the next action to perform.
    pub fn step(&mut self, ev: SenderEvent) -> (a: SenderAction)
        ensures
            final(self)@ == (SenderMachineView {
                state: spec_sender_step(old(self)@, ev@).0,
                rendezvous: old(self)@.rendezvous,
                base: old(self)@.base,
                id: old(self)@.id,
                payload: old(self)@.payload,
            }),
            a@ == spec_sender_step(old(self)@, ev@).1,
    {
        match (self.state, &ev) {
            (SenderState::Idle, SenderEvent::Start) => SenderAction::CreatePipes {
                read_path: read_path(self.base.as_str(), self.id),
                write_path: write_path(self.base.as_str(), self.id),
            },
            (SenderState::Idle, SenderEvent::PipesReady) => {
                self.state = SenderState::PipesCreated;
                SenderAction::AnnounceIdentifier {
                    rendezvous: self.rendezvous.clone(),
                    bytes: identifier_bytes(self.id),
                }
            },
            (SenderState::PipesCreated, SenderEvent::IdentifierWritten) => {
                self.state = SenderState::IdentifierSent;
                SenderAction::OpenPipes {
                    open_for_writing: write_path(self.base.as_str(), self.id),
                    open_for_reading: read_path(self.base.as_str(), self.id),
                }
            },
            (SenderState::IdentifierSent, SenderEvent::Opened) => {
                self.state = SenderState::ChannelOpen;
                let request = Message::Print(self.payload.clone());
                SenderAction::Exchange { frame: encode_frame(&request) }
            },
            (SenderState::ChannelOpen, SenderEvent::ReplyReceived(_)) => {
                self.state = SenderState::Closed;
                self.cleanup_action()
            },
            (SenderState::Closed, _) => SenderAction::Done,
            (_, _) => {
                let a = self.cleanup_action();
                self.state = SenderState::Closed;
                a
            },
        }
    }
}

/// What the sender concludes from the reply of its one exchange: an
/// acknowledgment completes it; a text payload in reply arrives where
/// none is expected and is a protocol violation.
pub fn check_reply(m: &Message) -> (r: Result<(), Error>)
    ensures
        m@ is Ack ==> r is Ok,
        m@ is Print ==> r == Err::<(), Error>(Error::ProtocolViolation),
{
    match m {
        Message::Ack() => Ok(()),
        Message::Print(_) => Err(Error::ProtocolViolation),
    }
}

/// Listener-side states. The machine loops: each completed or failed
/// connection returns it to `Listening` for the next accept. The three
/// mid-connection states carry the identifier of the connection in
/// hand.
#[derive(Clone, Copy, Debug, PartialEq, Eq, Structural)]
pub enum ListenerState {
    Listening,
    IdentifierReceived(u32),
    ChannelOpen(u32),
    ExchangeDone(u32),
}

/// What the surrounding program reports to the listener machine.
#[derive(Debug)]
pub enum ListenerEvent {
    /// Begin listening.
    Start,
    /// An accept read exactly 4 bytes from the rendezvous pipe; this is
    /// the identifier they decode to.
    Accepted(u32),
    /// Both connection pipes are open, write endpoint then read
    /// endpoint.
    Opened,
    /// One frame was read from the connection and decoded to this
    /// message.
    RequestReceived(Message),
    /// The reply frame was written and flushed.
    ReplySent,
    /// Both connection pipes were removed from the filesystem.
    TornDown,
    /// The last action failed.
    Failed,
}

/// The spec-level value of a [`ListenerEvent`].
pub enum ListenerEventView {
    Start,
    Accepted(u32),
    Opened,
    RequestReceived(MessageView),
    ReplySent,
    TornDown,
    Failed,
}

impl View for ListenerEvent {
    type V = ListenerEventView;

    open spec fn view(&self) -> ListenerEventView {
        match self {
            ListenerEvent::Start => ListenerEventView::Start,
            ListenerEvent::Accepted(id) => ListenerEventView::Accepted(*id),
            ListenerEvent::Opened => ListenerEventView::Opened,
            ListenerEvent::RequestReceived(m) => ListenerEventView::RequestReceived(m@),
            ListenerEvent::ReplySent => ListenerEventView::ReplySent,
            ListenerEvent::TornDown => ListenerEventView::TornDown,
            ListenerEvent::Failed => ListenerEventView::Failed,
        }
    }
}

/// What the listener machine asks the surrounding program to do next.
#[derive(Debug)]
pub enum ListenerAction {
    /// Open the rendezvous pipe for reading and read exactly 4 bytes;
    /// report their decoded identifier, or `Failed` on a short read.
    AcceptOne { rendezvous: String },
    /// Open `open_for_writing` for writing, then `open_for_reading` for
    /// reading — in that order. The listener writes on the sender's
    /// read path and reads on the sender's write path.
    OpenPipes { open_for_writing: String, open_for_reading: String },
    /// Read one frame from the read endpoint and decode it.
    ReceiveRequest,
    /// Print `text`, then write this reply frame and flush it.
    Reply { text: String, frame: Vec<u8> },
    /// Remove both connection pipes from the filesystem.
    Teardown { read_path: String, write_path: String },
    /// This connection is over with `error`; remove both its pipes from
    /// the filesystem. The accept loop itself is unaffected.
    Abort { error: Error, read_path: String, write_path: String },
}

/// The spec-level value of a [`ListenerAction`].
pub enum ListenerActionView {
    AcceptOne(Seq<char>),
    OpenPipes(Seq<char>, Seq<char>),
    ReceiveRequest,
    Reply(Seq<char>, Seq<u8>),
    Teardown(Seq<char>, Seq<char>),
    Abort(Error, Seq<char>, Seq<char>),
}

impl View for ListenerAction {
    type V = ListenerActionView;

    open spec fn view(&self) -> ListenerActionView {
        match self {
            ListenerAction::AcceptOne { rendezvous } => ListenerActionView::AcceptOne(rendezvous@),
            ListenerAction::OpenPipes { open_for_writing, open_for_reading } => (
            ListenerActionView::OpenPipes(open_for_writing@, open_for_reading@)),
            ListenerAction::ReceiveRequest => ListenerActionView::ReceiveRequest,
            ListenerAction::Reply { text, frame } => ListenerActionView::Reply(text@, frame@),
            ListenerAction::Teardown { read_path, write_path } => ListenerActionView::Teardown(
                read_path@,
                write_path@,
            ),
            ListenerAction::Abort { error, read_path, write_path } => ListenerActionView::Abort(
                *error,
                read_path@,
                write_path@,
            ),
        }
    }
}

/// The spec-level value of a [`ListenerMachine`].
pub struct ListenerMachineView {
    pub rendezvous: Seq<char>,
    pub base: Seq<char>,
    pub state: ListenerState,
}

/// The listener side: an unbounded accept loop, with one request and
/// one reply exchanged on each accepted connection.
#[derive(Debug)]
pub struct ListenerMachine {
    pub rendezvous: String,
    pub base: String,
    pub state: ListenerState,
}

impl View for ListenerMachine {
    type V = ListenerMachineView;

    open spec fn view(&self) -> ListenerMachineView {
        ListenerMachineView { rendezvous: self.rendezvous@, base: self.base@, state: self.state }
    }
}

/// The transition function of the listener machine. A text request is
/// answered with an acknowledgment; an acknowledgment where the request
/// was expected is a protocol violation and aborts that connection. A
/// failure, or an event out of protocol order, aborts the connection in
/// hand with `IoError` and its pipes removed; the machine returns to
/// `Listening` either way, so one broken connection never stops the
/// accept loop. A failed accept has no connection in hand: the attempt
/// is abandoned, never retried, and the loop accepts anew.
pub open spec fn spec_listener_step(m: ListenerMachineView, ev: ListenerEventView) -> (
    ListenerState,
    ListenerActionView,
) {
    match (m.state, ev) {
        (ListenerState::Listening, ListenerEventView::Start) => (
            ListenerState::Listening,
            ListenerActionView::AcceptOne(m.rendezvous),
        ),
        (ListenerState::Listening, ListenerEventView::Accepted(id)) => (
            ListenerState::IdentifierReceived(id),
            ListenerActionView::OpenPipes(
                spec_read_path(m.base, id as nat),
                spec_write_path(m.base, id as nat),
            ),
        ),
        (ListenerState::IdentifierReceived(id), ListenerEventView::Opened) => (
            ListenerState::ChannelOpen(id),
            ListenerActionView::ReceiveRequest,
        ),
        (ListenerState::ChannelOpen(id), ListenerEventView::RequestReceived(req)) => match req {
            MessageView::Print(text) => (
                ListenerState::ChannelOpen(id),
                ListenerActionView::Reply(text, framed(MessageView::Ack)),
            ),
            MessageView::Ack => (
                ListenerState::Listening,
                ListenerActionView::Abort(
                    Error::ProtocolViolation,
                    spec_read_path(m.base, id as nat),
                    spec_write_path(m.base, id as nat),
                ),
            ),
        },
        (ListenerState::ChannelOpen(id), ListenerEventView::ReplySent) => (
            ListenerState::ExchangeDone(id),
            ListenerActionView::Teardown(
                spec_read_path(m.base, id as nat),
                spec_write_path(m.base, id as nat),
            ),
        ),
        (ListenerState::ExchangeDone(id), ListenerEventView::TornDown) => (
            ListenerState::Listening,
            ListenerActionView::AcceptOne(m.rendezvous),
        ),
        (ListenerState::Listening, _) => (
            ListenerState::Listening,
            ListenerActionView::AcceptOne(m.rendezvous),
        ),
        (ListenerState::IdentifierReceived(id), _) => (
            ListenerState::Listening,
            ListenerActionView::Abort(
                Error::IoError,
                spec_read_path(m.base, id as nat),
                spec_write_path(m.base, id as nat),
            ),
        ),
        (ListenerState::ChannelOpen(id), _) => (
            ListenerState::Listening,
            ListenerActionView::Abort(
                Error::IoError,
                spec_read_path(m.base, id as nat),
                spec_write_path(m.base, id as nat),
            ),
        ),
        (ListenerState::ExchangeDone(id), _) => (
            ListenerState::Listening,
            ListenerActionView::Abort(
                Error::IoError,
                spec_read_path(m.base, id as nat),
                spec_write_path(m.base, id as nat),
            ),
        ),
    }
}

impl ListenerMachine {
    /// A machine at `Listening`.
    pub fn new(rendezvous: String, base: String) -> (m: ListenerMachine)
        ensures
            m@ == (ListenerMachineView {
                rendezvous: rendezvous@,
                base: base@,
                state: ListenerState::Listening,
            }),
    {
        ListenerMachine { rendezvous, base, state: ListenerState::Listening }
    }

    /// This connection is over with `error`: both its pipes must go.
    fn abort_action(&self, id: u32, error: Error) -> (a: ListenerAction)
        ensures
            a@ == ListenerActionView::Abort(
                error,
                spec_read_path(self@.base, id as nat),
                spec_write_path(self@.base, id as nat),
            ),
    {
        ListenerAction::Abort {
            error,
            read_path: read_path(self.base.as_str(), id),
            write_path: write_path(self.base.as_str(), id),
        }
    }

    /// Advances the listener: `ev` reports the outcome of the last
    /// action, the result is the next action to perform.
    pub fn step(&mut self, ev: ListenerEvent) -> (a: ListenerAction)
        ensures
            final(self)@ == (ListenerMachineView {
                state: spec_listener_step(old(self)@, ev@).0,
                rendezvous: old(self)@.rendezvous,
                base: old(self)@.base,
            }),
            a@ == spec_listener_step(old(self)@, ev@).1,
    {
        match (self.state, ev) {
            (ListenerState::Listening, ListenerEvent::Start) => ListenerAction::AcceptOne {
                rendezvous: self.rendezvous.clone(),
            },
            (ListenerState::Listening, ListenerEvent::Accepted(id)) => {
                self.state = ListenerState::IdentifierReceived(id);
                ListenerAction::OpenPipes {
                    open_for_writing: read_path(self.base.as_str(), id),
                    open_for_reading: write_path(self.base.as_str(), id),
                }
            },
            (ListenerState::IdentifierReceived(id), ListenerEvent::Opened) => {
                self.state = ListenerState::ChannelOpen(id);
                ListenerAction::ReceiveRequest
            },
            (ListenerState::ChannelOpen(id), ListenerEvent::RequestReceived(req)) => match req {
                Message::Print(text) => ListenerAction::Reply {
                    text,
                    frame: encode_frame(&Message::Ack()),
                },
                Message::Ack() => {
                    self.state = ListenerState::Listening;
                    self.abort_action(id, Error::ProtocolViolation)
                },
            },
            (ListenerState::ChannelOpen(id), ListenerEvent::ReplySent) => {
                self.state = ListenerState::ExchangeDone(id);
                ListenerAction::Teardown {
                    read_path: read_path(self.base.as_str(), id),
                    write_path: write_path(self.base.as_str(), id),
                }
            },
            (ListenerState::ExchangeDone(_), ListenerEvent::TornDown) => {
                self.state = ListenerState::Listening;
                ListenerAction::AcceptOne { rendezvous: self.rendezvous.clone() }
            },
            (ListenerState::Listening, _) => ListenerAction::AcceptOne {
                rendezvous: self.rendezvous.clone(),
            },
            (ListenerState::IdentifierReceived(id), _) => {
                self.state = ListenerState::Listening;
                self.abort_action(id, Error::IoError)
            },
            (ListenerState::ChannelOpen(id), _) => {
                self.state = ListenerState::Listening;
                self.abort_action(id, Error::IoError)
            },
            (ListenerState::ExchangeDone(id), _) => {
                self.state = ListenerState::Listening;
                self.abort_action(id, Error::IoError)
            },
        }
    }
}

/// The sender's happy path, end to end: from `Idle`, the documented
/// event sequence walks the states in order — pipes created,
/// identifier sent, channel open, closed — and the machine orders
/// exactly the protocol's actions: create this attempt's two pipes,
/// announce the identifier's 4 bytes on the rendezvous pipe, open
/// write endpoint before read endpoint, exchange the framed text
/// request, and clean both pipes up at the close.
pub proof fn lemma_sender_happy_path(m: SenderMachineView, reply: MessageView)
    requires
        m.state == SenderState::Idle,
    ensures
        ({
            let rp = spec_read_path(m.base, m.id as nat);
            let wp = spec_write_path(m.base, m.id as nat);
            let s0 = spec_sender_step(m, SenderEventView::Start);
            let m1 = SenderMachineView { state: s0.0, ..m };
            let s1 = spec_sender_step(m1, SenderEventView::PipesReady);
            let m2 = SenderMachineView { state: s1.0, ..m };
            let s2 = spec_sender_step(m2, SenderEventView::IdentifierWritten);
            let m3 = SenderMachineView { state: s2.0, ..m };
            let s3 = spec_sender_step(m3, SenderEventView::Opened);
            let m4 = SenderMachineView { state: s3.0, ..m };
            let s4 = spec_sender_step(m4, SenderEventView::ReplyReceived(reply));
            &&& s0 == (SenderState::Idle, SenderActionView::CreatePipes(rp, wp))
            &&& s1 == (
                SenderState::PipesCreated,
                SenderActionView::AnnounceIdentifier(m.rendezvous, spec_u32_to_le_bytes(m.id)),
            )
            &&& s2 == (SenderState::IdentifierSent, SenderActionView::OpenPipes(wp, rp))
            &&& s3 == (
                SenderState::ChannelOpen,
                SenderActionView::Exchange(framed(MessageView::Print(m.payload))),
            )
            &&& s4 == (SenderState::Closed, SenderActionView::Cleanup(rp, wp))
        }),
{
}

/// The listener's happy path for one connection: from `Listening`,
/// accepting identifier `id` opens that connection's pair — writing on
/// the sender's read path, reading on the sender's write path, write
/// endpoint first — then one text request is received and answered
/// with a framed acknowledgment, the pair is torn down, and the
/// machine is back at `Listening` accepting anew.
pub proof fn lemma_listener_happy_path(m: ListenerMachineView, id: u32, text: Seq<char>)
    requires
        m.state == ListenerState::Listening,
    ensures
        ({
            let rp = spec_read_path(m.base, id as nat);
            let wp = spec_write_path(m.base, id as nat);
            let s0 = spec_listener_step(m, ListenerEventView::Accepted(id));
            let m1 = ListenerMachineView { state: s0.0, ..m };
            let s1 = spec_listener_step(m1, ListenerEventView::Opened);
            let m2 = ListenerMachineView { state: s1.0, ..m };
            let s2 = spec_listener_step(
                m2,
                ListenerEventView::RequestReceived(MessageView::Print(text)),
            );
            let m3 = ListenerMachineView { state: s2.0, ..m };
            let s3 = spec_listener_step(m3, ListenerEventView::ReplySent);
            let m4 = ListenerMachineView { state: s3.0, ..m };
            let s4 = spec_listener_step(m4, ListenerEventView::TornDown);
            &&& s0 == (ListenerState::IdentifierReceived(id), ListenerActionView::OpenPipes(rp, wp))
            &&& s1 == (ListenerState::ChannelOpen(id), ListenerActionView::ReceiveRequest)
            &&& s2 == (
                ListenerState::ChannelOpen(id),
                ListenerActionView::Reply(text, framed(MessageView::Ack)),
            )
            &&& s3 == (ListenerState::ExchangeDone(id), ListenerActionView::Teardown(rp, wp))
            &&& s4 == (ListenerState::Listening, ListenerActionView::AcceptOne(m.rendezvous))
        }),
{
}

/// The connection-pipe paths a sender action touches. The rendezvous
/// pipe, shared by design, is not a connection pipe and is not
/// counted; an exchange runs on endpoints opened earlier and touches
/// no path anew.
pub open spec fn sender_action_paths(a: SenderActionView) -> Set<Seq<char>> {
    match a {
        SenderActionView::CreatePipes(rp, wp) => set![rp, wp],
        SenderActionView::AnnounceIdentifier(_, _) => Set::empty(),
        SenderActionView::OpenPipes(wp, rp) => set![rp, wp],
        SenderActionView::Exchange(_) => Set::empty(),
        SenderActionView::Cleanup(rp, wp) => set![rp, wp],
        SenderActionView::Done => Set::empty(),
    }
}

/// No stale pipes on failure: in every state short of `Closed`, a
/// failure closes the sender's attempt at once, and the one action it
/// leaves behind is the removal of both connection pipes that the
/// attempt may have created.
pub proof fn lemma_sender_failure_cleans(m: SenderMachineView)
    requires
        m.state != SenderState::Closed,
    ensures
        spec_sender_step(m, SenderEventView::Failed).0 == SenderState::Closed,
        spec_sender_step(m, SenderEventView::Failed).1 == SenderActionView::Cleanup(
            spec_read_path(m.base, m.id as nat),
            spec_write_path(m.base, m.id as nat),
        ),
{
}

/// No stale pipes on failure, listener side: a failure during any
/// connection in hand aborts exactly that connection, with both of its
/// pipes ordered removed, and returns the machine to `Listening`.
pub proof fn lemma_listener_failure_cleans(m: ListenerMachineView, id: u32)
    requires
        m.state == ListenerState::IdentifierReceived(id) || m.state == ListenerState::ChannelOpen(
            id,
        ) || m.state == ListenerState::ExchangeDone(id),
    ensures
        spec_listener_step(m, ListenerEventView::Failed).0 == ListenerState::Listening,
        spec_listener_step(m, ListenerEventView::Failed).1 == ListenerActionView::Abort(
            Error::IoError,
            spec_read_path(m.base, id as nat),
            spec_write_path(m.base, id as nat),
        ),
{
}

/// A sender touches no paths but its own: every action the machine can
/// emit names at most the two connection paths keyed by its own
/// identifier.
pub proof fn lemma_sender_touches_own_paths(m: SenderMachineView, ev: SenderEventView)
    ensures
        sender_action_paths(spec_sender_step(m, ev).1).subset_of(
            set![
                spec_read_path(m.base, m.id as nat),
                spec_write_path(m.base, m.id as nat),
            ],
        ),
{
}

/// Concurrent non-interference: two senders under one base with
/// distinct identifiers never touch a common connection pipe, whatever
/// their states and the events fed to them. Only the rendezvous pipe
/// is shared, and it carries nothing but identifiers.
pub proof fn lemma_sender_noninterference(
    m1: SenderMachineView,
    m2: SenderMachineView,
    e1: SenderEventView,
    e2: SenderEventView,
)
    requires
        m1.base == m2.base,
        m1.id != m2.id,
    ensures
        sender_action_paths(spec_sender_step(m1, e1).1).disjoint(
            sender_action_paths(spec_sender_step(m2, e2).1),
        ),
{
    lemma_sender_touches_own_paths(m1, e1);
    lemma_sender_touches_own_paths(m2, e2);
    crate::paths::lemma_paths_disjoint(m1.base, m1.id as nat, m2.id as nat);
    crate::paths::lemma_paths_disjoint(m1.base, m2.id as nat, m1.id as nat);
}

} // verus!
