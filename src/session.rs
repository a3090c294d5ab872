use vstd::prelude::*;

use crate::text::{relay_text, relayed, trim_spaces, trimmed};

verus! {

/// The bytes sent to a client as soon as it connects.
pub fn name_prompt() -> (r: &'static str)
    ensures
        r@ == "Please enter your name: "@,
{
    "Please enter your name: "
}

/// A peer's network address, held as plain values. Two addresses are equal
/// when every part is.
#[derive(Clone, Copy, Debug, PartialEq, Eq, Structural)]
pub struct PeerAddr {
    /// The IP address; an IPv4 address sits in the low 32 bits.
    pub ip: u128,
    pub port: u16,
    pub v6: bool,
    pub flowinfo: u32,
    pub scope_id: u32,
}

/// A message on the broadcast bus: the relayed text and the address of the
/// session that published it.
#[derive(Clone, Debug)]
pub struct BroadcastMessage {
    pub text: String,
    pub origin: PeerAddr,
}

/// The state of a session's main loop.
#[derive(Clone, Copy, Debug, PartialEq, Eq, Structural)]
pub enum Phase {
    Active,
    /// The peer closed its side of the stream.
    Disconnected,
    /// Reading from the peer or from the bus failed.
    Errored,
}

/// What happened to a session while it waited.
#[derive(Clone, Debug)]
pub enum Event {
    /// A line came in from the peer, with its newline.
    Line(String),
    /// A read returned no bytes: the peer closed its side.
    ReadClosed,
    /// Reading from the peer failed.
    ReadFailed,
    /// The bus handed this session a message.
    Delivered(BroadcastMessage),
    /// Receiving from the bus failed.
    BusFailed,
    /// Writing a relayed message to the peer failed.
    WriteFailed,
    /// A publish found no subscriber to take it.
    PublishUnheard,
}

/// What the session asks to be done next.
#[derive(Clone, Debug)]
pub enum Action {
    /// Publish the message on the bus.
    Publish(BroadcastMessage),
    /// Write the text to the peer.
    Write(String),
    /// Do nothing and wait again.
    Idle,
    /// Leave the loop and drop the connection.
    Stop,
}

/// One client's session after a successful handshake.
#[derive(Debug)]
pub struct Session {
    name: String,
    peer: PeerAddr,
    phase: Phase,
}

/// What a session is: the participant's name, the peer's address and the
/// loop's state.
pub struct SessionView {
    pub name: Seq<char>,
    pub peer: PeerAddr,
    pub phase: Phase,
}

/// An event, with its texts as characters.
pub ghost enum EventView {
    Line(Seq<char>),
    ReadClosed,
    ReadFailed,
    Delivered(Seq<char>, PeerAddr),
    BusFailed,
    WriteFailed,
    PublishUnheard,
}

/// An action, with its texts as characters.
pub ghost enum ActionView {
    Publish(Seq<char>, PeerAddr),
    Write(Seq<char>),
    Idle,
    Stop,
}

impl View for Session {
    type V = SessionView;

    closed spec fn view(&self) -> SessionView {
        SessionView { name: self.name@, peer: self.peer, phase: self.phase }
    }
}

impl View for Event {
    type V = EventView;

    open spec fn view(&self) -> EventView {
        match self {
            Event::Line(l) => EventView::Line(l@),
            Event::ReadClosed => EventView::ReadClosed,
            Event::ReadFailed => EventView::ReadFailed,
            Event::Delivered(m) => EventView::Delivered(m.text@, m.origin),
            Event::BusFailed => EventView::BusFailed,
            Event::WriteFailed => EventView::WriteFailed,
            Event::PublishUnheard => EventView::PublishUnheard,
        }
    }
}

impl View for Action {
    type V = ActionView;

    open spec fn view(&self) -> ActionView {
        match self {
            Action::Publish(m) => ActionView::Publish(m.text@, m.origin),
            Action::Write(t) => ActionView::Write(t@),
            Action::Idle => ActionView::Idle,
            Action::Stop => ActionView::Stop,
        }
    }
}

/// The session that a handshake reply starts: `None` when the read failed,
/// otherwise the reply line trimmed, unless nothing is left of it.
pub open spec fn joined(reply: Option<Seq<char>>, peer: PeerAddr) -> Option<SessionView> {
    match reply {
        Some(line) => if trimmed(line).len() > 0 {
            Some(SessionView { name: trimmed(line), peer, phase: Phase::Active })
        } else {
            None
        },
        None => None,
    }
}

/// One step of the main loop: the next state and the action for an event.
pub open spec fn next(s: SessionView, e: EventView) -> (SessionView, ActionView) {
    if s.phase != Phase::Active {
        (s, ActionView::Stop)
    } else {
        match e {
            EventView::Line(l) => (s, ActionView::Publish(relayed(s.name, l), s.peer)),
            EventView::ReadClosed => (
                SessionView { phase: Phase::Disconnected, ..s },
                ActionView::Stop,
            ),
            EventView::ReadFailed => (SessionView { phase: Phase::Errored, ..s }, ActionView::Stop),
            EventView::Delivered(text, origin) => if origin == s.peer {
                (s, ActionView::Idle)
            } else {
                (s, ActionView::Write(text))
            },
            EventView::BusFailed => (SessionView { phase: Phase::Errored, ..s }, ActionView::Stop),
            EventView::WriteFailed => (s, ActionView::Idle),
            EventView::PublishUnheard => (s, ActionView::Idle),
        }
    }
}

/// The state and the actions after a run of events, in order.
pub open spec fn run(s: SessionView, es: Seq<EventView>) -> (SessionView, Seq<ActionView>)
    decreases es.len(),
{
    if es.len() == 0 {
        (s, Seq::empty())
    } else {
        let (mid, acts) = run(s, es.drop_last());
        let (end, a) = next(mid, es.last());
        (end, acts.push(a))
    }
}

/// The characters of a handshake reply that was read.
pub open spec fn reply_line(reply: Option<String>) -> Option<Seq<char>> {
    match reply {
        Some(l) => Some(l@),
        None => None,
    }
}

/// Starts a session from the reply to the name prompt. `reply` is `None` when
/// reading it failed, and the empty string when the peer closed the stream.
pub fn begin_session(reply: Option<String>, peer: PeerAddr) -> (r: Option<Session>)
    ensures
        r is None <==> joined(reply_line(reply), peer) is None,
        r matches Some(s) ==> joined(reply_line(reply), peer) == Some(s@),
{
    match reply {
        Some(line) => {
            let name = trim_spaces(line.as_str());
            if name.unicode_len() > 0 {
                Some(Session { name, peer, phase: Phase::Active })
            } else {
                None
            }
        },
        None => None,
    }
}

impl Session {
    /// The participant's display name.
    pub fn name(&self) -> (r: &str)
        ensures
            r@ == self@.name,
    {
        self.name.as_str()
    }

    /// The address of the participant's connection.
    pub fn peer(&self) -> (r: PeerAddr)
        ensures
            r == self@.peer,
    {
        self.peer
    }

    /// Where the main loop stands.
    pub fn phase(&self) -> (r: Phase)
        ensures
            r == self@.phase,
    {
        self.phase
    }

    /// Handles one event and says what to do next.
    pub fn step(&mut self, e: Event) -> (a: Action)
        ensures
            (final(self)@, a@) == next(old(self)@, e@),
    {
        if self.phase != Phase::Active {
            return Action::Stop;
        }
        match e {
            Event::Line(l) => {
                let text = relay_text(self.name.as_str(), l.as_str());
                Action::Publish(BroadcastMessage { text, origin: self.peer })
            },
            Event::ReadClosed => {
                self.phase = Phase::Disconnected;
                Action::Stop
            },
            Event::ReadFailed => {
                self.phase = Phase::Errored;
                Action::Stop
            },
            Event::Delivered(m) => {
                if m.origin == self.peer {
                    Action::Idle
                } else {
                    Action::Write(m.text)
                }
            },
            Event::BusFailed => {
                self.phase = Phase::Errored;
                Action::Stop
            },
            Event::WriteFailed => Action::Idle,
            Event::PublishUnheard => Action::Idle,
        }
    }
}

} // verus!
