use vstd::prelude::*;

use crate::session::{joined, next, run, ActionView, EventView, PeerAddr, Phase, SessionView};
use crate::text::{is_space, relayed, trim_start, trimmed};

verus! {

/// The texts that a run of actions writes to the peer, in order.
pub open spec fn written(acts: Seq<ActionView>) -> Seq<Seq<char>>
    decreases acts.len(),
{
    if acts.len() == 0 {
        Seq::empty()
    } else {
        let w = written(acts.drop_last());
        match acts.last() {
            ActionView::Write(t) => w.push(t),
            _ => w,
        }
    }
}

/// The texts of the messages, in order, that did not come from `me`.
pub open spec fn from_others(msgs: Seq<(Seq<char>, PeerAddr)>, me: PeerAddr) -> Seq<Seq<char>>
    decreases msgs.len(),
{
    if msgs.len() == 0 {
        Seq::empty()
    } else {
        let w = from_others(msgs.drop_last(), me);
        if msgs.last().1 == me {
            w
        } else {
            w.push(msgs.last().0)
        }
    }
}

/// The bus deliveries of the given messages, in order.
pub open spec fn deliveries(msgs: Seq<(Seq<char>, PeerAddr)>) -> Seq<EventView> {
    msgs.map_values(|m: (Seq<char>, PeerAddr)| EventView::Delivered(m.0, m.1))
}

/// The events of reading the given lines from the peer, in order.
pub open spec fn lines_read(lines: Seq<Seq<char>>) -> Seq<EventView> {
    lines.map_values(|l: Seq<char>| EventView::Line(l))
}

/// The publications of the given lines by a participant, in order.
pub open spec fn publications(s: SessionView, lines: Seq<Seq<char>>) -> Seq<ActionView> {
    lines.map_values(|l: Seq<char>| ActionView::Publish(relayed(s.name, l), s.peer))
}

/// A line read by one active session is published under its name and
/// address; handed to another active session at a different address, it is
/// written to that peer verbatim; handed back to the publisher, it is dropped.
pub proof fn lemma_line_reaches_others_only(a: SessionView, b: SessionView, line: Seq<char>)
    requires
        a.phase == Phase::Active,
        b.phase == Phase::Active,
        a.peer != b.peer,
    ensures
        next(a, EventView::Line(line)) == (a, ActionView::Publish(relayed(a.name, line), a.peer)),
        next(b, EventView::Delivered(relayed(a.name, line), a.peer)) == (b, ActionView::Write(
            relayed(a.name, line),
        )),
        next(a, EventView::Delivered(relayed(a.name, line), a.peer)) == (a, ActionView::Idle),
{
}

/// A reply made of white space alone, the empty reply of a closed stream
/// among them, and a failed read never start a session.
pub proof fn lemma_blank_reply_never_joins(line: Seq<char>, peer: PeerAddr)
    requires
        forall|i: int| 0 <= i < line.len() ==> is_space(#[trigger] line[i]),
    ensures
        joined(Some(line), peer) is None,
        joined(None, peer) is None,
    decreases line.len(),
{
    if line.len() > 0 {
        lemma_blank_reply_never_joins(line.drop_first(), peer);
        assert(trim_start(line) == trim_start(line.drop_first()));
    }
    assert(trimmed(line).len() == 0);
}

/// Among several sessions, the one whose peer closed its stream stops and
/// is marked disconnected, while every other session is left as it was.
pub proof fn lemma_close_is_local(sessions: Seq<SessionView>, i: int)
    requires
        0 <= i < sessions.len(),
        sessions[i].phase == Phase::Active,
    ensures
        ({
            let (s, a) = next(sessions[i], EventView::ReadClosed);
            let after = sessions.update(i, s);
            &&& a == ActionView::Stop
            &&& after[i].phase == Phase::Disconnected
            &&& after[i].name == sessions[i].name
            &&& after[i].peer == sessions[i].peer
            &&& forall|k: int| 0 <= k < sessions.len() && k != i ==> after[k] == sessions[k]
        }),
{
}

/// A publish that no subscriber takes is no error: the session stays as it
/// was and goes on waiting.
pub proof fn lemma_unheard_publish_is_harmless(s: SessionView)
    requires
        s.phase == Phase::Active,
    ensures
        next(s, EventView::PublishUnheard) == (s, ActionView::Idle),
{
}

/// The lines a session reads are published in the order they were read,
/// one publication each, and the session stays active.
pub proof fn lemma_publish_order(s: SessionView, lines: Seq<Seq<char>>)
    requires
        s.phase == Phase::Active,
    ensures
        run(s, lines_read(lines)) == (s, publications(s, lines)),
    decreases lines.len(),
{
    if lines.len() > 0 {
        let rest = lines.drop_last();
        lemma_publish_order(s, rest);
        assert(lines_read(lines).drop_last() =~= lines_read(rest));
        assert(publications(s, lines) =~= publications(s, rest).push(
            ActionView::Publish(relayed(s.name, lines.last()), s.peer),
        ));
    } else {
        assert(lines_read(lines) =~= Seq::empty());
        assert(publications(s, lines) =~= Seq::empty());
    }
}

/// Messages handed to an active session by the bus are written to its peer
/// in the order they came, except those that the session published itself,
/// which are never written; the session stays active.
pub proof fn lemma_delivery_order(s: SessionView, msgs: Seq<(Seq<char>, PeerAddr)>)
    requires
        s.phase == Phase::Active,
    ensures
        run(s, deliveries(msgs)).0 == s,
        written(run(s, deliveries(msgs)).1) == from_others(msgs, s.peer),
    decreases msgs.len(),
{
    if msgs.len() > 0 {
        let rest = msgs.drop_last();
        lemma_delivery_order(s, rest);
        assert(deliveries(msgs).drop_last() =~= deliveries(rest));
        let acts = run(s, deliveries(msgs)).1;
        assert(acts.drop_last() == run(s, deliveries(rest)).1);
    } else {
        assert(deliveries(msgs) =~= Seq::empty());
    }
}

} // verus!
