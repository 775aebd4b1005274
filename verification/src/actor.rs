//! The actor abstraction: one message type, one reaction per message.
//!
//! An actor owns exactly one mailbox of its own message type and reacts to
//! each received message in turn; the cooperative scheduler around the
//! library runs each actor as an independent task and drives its run-loop,
//! suspending it at mailbox and I/O boundaries. What the library captures
//! of that loop is the reaction itself: a pure transition from the actor's
//! state and one message to its next state and the action the scheduler's
//! task must perform. Wiring is explicit and acyclic: whoever spawns an
//! actor receives the sending side of its mailbox and hands it to the one
//! producer.

use crate::chunk::Chunk;
use crate::reader::UartReader;
use crate::sender::LogSender;
use crate::sender::SenderPhase;
use vstd::prelude::*;

verus! {

/// A unit of cooperatively scheduled work reacting to the messages of its
/// own mailbox.
pub trait Actor: Sized {
    /// The one message type this actor's mailbox carries.
    type Message;

    /// What the surrounding task must do after one reaction.
    type Action;

    /// The actor's transition relation: next state and action for one
    /// received message.
    spec fn spec_on_message(pre: Self, msg: Self::Message) -> (Self, Self::Action);

    /// Reacts to one received message, following `spec_on_message`
    /// exactly.
    fn on_message(&mut self, msg: Self::Message) -> (a: Self::Action)
        ensures
            (*final(self), a) == Self::spec_on_message(*old(self), msg),
    ;
}

/// The state an actor reaches, and the actions it asks for, after
/// reacting to each message of `msgs` in order.
pub open spec fn spec_run<A: Actor>(pre: A, msgs: Seq<A::Message>) -> (A, Seq<A::Action>)
    decreases msgs.len(),
{
    if msgs.len() == 0 {
        (pre, Seq::<A::Action>::empty())
    } else {
        let head = A::spec_on_message(pre, msgs.first());
        let rest = spec_run(head.0, msgs.drop_first());
        (rest.0, seq![head.1] + rest.1)
    }
}

/// Reacting to one more message continues where the previous messages
/// left off.
proof fn lemma_spec_run_snoc<A: Actor>(pre: A, msgs: Seq<A::Message>, m: A::Message)
    ensures
        spec_run(pre, msgs.push(m)).0 == A::spec_on_message(spec_run(pre, msgs).0, m).0,
        spec_run(pre, msgs.push(m)).1 == spec_run(pre, msgs).1.push(
            A::spec_on_message(spec_run(pre, msgs).0, m).1,
        ),
    decreases msgs.len(),
{
    reveal_with_fuel(spec_run, 3);
    if msgs.len() == 0 {
        assert(msgs.push(m).first() == m);
        assert(msgs.push(m).drop_first() =~= msgs);
        let head = A::spec_on_message(pre, m);
        assert(seq![head.1] + Seq::<A::Action>::empty() =~= Seq::<A::Action>::empty().push(
            head.1,
        ));
    } else {
        let head = A::spec_on_message(pre, msgs.first());
        assert(msgs.push(m).first() == msgs.first());
        assert(msgs.push(m).drop_first() =~= msgs.drop_first().push(m));
        lemma_spec_run_snoc(head.0, msgs.drop_first(), m);
        let mid = spec_run(head.0, msgs.drop_first());
        let last = A::spec_on_message(spec_run(pre, msgs).0, m);
        assert(seq![head.1] + mid.1.push(last.1) =~= (seq![head.1] + mid.1).push(last.1));
    }
}

/// One sweep of an actor's run-loop over the messages drained from its
/// mailbox: the actor reacts to each message in arrival order, and the
/// actions come back in the same order for the surrounding task to
/// perform.
pub fn run_actor<A: Actor>(a: &mut A, msgs: Vec<A::Message>) -> (acts: Vec<A::Action>)
    ensures
        *final(a) == spec_run(*old(a), msgs@).0,
        acts@ == spec_run(*old(a), msgs@).1,
{
    let mut acts: Vec<A::Action> = Vec::new();
    let mut rest = msgs;
    let ghost done = Seq::<A::Message>::empty();
    proof {
        assert(done + rest@ =~= msgs@);
    }
    while rest.len() > 0
        invariant
            msgs@ == done + rest@,
            *a == spec_run(*old(a), done).0,
            acts@ == spec_run(*old(a), done).1,
        decreases rest.len(),
    {
        let m = rest.remove(0);
        proof {
            lemma_spec_run_snoc(*old(a), done, m);
        }
        let act = a.on_message(m);
        acts.push(act);
        proof {
            done = done.push(m);
            assert(done + rest@ =~= msgs@);
        }
    }
    proof {
        assert(done =~= msgs@);
    }
    acts
}

/// What becomes of a chunk handed to the sink actor.
pub enum Delivery {
    /// Write these bytes to the client socket, in full, before the next
    /// message is received.
    Write(Chunk),
    /// No client is being served; the chunk is handed back untouched.
    Unwritable(Chunk),
}

impl Actor for LogSender {
    type Message = Chunk;

    type Action = Delivery;

    /// While a client is served, every chunk is written in arrival order;
    /// in any other phase the chunk is handed back.
    open spec fn spec_on_message(pre: LogSender, msg: Chunk) -> (LogSender, Delivery) {
        if pre@.phase == SenderPhase::Serving {
            (pre, Delivery::Write(msg))
        } else {
            (pre, Delivery::Unwritable(msg))
        }
    }

    fn on_message(&mut self, msg: Chunk) -> (a: Delivery) {
        match self.phase() {
            SenderPhase::Serving => Delivery::Write(msg),
            _ => Delivery::Unwritable(msg),
        }
    }
}

/// The producer's mailbox message type: the reader is a pure producer and
/// its mailbox carries nothing.
pub struct UartReaderMessage {}

impl Actor for UartReader {
    type Message = UartReaderMessage;

    type Action = ();

    /// A pure producer: it ignores its mailbox entirely.
    open spec fn spec_on_message(pre: UartReader, msg: UartReaderMessage) -> (UartReader, ()) {
        (pre, ())
    }

    fn on_message(&mut self, msg: UartReaderMessage) -> (a: ()) {
    }
}

} // verus!
