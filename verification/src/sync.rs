//! The pairwise synchronization handshake that two peers run when they meet
//! on a topic.
//!
//! A [`Session`] is one role of one handshake. It names the next thing to do
//! on the stream ([`Session::pending`]) and moves on when told how that went
//! ([`Session::step`]). Reading, writing and waiting are the host's part.

use vstd::prelude::*;
use crate::topic::AppTopic;

verus! {

/// How long the initiator works between its query and its `Done`, in
/// seconds. No application state is exchanged yet: the wait stands for it.
pub const WORK_SECONDS: u64 = 3;

/// A message of the handshake, framed by the transport.
#[derive(Debug, Clone, Copy, PartialEq, Eq)]
pub enum SyncMessage {
    /// The initiator names the topic that it wants to synchronize.
    TopicQuery(AppTopic),
    /// The sender has nothing more to say.
    Done,
}

/// Why a session was given up.
#[derive(Debug, Clone, Copy, PartialEq, Eq, Structural)]
pub enum SyncError {
    /// Reading from or writing to the peer failed.
    Io,
    /// The peer sent bytes that frame no message.
    InvalidEncoding,
    /// The peer sent a topic query where the handshake allows none.
    UnexpectedBehaviour,
    /// The host reported something that does not answer what was pending.
    OutOfTurn,
}

/// What the host is to do next for a session.
#[derive(Debug, Clone, Copy, PartialEq, Eq)]
pub enum Action {
    /// Write this message to the peer.
    Send(SyncMessage),
    /// Do the synchronization work, which takes this long.
    Work { seconds: u64 },
    /// Tell the overlay that the handshake on this topic succeeded.
    Signal(AppTopic),
    /// Read the next message from the peer.
    Receive,
    /// Flush what was written to the peer and to the overlay.
    Flush,
    /// Return success: the session is over.
    Complete,
    /// Return this error: the session is over.
    Abort(SyncError),
}

/// How the pending action went.
#[derive(Debug, Clone, Copy, PartialEq, Eq)]
pub enum Outcome {
    /// A send, the work, a signal or a flush was carried out.
    Done,
    /// A read brought this message.
    Received(SyncMessage),
    /// A read found the stream at its end.
    Closed,
    /// The stream or the overlay refused the action.
    IoFailed,
    /// A read brought bytes that frame no message.
    Malformed,
}

/// One role of one handshake, at one point of its course.
#[derive(Debug, Clone, Copy, PartialEq, Eq)]
pub enum Session {
    /// Initiator: the topic query is to be sent.
    Querying { topic: AppTopic },
    /// Initiator: the query is out and the work is to be done.
    Working { topic: AppTopic },
    /// Initiator: the work is done and `Done` is to be sent.
    Finishing { topic: AppTopic },
    /// Initiator: `Done` is out and success is to be signalled.
    Announcing { topic: AppTopic },
    /// Initiator: success is signalled; the peer's `Done` is awaited.
    AwaitingDone,
    /// Acceptor: a message is awaited. `greeted` holds once success has been
    /// signalled for a topic query.
    Listening { greeted: bool },
    /// Acceptor: a topic query arrived and success is to be signalled for it.
    Welcoming { topic: AppTopic },
    /// Acceptor: the peer is done and the own `Done` is to be sent.
    Replying,
    /// Either role: everything is written and is to be flushed.
    Flushing,
    /// The handshake went through.
    Completed,
    /// The handshake was given up.
    Failed { error: SyncError },
}

/// What a session wrote and signalled, and how it ended.
pub struct Trace {
    pub sent: Seq<SyncMessage>,
    pub signalled: Seq<AppTopic>,
    pub result: Result<(), SyncError>,
}

impl Session {
    /// The initiator's session for `topic`, before anything is sent.
    pub open spec fn initiator(topic: AppTopic) -> Session {
        Session::Querying { topic }
    }

    /// The acceptor's session, before anything is read.
    pub open spec fn acceptor() -> Session {
        Session::Listening { greeted: false }
    }

    /// Whether the session is over.
    pub open spec fn is_over(self) -> bool {
        self is Completed || self is Failed
    }

    /// The action that the session waits for.
    pub open spec fn pending_action(self) -> Action {
        match self {
            Session::Querying { topic } => Action::Send(SyncMessage::TopicQuery(topic)),
            Session::Working { .. } => Action::Work { seconds: WORK_SECONDS },
            Session::Finishing { .. } => Action::Send(SyncMessage::Done),
            Session::Announcing { topic } => Action::Signal(topic),
            Session::AwaitingDone => Action::Receive,
            Session::Listening { .. } => Action::Receive,
            Session::Welcoming { topic } => Action::Signal(topic),
            Session::Replying => Action::Send(SyncMessage::Done),
            Session::Flushing => Action::Flush,
            Session::Completed => Action::Complete,
            Session::Failed { error } => Action::Abort(error),
        }
    }

    /// The session after the pending action went as `outcome` says.
    ///
    /// A failure of the stream ends the session wherever it stands. The
    /// initiator takes no topic query at all, the acceptor none after it has
    /// signalled success. A stream that ends is taken as the peer's `Done`.
    /// A session that is over stays as it is.
    pub open spec fn after(self, outcome: Outcome) -> Session {
        if self.is_over() {
            self
        } else {
            match outcome {
                Outcome::IoFailed => Session::Failed { error: SyncError::Io },
                Outcome::Malformed => Session::Failed { error: SyncError::InvalidEncoding },
                Outcome::Done => match self {
                    Session::Querying { topic } => Session::Working { topic },
                    Session::Working { topic } => Session::Finishing { topic },
                    Session::Finishing { topic } => Session::Announcing { topic },
                    Session::Announcing { .. } => Session::AwaitingDone,
                    Session::Welcoming { .. } => Session::Listening { greeted: true },
                    Session::Replying => Session::Flushing,
                    Session::Flushing => Session::Completed,
                    _ => Session::Failed { error: SyncError::OutOfTurn },
                },
                Outcome::Received(SyncMessage::Done) => match self {
                    Session::AwaitingDone => Session::Flushing,
                    Session::Listening { .. } => Session::Replying,
                    _ => Session::Failed { error: SyncError::OutOfTurn },
                },
                Outcome::Received(SyncMessage::TopicQuery(topic)) => match self {
                    Session::AwaitingDone => Session::Failed {
                        error: SyncError::UnexpectedBehaviour,
                    },
                    Session::Listening { greeted } => if greeted {
                        Session::Failed { error: SyncError::UnexpectedBehaviour }
                    } else {
                        Session::Welcoming { topic }
                    },
                    _ => Session::Failed { error: SyncError::OutOfTurn },
                },
                Outcome::Closed => match self {
                    Session::AwaitingDone => Session::Flushing,
                    Session::Listening { .. } => Session::Replying,
                    _ => Session::Failed { error: SyncError::OutOfTurn },
                },
            }
        }
    }

    /// A measure that falls with every action but a read; it bounds what the
    /// session still asks for before it next reads or ends.
    pub open spec fn rank(self) -> nat {
        match self {
            Session::Querying { .. } => 7,
            Session::Working { .. } => 6,
            Session::Finishing { .. } => 5,
            Session::Announcing { .. } => 4,
            Session::AwaitingDone => 3,
            Session::Welcoming { .. } => 5,
            Session::Listening { .. } => 4,
            Session::Replying => 2,
            Session::Flushing => 1,
            Session::Completed => 0,
            Session::Failed { .. } => 0,
        }
    }

    /// The course of the session against a peer that sends `inbound` and
    /// then closes the stream, on a stream and an overlay that refuse
    /// nothing.
    pub open spec fn play(self, inbound: Seq<SyncMessage>) -> Trace
        decreases inbound.len(), self.rank(),
    {
        match self.pending_action() {
            Action::Complete => Trace { sent: seq![], signalled: seq![], result: Ok(()) },
            Action::Abort(error) => Trace { sent: seq![], signalled: seq![], result: Err(error) },
            Action::Send(message) => {
                let rest = self.after(Outcome::Done).play(inbound);
                Trace { sent: seq![message] + rest.sent, ..rest }
            },
            Action::Signal(topic) => {
                let rest = self.after(Outcome::Done).play(inbound);
                Trace { signalled: seq![topic] + rest.signalled, ..rest }
            },
            Action::Work { .. } | Action::Flush => self.after(Outcome::Done).play(inbound),
            Action::Receive => if inbound.len() == 0 {
                self.after(Outcome::Closed).play(inbound)
            } else {
                self.after(Outcome::Received(inbound[0])).play(inbound.skip(1))
            },
        }
    }

    /// The action that the host is to carry out next.
    pub fn pending(&self) -> (action: Action)
        ensures
            action == self.pending_action(),
    {
        match *self {
            Session::Querying { topic } => Action::Send(SyncMessage::TopicQuery(topic)),
            Session::Working { .. } => Action::Work { seconds: WORK_SECONDS },
            Session::Finishing { .. } => Action::Send(SyncMessage::Done),
            Session::Announcing { topic } => Action::Signal(topic),
            Session::AwaitingDone => Action::Receive,
            Session::Listening { .. } => Action::Receive,
            Session::Welcoming { topic } => Action::Signal(topic),
            Session::Replying => Action::Send(SyncMessage::Done),
            Session::Flushing => Action::Flush,
            Session::Completed => Action::Complete,
            Session::Failed { error } => Action::Abort(error),
        }
    }

    /// Moves on after the pending action went as `outcome` says, and returns
    /// the action that is pending then.
    pub fn step(&mut self, outcome: Outcome) -> (action: Action)
        ensures
            *final(self) == old(self).after(outcome),
            action == final(self).pending_action(),
    {
        let next = match (*self, outcome) {
            (Session::Completed, _) => Session::Completed,
            (Session::Failed { error }, _) => Session::Failed { error },
            (_, Outcome::IoFailed) => Session::Failed { error: SyncError::Io },
            (_, Outcome::Malformed) => Session::Failed { error: SyncError::InvalidEncoding },
            (Session::Querying { topic }, Outcome::Done) => Session::Working { topic },
            (Session::Working { topic }, Outcome::Done) => Session::Finishing { topic },
            (Session::Finishing { topic }, Outcome::Done) => Session::Announcing { topic },
            (Session::Announcing { .. }, Outcome::Done) => Session::AwaitingDone,
            (Session::Welcoming { .. }, Outcome::Done) => Session::Listening { greeted: true },
            (Session::Replying, Outcome::Done) => Session::Flushing,
            (Session::Flushing, Outcome::Done) => Session::Completed,
            (Session::AwaitingDone, Outcome::Received(SyncMessage::Done)) => Session::Flushing,
            (Session::AwaitingDone, Outcome::Closed) => Session::Flushing,
            (Session::AwaitingDone, Outcome::Received(SyncMessage::TopicQuery(_))) => {
                Session::Failed { error: SyncError::UnexpectedBehaviour }
            },
            (Session::Listening { .. }, Outcome::Received(SyncMessage::Done)) => Session::Replying,
            (Session::Listening { .. }, Outcome::Closed) => Session::Replying,
            (
                Session::Listening { greeted: false },
                Outcome::Received(SyncMessage::TopicQuery(topic)),
            ) => Session::Welcoming { topic },
            (
                Session::Listening { greeted: true },
                Outcome::Received(SyncMessage::TopicQuery(_)),
            ) => Session::Failed { error: SyncError::UnexpectedBehaviour },
            _ => Session::Failed { error: SyncError::OutOfTurn },
        };
        *self = next;
        self.pending()
    }
}

/// A synchronization protocol that goes through the handshake and exchanges
/// nothing else.
#[derive(Debug)]
pub struct DummyProtocol {}

impl DummyProtocol {
    /// The name and version under which peers recognise the protocol.
    pub fn name(&self) -> (name: &'static str)
        ensures
            name@ == "dummy_protocol_v1"@,
    {
        "dummy_protocol_v1"
    }

    /// Opens the initiator's side of a handshake on `topic_query`.
    pub fn initiate(&self, topic_query: AppTopic) -> (session: Session)
        ensures
            session == Session::initiator(topic_query),
    {
        Session::Querying { topic: topic_query }
    }

    /// Opens the acceptor's side of a handshake.
    pub fn accept(&self) -> (session: Session)
        ensures
            session == Session::acceptor(),
    {
        Session::Listening { greeted: false }
    }
}

/// Whatever the peer sends, the initiator writes its query and its `Done`,
/// and signals success for its topic once. It fails only if the peer's first
/// message is a topic query.
pub proof fn lemma_initiator_course(topic: AppTopic, inbound: Seq<SyncMessage>)
    ensures
        Session::initiator(topic).play(inbound).sent == seq![
            SyncMessage::TopicQuery(topic),
            SyncMessage::Done,
        ],
        Session::initiator(topic).play(inbound).signalled == seq![topic],
        Session::initiator(topic).play(inbound).result == if inbound.len() > 0
            && inbound[0] is TopicQuery {
            Err::<(), SyncError>(SyncError::UnexpectedBehaviour)
        } else {
            Ok::<(), SyncError>(())
        },
{
    reveal_with_fuel(Session::play, 8);
    let trace = Session::initiator(topic).play(inbound);
    assert(trace.sent =~= seq![SyncMessage::TopicQuery(topic), SyncMessage::Done]);
    assert(trace.signalled =~= seq![topic]);
}

/// Two sessions joined back to back, each reading what the other writes,
/// both complete, and the initiator signals success for its topic exactly
/// once. The acceptor signals the same topic and answers with one `Done`.
pub proof fn lemma_loopback_handshake(topic: AppTopic, initiator: Trace, acceptor: Trace)
    requires
        initiator == Session::initiator(topic).play(acceptor.sent),
        acceptor == Session::acceptor().play(initiator.sent),
    ensures
        initiator.result == Ok::<(), SyncError>(()),
        acceptor.result == Ok::<(), SyncError>(()),
        initiator.signalled == seq![topic],
        acceptor.signalled == seq![topic],
        initiator.sent == seq![SyncMessage::TopicQuery(topic), SyncMessage::Done],
        acceptor.sent == seq![SyncMessage::Done],
{
    lemma_initiator_course(topic, acceptor.sent);
    lemma_acceptor_course(initiator.sent);
}

/// The acceptor's whole course is settled by the first two messages of the
/// peer. A topic query first makes it signal success for that topic; a second
/// topic query right after makes it give up without a word; in every other
/// case it answers with one `Done` and completes.
pub proof fn lemma_acceptor_course(inbound: Seq<SyncMessage>)
    ensures
        Session::acceptor().play(inbound) == if inbound.len() >= 2 && inbound[0] is TopicQuery
            && inbound[1] is TopicQuery {
            Trace {
                sent: seq![],
                signalled: seq![inbound[0]->TopicQuery_0],
                result: Err(SyncError::UnexpectedBehaviour),
            }
        } else if inbound.len() >= 1 && inbound[0] is TopicQuery {
            Trace {
                sent: seq![SyncMessage::Done],
                signalled: seq![inbound[0]->TopicQuery_0],
                result: Ok(()),
            }
        } else {
            Trace { sent: seq![SyncMessage::Done], signalled: seq![], result: Ok(()) }
        },
{
    reveal_with_fuel(Session::play, 6);
    let trace = Session::acceptor().play(inbound);
    if inbound.len() >= 1 {
        assert(inbound.skip(1).len() == inbound.len() - 1);
        if inbound.len() >= 2 {
            assert(inbound.skip(1)[0] == inbound[1]);
        }
    }
    if inbound.len() >= 2 && inbound[0] is TopicQuery && inbound[1] is TopicQuery {
        assert(trace.sent =~= seq![]);
        assert(trace.signalled =~= seq![inbound[0]->TopicQuery_0]);
    } else if inbound.len() >= 1 && inbound[0] is TopicQuery {
        assert(trace.sent =~= seq![SyncMessage::Done]);
        assert(trace.signalled =~= seq![inbound[0]->TopicQuery_0]);
    } else {
        assert(trace.sent =~= seq![SyncMessage::Done]);
        assert(trace.signalled =~= seq![]);
    }
}

/// An acceptor that has signalled success gives the session up on a further
/// topic query, whatever else the peer sends after it: it signals nothing
/// for the second query and writes nothing.
pub proof fn lemma_second_query_fails(first: AppTopic, second: AppTopic, rest: Seq<SyncMessage>)
    ensures
        Session::acceptor().play(
            seq![SyncMessage::TopicQuery(first), SyncMessage::TopicQuery(second)] + rest,
        ) == (Trace {
            sent: seq![],
            signalled: seq![first],
            result: Err(SyncError::UnexpectedBehaviour),
        }),
        (Session::Listening { greeted: true }).after(
            Outcome::Received(SyncMessage::TopicQuery(second)),
        ) == (Session::Failed { error: SyncError::UnexpectedBehaviour }),
{
    let inbound = seq![SyncMessage::TopicQuery(first), SyncMessage::TopicQuery(second)] + rest;
    assert(inbound[0] == SyncMessage::TopicQuery(first));
    assert(inbound[1] == SyncMessage::TopicQuery(second));
    lemma_acceptor_course(inbound);
}

/// Neither role signals success more than once, whatever the peer sends.
pub proof fn lemma_success_signalled_at_most_once(topic: AppTopic, inbound: Seq<SyncMessage>)
    ensures
        Session::initiator(topic).play(inbound).signalled.len() == 1,
        Session::acceptor().play(inbound).signalled.len() <= 1,
{
    lemma_initiator_course(topic, inbound);
    lemma_acceptor_course(inbound);
}

/// A session that is over stays over: it asks for nothing but to return, and
/// writes and signals nothing more, whatever arrives.
pub proof fn lemma_over_is_final(session: Session, outcome: Outcome, inbound: Seq<SyncMessage>)
    requires
        session.is_over(),
    ensures
        session.after(outcome) == session,
        session.pending_action() is Complete || session.pending_action() is Abort,
        session.play(inbound).sent == Seq::<SyncMessage>::empty(),
        session.play(inbound).signalled == Seq::<AppTopic>::empty(),
{
}

} // verus!
