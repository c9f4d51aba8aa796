use peer_node::sync::{
    Action, DummyProtocol, Outcome, Session, SyncError, SyncMessage, WORK_SECONDS,
};
use peer_node::topic::{app_topic, AppTopic};

/// What one side of a handshake did on a stream that refuses nothing.
struct Course {
    sent: Vec<SyncMessage>,
    signalled: Vec<AppTopic>,
    result: Result<(), SyncError>,
}

/// Drives a session against a peer that sends `inbound` and then closes.
fn play(mut session: Session, inbound: &[SyncMessage]) -> Course {
    let mut course = Course { sent: Vec::new(), signalled: Vec::new(), result: Ok(()) };
    let mut unread = inbound.iter();
    let mut action = session.pending();
    for _ in 0..64 {
        let outcome = match action {
            Action::Send(message) => {
                course.sent.push(message);
                Outcome::Done
            }
            Action::Signal(topic) => {
                course.signalled.push(topic);
                Outcome::Done
            }
            Action::Work { .. } | Action::Flush => Outcome::Done,
            Action::Receive => match unread.next() {
                Some(message) => Outcome::Received(*message),
                None => Outcome::Closed,
            },
            Action::Complete => return course,
            Action::Abort(error) => {
                course.result = Err(error);
                return course;
            }
        };
        action = session.step(outcome);
    }
    panic!("the session did not end");
}

#[test]
fn protocol_has_its_name() {
    assert_eq!(DummyProtocol {}.name(), "dummy_protocol_v1");
}

#[test]
fn initiator_starts_with_its_query() {
    let topic = AppTopic([9; 32]);
    let session = DummyProtocol {}.initiate(topic);
    assert_eq!(session, Session::Querying { topic });
    assert_eq!(session.pending(), Action::Send(SyncMessage::TopicQuery(topic)));
}

#[test]
fn acceptor_starts_by_reading() {
    let session = DummyProtocol {}.accept();
    assert_eq!(session, Session::Listening { greeted: false });
    assert_eq!(session.pending(), Action::Receive);
}

#[test]
fn initiator_goes_through_its_steps_in_order() {
    let topic = app_topic();
    let mut session = DummyProtocol {}.initiate(topic);
    assert_eq!(session.step(Outcome::Done), Action::Work { seconds: 3 });
    assert_eq!(session, Session::Working { topic });
    assert_eq!(session.step(Outcome::Done), Action::Send(SyncMessage::Done));
    assert_eq!(session, Session::Finishing { topic });
    assert_eq!(session.step(Outcome::Done), Action::Signal(topic));
    assert_eq!(session, Session::Announcing { topic });
    assert_eq!(session.step(Outcome::Done), Action::Receive);
    assert_eq!(session, Session::AwaitingDone);
    assert_eq!(session.step(Outcome::Received(SyncMessage::Done)), Action::Flush);
    assert_eq!(session, Session::Flushing);
    assert_eq!(session.step(Outcome::Done), Action::Complete);
    assert_eq!(session, Session::Completed);
}

#[test]
fn acceptor_goes_through_its_steps_in_order() {
    let topic = AppTopic([4; 32]);
    let mut session = DummyProtocol {}.accept();
    assert_eq!(
        session.step(Outcome::Received(SyncMessage::TopicQuery(topic))),
        Action::Signal(topic)
    );
    assert_eq!(session, Session::Welcoming { topic });
    assert_eq!(session.step(Outcome::Done), Action::Receive);
    assert_eq!(session, Session::Listening { greeted: true });
    assert_eq!(
        session.step(Outcome::Received(SyncMessage::Done)),
        Action::Send(SyncMessage::Done)
    );
    assert_eq!(session, Session::Replying);
    assert_eq!(session.step(Outcome::Done), Action::Flush);
    assert_eq!(session.step(Outcome::Done), Action::Complete);
    assert_eq!(session, Session::Completed);
}

#[test]
fn work_takes_three_seconds() {
    assert_eq!(WORK_SECONDS, 3);
    let session = Session::Working { topic: app_topic() };
    assert_eq!(session.pending(), Action::Work { seconds: 3 });
}

#[test]
fn loopback_handshake_completes_on_both_sides() {
    let topic = app_topic();
    let protocol = DummyProtocol {};
    // The initiator writes all it has to say before it reads.
    let outbound = play(protocol.initiate(topic), &[]).sent;
    assert_eq!(outbound, vec![SyncMessage::TopicQuery(topic), SyncMessage::Done]);
    let acceptor = play(protocol.accept(), &outbound);
    let initiator = play(protocol.initiate(topic), &acceptor.sent);
    assert_eq!(initiator.sent, outbound);
    assert_eq!(initiator.result, Ok(()));
    assert_eq!(acceptor.result, Ok(()));
    assert_eq!(initiator.signalled, vec![topic]);
    assert_eq!(acceptor.signalled, vec![topic]);
    assert_eq!(acceptor.sent, vec![SyncMessage::Done]);
}

#[test]
fn acceptor_refuses_a_second_topic_query() {
    let first = AppTopic([1; 32]);
    let second = AppTopic([2; 32]);
    let course = play(
        DummyProtocol {}.accept(),
        &[
            SyncMessage::TopicQuery(first),
            SyncMessage::TopicQuery(second),
            SyncMessage::Done,
        ],
    );
    assert_eq!(course.result, Err(SyncError::UnexpectedBehaviour));
    assert_eq!(course.signalled, vec![first]);
    assert_eq!(course.sent, vec![]);
}

#[test]
fn acceptor_refuses_the_same_topic_query_twice() {
    let topic = app_topic();
    let mut session = Session::Listening { greeted: true };
    assert_eq!(
        session.step(Outcome::Received(SyncMessage::TopicQuery(topic))),
        Action::Abort(SyncError::UnexpectedBehaviour)
    );
    assert_eq!(session, Session::Failed { error: SyncError::UnexpectedBehaviour });
}

#[test]
fn initiator_refuses_a_topic_query() {
    let topic = app_topic();
    let course = play(DummyProtocol {}.initiate(topic), &[SyncMessage::TopicQuery(topic)]);
    assert_eq!(course.result, Err(SyncError::UnexpectedBehaviour));
    assert_eq!(course.sent, vec![SyncMessage::TopicQuery(topic), SyncMessage::Done]);
    assert_eq!(course.signalled, vec![topic]);
}

#[test]
fn acceptor_answers_a_peer_that_is_done_at_once() {
    let course = play(DummyProtocol {}.accept(), &[SyncMessage::Done]);
    assert_eq!(course.result, Ok(()));
    assert_eq!(course.sent, vec![SyncMessage::Done]);
    assert_eq!(course.signalled, vec![]);
}

#[test]
fn closed_stream_counts_as_done() {
    let topic = app_topic();
    let acceptor = play(DummyProtocol {}.accept(), &[SyncMessage::TopicQuery(topic)]);
    assert_eq!(acceptor.result, Ok(()));
    assert_eq!(acceptor.sent, vec![SyncMessage::Done]);
    assert_eq!(acceptor.signalled, vec![topic]);
    let initiator = play(DummyProtocol {}.initiate(topic), &[]);
    assert_eq!(initiator.result, Ok(()));
    assert_eq!(initiator.signalled, vec![topic]);
}

#[test]
fn stream_failure_ends_the_session() {
    let topic = app_topic();
    let states = [
        Session::Querying { topic },
        Session::Working { topic },
        Session::Finishing { topic },
        Session::Announcing { topic },
        Session::AwaitingDone,
        Session::Listening { greeted: false },
        Session::Listening { greeted: true },
        Session::Welcoming { topic },
        Session::Replying,
        Session::Flushing,
    ];
    for state in states {
        let mut session = state;
        assert_eq!(session.step(Outcome::IoFailed), Action::Abort(SyncError::Io));
        assert_eq!(session, Session::Failed { error: SyncError::Io });
        let mut session = state;
        assert_eq!(
            session.step(Outcome::Malformed),
            Action::Abort(SyncError::InvalidEncoding)
        );
        assert_eq!(session, Session::Failed { error: SyncError::InvalidEncoding });
    }
}

#[test]
fn report_out_of_turn_ends_the_session() {
    let topic = app_topic();
    let mut session = Session::Querying { topic };
    assert_eq!(
        session.step(Outcome::Received(SyncMessage::Done)),
        Action::Abort(SyncError::OutOfTurn)
    );
    let mut session = Session::AwaitingDone;
    assert_eq!(session.step(Outcome::Done), Action::Abort(SyncError::OutOfTurn));
    let mut session = Session::Flushing;
    assert_eq!(session.step(Outcome::Closed), Action::Abort(SyncError::OutOfTurn));
    let mut session = Session::Welcoming { topic };
    assert_eq!(
        session.step(Outcome::Received(SyncMessage::TopicQuery(topic))),
        Action::Abort(SyncError::OutOfTurn)
    );
}

#[test]
fn session_that_is_over_stays_over() {
    let outcomes = [
        Outcome::Done,
        Outcome::Received(SyncMessage::Done),
        Outcome::Received(SyncMessage::TopicQuery(app_topic())),
        Outcome::Closed,
        Outcome::IoFailed,
        Outcome::Malformed,
    ];
    for outcome in outcomes {
        let mut session = Session::Completed;
        assert_eq!(session.step(outcome), Action::Complete);
        assert_eq!(session, Session::Completed);
        let mut session = Session::Failed { error: SyncError::UnexpectedBehaviour };
        assert_eq!(session.step(outcome), Action::Abort(SyncError::UnexpectedBehaviour));
        assert_eq!(session, Session::Failed { error: SyncError::UnexpectedBehaviour });
    }
}
