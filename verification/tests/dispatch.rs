use push_relay::dispatch::{begin, step, Ack, Action, DispatchError, DispatchState, SessionEvent};
use push_relay::payload::{MinimalCommit, MinimalWebhook, WebhookPayload};
use push_relay::pipeline::{conclude, prepare, PipelineError};

/// A session that is in some rooms and records what it is asked to send.
struct FakeSession {
    rooms: Vec<String>,
    answer: SessionEvent,
    sent: Vec<(String, String)>,
}

impl FakeSession {
    fn new(rooms: &[&str], answer: SessionEvent) -> FakeSession {
        FakeSession { rooms: rooms.iter().map(|r| r.to_string()).collect(), answer, sent: Vec::new() }
    }
}

fn run(session: &mut FakeSession, destination: &str, body: &str) -> Result<Ack, DispatchError> {
    let (mut state, mut action) = begin(destination);
    for _ in 0..8 {
        let event = match action {
            Action::Locate => {
                if session.rooms.iter().any(|r| r == destination) {
                    SessionEvent::RoomFound
                } else {
                    SessionEvent::RoomMissing
                }
            }
            Action::Send => {
                session.sent.push((destination.to_string(), body.to_string()));
                session.answer
            }
            Action::Report(result) => return result,
        };
        let after = step(state, event);
        state = after.0;
        action = after.1;
    }
    panic!("the dispatch did not end");
}

#[test]
fn begin_asks_for_the_room_of_a_room_identifier() {
    assert_eq!(begin("!room:example.org"), (DispatchState::Locating, Action::Locate));
    assert_eq!(begin("!31hneApxJ_1o-63DmFrpeqnkFfWppnzWso1JvH3ogLM"), (DispatchState::Locating, Action::Locate));
    assert_eq!(begin("!"), (DispatchState::Locating, Action::Locate));
}

#[test]
fn begin_sets_no_bound_on_the_length() {
    let long = format!("!{}:example.org", "a".repeat(400));
    assert_eq!(begin(&long), (DispatchState::Locating, Action::Locate));
}

#[test]
fn begin_gives_up_on_what_is_no_room_identifier() {
    let gone = Err(DispatchError::RoomNotFound);
    assert_eq!(begin(""), (DispatchState::Done(gone), Action::Report(gone)));
    assert_eq!(begin("room:example.org"), (DispatchState::Done(gone), Action::Report(gone)));
    assert_eq!(begin("#room:example.org"), (DispatchState::Done(gone), Action::Report(gone)));
    assert_eq!(begin(" !room:example.org"), (DispatchState::Done(gone), Action::Report(gone)));
    assert_eq!(begin("!room\0:example.org"), (DispatchState::Done(gone), Action::Report(gone)));
}

#[test]
fn step_sends_to_a_found_room() {
    assert_eq!(step(DispatchState::Locating, SessionEvent::RoomFound), (DispatchState::Sending, Action::Send));
}

#[test]
fn step_ends_on_a_missing_room() {
    let gone = Err(DispatchError::RoomNotFound);
    assert_eq!(
        step(DispatchState::Locating, SessionEvent::RoomMissing),
        (DispatchState::Done(gone), Action::Report(gone))
    );
}

#[test]
fn step_reports_what_became_of_the_send() {
    let failed = Err(DispatchError::SendFailed);
    assert_eq!(
        step(DispatchState::Sending, SessionEvent::Delivered),
        (DispatchState::Done(Ok(Ack)), Action::Report(Ok(Ack)))
    );
    assert_eq!(
        step(DispatchState::Sending, SessionEvent::Refused),
        (DispatchState::Done(failed), Action::Report(failed))
    );
    assert_eq!(
        step(DispatchState::Sending, SessionEvent::TimedOut),
        (DispatchState::Done(failed), Action::Report(failed))
    );
}

#[test]
fn step_treats_an_answer_out_of_turn_as_a_failed_send() {
    let failed = Err(DispatchError::SendFailed);
    for event in [SessionEvent::Delivered, SessionEvent::Refused, SessionEvent::TimedOut] {
        assert_eq!(step(DispatchState::Locating, event), (DispatchState::Done(failed), Action::Report(failed)));
    }
    for event in [SessionEvent::RoomFound, SessionEvent::RoomMissing] {
        assert_eq!(step(DispatchState::Sending, event), (DispatchState::Done(failed), Action::Report(failed)));
    }
}

#[test]
fn step_keeps_a_result_once_it_is_there() {
    let events = [
        SessionEvent::RoomFound,
        SessionEvent::RoomMissing,
        SessionEvent::Delivered,
        SessionEvent::Refused,
        SessionEvent::TimedOut,
    ];
    for result in [Ok(Ack), Err(DispatchError::RoomNotFound), Err(DispatchError::SendFailed)] {
        for event in events {
            assert_eq!(
                step(DispatchState::Done(result), event),
                (DispatchState::Done(result), Action::Report(result))
            );
        }
    }
}

#[test]
fn dispatch_sends_once_and_acknowledges() {
    let mut session = FakeSession::new(&["!room:example.org"], SessionEvent::Delivered);
    assert_eq!(run(&mut session, "!room:example.org", "hello"), Ok(Ack));
    assert_eq!(session.sent, vec![("!room:example.org".to_string(), "hello".to_string())]);
}

#[test]
fn dispatch_to_an_unknown_room_sends_nothing() {
    let mut session = FakeSession::new(&["!room:example.org"], SessionEvent::Delivered);
    assert_eq!(run(&mut session, "!other:example.org", "hello"), Err(DispatchError::RoomNotFound));
    assert_eq!(run(&mut session, "no room", "hello"), Err(DispatchError::RoomNotFound));
    assert!(session.sent.is_empty());
}

#[test]
fn failed_send_is_reported_and_not_tried_again() {
    for answer in [SessionEvent::Refused, SessionEvent::TimedOut] {
        let mut session = FakeSession::new(&["!room:example.org"], answer);
        assert_eq!(run(&mut session, "!room:example.org", "hello"), Err(DispatchError::SendFailed));
        assert_eq!(session.sent.len(), 1);
    }
}

#[test]
fn dispatch_is_not_idempotent() {
    let mut session = FakeSession::new(&["!room:example.org"], SessionEvent::Delivered);
    assert_eq!(run(&mut session, "!room:example.org", "hello"), Ok(Ack));
    assert_eq!(run(&mut session, "!room:example.org", "hello"), Ok(Ack));
    assert_eq!(
        session.sent,
        vec![
            ("!room:example.org".to_string(), "hello".to_string()),
            ("!room:example.org".to_string(), "hello".to_string()),
        ]
    );
}

#[test]
fn request_for_a_configured_repository_ends_in_one_send() {
    let table = "[[repos]]\nid = \"org/repo\"\nroom = \"!room:example.org\"\n";
    let payload = WebhookPayload::Minimal(MinimalWebhook {
        repository: "org/repo".to_string(),
        sender: "dave".to_string(),
        commits: vec![
            MinimalCommit { author: "bob".to_string(), url: "u1".to_string(), message: "one".to_string() },
            MinimalCommit { author: "carol".to_string(), url: "u2".to_string(), message: "two".to_string() },
        ],
    });
    let mut session = FakeSession::new(&["!room:example.org"], SessionEvent::Delivered);
    let result = match prepare(&payload, Some(table)) {
        Ok(outgoing) => conclude(run(&mut session, &outgoing.destination, &outgoing.message.plain)),
        Err(error) => Err(error),
    };
    assert_eq!(result, Ok(Ack));
    assert_eq!(session.sent.len(), 1);
    assert_eq!(session.sent[0].0, "!room:example.org");
    assert!(session.sent[0].1.starts_with("New commit by bob and carol:"));
}

#[test]
fn request_for_an_unconfigured_repository_never_reaches_the_session() {
    let table = "[[repos]]\nid = \"org/repo\"\nroom = \"!room:example.org\"\n";
    let payload = WebhookPayload::Minimal(MinimalWebhook {
        repository: "org/elsewhere".to_string(),
        sender: "dave".to_string(),
        commits: vec![MinimalCommit { author: "bob".to_string(), url: "u1".to_string(), message: "one".to_string() }],
    });
    let mut session = FakeSession::new(&["!room:example.org"], SessionEvent::Delivered);
    let result = match prepare(&payload, Some(table)) {
        Ok(outgoing) => conclude(run(&mut session, &outgoing.destination, &outgoing.message.plain)),
        Err(error) => Err(error),
    };
    assert_eq!(result, Err(PipelineError::NotFound));
    assert!(session.sent.is_empty());
}
