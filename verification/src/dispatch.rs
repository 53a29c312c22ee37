//! The one attempt to deliver a message.
//!
//! Delivery needs the session twice: to find the room of the destination's
//! name, and to send. Both are done by the caller. What is decided here is
//! the order: [`begin`] and [`step`] say what to do next, given what the
//! session answered, until there is a result to report. A dispatch sends at
//! most once, never retries, and remembers nothing of earlier dispatches:
//! two dispatches of the same message are two sends.

use vstd::prelude::*;

verus! {

/// The message was handed to the session once and accepted.
#[derive(Debug, Clone, Copy, PartialEq, Eq)]
pub struct Ack;

/// Why a message was not delivered.
#[derive(Debug, Clone, Copy, PartialEq, Eq)]
pub enum DispatchError {
    /// The destination names no room that the session is in.
    RoomNotFound,
    /// The session refused the message, or did not answer in time.
    SendFailed,
}

/// What a dispatch waits for.
#[derive(Debug, Clone, Copy, PartialEq, Eq)]
pub enum DispatchState {
    /// For the session to say whether it is in the room.
    Locating,
    /// For the session to say what became of the message.
    Sending,
    /// For nothing: the result is known.
    Done(Result<Ack, DispatchError>),
}

/// What the session answered.
#[derive(Debug, Clone, Copy, PartialEq, Eq)]
pub enum SessionEvent {
    RoomFound,
    RoomMissing,
    Delivered,
    Refused,
    TimedOut,
}

/// What the caller is to do next.
#[derive(Debug, Clone, Copy, PartialEq, Eq)]
pub enum Action {
    /// Ask the session for the room.
    Locate,
    /// Send the message to the room, once.
    Send,
    /// Stop, with this result.
    Report(Result<Ack, DispatchError>),
}

/// Whether a text is a room identifier: it begins with `!` and holds no NUL.
pub open spec fn is_room_id(text: Seq<char>) -> bool {
    &&& text.len() > 0
    &&& text[0] == '!'
    &&& !text.contains('\0')
}

/// Calls `RoomId::parse` of `matrix_sdk::ruma` and says whether it accepted
/// the text. The contract claims that it accepts exactly the texts that
/// begin with `!` and hold no NUL; it sets no bound on the length.
#[verifier::external_body]
fn parses_as_room_id(text: &str) -> (accepted: bool)
    ensures
        accepted == is_room_id(text@),
{
    matrix_sdk::ruma::RoomId::parse(text).is_ok()
}

/// A dispatch that has come to its result.
pub open spec fn done(result: Result<Ack, DispatchError>) -> (DispatchState, Action) {
    (DispatchState::Done(result), Action::Report(result))
}

/// How a dispatch to a destination begins: by asking for the room, unless
/// the destination cannot name a room at all.
pub open spec fn opening(destination: Seq<char>) -> (DispatchState, Action) {
    if is_room_id(destination) {
        (DispatchState::Locating, Action::Locate)
    } else {
        done(Err(DispatchError::RoomNotFound))
    }
}

/// How a dispatch goes on after an answer of the session.
///
/// A found room is sent to, a missing one ends the dispatch. After the
/// send, only `Delivered` is a success. An answer that does not fit what
/// was asked ends the dispatch as a failed send. Once there is a result,
/// it stays.
pub open spec fn next(state: DispatchState, event: SessionEvent) -> (DispatchState, Action) {
    match state {
        DispatchState::Locating => match event {
            SessionEvent::RoomFound => (DispatchState::Sending, Action::Send),
            SessionEvent::RoomMissing => done(Err(DispatchError::RoomNotFound)),
            _ => done(Err(DispatchError::SendFailed)),
        },
        DispatchState::Sending => match event {
            SessionEvent::Delivered => done(Ok(Ack)),
            _ => done(Err(DispatchError::SendFailed)),
        },
        DispatchState::Done(result) => done(result),
    }
}

/// The state of a dispatch after a series of answers.
pub open spec fn settled(state: DispatchState, events: Seq<SessionEvent>) -> DispatchState
    decreases events.len(),
{
    if events.len() == 0 {
        state
    } else {
        settled(next(state, events[0]).0, events.drop_first())
    }
}

/// How often a dispatch asks for a send over a series of answers.
pub open spec fn sends(state: DispatchState, events: Seq<SessionEvent>) -> nat
    decreases events.len(),
{
    if events.len() == 0 {
        0
    } else {
        let (after, action) = next(state, events[0]);
        let here: nat = if action == Action::Send {
            1
        } else {
            0
        };
        here + sends(after, events.drop_first())
    }
}

/// Begins a dispatch to a destination: see [`opening`].
pub fn begin(destination: &str) -> (first: (DispatchState, Action))
    ensures
        first == opening(destination@),
{
    if parses_as_room_id(destination) {
        (DispatchState::Locating, Action::Locate)
    } else {
        let result: Result<Ack, DispatchError> = Err(DispatchError::RoomNotFound);
        (DispatchState::Done(result), Action::Report(result))
    }
}

/// Takes an answer of the session and says what to do next: see [`next`].
pub fn step(state: DispatchState, event: SessionEvent) -> (after: (DispatchState, Action))
    ensures
        after == next(state, event),
{
    let result: Result<Ack, DispatchError> = match state {
        DispatchState::Locating => match event {
            SessionEvent::RoomFound => {
                return (DispatchState::Sending, Action::Send);
            },
            SessionEvent::RoomMissing => Err(DispatchError::RoomNotFound),
            _ => Err(DispatchError::SendFailed),
        },
        DispatchState::Sending => match event {
            SessionEvent::Delivered => Ok(Ack),
            _ => Err(DispatchError::SendFailed),
        },
        DispatchState::Done(result) => result,
    };
    (DispatchState::Done(result), Action::Report(result))
}

/// Once a dispatch has its result, no answer changes it or causes a send.
pub proof fn lemma_result_is_final(result: Result<Ack, DispatchError>, events: Seq<SessionEvent>)
    ensures
        settled(DispatchState::Done(result), events) == DispatchState::Done(result),
        sends(DispatchState::Done(result), events) == 0,
    decreases events.len(),
{
    if events.len() > 0 {
        lemma_result_is_final(result, events.drop_first());
    }
}

/// After the send was asked for, no answer causes another: a failed send is
/// not tried again.
pub proof fn lemma_no_second_send(events: Seq<SessionEvent>)
    ensures
        sends(DispatchState::Sending, events) == 0,
{
    if events.len() > 0 {
        let after = next(DispatchState::Sending, events[0]).0;
        lemma_result_is_final(after->Done_0, events.drop_first());
    }
}

/// Whatever the session answers, a dispatch asks for at most one send.
pub proof fn lemma_at_most_one_send(events: Seq<SessionEvent>)
    ensures
        sends(DispatchState::Locating, events) <= 1,
{
    if events.len() > 0 {
        let after = next(DispatchState::Locating, events[0]).0;
        if events[0] == SessionEvent::RoomFound {
            lemma_no_second_send(events.drop_first());
        } else {
            lemma_result_is_final(after->Done_0, events.drop_first());
        }
    }
}

/// A dispatch that ends in an acknowledgement asked for exactly one send,
/// and the session answered it with `Delivered`.
pub proof fn lemma_ack_means_one_send(events: Seq<SessionEvent>)
    requires
        settled(DispatchState::Locating, events) == DispatchState::Done(Ok(Ack)),
    ensures
        sends(DispatchState::Locating, events) == 1,
        events.len() >= 2,
        events[0] == SessionEvent::RoomFound,
        events[1] == SessionEvent::Delivered,
{
    assert(events.len() > 0);
    let rest = events.drop_first();
    let after = next(DispatchState::Locating, events[0]).0;
    if events[0] == SessionEvent::RoomFound {
        lemma_no_second_send(rest);
        assert(settled(DispatchState::Locating, events) == settled(DispatchState::Sending, rest));
        assert(rest.len() > 0);
        let last = next(DispatchState::Sending, rest[0]).0;
        assert(settled(DispatchState::Sending, rest) == settled(last, rest.drop_first()));
        lemma_result_is_final(last->Done_0, rest.drop_first());
        assert(events[1] == rest[0]);
    } else {
        lemma_result_is_final(after->Done_0, rest);
    }
}

/// A dispatch whose room is missing ends with `RoomNotFound` and sends
/// nothing.
pub proof fn lemma_missing_room_sends_nothing(events: Seq<SessionEvent>)
    requires
        events.len() > 0,
        events[0] == SessionEvent::RoomMissing,
    ensures
        sends(DispatchState::Locating, events) == 0,
        settled(DispatchState::Locating, events) == DispatchState::Done(Err(DispatchError::RoomNotFound)),
{
    lemma_result_is_final(Err(DispatchError::RoomNotFound), events.drop_first());
}

/// Two dispatches in a row that both find the room ask for two sends: the
/// second is not held back because the first went through.
pub proof fn lemma_dispatch_is_not_idempotent(first: Seq<SessionEvent>, second: Seq<SessionEvent>)
    requires
        first.len() > 0,
        second.len() > 0,
        first[0] == SessionEvent::RoomFound,
        second[0] == SessionEvent::RoomFound,
    ensures
        sends(DispatchState::Locating, first) + sends(DispatchState::Locating, second) == 2,
{
    lemma_no_second_send(first.drop_first());
    lemma_no_second_send(second.drop_first());
}

} // verus!
