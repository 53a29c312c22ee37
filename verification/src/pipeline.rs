//! The path of one notification, from payload to response.
//!
//! A request passes through normalisation, resolution and rendering, which
//! [`route`] and [`prepare`] perform in that order. What comes out is either
//! one message for one destination, or the error of the first step that
//! failed. The caller dispatches the message and hands the result to
//! [`conclude`]. Nothing is retried and nothing is remembered between
//! requests.

use vstd::prelude::*;
use crate::config::{
    config_text, configured, destination, lemma_absent_repository_fails, lemma_named_repository_resolves,
    RepoDestinationMap, ResolveError,
};
use crate::dispatch::{Ack, DispatchError};
use crate::event::{canonical, normalize, payload_commits, NormalizeError};
use crate::message::{rendered, MessageModel, RenderedMessage};
use crate::payload::{PayloadModel, WebhookPayload};

verus! {

/// Every way in which a notification can fail.
#[derive(Debug, Clone, Copy, PartialEq, Eq)]
pub enum PipelineError {
    /// The payload is malformed.
    ParseError,
    /// The payload carries no commit.
    EmptyCommitList,
    /// The table of destinations could not be read.
    ConfigUnavailable,
    /// The table names no destination for the repository.
    NotFound,
    /// The session knows no room of the destination's name.
    RoomNotFound,
    /// The session could not send the message, or gave up waiting.
    SendFailed,
}

/// One message and the room it goes to.
#[derive(Debug, Clone, PartialEq, Eq)]
pub struct Outgoing {
    pub destination: String,
    pub message: RenderedMessage,
}

/// The mathematical value of an [`Outgoing`].
pub struct OutgoingModel {
    pub destination: Seq<char>,
    pub message: MessageModel,
}

impl View for Outgoing {
    type V = OutgoingModel;

    open spec fn view(&self) -> OutgoingModel {
        OutgoingModel { destination: self.destination@, message: self.message@ }
    }
}

/// The class of the response that a request is answered with.
#[derive(Debug, Clone, Copy, PartialEq, Eq)]
pub enum ResponseClass {
    /// The notification was delivered.
    Success,
    /// The payload was at fault.
    ClientError,
    /// The table, the session or the network was at fault.
    ServerError,
}

/// What is to be sent for a payload, given the table of destinations where
/// there is one. The payload is judged first: one without commits or with
/// an unnamed author fails whatever the table says.
pub open spec fn routed(payload: PayloadModel, table: Option<Seq<(Seq<char>, Seq<char>)>>) -> Result<
    OutgoingModel,
    PipelineError,
> {
    if payload_commits(payload).len() == 0 {
        Err(PipelineError::EmptyCommitList)
    } else if !canonical(payload).authors_named() {
        Err(PipelineError::ParseError)
    } else {
        match table {
            None => Err(PipelineError::ConfigUnavailable),
            Some(lines) => match destination(lines, canonical(payload).repository) {
                Some(room) => Ok(
                    OutgoingModel { destination: room, message: rendered(canonical(payload)) },
                ),
                None => Err(PipelineError::NotFound),
            },
        }
    }
}

/// What is to be sent for a payload, given the text of the table of
/// destinations where it could be read.
pub open spec fn planned(payload: PayloadModel, config: Option<Seq<char>>) -> Result<OutgoingModel, PipelineError> {
    routed(
        payload,
        match config {
            Some(text) => configured(text),
            None => None,
        },
    )
}

/// The lines of a table, where there is one.
pub open spec fn table_lines(table: Option<&RepoDestinationMap>) -> Option<Seq<(Seq<char>, Seq<char>)>> {
    match table {
        Some(table) => Some(table@),
        None => None,
    }
}

/// Decides what to send for a payload, and where, with the table of
/// destinations at hand: see [`routed`].
pub fn route(payload: &WebhookPayload, table: Option<&RepoDestinationMap>) -> (result: Result<
    Outgoing,
    PipelineError,
>)
    ensures
        match routed(payload@, table_lines(table)) {
            Ok(outgoing) => result is Ok && result->Ok_0@ == outgoing,
            Err(error) => result is Err && result->Err_0 == error,
        },
{
    let event = match normalize(payload) {
        Ok(event) => event,
        Err(NormalizeError::ParseError) => {
            return Err(PipelineError::ParseError);
        },
        Err(NormalizeError::EmptyCommitList) => {
            return Err(PipelineError::EmptyCommitList);
        },
    };
    let table = match table {
        Some(table) => table,
        None => {
            return Err(PipelineError::ConfigUnavailable);
        },
    };
    let destination = match table.lookup(event.repository.as_str()) {
        Some(room) => room,
        None => {
            return Err(PipelineError::NotFound);
        },
    };
    let message = crate::message::format(&event);
    Ok(Outgoing { destination, message })
}

/// Decides what to send for a payload, and where, reading the table of
/// destinations from its text: see [`planned`]. `config` is `None` where
/// the text could not be read.
pub fn prepare(payload: &WebhookPayload, config: Option<&str>) -> (result: Result<Outgoing, PipelineError>)
    ensures
        match planned(payload@, config_text(config)) {
            Ok(outgoing) => result is Ok && result->Ok_0@ == outgoing,
            Err(error) => result is Err && result->Err_0 == error,
        },
{
    let table = match config {
        Some(text) => RepoDestinationMap::parse(text),
        None => Err(ResolveError::ConfigUnavailable),
    };
    match table {
        Ok(table) => route(payload, Some(&table)),
        Err(_) => route(payload, None),
    }
}

/// A payload that normalises, for a repository that the table names, is
/// routed to the room of the first line that names the repository, with
/// the rendering of its event as the message.
pub proof fn lemma_configured_repository_is_routed(
    payload: PayloadModel,
    lines: Seq<(Seq<char>, Seq<char>)>,
    index: int,
)
    requires
        canonical(payload).well_formed(),
        0 <= index < lines.len(),
        lines[index].0 == canonical(payload).repository,
        forall|j: int| 0 <= j < index ==> lines[j].0 != canonical(payload).repository,
    ensures
        routed(payload, Some(lines)) == Ok::<OutgoingModel, PipelineError>(
            OutgoingModel { destination: lines[index].1, message: rendered(canonical(payload)) },
        ),
{
    lemma_named_repository_resolves(lines, index);
}

/// A payload that normalises, for a repository that the table does not
/// name, is not routed anywhere: there is nothing to send.
pub proof fn lemma_unconfigured_repository_is_not_routed(
    payload: PayloadModel,
    lines: Seq<(Seq<char>, Seq<char>)>,
)
    requires
        canonical(payload).well_formed(),
        forall|i: int| 0 <= i < lines.len() ==> (#[trigger] lines[i]).0 != canonical(payload).repository,
    ensures
        routed(payload, Some(lines)) == Err::<OutgoingModel, PipelineError>(PipelineError::NotFound),
{
    lemma_absent_repository_fails(lines, canonical(payload).repository);
}

/// The result of a request whose message was dispatched.
pub open spec fn concluded(outcome: Result<Ack, DispatchError>) -> Result<Ack, PipelineError> {
    match outcome {
        Ok(ack) => Ok(ack),
        Err(DispatchError::RoomNotFound) => Err(PipelineError::RoomNotFound),
        Err(DispatchError::SendFailed) => Err(PipelineError::SendFailed),
    }
}

/// Turns the result of the dispatch into the result of the request.
pub fn conclude(outcome: Result<Ack, DispatchError>) -> (result: Result<Ack, PipelineError>)
    ensures
        result == concluded(outcome),
{
    match outcome {
        Ok(ack) => Ok(ack),
        Err(DispatchError::RoomNotFound) => Err(PipelineError::RoomNotFound),
        Err(DispatchError::SendFailed) => Err(PipelineError::SendFailed),
    }
}

/// The class of response that a result is answered with: a fault of the
/// payload is the caller's, every other fault is the server's.
pub open spec fn class_of(result: Result<Ack, PipelineError>) -> ResponseClass {
    match result {
        Ok(_) => ResponseClass::Success,
        Err(PipelineError::ParseError) => ResponseClass::ClientError,
        Err(PipelineError::EmptyCommitList) => ResponseClass::ClientError,
        Err(_) => ResponseClass::ServerError,
    }
}

/// Classifies the result of a request for the response.
pub fn response_class(result: &Result<Ack, PipelineError>) -> (class: ResponseClass)
    ensures
        class == class_of(*result),
{
    match result {
        Ok(_) => ResponseClass::Success,
        Err(PipelineError::ParseError) => ResponseClass::ClientError,
        Err(PipelineError::EmptyCommitList) => ResponseClass::ClientError,
        Err(_) => ResponseClass::ServerError,
    }
}

} // verus!
