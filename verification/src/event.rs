//! The canonical push event and the normalisation of payloads into it.

use vstd::prelude::*;
use crate::payload::{
    Commit, CommitUser, CommitUserModel, FullCommitModel, GithubWebhook, MinimalCommit, MinimalCommitModel,
    MinimalWebhook, PayloadModel, WebhookPayload,
};

verus! {

/// What is kept of one commit: who wrote it, what it says, where it is.
#[derive(Debug, Clone, PartialEq, Eq)]
pub struct CommitInfo {
    pub author: String,
    pub message: String,
    pub url: String,
}

/// The mathematical value of a [`CommitInfo`].
pub struct CommitModel {
    pub author: Seq<char>,
    pub message: Seq<char>,
    pub url: Seq<char>,
}

impl View for CommitInfo {
    type V = CommitModel;

    open spec fn view(&self) -> CommitModel {
        CommitModel { author: self.author@, message: self.message@, url: self.url@ }
    }
}

/// A push, independent of the shape it arrived in.
#[derive(Debug, Clone, PartialEq, Eq)]
pub struct CanonicalPushEvent {
    pub repository: String,
    pub commits: Vec<CommitInfo>,
    /// The commit that the notification is headed by.
    pub primary: CommitInfo,
}

/// The mathematical value of a [`CanonicalPushEvent`].
pub struct EventModel {
    pub repository: Seq<char>,
    pub commits: Seq<CommitModel>,
    pub primary: CommitModel,
}

impl EventModel {
    /// Every commit, the primary one included, names an author.
    pub open spec fn authors_named(self) -> bool {
        &&& self.primary.author.len() > 0
        &&& forall|i: int| 0 <= i < self.commits.len() ==> (#[trigger] self.commits[i]).author.len() > 0
    }

    /// There is at least one commit and every commit names an author.
    pub open spec fn well_formed(self) -> bool {
        &&& self.commits.len() > 0
        &&& self.authors_named()
    }
}

impl View for CanonicalPushEvent {
    type V = EventModel;

    open spec fn view(&self) -> EventModel {
        EventModel {
            repository: self.repository@,
            commits: self.commits@.map_values(|c: CommitInfo| c@),
            primary: self.primary@,
        }
    }
}

impl CanonicalPushEvent {
    /// The invariant of an event that [`normalize`] hands out.
    pub open spec fn well_formed(&self) -> bool {
        self@.well_formed()
    }
}

/// Why a payload yields no event.
#[derive(Debug, Clone, Copy, PartialEq, Eq)]
pub enum NormalizeError {
    /// A commit of the payload names no author.
    ParseError,
    /// The payload is sound but carries no commit, as on a branch deletion.
    EmptyCommitList,
}

/// The author shown for a commit of the full shape: the handle where there
/// is one, the display name otherwise.
pub open spec fn display_author(user: CommitUserModel) -> Seq<char> {
    match user.username {
        Some(handle) => handle,
        None => user.name,
    }
}

/// What is kept of a commit of the full shape.
pub open spec fn full_commit(commit: FullCommitModel) -> CommitModel {
    CommitModel { author: display_author(commit.author), message: commit.message, url: commit.url }
}

/// What is kept of a commit of the minimal shape.
pub open spec fn minimal_commit(commit: MinimalCommitModel) -> CommitModel {
    CommitModel { author: commit.author, message: commit.message, url: commit.url }
}

/// The commits of a payload, in arrival order.
pub open spec fn payload_commits(payload: PayloadModel) -> Seq<CommitModel> {
    match payload {
        PayloadModel::Minimal(hook) => hook.commits.map_values(|c: MinimalCommitModel| minimal_commit(c)),
        PayloadModel::Full(hook) => hook.commits.map_values(|c: FullCommitModel| full_commit(c)),
    }
}

/// The event that a payload with at least one commit stands for.
///
/// The repository of the full shape is its qualified name. The primary
/// commit is the designated head commit of the full shape, and the first
/// commit of the minimal shape, which designates none.
pub open spec fn canonical(payload: PayloadModel) -> EventModel
    recommends
        payload_commits(payload).len() > 0,
{
    match payload {
        PayloadModel::Minimal(hook) => EventModel {
            repository: hook.repository,
            commits: payload_commits(payload),
            primary: minimal_commit(hook.commits[0]),
        },
        PayloadModel::Full(hook) => EventModel {
            repository: hook.repository.full_name,
            commits: payload_commits(payload),
            primary: full_commit(hook.head_commit),
        },
    }
}

fn display_name(user: &CommitUser) -> (name: String)
    ensures
        name@ == display_author(user@),
{
    match &user.username {
        Some(handle) => handle.clone(),
        None => user.name.clone(),
    }
}

fn keep_full(commit: &Commit) -> (info: CommitInfo)
    ensures
        info@ == full_commit(commit@),
{
    CommitInfo { author: display_name(&commit.author), message: commit.message.clone(), url: commit.url.clone() }
}

fn keep_minimal(commit: &MinimalCommit) -> (info: CommitInfo)
    ensures
        info@ == minimal_commit(commit@),
{
    CommitInfo { author: commit.author.clone(), message: commit.message.clone(), url: commit.url.clone() }
}

/// Normalises a payload of the full shape.
pub fn normalize_full(hook: &GithubWebhook) -> (result: Result<CanonicalPushEvent, NormalizeError>)
    ensures
        normalized(PayloadModel::Full(hook@), result),
{
    let ghost payload = PayloadModel::Full(hook@);
    let n: usize = hook.commits.len();
    if n == 0 {
        return Err(NormalizeError::EmptyCommitList);
    }
    let mut commits: Vec<CommitInfo> = Vec::new();
    let mut i: usize = 0;
    while i < n
        invariant
            n == hook.commits.len(),
            payload == PayloadModel::Full(hook@),
            0 <= i <= n,
            commits@.len() == i,
            forall|j: int| 0 <= j < i ==> (#[trigger] commits@[j])@ == payload_commits(payload)[j],
            forall|j: int| 0 <= j < i ==> (#[trigger] payload_commits(payload)[j]).author.len() > 0,
        decreases n - i,
    {
        let info = keep_full(&hook.commits[i]);
        if info.author.as_str().is_empty() {
            proof {
                assert(canonical(payload).commits[i as int] == info@);
            }
            return Err(NormalizeError::ParseError);
        }
        commits.push(info);
        i += 1;
    }
    let primary = keep_full(&hook.head_commit);
    if primary.author.as_str().is_empty() {
        return Err(NormalizeError::ParseError);
    }
    let event = CanonicalPushEvent { repository: hook.repository.full_name.clone(), commits, primary };
    proof {
        assert(event@.commits =~= payload_commits(payload));
    }
    Ok(event)
}

/// Normalises a payload of the minimal shape.
pub fn normalize_minimal(hook: &MinimalWebhook) -> (result: Result<CanonicalPushEvent, NormalizeError>)
    ensures
        normalized(PayloadModel::Minimal(hook@), result),
{
    let ghost payload = PayloadModel::Minimal(hook@);
    let n: usize = hook.commits.len();
    if n == 0 {
        return Err(NormalizeError::EmptyCommitList);
    }
    let mut commits: Vec<CommitInfo> = Vec::new();
    let mut i: usize = 0;
    while i < n
        invariant
            n == hook.commits.len(),
            payload == PayloadModel::Minimal(hook@),
            0 <= i <= n,
            commits@.len() == i,
            forall|j: int| 0 <= j < i ==> (#[trigger] commits@[j])@ == payload_commits(payload)[j],
            forall|j: int| 0 <= j < i ==> (#[trigger] payload_commits(payload)[j]).author.len() > 0,
        decreases n - i,
    {
        let info = keep_minimal(&hook.commits[i]);
        if info.author.as_str().is_empty() {
            proof {
                assert(canonical(payload).commits[i as int] == info@);
            }
            return Err(NormalizeError::ParseError);
        }
        commits.push(info);
        i += 1;
    }
    let primary = keep_minimal(&hook.commits[0]);
    let event = CanonicalPushEvent { repository: hook.repository.clone(), commits, primary };
    proof {
        assert(event@.commits =~= payload_commits(payload));
        assert(payload_commits(payload)[0].author.len() > 0);
    }
    Ok(event)
}

/// What [`normalize`] owes for a payload: the canonical event exactly when
/// the payload has a commit and each of its commits names an author, and
/// otherwise the one error that says which of the two is missing.
pub open spec fn normalized(payload: PayloadModel, result: Result<CanonicalPushEvent, NormalizeError>) -> bool {
    if payload_commits(payload).len() == 0 {
        result == Err::<CanonicalPushEvent, NormalizeError>(NormalizeError::EmptyCommitList)
    } else if !canonical(payload).authors_named() {
        result == Err::<CanonicalPushEvent, NormalizeError>(NormalizeError::ParseError)
    } else {
        &&& result is Ok
        &&& result->Ok_0@ == canonical(payload)
    }
}

/// Turns a payload of either shape into the canonical event.
///
/// Every payload gets an answer: an event with at least one commit, each
/// with a named author, or one of the two errors.
pub fn normalize(payload: &WebhookPayload) -> (result: Result<CanonicalPushEvent, NormalizeError>)
    ensures
        normalized(payload@, result),
        result is Ok ==> result->Ok_0.well_formed(),
        result is Ok <==> canonical(payload@).well_formed(),
{
    match payload {
        WebhookPayload::Minimal(hook) => normalize_minimal(hook),
        WebhookPayload::Full(hook) => normalize_full(hook),
    }
}

} // verus!
