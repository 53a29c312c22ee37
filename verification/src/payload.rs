//! The two push payload shapes that are accepted.

use vstd::prelude::*;

verus! {

/// A person named on a commit of the full payload shape.
#[derive(Debug, Clone, PartialEq, Eq)]
pub struct CommitUser {
    pub name: String,
    pub email: String,
    /// The account handle, where the provider knows one.
    pub username: Option<String>,
}

/// The mathematical value of a [`CommitUser`].
pub struct CommitUserModel {
    pub name: Seq<char>,
    pub email: Seq<char>,
    pub username: Option<Seq<char>>,
}

impl View for CommitUser {
    type V = CommitUserModel;

    open spec fn view(&self) -> CommitUserModel {
        CommitUserModel {
            name: self.name@,
            email: self.email@,
            username: match self.username {
                Some(handle) => Some(handle@),
                None => None,
            },
        }
    }
}

/// A commit of the full payload shape.
#[derive(Debug, Clone, PartialEq, Eq)]
pub struct Commit {
    pub id: String,
    pub message: String,
    pub timestamp: String,
    pub url: String,
    pub author: CommitUser,
}

/// The mathematical value of a [`Commit`].
pub struct FullCommitModel {
    pub id: Seq<char>,
    pub message: Seq<char>,
    pub timestamp: Seq<char>,
    pub url: Seq<char>,
    pub author: CommitUserModel,
}

impl View for Commit {
    type V = FullCommitModel;

    open spec fn view(&self) -> FullCommitModel {
        FullCommitModel {
            id: self.id@,
            message: self.message@,
            timestamp: self.timestamp@,
            url: self.url@,
            author: self.author@,
        }
    }
}

/// The repository object of the full payload shape.
#[derive(Debug, Clone, PartialEq, Eq)]
pub struct Repository {
    /// The short name, without the owner.
    pub name: String,
    /// The qualified name, `owner/name`.
    pub full_name: String,
    pub html_url: String,
}

/// The mathematical value of a [`Repository`].
pub struct RepositoryModel {
    pub name: Seq<char>,
    pub full_name: Seq<char>,
    pub html_url: Seq<char>,
}

impl View for Repository {
    type V = RepositoryModel;

    open spec fn view(&self) -> RepositoryModel {
        RepositoryModel { name: self.name@, full_name: self.full_name@, html_url: self.html_url@ }
    }
}

/// The full payload shape, as the provider sends it on a push.
#[derive(Debug, Clone, PartialEq, Eq)]
pub struct GithubWebhook {
    pub git_ref: String,
    pub before: String,
    pub after: String,
    pub repository: Repository,
    pub commits: Vec<Commit>,
    pub head_commit: Commit,
}

/// The mathematical value of a [`GithubWebhook`].
pub struct FullModel {
    pub git_ref: Seq<char>,
    pub before: Seq<char>,
    pub after: Seq<char>,
    pub repository: RepositoryModel,
    pub commits: Seq<FullCommitModel>,
    pub head_commit: FullCommitModel,
}

impl View for GithubWebhook {
    type V = FullModel;

    open spec fn view(&self) -> FullModel {
        FullModel {
            git_ref: self.git_ref@,
            before: self.before@,
            after: self.after@,
            repository: self.repository@,
            commits: self.commits@.map_values(|c: Commit| c@),
            head_commit: self.head_commit@,
        }
    }
}

/// A commit of the minimal payload shape.
#[derive(Debug, Clone, PartialEq, Eq)]
pub struct MinimalCommit {
    pub author: String,
    pub url: String,
    pub message: String,
}

/// The mathematical value of a [`MinimalCommit`].
pub struct MinimalCommitModel {
    pub author: Seq<char>,
    pub url: Seq<char>,
    pub message: Seq<char>,
}

impl View for MinimalCommit {
    type V = MinimalCommitModel;

    open spec fn view(&self) -> MinimalCommitModel {
        MinimalCommitModel { author: self.author@, url: self.url@, message: self.message@ }
    }
}

/// The minimal payload shape: the repository is a bare string and no head
/// commit is designated.
#[derive(Debug, Clone, PartialEq, Eq)]
pub struct MinimalWebhook {
    pub repository: String,
    pub sender: String,
    pub commits: Vec<MinimalCommit>,
}

/// The mathematical value of a [`MinimalWebhook`].
pub struct MinimalModel {
    pub repository: Seq<char>,
    pub sender: Seq<char>,
    pub commits: Seq<MinimalCommitModel>,
}

impl View for MinimalWebhook {
    type V = MinimalModel;

    open spec fn view(&self) -> MinimalModel {
        MinimalModel {
            repository: self.repository@,
            sender: self.sender@,
            commits: self.commits@.map_values(|c: MinimalCommit| c@),
        }
    }
}

/// A push payload of either accepted shape.
#[derive(Debug, Clone, PartialEq, Eq)]
pub enum WebhookPayload {
    Minimal(MinimalWebhook),
    Full(GithubWebhook),
}

/// The mathematical value of a [`WebhookPayload`].
pub enum PayloadModel {
    Minimal(MinimalModel),
    Full(FullModel),
}

impl View for WebhookPayload {
    type V = PayloadModel;

    open spec fn view(&self) -> PayloadModel {
        match self {
            WebhookPayload::Minimal(hook) => PayloadModel::Minimal(hook@),
            WebhookPayload::Full(hook) => PayloadModel::Full(hook@),
        }
    }
}

} // verus!
