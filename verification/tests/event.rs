use push_relay::event::{normalize, normalize_full, normalize_minimal, CommitInfo, NormalizeError};
use push_relay::payload::{
    Commit, CommitUser, GithubWebhook, MinimalCommit, MinimalWebhook, Repository, WebhookPayload,
};

fn user(name: &str, handle: Option<&str>) -> CommitUser {
    CommitUser {
        name: name.to_string(),
        email: format!("{}@example.org", name),
        username: handle.map(|h| h.to_string()),
    }
}

fn commit(id: &str, message: &str, author: CommitUser) -> Commit {
    Commit {
        id: id.to_string(),
        message: message.to_string(),
        timestamp: "2024-05-01T12:00:00Z".to_string(),
        url: format!("https://git.example.org/org/repo/commit/{}", id),
        author,
    }
}

fn full(commits: Vec<Commit>, head: Commit) -> GithubWebhook {
    GithubWebhook {
        git_ref: "refs/heads/main".to_string(),
        before: "0000".to_string(),
        after: "ffff".to_string(),
        repository: Repository {
            name: "repo".to_string(),
            full_name: "org/repo".to_string(),
            html_url: "https://git.example.org/org/repo".to_string(),
        },
        commits,
        head_commit: head,
    }
}

fn minimal(commits: Vec<MinimalCommit>) -> MinimalWebhook {
    MinimalWebhook { repository: "org/small".to_string(), sender: "dave".to_string(), commits }
}

fn small(author: &str, message: &str) -> MinimalCommit {
    MinimalCommit {
        author: author.to_string(),
        url: format!("https://git.example.org/c/{}", author),
        message: message.to_string(),
    }
}

#[test]
fn full_shape_uses_the_qualified_repository_name() {
    let c = commit("a1", "one", user("Bob", Some("bob")));
    let event = normalize_full(&full(vec![c.clone()], c)).unwrap();
    assert_eq!(event.repository, "org/repo");
}

#[test]
fn full_shape_prefers_the_handle_over_the_name() {
    let with = commit("a1", "one", user("Bob Builder", Some("bob")));
    let without = commit("a2", "two", user("Carol Singer", None));
    let event = normalize_full(&full(vec![with, without.clone()], without)).unwrap();
    assert_eq!(event.commits.len(), 2);
    assert_eq!(event.commits[0].author, "bob");
    assert_eq!(event.commits[1].author, "Carol Singer");
}

#[test]
fn full_shape_keeps_message_and_url_of_each_commit() {
    let first = commit("a1", "one\ntwo", user("Bob", Some("bob")));
    let second = commit("a2", "three", user("Carol", None));
    let event = normalize_full(&full(vec![first, second.clone()], second)).unwrap();
    assert_eq!(
        event.commits[0],
        CommitInfo {
            author: "bob".to_string(),
            message: "one\ntwo".to_string(),
            url: "https://git.example.org/org/repo/commit/a1".to_string(),
        }
    );
    assert_eq!(event.commits[1].message, "three");
}

#[test]
fn full_shape_takes_the_head_commit_as_primary() {
    let first = commit("a1", "one", user("Bob", Some("bob")));
    let second = commit("a2", "two", user("Carol", None));
    let event = normalize_full(&full(vec![first, second.clone()], second)).unwrap();
    assert_eq!(event.primary.message, "two");
    assert_eq!(event.primary.author, "Carol");
    assert_eq!(event.primary.url, "https://git.example.org/org/repo/commit/a2");
}

#[test]
fn minimal_shape_takes_the_first_commit_as_primary() {
    let event = normalize_minimal(&minimal(vec![small("bob", "one"), small("carol", "two")])).unwrap();
    assert_eq!(event.repository, "org/small");
    assert_eq!(event.commits.len(), 2);
    assert_eq!(event.commits[1].author, "carol");
    assert_eq!(event.primary, event.commits[0]);
    assert_eq!(event.primary.message, "one");
}

#[test]
fn payload_without_commits_is_reported_as_such() {
    let head = commit("a1", "one", user("Bob", None));
    assert_eq!(normalize_full(&full(Vec::new(), head)), Err(NormalizeError::EmptyCommitList));
    assert_eq!(normalize_minimal(&minimal(Vec::new())), Err(NormalizeError::EmptyCommitList));
}

#[test]
fn commit_without_author_is_a_parse_error() {
    let good = commit("a1", "one", user("Bob", None));
    let nameless = commit("a2", "two", user("", None));
    assert_eq!(
        normalize_full(&full(vec![good.clone(), nameless], good.clone())),
        Err(NormalizeError::ParseError)
    );
    let empty_handle = commit("a3", "three", user("Carol", Some("")));
    assert_eq!(normalize_full(&full(vec![empty_handle], good)), Err(NormalizeError::ParseError));
    assert_eq!(
        normalize_minimal(&minimal(vec![small("bob", "one"), small("", "two")])),
        Err(NormalizeError::ParseError)
    );
}

#[test]
fn head_commit_without_author_is_a_parse_error() {
    let good = commit("a1", "one", user("Bob", None));
    let nameless = commit("a2", "two", user("", None));
    assert_eq!(normalize_full(&full(vec![good], nameless)), Err(NormalizeError::ParseError));
}

#[test]
fn normalize_answers_every_payload() {
    let c = commit("a1", "one", user("Bob", None));
    let payloads = vec![
        WebhookPayload::Full(full(vec![c.clone()], c.clone())),
        WebhookPayload::Full(full(Vec::new(), c.clone())),
        WebhookPayload::Full(full(vec![commit("a2", "two", user("", None))], c)),
        WebhookPayload::Minimal(minimal(vec![small("bob", "one")])),
        WebhookPayload::Minimal(minimal(Vec::new())),
        WebhookPayload::Minimal(minimal(vec![small("", "one")])),
    ];
    let expected_ok = [true, false, false, true, false, false];
    for (payload, ok) in payloads.iter().zip(expected_ok.iter()) {
        match normalize(payload) {
            Ok(event) => {
                assert!(*ok);
                assert!(!event.commits.is_empty());
                assert!(event.commits.iter().all(|c| !c.author.is_empty()));
            }
            Err(error) => {
                assert!(!*ok);
                assert!(matches!(error, NormalizeError::EmptyCommitList | NormalizeError::ParseError));
            }
        }
    }
}

#[test]
fn normalize_picks_the_adapter_of_the_shape() {
    let c = commit("a1", "one", user("Bob", Some("bob")));
    let hook = full(vec![c.clone()], c);
    assert_eq!(normalize(&WebhookPayload::Full(hook.clone())), normalize_full(&hook));
    let hook = minimal(vec![small("bob", "one")]);
    assert_eq!(normalize(&WebhookPayload::Minimal(hook.clone())), normalize_minimal(&hook));
}
