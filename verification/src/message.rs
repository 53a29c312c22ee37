//! Rendering of a canonical push event as a chat message.

use vstd::prelude::*;
use vstd::string::*;
use crate::authors::{format_list, listed, names_of};
use crate::event::{CanonicalPushEvent, CommitModel, EventModel};
use crate::markup::{escape, escaped};

verus! {

/// One message in two representations of the same content.
#[derive(Debug, Clone, PartialEq, Eq)]
pub struct RenderedMessage {
    pub plain: String,
    pub html: String,
}

/// The mathematical value of a [`RenderedMessage`].
pub struct MessageModel {
    pub plain: Seq<char>,
    pub html: Seq<char>,
}

impl View for RenderedMessage {
    type V = MessageModel;

    open spec fn view(&self) -> MessageModel {
        MessageModel { plain: self.plain@, html: self.html@ }
    }
}

/// The authors of the commits, one per commit, in arrival order.
pub open spec fn author_names(commits: Seq<CommitModel>) -> Seq<Seq<char>> {
    commits.map_values(|c: CommitModel| c.author)
}

/// The byline that both bodies open with.
pub open spec fn byline(event: EventModel) -> Seq<char> {
    "New commit by "@ + listed(author_names(event.commits))
}

/// The plain-text body: the byline, then the primary commit's whole
/// message between double quotes. Nothing is escaped.
pub open spec fn plain_body(event: EventModel) -> Seq<char> {
    byline(event) + ": \""@ + event.primary.message + "\""@
}

/// The HTML body: the byline as a link to the primary commit, then the
/// primary commit's whole message as a block quote. The URL, the byline and
/// the message are escaped for HTML and otherwise inserted as they are.
pub open spec fn html_body(event: EventModel) -> Seq<char> {
    "<a href=\""@ + escaped(event.primary.url) + "\">"@ + escaped(byline(event))
        + "</a><br><blockquote>"@ + escaped(event.primary.message) + "</blockquote>"@
}

/// The message that an event is rendered as.
pub open spec fn rendered(event: EventModel) -> MessageModel {
    MessageModel { plain: plain_body(event), html: html_body(event) }
}

/// The byline of an event, with every commit's author listed.
pub fn format_byline(event: &CanonicalPushEvent) -> (out: String)
    ensures
        out@ == byline(event@),
{
    let n: usize = event.commits.len();
    let mut authors: Vec<String> = Vec::new();
    let mut i: usize = 0;
    while i < n
        invariant
            n == event.commits.len(),
            0 <= i <= n,
            authors@.len() == i,
            forall|j: int| 0 <= j < i ==> (#[trigger] authors@[j])@ == event.commits@[j].author@,
        decreases n - i,
    {
        authors.push(event.commits[i].author.clone());
        i += 1;
    }
    proof {
        assert(names_of(authors@) =~= author_names(event@.commits));
    }
    let mut out: String = "New commit by ".to_owned();
    let names: String = format_list(authors);
    out.append(names.as_str());
    out
}

/// Renders an event. Rendering is a function of the event alone and gives
/// a message for every event.
pub fn format(event: &CanonicalPushEvent) -> (message: RenderedMessage)
    ensures
        message@ == rendered(event@),
{
    let by: String = format_byline(event);
    let mut plain: String = by.clone();
    plain.append(": \"");
    plain.append(event.primary.message.as_str());
    plain.append("\"");
    let mut html: String = "<a href=\"".to_owned();
    html.append(escape(event.primary.url.as_str()).as_str());
    html.append("\">");
    html.append(escape(by.as_str()).as_str());
    html.append("</a><br><blockquote>");
    html.append(escape(event.primary.message.as_str()).as_str());
    html.append("</blockquote>");
    RenderedMessage { plain, html }
}

} // verus!
