//! What the chat handler decides: whether a message holds a link to serve,
//! and what the requester hears when the download has ended.

use vstd::prelude::*;
use vstd::string::*;
use crate::downloaders::{classification_of, kind_view, Downloaders, UrlKind, UrlKindView};
use crate::loaderror::{Failure, LoadError};
use crate::size::DownloadedFile;
use crate::text::{contains, decimal, decimal_digits, has_substring};

verus! {

/// What the handler reads of a message.
#[derive(Debug, Clone, PartialEq, Eq)]
pub struct Incoming {
    /// The message was written by this program itself.
    pub from_self: bool,
    /// The message was written in a channel that is listened to.
    pub listening: bool,
    pub message_id: u64,
    /// How the author is named in a reply.
    pub author: String,
    pub content: String,
    /// The link of each embed of the message, where the embed has one.
    pub embeds: Vec<Option<String>>,
}

/// What the requester hears, and what becomes of the file.
#[derive(Debug, Clone, PartialEq, Eq)]
pub enum Response {
    /// Nothing is said.
    Silent,
    /// The requester is told `text`.
    Tell { text: String },
    /// The requester is told `text`, and `cause` goes to the log.
    Alarm { text: String, cause: String },
    /// The file at `path` is posted; then the message that asked for it
    /// and the file are removed.
    Post { path: String },
}

/// A `Response` with its texts as sequences of characters.
pub enum ResponseView {
    Silent,
    Tell { text: Seq<char> },
    Alarm { text: Seq<char>, cause: Seq<char> },
    Post { path: Seq<char> },
}

impl View for Response {
    type V = ResponseView;

    open spec fn view(&self) -> ResponseView {
        match *self {
            Response::Silent => ResponseView::Silent,
            Response::Tell { text } => ResponseView::Tell { text: text@ },
            Response::Alarm { text, cause } => ResponseView::Alarm { text: text@, cause: cause@ },
            Response::Post { path } => ResponseView::Post { path: path@ },
        }
    }
}

/// The text names one of the sites that are served.
pub open spec fn names_known_site(content: Seq<char>) -> bool {
    has_substring(content, "youtube"@) || has_substring(content, "youtu.be"@) || has_substring(
        content,
        "reddit"@,
    )
}

/// The link that a message asks to have served. A message of this program
/// itself, or from a channel that is not listened to, asks for nothing.
/// With embeds it is the link of the first one. Without, it is the whole
/// content, if that names a known site.
pub open spec fn candidate_of(incoming: Incoming) -> Option<Seq<char>> {
    if incoming.from_self || !incoming.listening {
        None
    } else if incoming.embeds@.len() == 0 {
        if names_known_site(incoming.content@) {
            Some(incoming.content@)
        } else {
            None
        }
    } else {
        match incoming.embeds@[0] {
            Some(url) => Some(url@),
            None => None,
        }
    }
}

/// The resolver that serves a message, if any.
pub open spec fn selection_of(incoming: Incoming, downloaders: Downloaders) -> Option<
    UrlKindView,
> {
    match candidate_of(incoming) {
        Some(url) => classification_of(url, downloaders),
        None => None,
    }
}

/// What is said when the system itself has failed: who asked, in which
/// message, for which link; never the cause.
pub open spec fn internal_error(author: Seq<char>, message_id: u64, url: Seq<char>) -> Seq<char> {
    "Internal System Error: User: "@ + author + " MessageID: "@ + decimal_digits(
        message_id as nat,
    ) + " Url: "@ + url
}

/// The response to a failed download: silence for what is to be ignored,
/// the reason for a rejection, and for a fault a text without the cause,
/// which goes to the log.
pub open spec fn failure_response(
    failure: Failure,
    author: Seq<char>,
    message_id: u64,
    url: Seq<char>,
) -> ResponseView {
    match failure {
        Failure::Ignore(_) => ResponseView::Silent,
        Failure::Rejected(reason) => ResponseView::Tell { text: reason },
        Failure::Error(cause) => ResponseView::Alarm {
            text: internal_error(author, message_id, url),
            cause,
        },
    }
}

/// The response to the end of a download: a file is posted, a failure is
/// answered by its tier.
pub open spec fn response_of(
    outcome: Result<DownloadedFile, LoadError>,
    author: Seq<char>,
    message_id: u64,
    url: Seq<char>,
) -> ResponseView {
    match outcome {
        Ok(file) => ResponseView::Post { path: file.path@ },
        Err(error) => failure_response(error@, author, message_id, url),
    }
}

/// What the requester hears of a fault does not depend on its cause: the
/// cause goes to the log alone.
pub proof fn lemma_alarm_hides_cause(
    cause: Seq<char>,
    other_cause: Seq<char>,
    author: Seq<char>,
    message_id: u64,
    url: Seq<char>,
)
    ensures
        failure_response(Failure::Error(cause), author, message_id, url) is Alarm,
        failure_response(Failure::Error(cause), author, message_id, url)->Alarm_text
            == failure_response(
            Failure::Error(other_cause),
            author,
            message_id,
            url,
        )->Alarm_text,
        failure_response(Failure::Error(cause), author, message_id, url)->Alarm_cause == cause,
{
}

/// The handler that serves links as they are posted.
#[derive(Debug, Clone, Copy, PartialEq, Eq, Structural)]
pub struct AutomaticDownloader;

impl AutomaticDownloader {
    /// Decides whether a message is served, and by which resolver.
    pub fn message(&self, incoming: &Incoming, downloaders: &Downloaders) -> (kind: Option<
        UrlKind,
    >)
        ensures
            kind_view(kind) == selection_of(*incoming, *downloaders),
    {
        if incoming.from_self || !incoming.listening {
            return None;
        }
        if incoming.embeds.len() == 0 {
            let content = incoming.content.as_str();
            if contains(content, "youtube") || contains(content, "youtu.be") || contains(
                content,
                "reddit",
            ) {
                UrlKind::classify(content, downloaders)
            } else {
                None
            }
        } else {
            match &incoming.embeds[0] {
                Some(url) => UrlKind::classify(url.as_str(), downloaders),
                None => None,
            }
        }
    }

    /// Decides what the requester hears of a failed download.
    pub fn failed(&self, error: LoadError, incoming: &Incoming, url: &str) -> (response: Response)
        ensures
            response@ == failure_response(error@, incoming.author@, incoming.message_id, url@),
    {
        match error {
            LoadError::Ignore(_) => Response::Silent,
            LoadError::Rejected(reason) => Response::Tell { text: reason },
            LoadError::Error(cause) => {
                let text = String::from_str("Internal System Error: User: ").concat(
                    incoming.author.as_str(),
                ).concat(" MessageID: ").concat(decimal(incoming.message_id).as_str()).concat(
                    " Url: ",
                ).concat(url);
                Response::Alarm { text, cause }
            },
        }
    }

    /// Decides what follows the end of a download.
    pub fn respond(
        &self,
        outcome: Result<DownloadedFile, LoadError>,
        incoming: &Incoming,
        url: &str,
    ) -> (response: Response)
        ensures
            response@ == response_of(outcome, incoming.author@, incoming.message_id, url@),
    {
        match outcome {
            Ok(file) => Response::Post { path: file.path },
            Err(error) => self.failed(error, incoming, url),
        }
    }
}

} // verus!
