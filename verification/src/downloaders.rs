//! Choosing the resolver for a link, and driving whichever was chosen.

use vstd::prelude::*;
use vstd::string::*;
use crate::exchange::{Ask, Reply, Request};
use crate::reddit::{reddit_step, RedditLoad, RedditLoadView, StageView};
use crate::scratch::is_identifier;
use crate::text::{contains, has_substring};
use crate::youtube::{
    command_line_of, shell_split, youtube_start, youtube_step, YoutubeLoad, YoutubeLoadView,
};

verus! {

/// The largest file, in megabytes, that the chat platform takes.
pub const DISCORD_MAX_FILE_SIZE_MB: u64 = 8;

/// Which resolvers are switched on.
#[derive(Debug, Clone, Copy, PartialEq, Eq, Structural)]
pub struct Downloaders {
    pub reddit: bool,
    pub youtube: bool,
    pub tiktok: bool,
    pub tumblr: bool,
}

/// A link together with the resolver that serves it.
#[derive(Debug, Clone, PartialEq, Eq)]
pub enum UrlKind {
    Reddit(String),
    Youtube(String),
}

/// A `UrlKind` with its link as a sequence of characters.
pub enum UrlKindView {
    Reddit(Seq<char>),
    Youtube(Seq<char>),
}

impl View for UrlKind {
    type V = UrlKindView;

    open spec fn view(&self) -> UrlKindView {
        match *self {
            UrlKind::Reddit(url) => UrlKindView::Reddit(url@),
            UrlKind::Youtube(url) => UrlKindView::Youtube(url@),
        }
    }
}

impl UrlKindView {
    /// The link.
    pub open spec fn url(self) -> Seq<char> {
        match self {
            UrlKindView::Reddit(url) => url,
            UrlKindView::Youtube(url) => url,
        }
    }
}

/// The resolver for `url`: the one whose site the link names, if it is
/// switched on. The image and video hosting site is looked for first. A link
/// that names neither, or only a site whose resolver is off, has none.
pub open spec fn classification_of(url: Seq<char>, downloaders: Downloaders) -> Option<
    UrlKindView,
> {
    if has_substring(url, "reddit"@) && downloaders.reddit {
        Some(UrlKindView::Reddit(url))
    } else if has_substring(url, "youtube"@) && downloaders.youtube {
        Some(UrlKindView::Youtube(url))
    } else {
        None
    }
}

/// The view of a resolver that may not be there.
pub open spec fn kind_view(kind: Option<UrlKind>) -> Option<UrlKindView> {
    match kind {
        Some(k) => Some(k@),
        None => None,
    }
}

/// A download in progress, by either resolver.
#[derive(Debug, Clone, PartialEq, Eq)]
pub enum Download {
    Reddit(RedditLoad),
    Youtube(YoutubeLoad),
}

/// A `Download` with its texts as sequences of characters.
pub enum DownloadView {
    Reddit(RedditLoadView),
    Youtube(YoutubeLoadView),
}

impl View for Download {
    type V = DownloadView;

    open spec fn view(&self) -> DownloadView {
        match *self {
            Download::Reddit(load) => DownloadView::Reddit(load@),
            Download::Youtube(load) => DownloadView::Youtube(load@),
        }
    }
}

impl UrlKind {
    /// Chooses the resolver for `url`.
    pub fn classify(url: &str, downloaders: &Downloaders) -> (kind: Option<UrlKind>)
        ensures
            kind_view(kind) == classification_of(url@, *downloaders),
    {
        if downloaders.reddit && contains(url, "reddit") {
            Some(UrlKind::Reddit(String::from_str(url)))
        } else if downloaders.youtube && contains(url, "youtube") {
            Some(UrlKind::Youtube(String::from_str(url)))
        } else {
            None
        }
    }

    /// The link that is served.
    pub fn url(&self) -> (url: &str)
        ensures
            url@ == self@.url(),
    {
        match self {
            UrlKind::Reddit(url) => url.as_str(),
            UrlKind::Youtube(url) => url.as_str(),
        }
    }

    /// Begins the download of what the link shows, for the message
    /// `message_id` and a budget of `max_filesize` megabytes: says what is
    /// to be done first.
    pub fn load(&self, message_id: u64, max_filesize: u64) -> (begun: (Download, Request))
        ensures
            match self@ {
                UrlKindView::Reddit(url) => begun.0@ == DownloadView::Reddit(
                    RedditLoadView { max_filesize, stage: StageView::Metadata },
                ) && begun.1@ == (Ask::Get {
                    url: crate::post::metadata_url_of(url),
                    user_agent: crate::reddit::USER_AGENT@,
                }),
                UrlKindView::Youtube(url) => begun.0@ matches DownloadView::Youtube(load)
                    && load.max_filesize == max_filesize && (load.stage, begun.1@)
                    == youtube_start(url, message_id, shell_split(command_line_of(message_id))),
            },
    {
        match self {
            UrlKind::Reddit(url) => {
                let (load, request) = crate::reddit::load(url.as_str(), max_filesize);
                (Download::Reddit(load), request)
            },
            UrlKind::Youtube(url) => {
                let (load, request) = crate::youtube::load(url.as_str(), message_id, max_filesize);
                (Download::Youtube(load), request)
            },
        }
    }
}

impl Download {
    /// Decides the next request from what the caller reports of the last
    /// one.
    pub fn resume(self, reply: Reply) -> (next: (Download, Request))
        ensures
            match self@ {
                DownloadView::Reddit(load) => next.0@ matches DownloadView::Reddit(after)
                    && after.max_filesize == load.max_filesize && exists|
                    first: Seq<char>,
                    second: Seq<char>,
                    third: Seq<char>,
                |
                    is_identifier(first) && is_identifier(second) && is_identifier(third) && (
                        after.stage,
                        next.1@,
                    ) == #[trigger] reddit_step(load, reply@, first, second, third),
                DownloadView::Youtube(load) => next.0@ matches DownloadView::Youtube(after)
                    && after.max_filesize == load.max_filesize && (after.stage, next.1@)
                    == youtube_step(load, reply@),
            },
    {
        match self {
            Download::Reddit(load) => {
                let (after, request) = load.resume(reply);
                (Download::Reddit(after), request)
            },
            Download::Youtube(load) => {
                let (after, request) = load.resume(reply);
                (Download::Youtube(after), request)
            },
        }
    }
}

} // verus!
