//! What a resolver asks of its caller and what the caller reports back. A
//! resolver never touches the network, the disk or a subprocess: it says
//! what is to be done next, and decides again when it hears how that went.

use vstd::prelude::*;
use crate::loaderror::{Failure, LoadError};

verus! {

/// The programs that a resolver has run.
#[derive(Debug, Clone, Copy, PartialEq, Eq, Structural)]
pub enum Tool {
    /// Merges and converts media files.
    Muxer,
    /// Downloads from the video sharing site.
    Downloader,
}

/// What the caller is to do next. File names are relative to the scratch
/// directory, and tools run in it.
#[derive(Debug, Clone, PartialEq, Eq)]
pub enum Request {
    /// Fetch `url` with the given user agent and report its body as text.
    Get { url: String, user_agent: String },
    /// Fetch `url`, store its body under `file_name` and report the bytes.
    Download { url: String, file_name: String },
    /// Open the stream at `url` and report the length that it declares,
    /// before any of its body is read.
    Probe { url: String },
    /// Store the body of the stream at `video_url`, the one that was probed,
    /// under `video_file`, and the body at `audio_url` under `audio_file`.
    DownloadPair { video_url: String, video_file: String, audio_url: String, audio_file: String },
    /// Run `tool` with `arguments`, wait for it, and report how it ended and
    /// whether `output` is there.
    Run { tool: Tool, arguments: Vec<String>, output: String },
    /// Report the size of `file_name` in bytes.
    Measure { file_name: String },
    /// The request is served: `file_name` is the artifact, of `size_bytes`
    /// bytes. The files under `discard` are no longer needed.
    Deliver { file_name: String, size_bytes: u64, discard: Vec<String> },
    /// The request has failed. The files under `discard` are no longer
    /// needed.
    Fail { error: LoadError, discard: Vec<String> },
}

/// A `Request` with its texts as sequences of characters.
pub enum Ask {
    Get { url: Seq<char>, user_agent: Seq<char> },
    Download { url: Seq<char>, file_name: Seq<char> },
    Probe { url: Seq<char> },
    DownloadPair {
        video_url: Seq<char>,
        video_file: Seq<char>,
        audio_url: Seq<char>,
        audio_file: Seq<char>,
    },
    Run { tool: Tool, arguments: Seq<Seq<char>>, output: Seq<char> },
    Measure { file_name: Seq<char> },
    Deliver { file_name: Seq<char>, size_bytes: u64, discard: Seq<Seq<char>> },
    Fail { error: Failure, discard: Seq<Seq<char>> },
}

impl View for Request {
    type V = Ask;

    open spec fn view(&self) -> Ask {
        match *self {
            Request::Get { url, user_agent } => Ask::Get { url: url@, user_agent: user_agent@ },
            Request::Download { url, file_name } => Ask::Download {
                url: url@,
                file_name: file_name@,
            },
            Request::Probe { url } => Ask::Probe { url: url@ },
            Request::DownloadPair {
                video_url,
                video_file,
                audio_url,
                audio_file,
            } => Ask::DownloadPair {
                video_url: video_url@,
                video_file: video_file@,
                audio_url: audio_url@,
                audio_file: audio_file@,
            },
            Request::Run { tool, arguments, output } => Ask::Run {
                tool,
                arguments: arguments.deep_view(),
                output: output@,
            },
            Request::Measure { file_name } => Ask::Measure { file_name: file_name@ },
            Request::Deliver { file_name, size_bytes, discard } => Ask::Deliver {
                file_name: file_name@,
                size_bytes,
                discard: discard.deep_view(),
            },
            Request::Fail { error, discard } => Ask::Fail {
                error: error@,
                discard: discard.deep_view(),
            },
        }
    }
}

impl Ask {
    /// The request ends the exchange.
    pub open spec fn is_final(self) -> bool {
        self is Deliver || self is Fail
    }

    /// The request makes the caller fetch the body of a media stream.
    pub open spec fn downloads(self) -> bool {
        self is Download || self is DownloadPair
    }

    /// The request makes the caller fetch media or run a tool.
    pub open spec fn acts(self) -> bool {
        self.downloads() || self is Run
    }

    /// The failure with nothing to discard.
    pub open spec fn fail(error: Failure) -> Ask {
        Ask::Fail { error, discard: Seq::empty() }
    }
}

/// Every one of `asks` is a failure.
pub open spec fn all_fail(asks: Seq<Ask>) -> bool {
    forall|i: int| 0 <= i < asks.len() ==> (#[trigger] asks[i]) is Fail
}

/// None of `asks` makes the caller fetch media or run a tool.
pub open spec fn none_acts(asks: Seq<Ask>) -> bool {
    forall|i: int| 0 <= i < asks.len() ==> !(#[trigger] asks[i]).acts()
}

/// What the caller reports of the last request.
#[derive(Debug, Clone, PartialEq, Eq)]
pub enum Reply {
    /// The body that `Get` fetched.
    Body(String),
    /// The bytes that `Download` fetched and stored.
    Bytes(Vec<u8>),
    /// The length that the stream declares, if it declares one.
    Length(Option<u64>),
    /// Both tracks are stored.
    Stored,
    /// The tool has ended, with success or not, and its output is there or
    /// not.
    Exited { success: bool, output_present: bool },
    /// The size in bytes of the file that was to be measured.
    Size(u64),
    /// The request could not be carried out; the text says why.
    Fault(String),
}

/// A `Reply` with its texts as sequences.
pub enum Report {
    Body(Seq<char>),
    Bytes(Seq<u8>),
    Length(Option<u64>),
    Stored,
    Exited { success: bool, output_present: bool },
    Size(u64),
    Fault(Seq<char>),
}

impl View for Reply {
    type V = Report;

    open spec fn view(&self) -> Report {
        match *self {
            Reply::Body(text) => Report::Body(text@),
            Reply::Bytes(bytes) => Report::Bytes(bytes@),
            Reply::Length(length) => Report::Length(length),
            Reply::Stored => Report::Stored,
            Reply::Exited { success, output_present } => Report::Exited { success, output_present },
            Reply::Size(size_bytes) => Report::Size(size_bytes),
            Reply::Fault(cause) => Report::Fault(cause@),
        }
    }
}

/// What is said of a reply that does not answer the last request.
pub const OUT_OF_TURN: &'static str = "The reply does not answer the request";

/// The failure for a reply that the last request cannot have: the fault
/// that the caller reports, or else a fault of the exchange itself.
pub open spec fn fault_of(report: Report) -> Failure {
    match report {
        Report::Fault(cause) => Failure::Error(cause),
        _ => Failure::Error(OUT_OF_TURN@),
    }
}

/// Builds the failure for a reply that the last request cannot have.
pub fn fault(reply: Reply) -> (e: LoadError)
    ensures
        e@ == fault_of(reply@),
{
    match reply {
        Reply::Fault(cause) => LoadError::Error(cause),
        _ => LoadError::error(OUT_OF_TURN),
    }
}

/// The list of files that holds `file` after all of `files`.
pub fn with_file(files: Vec<String>, file: String) -> (all: Vec<String>)
    ensures
        all.deep_view() == files.deep_view().push(file@),
{
    let mut all = files;
    all.push(file);
    all
}

/// The list of no files.
pub fn no_files() -> (none: Vec<String>)
    ensures
        none.deep_view() == Seq::<Seq<char>>::empty(),
{
    let none: Vec<String> = Vec::new();
    none
}

/// Ends the exchange with `error` and nothing to discard.
pub fn fail(error: LoadError) -> (request: Request)
    ensures
        request@ == Ask::fail(error@),
{
    Request::Fail { error, discard: no_files() }
}

} // verus!
