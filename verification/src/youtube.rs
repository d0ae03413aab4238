//! The resolver for the video sharing site. It talks to no interface of the
//! site: it has a downloader program run and judges how that ended.

use vstd::prelude::*;
use vstd::string::*;
use crate::exchange::{
    all_fail, fail, fault, fault_of, no_files, none_acts, with_file, Ask, Reply, Report, Request,
    Tool,
};
use crate::loaderror::{Failure, LoadError};
use crate::size::{conclude, conclusion_of, over_budget};
use crate::text::{contains, decimal, decimal_digits, has_substring};

verus! {

/// `shell_words::ParseError`, of which nothing is read.
#[verifier::external_type_specification]
#[verifier::external_body]
pub struct ExParseError(shell_words::ParseError);

/// The words that `shell_words::split` cuts `text` into, or `None` where it
/// refuses the text.
pub uninterp spec fn shell_split(text: Seq<char>) -> Option<Seq<Seq<char>>>;

/// `shell_words::split`. Not proved: that the outcome depends on the text
/// alone, which `shell_split` names.
#[verifier::external_body]
fn split_words(text: &str) -> (r: Result<Vec<String>, shell_words::ParseError>)
    ensures
        match r {
            Ok(words) => shell_split(text@) == Some(words.deep_view()),
            Err(_) => shell_split(text@) is None,
        },
{
    shell_words::split(text)
}

/// The size beyond which the downloader fetches nothing, as the downloader
/// reads it.
pub const MAX_SIZE: &'static str = "20M";

/// What is said of a link to a playlist.
pub const PLAYLIST_REFUSED: &'static str =
    "Your link is a Playlist, to prevent spamming of the Discord channel i wont load it";

/// What is said of a link that the downloader turned away.
pub const LINK_REFUSED: &'static str =
    "Could not download from given url, please provide a valid youtube url";

/// What is said of options that cannot be cut into words.
pub const OPTIONS_REFUSED: &'static str = "The options of the downloader could not be read";

/// The options of the downloader for the message `message_id`, as one line:
/// the output is named after the message, and the size is capped.
pub open spec fn command_line_of(message_id: u64) -> Seq<char> {
    "-o "@ + decimal_digits(message_id as nat) + " --max-filesize "@ + MAX_SIZE@
}

/// The name of the file that the downloader leaves for the message
/// `message_id`.
pub open spec fn output_of(message_id: u64) -> Seq<char> {
    decimal_digits(message_id as nat) + ".webm"@
}

/// What is said of a download that left no file.
pub open spec fn too_large() -> Seq<char> {
    "Your file is over the Limit of "@ + MAX_SIZE@ + ", please download it manually"@
}

/// How far the download of one video has come.
#[derive(Debug, Clone, PartialEq, Eq)]
pub enum YoutubeStage {
    /// The downloader runs and is to leave `output`.
    Running { output: String },
    /// The artifact `output` is being measured.
    Measuring { output: String },
    /// Nothing is in progress any more.
    Closed,
}

/// A `YoutubeStage` with its text as a sequence of characters.
pub enum YoutubeStageView {
    Running { output: Seq<char> },
    Measuring { output: Seq<char> },
    Closed,
}

impl View for YoutubeStage {
    type V = YoutubeStageView;

    open spec fn view(&self) -> YoutubeStageView {
        match *self {
            YoutubeStage::Running { output } => YoutubeStageView::Running { output: output@ },
            YoutubeStage::Measuring { output } => YoutubeStageView::Measuring { output: output@ },
            YoutubeStage::Closed => YoutubeStageView::Closed,
        }
    }
}

/// The download of one video: the size budget in megabytes and how far the
/// download has come.
#[derive(Debug, Clone, PartialEq, Eq)]
pub struct YoutubeLoad {
    pub max_filesize: u64,
    pub stage: YoutubeStage,
}

/// A `YoutubeLoad` with its text as a sequence of characters.
pub struct YoutubeLoadView {
    pub max_filesize: u64,
    pub stage: YoutubeStageView,
}

impl View for YoutubeLoad {
    type V = YoutubeLoadView;

    open spec fn view(&self) -> YoutubeLoadView {
        YoutubeLoadView { max_filesize: self.max_filesize, stage: self.stage@ }
    }
}

/// How the download for the message `message_id` begins, `words` being what
/// the options were cut into: a link to a playlist is turned away before
/// anything is run; any other link is handed to the downloader behind the
/// options.
pub open spec fn youtube_start(url: Seq<char>, message_id: u64, words: Option<Seq<Seq<char>>>) -> (
    YoutubeStageView,
    Ask,
) {
    if has_substring(url, "playlist"@) {
        (YoutubeStageView::Closed, Ask::fail(Failure::Rejected(PLAYLIST_REFUSED@)))
    } else {
        match words {
            Some(options) => (
                YoutubeStageView::Running { output: output_of(message_id) },
                Ask::Run {
                    tool: Tool::Downloader,
                    arguments: options.push(url),
                    output: output_of(message_id),
                },
            ),
            None => (YoutubeStageView::Closed, Ask::fail(Failure::Error(OPTIONS_REFUSED@))),
        }
    }
}

/// What follows a report. Of the end of the downloader: a failure means
/// that it turned the link away; a success without the output means that
/// the video was over the downloader's size cap; after a success with the
/// output, the output is measured. Of the size of the output: it is held
/// against the budget.
pub open spec fn youtube_step(load: YoutubeLoadView, report: Report) -> (YoutubeStageView, Ask) {
    match load.stage {
        YoutubeStageView::Running { output } => match report {
            Report::Exited { success: false, output_present } => (
                YoutubeStageView::Closed,
                Ask::fail(Failure::Rejected(LINK_REFUSED@)),
            ),
            Report::Exited { success: true, output_present: false } => (
                YoutubeStageView::Closed,
                Ask::fail(Failure::Rejected(too_large())),
            ),
            Report::Exited { success: true, output_present: true } => (
                YoutubeStageView::Measuring { output },
                Ask::Measure { file_name: output },
            ),
            _ => (YoutubeStageView::Closed, Ask::fail(fault_of(report))),
        },
        YoutubeStageView::Measuring { output } => (
            YoutubeStageView::Closed,
            conclusion_of(output, Seq::empty(), load.max_filesize, report),
        ),
        YoutubeStageView::Closed => (YoutubeStageView::Closed, Ask::fail(fault_of(report))),
    }
}

/// The requests that a download makes, one for each of `reports` in turn.
pub open spec fn youtube_run(load: YoutubeLoadView, reports: Seq<Report>) -> Seq<Ask>
    decreases reports.len(),
{
    if reports.len() == 0 {
        Seq::empty()
    } else {
        let (stage, ask) = youtube_step(load, reports[0]);
        seq![ask] + youtube_run(
            YoutubeLoadView { max_filesize: load.max_filesize, stage },
            reports.skip(1),
        )
    }
}

/// A closed download only ever fails, whatever is reported to it and however
/// often.
pub proof fn lemma_closed_download_only_fails(load: YoutubeLoadView, reports: Seq<Report>)
    requires
        load.stage is Closed,
    ensures
        all_fail(youtube_run(load, reports)),
    decreases reports.len(),
{
    if reports.len() > 0 {
        lemma_closed_download_only_fails(load, reports.skip(1));
    }
}

/// A link to a playlist is rejected at once, whatever the options were cut
/// into, and no program is ever run for it: neither the first request nor
/// any that follows, whatever is reported, is a run.
pub proof fn lemma_playlist_is_never_run(
    url: Seq<char>,
    message_id: u64,
    max_filesize: u64,
    words: Option<Seq<Seq<char>>>,
    reports: Seq<Report>,
)
    requires
        has_substring(url, "playlist"@),
    ensures
        youtube_start(url, message_id, words).0 is Closed,
        youtube_start(url, message_id, words).1 == Ask::fail(
            Failure::Rejected(PLAYLIST_REFUSED@),
        ),
        none_acts(
            youtube_run(
                YoutubeLoadView { max_filesize, stage: youtube_start(url, message_id, words).0 },
                reports,
            ),
        ),
{
    lemma_closed_download_only_fails(
        YoutubeLoadView { max_filesize, stage: YoutubeStageView::Closed },
        reports,
    );
}

/// A downloader that ends with success and leaves no output has met a
/// video over its size cap: the request is rejected, and that is no fault
/// of the system.
pub proof fn lemma_missing_output_is_rejected(load: YoutubeLoadView)
    requires
        load.stage is Running,
    ensures
        youtube_step(load, Report::Exited { success: true, output_present: false }).0 is Closed,
        youtube_step(load, Report::Exited { success: true, output_present: false }).1 == Ask::fail(
            Failure::Rejected(too_large()),
        ),
{
}

/// A file is delivered only when its size has just been reported and is
/// within the budget; it is delivered with that size.
pub proof fn lemma_download_is_within_budget(load: YoutubeLoadView, report: Report)
    requires
        youtube_step(load, report).1 is Deliver,
    ensures
        load.stage is Measuring,
        report matches Report::Size(size_bytes) && !over_budget(size_bytes, load.max_filesize)
            && youtube_step(load, report).1->Deliver_size_bytes == size_bytes,
{
}

/// A request ends the download exactly when the download is closed by it,
/// and a closed download only fails.
pub proof fn lemma_youtube_end_is_final(load: YoutubeLoadView, report: Report)
    ensures
        youtube_step(load, report).1.is_final() <==> youtube_step(load, report).0 is Closed,
        load.stage is Closed ==> youtube_step(load, report).1 is Fail,
{
}

/// Writes the options of the downloader for the message `message_id`.
pub fn command_line(message_id: u64) -> (line: String)
    ensures
        line@ == command_line_of(message_id),
{
    let line = String::from_str("-o ").concat(decimal(message_id).as_str()).concat(
        " --max-filesize ",
    ).concat(MAX_SIZE);
    line
}

/// Begins the download of the video at `url` for the message `message_id`
/// and a budget of `max_filesize` megabytes, `words` being what the options
/// were cut into.
pub fn start(
    url: &str,
    message_id: u64,
    max_filesize: u64,
    words: Option<Vec<String>>,
) -> (begun: (YoutubeLoad, Request))
    ensures
        begun.0.max_filesize == max_filesize,
        words matches Some(options) ==> (begun.0.stage@, begun.1@) == youtube_start(
            url@,
            message_id,
            Some(options.deep_view()),
        ),
        words is None ==> (begun.0.stage@, begun.1@) == youtube_start(url@, message_id, None),
{
    let (stage, request) = if contains(url, "playlist") {
        (YoutubeStage::Closed, fail(LoadError::rejected(PLAYLIST_REFUSED)))
    } else {
        match words {
            Some(options) => {
                let output = decimal(message_id).concat(".webm");
                let arguments = with_file(options, String::from_str(url));
                (
                    YoutubeStage::Running { output: output.clone() },
                    Request::Run { tool: Tool::Downloader, arguments, output },
                )
            },
            None => (YoutubeStage::Closed, fail(LoadError::error(OPTIONS_REFUSED))),
        }
    };
    (YoutubeLoad { max_filesize, stage }, request)
}

/// Begins the download of the video at `url` for the message `message_id`
/// and a budget of `max_filesize` megabytes.
pub fn load(url: &str, message_id: u64, max_filesize: u64) -> (begun: (YoutubeLoad, Request))
    ensures
        begun.0.max_filesize == max_filesize,
        (begun.0.stage@, begun.1@) == youtube_start(
            url@,
            message_id,
            shell_split(command_line_of(message_id)),
        ),
{
    if contains(url, "playlist") {
        start(url, message_id, max_filesize, None)
    } else {
        let line = command_line(message_id);
        match split_words(line.as_str()) {
            Ok(options) => start(url, message_id, max_filesize, Some(options)),
            Err(_) => start(url, message_id, max_filesize, None),
        }
    }
}

impl YoutubeLoad {
    /// Decides what follows from what the caller reports of the last
    /// request.
    pub fn resume(self, reply: Reply) -> (next: (YoutubeLoad, Request))
        ensures
            next.0.max_filesize == self.max_filesize,
            (next.0.stage@, next.1@) == youtube_step(self@, reply@),
    {
        let max_filesize = self.max_filesize;
        let (stage, request) = match self.stage {
            YoutubeStage::Running { output } => match reply {
                Reply::Exited { success: false, output_present } => (
                    YoutubeStage::Closed,
                    fail(LoadError::rejected(LINK_REFUSED)),
                ),
                Reply::Exited { success: true, output_present: false } => {
                    let text = String::from_str("Your file is over the Limit of ").concat(
                        MAX_SIZE,
                    ).concat(", please download it manually");
                    (YoutubeStage::Closed, fail(LoadError::Rejected(text)))
                },
                Reply::Exited { success: true, output_present: true } => (
                    YoutubeStage::Measuring { output: output.clone() },
                    Request::Measure { file_name: output },
                ),
                other => (YoutubeStage::Closed, fail(fault(other))),
            },
            YoutubeStage::Measuring { output } => (
                YoutubeStage::Closed,
                conclude(output, no_files(), max_filesize, reply),
            ),
            YoutubeStage::Closed => (YoutubeStage::Closed, fail(fault(reply))),
        };
        (YoutubeLoad { max_filesize, stage }, request)
    }
}

} // verus!
