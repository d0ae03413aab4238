//! The resolver for the image and video hosting site. It fetches nothing by
//! itself: it asks for the metadata of a post, then for the picture or for
//! the two tracks of the video, has the tracks merged, and ends with the one
//! file that the post has become.

use vstd::prelude::*;
use vstd::string::*;
use crate::exchange::{
    all_fail, fail, fault, fault_of, no_files, none_acts, with_file, Ask, Reply, Report, Request,
    Tool,
};
use crate::loaderror::{Failure, LoadError, LoadResult};
use crate::muxer::{
    mux_arguments, mux_arguments_of, transcode_arguments, transcode_arguments_of, video_name,
    video_name_of,
};
use crate::picture::{inspect, inspection_of, PictureFormat};
use crate::post::{
    file_extension, file_extension_of, metadata_url, metadata_url_of, resolve_response,
    response_resolution, Asset, ResolvedAsset, NOT_SUPPORTED,
};
use crate::scratch::{artifact_name, artifact_name_of, is_identifier, random_identifier};
use crate::size::{conclusion_of, conclude, exceeds, over_budget};
use crate::text::{decimal, decimal_digits, has_substring, occurs_at};

verus! {

/// The user agent under which the metadata is asked for: the site turns
/// away clients that name themselves.
pub const USER_AGENT: &'static str =
    "Mozilla/5.0 (Macintosh; Intel Mac OS X 10_15_7) AppleWebKit/537.36 (KHTML, like Gecko) \
     Chrome/108.0.0.0 Safari/537.36";

/// What is said of a picture that does not decode.
pub const TEXT_POST: &'static str = "This is a text post";

/// What is said of a stream that declares no length.
pub const NO_LENGTH: &'static str = "Failed to read Content_length Header from Reddit Download";

/// What is said of a run of the media tool that failed.
pub const TOOL_FAILED: &'static str = "The media tool ended with a failure";

/// What stands before the budget where a stream is said to be over it.
pub const OVER_LIMIT_HEAD: &'static str = "Reddit File is over the Limit of ";

/// What stands behind the budget where a stream is said to be over it.
pub const OVER_LIMIT_TAIL: &'static str = " Megabytes";

/// What is said of a stream that declares more than `max_filesize`
/// megabytes.
pub open spec fn over_limit(max_filesize: u64) -> Seq<char> {
    OVER_LIMIT_HEAD@ + decimal_digits(max_filesize as nat) + OVER_LIMIT_TAIL@
}

/// How far the fetching of one post has come.
#[derive(Debug, Clone, PartialEq, Eq)]
pub enum Stage {
    /// The metadata is asked for.
    Metadata,
    /// The picture is being fetched into `file_name`.
    Picture { file_name: String },
    /// The video stream is asked for its length.
    Length { video_url: String, audio_url: String },
    /// Both tracks are being fetched.
    Tracks { video_file: String, audio_file: String, output: String },
    /// The tracks are being merged into `output`.
    Merging { video_file: String, audio_file: String, output: String },
    /// The animated picture `source` is being converted into `output`.
    Converting { source: String, output: String },
    /// The artifact `file_name` is being measured; the files under
    /// `discard` are no longer needed.
    Measuring { file_name: String, discard: Vec<String> },
    /// Nothing is in progress any more.
    Closed,
}

/// A `Stage` with its texts as sequences of characters.
pub enum StageView {
    Metadata,
    Picture { file_name: Seq<char> },
    Length { video_url: Seq<char>, audio_url: Seq<char> },
    Tracks { video_file: Seq<char>, audio_file: Seq<char>, output: Seq<char> },
    Merging { video_file: Seq<char>, audio_file: Seq<char>, output: Seq<char> },
    Converting { source: Seq<char>, output: Seq<char> },
    Measuring { file_name: Seq<char>, discard: Seq<Seq<char>> },
    Closed,
}

impl View for Stage {
    type V = StageView;

    open spec fn view(&self) -> StageView {
        match *self {
            Stage::Metadata => StageView::Metadata,
            Stage::Picture { file_name } => StageView::Picture { file_name: file_name@ },
            Stage::Length { video_url, audio_url } => StageView::Length {
                video_url: video_url@,
                audio_url: audio_url@,
            },
            Stage::Tracks { video_file, audio_file, output } => StageView::Tracks {
                video_file: video_file@,
                audio_file: audio_file@,
                output: output@,
            },
            Stage::Merging { video_file, audio_file, output } => StageView::Merging {
                video_file: video_file@,
                audio_file: audio_file@,
                output: output@,
            },
            Stage::Converting { source, output } => StageView::Converting {
                source: source@,
                output: output@,
            },
            Stage::Measuring { file_name, discard } => StageView::Measuring {
                file_name: file_name@,
                discard: discard.deep_view(),
            },
            Stage::Closed => StageView::Closed,
        }
    }
}

/// The fetching of one post: the size budget in megabytes and how far the
/// fetching has come.
#[derive(Debug, Clone, PartialEq, Eq)]
pub struct RedditLoad {
    pub max_filesize: u64,
    pub stage: Stage,
}

/// A `RedditLoad` with its texts as sequences of characters.
pub struct RedditLoadView {
    pub max_filesize: u64,
    pub stage: StageView,
}

impl View for RedditLoad {
    type V = RedditLoadView;

    open spec fn view(&self) -> RedditLoadView {
        RedditLoadView { max_filesize: self.max_filesize, stage: self.stage@ }
    }
}

/// What follows the resolution of the metadata: a picture is fetched into a
/// file named by `id` and the picture's extension, a video is asked for its
/// length, and anything else ends the fetching.
pub open spec fn after_metadata(resolution: Result<Asset, Failure>, id: Seq<char>) -> (
    StageView,
    Ask,
) {
    match resolution {
        Ok(Asset::Image { asset_url, file_extension }) => {
            let file_name = artifact_name_of(id, file_extension);
            (StageView::Picture { file_name }, Ask::Download { url: asset_url, file_name })
        },
        Ok(Asset::Video { video_url, derived_audio_url }) => (
            StageView::Length { video_url, audio_url: derived_audio_url },
            Ask::Probe { url: video_url },
        ),
        Ok(Asset::TextOnly) => (StageView::Closed, Ask::fail(Failure::Ignore(TEXT_POST@))),
        Ok(Asset::Unsupported) => (
            StageView::Closed,
            Ask::fail(Failure::Rejected(NOT_SUPPORTED@)),
        ),
        Err(failure) => (StageView::Closed, Ask::fail(failure)),
    }
}

/// What follows a look at the picture stored under `file_name`: one that
/// does not decode is a text post and is dropped without a word, an
/// animated one is converted to a video, any other is the artifact and is
/// measured.
pub open spec fn after_picture(file_name: Seq<char>, seen: Option<PictureFormat>) -> (
    StageView,
    Ask,
) {
    match seen {
        None => (
            StageView::Closed,
            Ask::Fail { error: Failure::Ignore(TEXT_POST@), discard: seq![file_name] },
        ),
        Some(PictureFormat::Gif) => {
            let output = video_name_of(file_name);
            (
                StageView::Converting { source: file_name, output },
                Ask::Run {
                    tool: Tool::Muxer,
                    arguments: transcode_arguments_of(file_name, output),
                    output,
                },
            )
        },
        Some(_) => (
            StageView::Measuring { file_name, discard: Seq::empty() },
            Ask::Measure { file_name },
        ),
    }
}

/// What follows the length that the video stream declares: without one, or
/// with one over the budget, the fetching ends before any of the stream is
/// read; else both tracks are fetched into files named by `first` and
/// `second`, to be merged into a file named by `third`.
pub open spec fn after_length(
    video_url: Seq<char>,
    audio_url: Seq<char>,
    length: Option<u64>,
    max_filesize: u64,
    first: Seq<char>,
    second: Seq<char>,
    third: Seq<char>,
) -> (StageView, Ask) {
    match length {
        None => (StageView::Closed, Ask::fail(Failure::Rejected(NO_LENGTH@))),
        Some(size) => if over_budget(size, max_filesize) {
            (StageView::Closed, Ask::fail(Failure::Rejected(over_limit(max_filesize))))
        } else {
            (
                StageView::Tracks {
                    video_file: first,
                    audio_file: second,
                    output: artifact_name_of(third, "mp4"@),
                },
                Ask::DownloadPair { video_url, video_file: first, audio_url, audio_file: second },
            )
        },
    }
}

/// What follows the fetching of both tracks: they are merged.
pub open spec fn after_tracks(
    video_file: Seq<char>,
    audio_file: Seq<char>,
    output: Seq<char>,
    report: Report,
) -> (StageView, Ask) {
    match report {
        Report::Stored => (
            StageView::Merging { video_file, audio_file, output },
            Ask::Run {
                tool: Tool::Muxer,
                arguments: mux_arguments_of(video_file, audio_file, output),
                output,
            },
        ),
        _ => (
            StageView::Closed,
            Ask::Fail { error: fault_of(report), discard: seq![video_file, audio_file] },
        ),
    }
}

/// What follows a run of the media tool that was to make `output` of
/// `sources`: after a success `output` is the artifact and is measured,
/// and the sources are to go; after anything else the fetching has failed
/// and all of them go.
pub open spec fn after_tool(sources: Seq<Seq<char>>, output: Seq<char>, report: Report) -> (
    StageView,
    Ask,
) {
    match report {
        Report::Exited { success: true, output_present } => (
            StageView::Measuring { file_name: output, discard: sources },
            Ask::Measure { file_name: output },
        ),
        Report::Exited { success: false, output_present } => (
            StageView::Closed,
            Ask::Fail { error: Failure::Error(TOOL_FAILED@), discard: sources.push(output) },
        ),
        _ => (
            StageView::Closed,
            Ask::Fail { error: fault_of(report), discard: sources.push(output) },
        ),
    }
}

/// The next stage and the next request of the fetching `load`, given what
/// the caller reports of the last request and three fresh identifiers.
pub open spec fn reddit_step(
    load: RedditLoadView,
    report: Report,
    first: Seq<char>,
    second: Seq<char>,
    third: Seq<char>,
) -> (StageView, Ask) {
    match load.stage {
        StageView::Metadata => match report {
            Report::Body(body) => after_metadata(response_resolution(body), first),
            _ => (StageView::Closed, Ask::fail(fault_of(report))),
        },
        StageView::Picture { file_name } => match report {
            Report::Bytes(bytes) => after_picture(
                file_name,
                inspection_of(bytes, file_extension_of(file_name)),
            ),
            _ => (StageView::Closed, Ask::fail(fault_of(report))),
        },
        StageView::Length { video_url, audio_url } => match report {
            Report::Length(length) => after_length(
                video_url,
                audio_url,
                length,
                load.max_filesize,
                first,
                second,
                third,
            ),
            _ => (StageView::Closed, Ask::fail(fault_of(report))),
        },
        StageView::Tracks { video_file, audio_file, output } => after_tracks(
            video_file,
            audio_file,
            output,
            report,
        ),
        StageView::Merging { video_file, audio_file, output } => after_tool(
            seq![video_file, audio_file],
            output,
            report,
        ),
        StageView::Converting { source, output } => after_tool(seq![source], output, report),
        StageView::Measuring { file_name, discard } => (
            StageView::Closed,
            conclusion_of(file_name, discard, load.max_filesize, report),
        ),
        StageView::Closed => (StageView::Closed, Ask::fail(fault_of(report))),
    }
}

/// The identifiers that one step may name files by.
pub struct Names {
    pub first: Seq<char>,
    pub second: Seq<char>,
    pub third: Seq<char>,
}

/// The requests that a fetching makes, one for each of `reports` in turn,
/// the step for a report drawing on the names at the same position.
pub open spec fn reddit_run(load: RedditLoadView, reports: Seq<Report>, names: Seq<Names>) -> Seq<
    Ask,
>
    decreases reports.len(),
{
    if reports.len() == 0 || names.len() == 0 {
        Seq::empty()
    } else {
        let (stage, ask) = reddit_step(
            load,
            reports[0],
            names[0].first,
            names[0].second,
            names[0].third,
        );
        seq![ask] + reddit_run(
            RedditLoadView { max_filesize: load.max_filesize, stage },
            reports.skip(1),
            names.skip(1),
        )
    }
}

/// A closed fetching only ever fails, whatever is reported to it and however
/// often.
pub proof fn lemma_closed_fetching_only_fails(
    load: RedditLoadView,
    reports: Seq<Report>,
    names: Seq<Names>,
)
    requires
        load.stage is Closed,
    ensures
        all_fail(reddit_run(load, reports, names)),
    decreases reports.len(),
{
    if reports.len() > 0 && names.len() > 0 {
        lemma_closed_fetching_only_fails(load, reports.skip(1), names.skip(1));
    }
}

/// A video stream that declares more than the budget is rejected with the
/// budget by name, and nothing is fetched: the request that follows is the
/// failure, and whatever is reported after it, no request fetches a track
/// or runs a tool.
pub proof fn lemma_oversize_video_is_rejected(
    load: RedditLoadView,
    size: u64,
    later: Seq<Report>,
    names: Seq<Names>,
)
    requires
        load.stage is Length,
        over_budget(size, load.max_filesize),
        names.len() > 0,
    ensures
        reddit_run(load, seq![Report::Length(Some(size))] + later, names)[0] == Ask::fail(
            Failure::Rejected(over_limit(load.max_filesize)),
        ),
        none_acts(reddit_run(load, seq![Report::Length(Some(size))] + later, names)),
        has_substring(over_limit(load.max_filesize), decimal_digits(load.max_filesize as nat)),
{
    let reports = seq![Report::Length(Some(size))] + later;
    let closed = RedditLoadView { max_filesize: load.max_filesize, stage: StageView::Closed };
    assert(reports.skip(1) =~= later);
    lemma_closed_fetching_only_fails(closed, later, names.skip(1));
    let head = OVER_LIMIT_HEAD@;
    let digits = decimal_digits(load.max_filesize as nat);
    let text = over_limit(load.max_filesize);
    assert(text.subrange(head.len() as int, (head.len() + digits.len()) as int) =~= digits);
    assert(occurs_at(text, digits, head.len() as int));
}

/// The tracks of a video are fetched only after its stream has declared a
/// length within the budget.
pub proof fn lemma_tracks_are_fetched_within_budget(
    load: RedditLoadView,
    report: Report,
    first: Seq<char>,
    second: Seq<char>,
    third: Seq<char>,
)
    requires
        reddit_step(load, report, first, second, third).1 is DownloadPair,
    ensures
        load.stage is Length,
        report matches Report::Length(Some(size)) && !over_budget(size, load.max_filesize),
{
}

/// A file is delivered only when its size has just been reported and is
/// within the budget; it is delivered with that size.
pub proof fn lemma_delivery_is_within_budget(
    load: RedditLoadView,
    report: Report,
    first: Seq<char>,
    second: Seq<char>,
    third: Seq<char>,
)
    requires
        reddit_step(load, report, first, second, third).1 is Deliver,
    ensures
        load.stage is Measuring,
        report matches Report::Size(size_bytes) && !over_budget(size_bytes, load.max_filesize)
            && reddit_step(load, report, first, second, third).1->Deliver_size_bytes
            == size_bytes,
{
}

/// A picture whose bytes do not decode is a text post: the fetching ends
/// with a failure that is ignored, neither a rejection nor a fault, and the
/// stored bytes go.
pub proof fn lemma_undecodable_picture_is_ignored(
    load: RedditLoadView,
    bytes: Seq<u8>,
    first: Seq<char>,
    second: Seq<char>,
    third: Seq<char>,
)
    requires
        load.stage matches StageView::Picture { file_name } && inspection_of(
            bytes,
            file_extension_of(file_name),
        ) is None,
    ensures
        reddit_step(load, Report::Bytes(bytes), first, second, third).0 is Closed,
        reddit_step(load, Report::Bytes(bytes), first, second, third).1 == (Ask::Fail {
            error: Failure::Ignore(TEXT_POST@),
            discard: seq![load.stage->Picture_file_name],
        }),
{
}

/// Once the fetching has delivered or failed it is closed, and a closed
/// fetching asks for nothing more: whatever is reported to it, it fails.
pub proof fn lemma_reddit_end_is_final(
    load: RedditLoadView,
    report: Report,
    first: Seq<char>,
    second: Seq<char>,
    third: Seq<char>,
)
    ensures
        reddit_step(load, report, first, second, third).1.is_final() <==> reddit_step(
            load,
            report,
            first,
            second,
            third,
        ).0 is Closed,
        load.stage is Closed ==> reddit_step(load, report, first, second, third).1 is Fail,
{
}

/// Decides what follows the resolution of the metadata.
pub fn on_metadata(resolution: LoadResult<ResolvedAsset>, id: &str) -> (next: (Stage, Request))
    ensures
        resolution matches Ok(asset) ==> (next.0@, next.1@) == after_metadata(Ok(asset@), id@),
        resolution matches Err(e) ==> (next.0@, next.1@) == after_metadata(Err(e@), id@),
{
    match resolution {
        Ok(ResolvedAsset::Image { asset_url, file_extension }) => {
            let file_name = artifact_name(id, file_extension.as_str());
            (
                Stage::Picture { file_name: file_name.clone() },
                Request::Download { url: asset_url, file_name },
            )
        },
        Ok(ResolvedAsset::Video { video_url, derived_audio_url }) => (
            Stage::Length { video_url: video_url.clone(), audio_url: derived_audio_url },
            Request::Probe { url: video_url },
        ),
        Ok(ResolvedAsset::TextOnly) => (Stage::Closed, fail(LoadError::ignore(TEXT_POST))),
        Ok(ResolvedAsset::Unsupported) => (
            Stage::Closed,
            fail(LoadError::rejected(NOT_SUPPORTED)),
        ),
        Err(e) => (Stage::Closed, fail(e)),
    }
}

/// Decides what follows a look at the picture stored under `file_name`.
pub fn on_picture(file_name: String, seen: Option<PictureFormat>) -> (next: (Stage, Request))
    ensures
        (next.0@, next.1@) == after_picture(file_name@, seen),
{
    match seen {
        None => (
            Stage::Closed,
            Request::Fail {
                error: LoadError::ignore(TEXT_POST),
                discard: with_file(no_files(), file_name),
            },
        ),
        Some(PictureFormat::Gif) => {
            let output = video_name(file_name.as_str());
            let arguments = transcode_arguments(file_name.as_str(), output.as_str());
            (
                Stage::Converting { source: file_name, output: output.clone() },
                Request::Run { tool: Tool::Muxer, arguments, output },
            )
        },
        Some(_) => (
            Stage::Measuring { file_name: file_name.clone(), discard: no_files() },
            Request::Measure { file_name },
        ),
    }
}

/// Decides what follows the length that the video stream declares.
pub fn on_length(
    video_url: String,
    audio_url: String,
    length: Option<u64>,
    max_filesize: u64,
    first: &str,
    second: &str,
    third: &str,
) -> (next: (Stage, Request))
    ensures
        (next.0@, next.1@) == after_length(
            video_url@,
            audio_url@,
            length,
            max_filesize,
            first@,
            second@,
            third@,
        ),
{
    match length {
        None => (Stage::Closed, fail(LoadError::rejected(NO_LENGTH))),
        Some(size) => {
            if exceeds(size, max_filesize) {
                let text = String::from_str(OVER_LIMIT_HEAD).concat(
                    decimal(max_filesize).as_str(),
                ).concat(OVER_LIMIT_TAIL);
                (Stage::Closed, fail(LoadError::Rejected(text)))
            } else {
                (
                    Stage::Tracks {
                        video_file: String::from_str(first),
                        audio_file: String::from_str(second),
                        output: artifact_name(third, "mp4"),
                    },
                    Request::DownloadPair {
                        video_url,
                        video_file: String::from_str(first),
                        audio_url,
                        audio_file: String::from_str(second),
                    },
                )
            }
        },
    }
}

/// Decides what follows the fetching of both tracks.
pub fn on_tracks(video_file: String, audio_file: String, output: String, reply: Reply) -> (next: (
    Stage,
    Request,
))
    ensures
        (next.0@, next.1@) == after_tracks(video_file@, audio_file@, output@, reply@),
{
    match reply {
        Reply::Stored => {
            let arguments = mux_arguments(
                video_file.as_str(),
                audio_file.as_str(),
                output.as_str(),
            );
            (
                Stage::Merging { video_file, audio_file, output: output.clone() },
                Request::Run { tool: Tool::Muxer, arguments, output },
            )
        },
        other => {
            let discard = with_file(with_file(no_files(), video_file), audio_file);
            assert(discard.deep_view() =~= seq![video_file@, audio_file@]);
            (Stage::Closed, Request::Fail { error: fault(other), discard })
        },
    }
}

/// Decides what follows a run of the media tool that was to make `output`
/// of `sources`.
pub fn on_tool(sources: Vec<String>, output: String, reply: Reply) -> (next: (Stage, Request))
    ensures
        (next.0@, next.1@) == after_tool(sources.deep_view(), output@, reply@),
{
    match reply {
        Reply::Exited { success: true, output_present } => (
            Stage::Measuring { file_name: output.clone(), discard: sources },
            Request::Measure { file_name: output },
        ),
        Reply::Exited { success: false, output_present } => (
            Stage::Closed,
            Request::Fail {
                error: LoadError::error(TOOL_FAILED),
                discard: with_file(sources, output),
            },
        ),
        other => (
            Stage::Closed,
            Request::Fail { error: fault(other), discard: with_file(sources, output) },
        ),
    }
}

impl RedditLoad {
    /// Decides the next request from what the caller reports of the last
    /// one. The three identifiers name the files that the next requests
    /// write.
    pub fn advance(self, reply: Reply, first: &str, second: &str, third: &str) -> (next: (
        RedditLoad,
        Request,
    ))
        ensures
            next.0.max_filesize == self.max_filesize,
            (next.0.stage@, next.1@) == reddit_step(self@, reply@, first@, second@, third@),
    {
        let max_filesize = self.max_filesize;
        let (stage, request) = match self.stage {
            Stage::Metadata => match reply {
                Reply::Body(body) => on_metadata(resolve_response(body.as_str()), first),
                other => (Stage::Closed, fail(fault(other))),
            },
            Stage::Picture { file_name } => match reply {
                Reply::Bytes(bytes) => {
                    let extension = file_extension(file_name.as_str());
                    let seen = inspect(&bytes, extension.as_str());
                    on_picture(file_name, seen)
                },
                other => (Stage::Closed, fail(fault(other))),
            },
            Stage::Length { video_url, audio_url } => match reply {
                Reply::Length(length) => on_length(
                    video_url,
                    audio_url,
                    length,
                    max_filesize,
                    first,
                    second,
                    third,
                ),
                other => (Stage::Closed, fail(fault(other))),
            },
            Stage::Tracks { video_file, audio_file, output } => on_tracks(
                video_file,
                audio_file,
                output,
                reply,
            ),
            Stage::Merging { video_file, audio_file, output } => {
                let sources = with_file(with_file(no_files(), video_file), audio_file);
                assert(sources.deep_view() =~= seq![video_file@, audio_file@]);
                on_tool(sources, output, reply)
            },
            Stage::Converting { source, output } => {
                let sources = with_file(no_files(), source);
                on_tool(sources, output, reply)
            },
            Stage::Measuring { file_name, discard } => (
                Stage::Closed,
                conclude(file_name, discard, max_filesize, reply),
            ),
            Stage::Closed => (Stage::Closed, fail(fault(reply))),
        };
        (RedditLoad { max_filesize, stage }, request)
    }

    /// Decides the next request from what the caller reports of the last
    /// one, naming the files that the next requests write by fresh random
    /// identifiers.
    pub fn resume(self, reply: Reply) -> (next: (RedditLoad, Request))
        ensures
            next.0.max_filesize == self.max_filesize,
            exists|first: Seq<char>, second: Seq<char>, third: Seq<char>|
                is_identifier(first) && is_identifier(second) && is_identifier(third) && (
                    next.0.stage@,
                    next.1@,
                ) == #[trigger] reddit_step(self@, reply@, first, second, third),
    {
        let first = random_identifier();
        let second = random_identifier();
        let third = random_identifier();
        self.advance(reply, first.as_str(), second.as_str(), third.as_str())
    }
}

/// Begins to fetch what the post at `url` shows, for a budget of
/// `max_filesize` megabytes: asks for the post's metadata.
pub fn load(url: &str, max_filesize: u64) -> (begun: (RedditLoad, Request))
    ensures
        begun.0@ == (RedditLoadView { max_filesize, stage: StageView::Metadata }),
        begun.1@ == (Ask::Get { url: metadata_url_of(url@), user_agent: USER_AGENT@ }),
{
    (
        RedditLoad { max_filesize, stage: Stage::Metadata },
        Request::Get {
            url: metadata_url(url),
            user_agent: String::from_str(USER_AGENT),
        },
    )
}

} // verus!
