//! What a post of the image and video hosting site shows: from the post's
//! link to the link of its metadata, and from the metadata to the picture or
//! the video of the post.

use vstd::prelude::*;
use vstd::string::*;
use crate::json::{
    json_model, json_parse, parse, path_text, read_text, render_path, text_at, JsonModel, Step,
};
use crate::loaderror::{Failure, LoadError, LoadResult};
use crate::text::{
    chars_of, ends_with_char, find_first, find_last, first_index, last_index,
    lemma_first_index_found, lemma_last_index, lemma_last_index_found, slice, without_last,
};

verus! {

/// What is said of a response that is no post at all.
pub const NOT_A_POST: &'static str =
    "Could not load from given url, please provide a valid reddit url";

/// What is said of a response that is a listing without the post that it
/// was expected to hold.
pub const UNEXPECTED_SHAPE: &'static str = "The response has an unexpected shape";

/// What is said of a post without a video.
pub const NOT_A_VIDEO: &'static str = "This Reddit Link is not a link to a video, mission abort";

/// What is said of a post without a picture.
pub const NOT_AN_IMAGE: &'static str = "Not an Image";

/// What is said of a post that shows neither a video nor a picture.
pub const NOT_SUPPORTED: &'static str = "This Reddit Link is not a supported post";

/// What is said of a post without a title.
pub const NO_TITLE: &'static str = "This Reddit Link has no title";

/// The name of the audio track that lies beside every video track.
pub const AUDIO_TRACK: &'static str = "DASH_audio.mp4?source=fallback";

/// The link under which the metadata of the post at `url` is served.
///
/// A link that ends in a slash loses its last two characters and gains
/// `.json`. Any other link with a question mark is cut before the first one
/// and gains `/.json`. Every other link loses its last two characters and
/// gains `/.json`.
pub open spec fn metadata_url_of(url: Seq<char>) -> Seq<char> {
    if ends_with_char(url, '/') {
        without_last(url, 2) + ".json"@
    } else if url.contains('?') {
        url.take(first_index(url, '?')) + "/.json"@
    } else {
        without_last(url, 2) + "/.json"@
    }
}

/// Where the last piece of `url` begins, the pieces being what is left when
/// `url` is cut behind every slash.
pub open spec fn last_piece_start(url: Seq<char>) -> int {
    if url.len() == 0 {
        0
    } else {
        last_index(url.drop_last(), '/') + 1
    }
}

/// The link of the audio track that belongs to the video track at
/// `video_url`: the same link with its last piece replaced.
pub open spec fn audio_url_of(video_url: Seq<char>) -> Seq<char> {
    video_url.take(last_piece_start(video_url)) + AUDIO_TRACK@
}

/// What follows the last dot of `url`; all of `url` where it holds no dot.
pub open spec fn file_extension_of(url: Seq<char>) -> Seq<char> {
    url.skip(last_index(url, '.') + 1)
}

/// The metadata link of a post whose link ends in a slash is that link
/// without its last two characters, followed by `.json`.
pub proof fn lemma_metadata_url_of_trailing_slash(url: Seq<char>)
    requires
        ends_with_char(url, '/'),
    ensures
        metadata_url_of(url) == without_last(url, 2) + ".json"@,
        url.len() >= 2 ==> metadata_url_of(url) == url.subrange(0, url.len() - 2) + ".json"@,
{
}

/// The metadata link of a post whose link holds a question mark, and does
/// not end in a slash, is built on what stands before the first question
/// mark and on nothing behind it.
pub proof fn lemma_metadata_url_of_query(url: Seq<char>)
    requires
        url.contains('?'),
        !ends_with_char(url, '/'),
    ensures
        0 <= first_index(url, '?') < url.len(),
        url[first_index(url, '?')] == '?',
        !url.take(first_index(url, '?')).contains('?'),
        metadata_url_of(url) == url.take(first_index(url, '?')) + "/.json"@,
{
    lemma_first_index_found(url, '?');
    let cut = first_index(url, '?');
    let before = url.take(cut);
    if before.contains('?') {
        let j = choose|j: int| 0 <= j < before.len() && before[j] == '?';
    }
}

/// Every metadata link ends in `.json`.
pub proof fn lemma_metadata_url_of_suffix(url: Seq<char>)
    ensures
        ".json"@.is_suffix_of(metadata_url_of(url)),
{
    reveal_strlit(".json");
    reveal_strlit("/.json");
    let endpoint = metadata_url_of(url);
}

/// The audio track of a video lies beside it: where the video's link is a
/// directory, a slash and a name, the audio's link is the same directory, a
/// slash and the fixed name of the audio track.
pub proof fn lemma_audio_url_shares_directory(directory: Seq<char>, name: Seq<char>)
    requires
        name.len() > 0,
        !name.contains('/'),
    ensures
        audio_url_of(directory + seq!['/'] + name) == directory + seq!['/'] + AUDIO_TRACK@,
{
    let url = directory + seq!['/'] + name;
    lemma_last_index(url.drop_last(), '/', directory.len() as int);
}

/// The extension of a link that ends in a dot and a text without a dot is
/// that text.
pub proof fn lemma_file_extension_of_name(front: Seq<char>, extension: Seq<char>)
    requires
        !extension.contains('.'),
    ensures
        file_extension_of(front + seq!['.'] + extension) == extension,
{
    let url = front + seq!['.'] + extension;
    lemma_last_index(url, '.', front.len() as int);
}

/// The extension of a link holds no dot, so a file name that ends in it
/// never holds two dots in a row.
pub proof fn lemma_file_extension_has_no_dot(url: Seq<char>)
    ensures
        !file_extension_of(url).contains('.'),
{
    lemma_last_index_found(url, '.');
    let from = last_index(url, '.') + 1;
    let extension = file_extension_of(url);
    if extension.contains('.') {
        let j = choose|j: int| 0 <= j < extension.len() && extension[j] == '.';
    }
}

/// Derives the metadata link of the post at `url`.
pub fn metadata_url(url: &str) -> (endpoint: String)
    ensures
        endpoint@ == metadata_url_of(url@),
{
    let cs = chars_of(url);
    let n: usize = cs.len();
    let keep: usize = if n >= 2 {
        n - 2
    } else {
        0
    };
    if n > 0 && cs[n - 1] == '/' {
        slice(url, 0, keep).concat(".json")
    } else {
        let cut = find_first(&cs, '?');
        proof {
            lemma_first_index_found(url@, '?');
        }
        if cut < n {
            slice(url, 0, cut).concat("/.json")
        } else {
            slice(url, 0, keep).concat("/.json")
        }
    }
}

/// Derives the link of the audio track from the link of the video track.
pub fn audio_url(video_url: &str) -> (audio: String)
    ensures
        audio@ == audio_url_of(video_url@),
{
    let cs = chars_of(video_url);
    let n: usize = cs.len();
    let start: usize = if n == 0 {
        0
    } else {
        match find_last(&cs, n - 1, '/') {
            Some(k) => k + 1,
            None => 0,
        }
    };
    slice(video_url, 0, start).concat(AUDIO_TRACK)
}

/// Reads the extension off the end of `url`.
pub fn file_extension(url: &str) -> (extension: String)
    ensures
        extension@ == file_extension_of(url@),
{
    let cs = chars_of(url);
    let n: usize = cs.len();
    assert(cs@.take(n as int) =~= url@);
    let from: usize = match find_last(&cs, n, '.') {
        Some(k) => k + 1,
        None => 0,
    };
    slice(url, from, n)
}

/// What a post shows.
#[derive(Debug, Clone, PartialEq, Eq)]
pub enum ResolvedAsset {
    /// A picture at `asset_url`, whose name ends in `file_extension`.
    Image { asset_url: String, file_extension: String },
    /// A video whose picture track is at `video_url` and whose sound track
    /// is at `derived_audio_url`.
    Video { video_url: String, derived_audio_url: String },
    /// Text alone.
    TextOnly,
    /// Nothing that this resolver knows.
    Unsupported,
}

/// A `ResolvedAsset` with its links as sequences of characters.
pub enum Asset {
    Image { asset_url: Seq<char>, file_extension: Seq<char> },
    Video { video_url: Seq<char>, derived_audio_url: Seq<char> },
    TextOnly,
    Unsupported,
}

impl View for ResolvedAsset {
    type V = Asset;

    open spec fn view(&self) -> Asset {
        match *self {
            ResolvedAsset::Image { asset_url, file_extension } => Asset::Image {
                asset_url: asset_url@,
                file_extension: file_extension@,
            },
            ResolvedAsset::Video { video_url, derived_audio_url } => Asset::Video {
                video_url: video_url@,
                derived_audio_url: derived_audio_url@,
            },
            ResolvedAsset::TextOnly => Asset::TextOnly,
            ResolvedAsset::Unsupported => Asset::Unsupported,
        }
    }
}

impl Asset {
    /// The picture at `url`.
    pub open spec fn image_at(url: Seq<char>) -> Asset {
        Asset::Image { asset_url: url, file_extension: file_extension_of(url) }
    }

    /// The video whose picture track is at `url`.
    pub open spec fn video_at(url: Seq<char>) -> Asset {
        Asset::Video { video_url: url, derived_audio_url: audio_url_of(url) }
    }

    /// The extension and the audio link are the ones that the asset's own
    /// link gives.
    pub open spec fn wf(self) -> bool {
        match self {
            Asset::Image { asset_url, file_extension } => file_extension == file_extension_of(
                asset_url,
            ),
            Asset::Video { video_url, derived_audio_url } => derived_audio_url == audio_url_of(
                video_url,
            ),
            _ => true,
        }
    }
}

impl ResolvedAsset {
    /// The picture at `url`.
    pub fn image(url: String) -> (asset: ResolvedAsset)
        ensures
            asset@ == Asset::image_at(url@),
            asset@.wf(),
    {
        let file_extension = file_extension(url.as_str());
        ResolvedAsset::Image { asset_url: url, file_extension }
    }

    /// The video whose picture track is at `url`.
    pub fn video(url: String) -> (asset: ResolvedAsset)
        ensures
            asset@ == Asset::video_at(url@),
            asset@.wf(),
    {
        let derived_audio_url = audio_url(url.as_str());
        ResolvedAsset::Video { video_url: url, derived_audio_url }
    }
}

/// The steps from the top of the metadata down to the post itself.
pub open spec fn post_path() -> Seq<Step<'static>> {
    seq![
        Step::Index(0),
        Step::Key("data"),
        Step::Key("children"),
        Step::Index(0),
        Step::Key("data"),
    ]
}

/// The steps down to the link of a hosted video.
pub open spec fn video_path() -> Seq<Step<'static>> {
    post_path() + seq![
        Step::Key("secure_media"),
        Step::Key("reddit_video"),
        Step::Key("fallback_url"),
    ]
}

/// The steps down to the link that a picture post shows.
pub open spec fn image_path() -> Seq<Step<'static>> {
    post_path() + seq![Step::Key("url")]
}

/// The steps down to the title of the post.
pub open spec fn title_path() -> Seq<Step<'static>> {
    post_path() + seq![Step::Key("title")]
}

/// What is said of the field at which the walk along `path` came to an end
/// after `reached` steps: the headline, and the field by its name.
pub open spec fn unavailable(headline: Seq<char>, path: Seq<Step>, reached: nat) -> Seq<char> {
    headline + ": "@ + path_text(path.take((reached + 1) as int)) + " unavailable"@
}

/// The failure of a walk along `path` that came to an end after `reached`
/// steps; it names the field that was not there. A response without a first
/// element is no post, and is rejected. A first element that does not hold
/// a post where every listing holds one is a fault. A post that lacks a
/// field of its own is rejected, and `otherwise` says for what.
pub open spec fn shape_failure(otherwise: Seq<char>, path: Seq<Step>, reached: nat) -> Failure {
    if reached == 0 {
        Failure::Rejected(unavailable(NOT_A_POST@, path, reached))
    } else if reached < post_path().len() {
        Failure::Error(unavailable(UNEXPECTED_SHAPE@, path, reached))
    } else {
        Failure::Rejected(unavailable(otherwise, path, reached))
    }
}

/// What extracting the asset from the metadata `m` gives: the hosted video
/// where its link is there, else the picture where its link is there, else
/// the rejection of a post that is not supported, which names the field
/// that the picture's link lacks.
pub open spec fn extraction_of(m: JsonModel) -> Result<Asset, Failure> {
    match text_at(m, video_path()) {
        Ok(url) => Ok(Asset::video_at(url)),
        Err(_) => match text_at(m, image_path()) {
            Ok(url) => Ok(Asset::image_at(url)),
            Err(reached) => Err(shape_failure(NOT_SUPPORTED@, image_path(), reached)),
        },
    }
}

/// What the metadata `m` resolves to: what is extracted from it, or nothing
/// supported.
pub open spec fn resolution_of(m: JsonModel) -> Asset {
    match extraction_of(m) {
        Ok(asset) => asset,
        Err(_) => Asset::Unsupported,
    }
}

/// What the body of a metadata response resolves to: what is extracted from
/// the document that it parses to, or a rejection where it is no JSON.
pub open spec fn response_resolution(body: Seq<char>) -> Result<Asset, Failure> {
    match json_parse(body) {
        Some(m) => extraction_of(m),
        None => Err(Failure::Rejected(NOT_A_POST@)),
    }
}

/// Two assets are of the same kind.
pub open spec fn same_kind(a: Asset, b: Asset) -> bool {
    (a is Image <==> b is Image) && (a is Video <==> b is Video) && (a is TextOnly <==> b
        is TextOnly) && (a is Unsupported <==> b is Unsupported)
}

/// Resolving a post again, while its metadata has not changed, gives the
/// same asset: the link that is asked depends on the post's link alone, and
/// the resolution on the body of the response alone.
pub proof fn lemma_resolution_repeats(
    url: Seq<char>,
    url_again: Seq<char>,
    body: Seq<char>,
    body_again: Seq<char>,
)
    requires
        url == url_again,
        body == body_again,
    ensures
        metadata_url_of(url) == metadata_url_of(url_again),
        response_resolution(body) == response_resolution(body_again),
        response_resolution(body) matches Ok(asset) ==> response_resolution(body_again) matches Ok(
            again,
        ) && same_kind(asset, again),
{
}

/// What is extracted from metadata is a video or a picture, with the audio
/// link or the extension that its own link gives; whether a picture turns
/// out to be text is not known before its bytes are looked at.
pub proof fn lemma_extraction_is_video_or_picture(m: JsonModel)
    ensures
        extraction_of(m) matches Ok(asset) ==> (asset is Video || asset is Image) && asset.wf(),
        !(resolution_of(m) is TextOnly),
{
}

/// Two metadata documents that agree on which of the two links they hold
/// resolve to assets of the same kind.
pub proof fn lemma_resolution_kind(a: JsonModel, b: JsonModel)
    requires
        text_at(a, video_path()) is Ok <==> text_at(b, video_path()) is Ok,
        text_at(a, image_path()) is Ok <==> text_at(b, image_path()) is Ok,
    ensures
        same_kind(resolution_of(a), resolution_of(b)),
        extraction_of(a) is Ok <==> extraction_of(b) is Ok,
{
}

fn post_steps() -> (path: Vec<Step<'static>>)
    ensures
        path@ == post_path(),
{
    let path = vec![
        Step::Index(0),
        Step::Key("data"),
        Step::Key("children"),
        Step::Index(0),
        Step::Key("data"),
    ];
    path
}

fn video_steps() -> (path: Vec<Step<'static>>)
    ensures
        path@ == video_path(),
{
    let mut path = post_steps();
    path.push(Step::Key("secure_media"));
    path.push(Step::Key("reddit_video"));
    path.push(Step::Key("fallback_url"));
    path
}

fn image_steps() -> (path: Vec<Step<'static>>)
    ensures
        path@ == image_path(),
{
    let mut path = post_steps();
    path.push(Step::Key("url"));
    path
}

fn title_steps() -> (path: Vec<Step<'static>>)
    ensures
        path@ == title_path(),
{
    let mut path = post_steps();
    path.push(Step::Key("title"));
    path
}

/// Builds the failure of a walk along `path` that ended after `reached`
/// steps.
pub fn reject_shape(otherwise: &str, path: &Vec<Step>, reached: usize) -> (e: LoadError)
    requires
        reached < path.len(),
    ensures
        e@ == shape_failure(otherwise@, path@, reached as nat),
{
    let headline = if reached == 0 {
        NOT_A_POST
    } else if reached < 5 {
        UNEXPECTED_SHAPE
    } else {
        otherwise
    };
    let text = String::from_str(headline).concat(": ").concat(
        render_path(path, reached + 1).as_str(),
    ).concat(" unavailable");
    if 0 < reached && reached < 5 {
        LoadError::Error(text)
    } else {
        LoadError::Rejected(text)
    }
}

/// Reads the text at the end of `path`, or fails with the name of the field
/// that is not there.
fn extract_text(json: &serde_json::Value, path: &Vec<Step>, otherwise: &str) -> (r: LoadResult<
    String,
>)
    requires
        path.len() > 0,
    ensures
        match text_at(json_model(*json), path@) {
            Ok(text) => r matches Ok(t) && t@ == text,
            Err(reached) => r matches Err(e) && e@ == shape_failure(otherwise@, path@, reached),
        },
{
    match read_text(json, path) {
        Ok(text) => Ok(text),
        Err(reached) => Err(reject_shape(otherwise, path, reached)),
    }
}

/// Extracts the hosted video of a post from its metadata.
pub fn extract_video_url(json: &serde_json::Value) -> (r: LoadResult<ResolvedAsset>)
    ensures
        match text_at(json_model(*json), video_path()) {
            Ok(url) => r matches Ok(asset) && asset@ == Asset::video_at(url),
            Err(reached) => r matches Err(e) && e@ == shape_failure(
                NOT_A_VIDEO@,
                video_path(),
                reached,
            ),
        },
{
    let path = video_steps();
    match extract_text(json, &path, NOT_A_VIDEO) {
        Ok(url) => Ok(ResolvedAsset::video(url)),
        Err(e) => Err(e),
    }
}

/// Extracts the picture of a post from its metadata.
pub fn extract_img_url(json: &serde_json::Value) -> (r: LoadResult<ResolvedAsset>)
    ensures
        match text_at(json_model(*json), image_path()) {
            Ok(url) => r matches Ok(asset) && asset@ == Asset::image_at(url),
            Err(reached) => r matches Err(e) && e@ == shape_failure(
                NOT_AN_IMAGE@,
                image_path(),
                reached,
            ),
        },
{
    let path = image_steps();
    match extract_text(json, &path, NOT_AN_IMAGE) {
        Ok(url) => Ok(ResolvedAsset::image(url)),
        Err(e) => Err(e),
    }
}

/// Extracts the title of a post from its metadata.
pub fn extract_video_name_from_reddit_response(json: &serde_json::Value) -> (r: LoadResult<String>)
    ensures
        match text_at(json_model(*json), title_path()) {
            Ok(title) => r matches Ok(t) && t@ == title,
            Err(reached) => r matches Err(e) && e@ == shape_failure(
                NO_TITLE@,
                title_path(),
                reached,
            ),
        },
{
    let path = title_steps();
    extract_text(json, &path, NO_TITLE)
}

/// Extracts what a post shows from its metadata: its hosted video, else its
/// picture.
pub fn extract_file_url_from_reddit_response(json: &serde_json::Value) -> (r: LoadResult<
    ResolvedAsset,
>)
    ensures
        match extraction_of(json_model(*json)) {
            Ok(asset) => r matches Ok(a) && a@ == asset && asset.wf(),
            Err(failure) => r matches Err(e) && e@ == failure,
        },
{
    match extract_video_url(json) {
        Ok(video) => Ok(video),
        Err(_) => {
            let path = image_steps();
            match extract_text(json, &path, NOT_SUPPORTED) {
                Ok(url) => Ok(ResolvedAsset::image(url)),
                Err(e) => Err(e),
            }
        },
    }
}

/// Says what a post shows, whatever its metadata holds.
pub fn resolve(json: &serde_json::Value) -> (asset: ResolvedAsset)
    ensures
        asset@ == resolution_of(json_model(*json)),
        asset@.wf(),
{
    match extract_file_url_from_reddit_response(json) {
        Ok(asset) => asset,
        Err(_) => ResolvedAsset::Unsupported,
    }
}

/// Extracts what a post shows from the body of its metadata response.
pub fn resolve_response(body: &str) -> (r: LoadResult<ResolvedAsset>)
    ensures
        match response_resolution(body@) {
            Ok(asset) => r matches Ok(a) && a@ == asset && asset.wf(),
            Err(failure) => r matches Err(e) && e@ == failure,
        },
{
    match parse(body) {
        Some(json) => extract_file_url_from_reddit_response(&json),
        None => Err(LoadError::rejected(NOT_A_POST)),
    }
}

} // verus!
