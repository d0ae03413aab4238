//! The command lines of the media tool: merging a video and an audio track
//! into one container without re-encoding, and turning an animated picture
//! into a video.

use vstd::prelude::*;
use vstd::string::*;
use crate::scratch::{
    artifact_name_of, is_identifier, lemma_identifier_has_no_dot, lemma_stem_of_artifact_name, stem,
    stem_of,
};

verus! {

/// The arguments that merge `video` and `audio` into `output`, copying both
/// streams as they are.
pub open spec fn mux_arguments_of(video: Seq<char>, audio: Seq<char>, output: Seq<char>) -> Seq<
    Seq<char>,
> {
    seq!["-i"@, video, "-i"@, audio, "-c"@, "copy"@, output]
}

/// The arguments that convert `input` into `output`.
pub open spec fn transcode_arguments_of(input: Seq<char>, output: Seq<char>) -> Seq<Seq<char>> {
    seq!["-i"@, input, output]
}

/// The name of the video made of the picture `file_name`: its stem with the
/// extension `mp4`.
pub open spec fn video_name_of(file_name: Seq<char>) -> Seq<char> {
    stem_of(file_name) + ".mp4"@
}

/// The video made of a picture that is named by an identifier is named by
/// the same identifier.
pub proof fn lemma_video_name_keeps_identifier(id: Seq<char>, extension: Seq<char>)
    requires
        is_identifier(id),
    ensures
        video_name_of(artifact_name_of(id, extension)) == artifact_name_of(id, "mp4"@),
{
    lemma_identifier_has_no_dot(id);
    lemma_stem_of_artifact_name(id, extension);
    reveal_strlit(".mp4");
    reveal_strlit("mp4");
}

/// Builds the arguments of a merge of two tracks.
pub fn mux_arguments(video: &str, audio: &str, output: &str) -> (args: Vec<String>)
    ensures
        args.deep_view() == mux_arguments_of(video@, audio@, output@),
{
    let mut args: Vec<String> = Vec::new();
    args.push(String::from_str("-i"));
    args.push(String::from_str(video));
    args.push(String::from_str("-i"));
    args.push(String::from_str(audio));
    args.push(String::from_str("-c"));
    args.push(String::from_str("copy"));
    args.push(String::from_str(output));
    args
}

/// Builds the arguments of a conversion.
pub fn transcode_arguments(input: &str, output: &str) -> (args: Vec<String>)
    ensures
        args.deep_view() == transcode_arguments_of(input@, output@),
{
    let mut args: Vec<String> = Vec::new();
    args.push(String::from_str("-i"));
    args.push(String::from_str(input));
    args.push(String::from_str(output));
    args
}

/// Names the video that the picture `file_name` is converted to.
pub fn video_name(file_name: &str) -> (name: String)
    ensures
        name@ == video_name_of(file_name@),
{
    stem(file_name).concat(".mp4")
}

} // verus!
