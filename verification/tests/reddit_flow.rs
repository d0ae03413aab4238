use gamersbot::exchange::{Reply, Request, Tool};
use gamersbot::loaderror::LoadError;
use gamersbot::picture::PictureFormat;
use gamersbot::post::ResolvedAsset;
use gamersbot::reddit::{
    load, on_length, on_metadata, on_picture, on_tool, on_tracks, RedditLoad, Stage,
};

const A: &str = "11111111-1111-4111-8111-111111111111";
const B: &str = "22222222-2222-4222-8222-222222222222";
const C: &str = "33333333-3333-4333-8333-333333333333";

const VIDEO_POST: &str = r#"[{"data":{"children":[{"data":{
    "url":"https://v.redd.it/xyz",
    "secure_media":{"reddit_video":{"fallback_url":"https://v.redd.it/xyz/DASH_480.mp4"}}
}}]}}]"#;

const IMAGE_POST: &str = r#"[{"data":{"children":[{"data":{
    "url":"https://i.redd.it/abc.gif",
    "secure_media":null
}}]}}]"#;

fn at(stage: Stage) -> RedditLoad {
    RedditLoad { max_filesize: 8, stage }
}

fn closed() -> RedditLoad {
    at(Stage::Closed)
}

fn probing() -> RedditLoad {
    at(Stage::Length { video_url: "https://v/v".to_string(), audio_url: "https://v/a".to_string() })
}

fn failure(error: LoadError) -> Request {
    Request::Fail { error, discard: vec![] }
}

fn names(list: &[&str]) -> Vec<String> {
    list.iter().map(|s| s.to_string()).collect()
}

fn encoded(format: image::ImageFormat) -> Vec<u8> {
    let picture = image::DynamicImage::ImageRgba8(image::RgbaImage::new(1, 1));
    let mut bytes = std::io::Cursor::new(Vec::new());
    picture.write_to(&mut bytes, format).expect("the picture is encoded");
    bytes.into_inner()
}

fn is_identifier(text: &str) -> bool {
    text.len() == 36
        && text.chars().enumerate().all(|(i, c)| match i {
            8 | 13 | 18 | 23 => c == '-',
            _ => c.is_ascii_digit() || ('a'..='f').contains(&c),
        })
}

#[test]
fn loading_asks_for_the_metadata_first() {
    let (state, request) = load("https://www.reddit.com/r/rust/comments/abc/title/", 8);
    assert_eq!(state, at(Stage::Metadata));
    assert_eq!(
        request,
        Request::Get {
            url: "https://www.reddit.com/r/rust/comments/abc/titl.json".to_string(),
            user_agent: "Mozilla/5.0 (Macintosh; Intel Mac OS X 10_15_7) AppleWebKit/537.36 \
                         (KHTML, like Gecko) Chrome/108.0.0.0 Safari/537.36"
                .to_string(),
        }
    );
}

#[test]
fn a_picture_post_has_its_picture_fetched() {
    let (state, request) = at(Stage::Metadata).advance(Reply::Body(IMAGE_POST.to_string()), A, B, C);
    let file_name = format!("{A}.gif");
    assert_eq!(state, at(Stage::Picture { file_name: file_name.clone() }));
    assert_eq!(
        request,
        Request::Download { url: "https://i.redd.it/abc.gif".to_string(), file_name }
    );
}

#[test]
fn a_video_post_has_its_stream_probed() {
    let (state, request) = at(Stage::Metadata).advance(Reply::Body(VIDEO_POST.to_string()), A, B, C);
    assert_eq!(
        state,
        at(Stage::Length {
            video_url: "https://v.redd.it/xyz/DASH_480.mp4".to_string(),
            audio_url: "https://v.redd.it/xyz/DASH_audio.mp4?source=fallback".to_string(),
        })
    );
    assert_eq!(request, Request::Probe { url: "https://v.redd.it/xyz/DASH_480.mp4".to_string() });
}

#[test]
fn a_body_that_is_no_post_ends_the_fetching() {
    let (state, request) = at(Stage::Metadata).advance(Reply::Body("<html>".to_string()), A, B, C);
    assert_eq!(state, closed());
    assert_eq!(
        request,
        failure(LoadError::Rejected(
            "Could not load from given url, please provide a valid reddit url".to_string()
        ))
    );
}

#[test]
fn a_fault_of_the_caller_is_an_error() {
    let (state, request) =
        at(Stage::Metadata).advance(Reply::Fault("connection reset".to_string()), A, B, C);
    assert_eq!(state, closed());
    assert_eq!(request, failure(LoadError::Error("connection reset".to_string())));
}

#[test]
fn a_reply_out_of_turn_is_an_error() {
    let (state, request) = at(Stage::Metadata).advance(Reply::Stored, A, B, C);
    assert_eq!(state, closed());
    assert_eq!(
        request,
        failure(LoadError::Error("The reply does not answer the request".to_string()))
    );
    let (state, request) =
        probing().advance(Reply::Bytes(vec![1]), A, B, C);
    assert_eq!(state, closed());
    assert_eq!(
        request,
        failure(LoadError::Error("The reply does not answer the request".to_string()))
    );
}

#[test]
fn a_closed_fetching_fails_whatever_is_reported() {
    for reply in [
        Reply::Body(IMAGE_POST.to_string()),
        Reply::Length(Some(1)),
        Reply::Stored,
        Reply::Exited { success: true, output_present: true },
    ] {
        let (state, request) = closed().advance(reply, A, B, C);
        assert_eq!(state, closed());
        assert_eq!(
            request,
            failure(LoadError::Error("The reply does not answer the request".to_string()))
        );
    }
}

#[test]
fn on_metadata_passes_a_failure_on() {
    let (stage, request) = on_metadata(Err(LoadError::Rejected("no".to_string())), A);
    assert_eq!(stage, Stage::Closed);
    assert_eq!(request, failure(LoadError::Rejected("no".to_string())));
}

#[test]
fn on_metadata_has_nothing_to_fetch_for_text_and_unsupported_posts() {
    let (stage, request) = on_metadata(Ok(ResolvedAsset::TextOnly), A);
    assert_eq!(stage, Stage::Closed);
    assert_eq!(request, failure(LoadError::Ignore("This is a text post".to_string())));
    let (stage, request) = on_metadata(Ok(ResolvedAsset::Unsupported), A);
    assert_eq!(stage, Stage::Closed);
    assert_eq!(
        request,
        failure(LoadError::Rejected("This Reddit Link is not a supported post".to_string()))
    );
}

#[test]
fn a_picture_that_does_not_decode_is_ignored() {
    let stage = Stage::Picture { file_name: format!("{A}.jpg") };
    let (state, request) =
        at(stage).advance(Reply::Bytes(b"<html>self post</html>".to_vec()), A, B, C);
    assert_eq!(state, closed());
    assert_eq!(
        request,
        Request::Fail {
            error: LoadError::Ignore("This is a text post".to_string()),
            discard: vec![format!("{A}.jpg")],
        }
    );
}

#[test]
fn a_picture_under_a_link_without_a_known_extension_is_ignored() {
    let stage = Stage::Picture { file_name: format!("{A}.com/r/rust/comments/abc/title/") };
    let (_, request) = at(stage).advance(Reply::Bytes(encoded(image::ImageFormat::Png)), A, B, C);
    assert!(matches!(request, Request::Fail { error: LoadError::Ignore(_), .. }));
}

#[test]
fn a_still_picture_is_the_artifact_and_is_measured() {
    let stage = Stage::Picture { file_name: format!("{A}.png") };
    let (state, request) =
        at(stage).advance(Reply::Bytes(encoded(image::ImageFormat::Png)), A, B, C);
    assert_eq!(state, at(Stage::Measuring { file_name: format!("{A}.png"), discard: vec![] }));
    assert_eq!(request, Request::Measure { file_name: format!("{A}.png") });
}

#[test]
fn an_artifact_within_the_budget_is_delivered_with_its_size() {
    let stage = Stage::Measuring { file_name: "out.mp4".to_string(), discard: names(&[A, B]) };
    let (state, request) = at(stage).advance(Reply::Size(8_000_000), A, B, C);
    assert_eq!(state, closed());
    assert_eq!(
        request,
        Request::Deliver {
            file_name: "out.mp4".to_string(),
            size_bytes: 8_000_000,
            discard: names(&[A, B]),
        }
    );
}

#[test]
fn an_artifact_over_the_budget_is_rejected_and_discarded() {
    let stage = Stage::Measuring { file_name: "out.mp4".to_string(), discard: names(&[A, B]) };
    let (state, request) = at(stage).advance(Reply::Size(9_500_000), A, B, C);
    assert_eq!(state, closed());
    assert_eq!(
        request,
        Request::Fail {
            error: LoadError::Rejected(
                "The File is 9MB large, limit is 8MB so i cant post it".to_string()
            ),
            discard: names(&[A, B, "out.mp4"]),
        }
    );
}

#[test]
fn the_last_check_counts_bytes_as_the_first_one_does() {
    let measuring = || Stage::Measuring { file_name: "f".to_string(), discard: vec![] };
    let (_, request) = at(measuring()).advance(Reply::Size(8_000_001), A, B, C);
    assert!(matches!(request, Request::Fail { error: LoadError::Rejected(_), .. }));
    let (_, request) = at(measuring()).advance(Reply::Size(8_388_607), A, B, C);
    assert!(matches!(request, Request::Fail { error: LoadError::Rejected(_), .. }));
    let (_, request) = at(measuring()).advance(Reply::Size(0), A, B, C);
    assert!(matches!(request, Request::Deliver { size_bytes: 0, .. }));
}

#[test]
fn an_artifact_that_cannot_be_measured_is_not_delivered() {
    let stage = Stage::Measuring { file_name: "out.mp4".to_string(), discard: vec![] };
    let (state, request) = at(stage).advance(Reply::Fault("no such file".to_string()), A, B, C);
    assert_eq!(state, closed());
    assert_eq!(
        request,
        Request::Fail {
            error: LoadError::Error("no such file".to_string()),
            discard: names(&["out.mp4"]),
        }
    );
}

#[test]
fn an_animated_picture_is_converted_to_a_video() {
    let stage = Stage::Picture { file_name: format!("{A}.gif") };
    let (state, request) =
        at(stage).advance(Reply::Bytes(encoded(image::ImageFormat::Gif)), A, B, C);
    assert_eq!(
        state,
        at(Stage::Converting { source: format!("{A}.gif"), output: format!("{A}.mp4") })
    );
    assert_eq!(
        request,
        Request::Run {
            tool: Tool::Muxer,
            arguments: vec!["-i".to_string(), format!("{A}.gif"), format!("{A}.mp4")],
            output: format!("{A}.mp4"),
        }
    );
}

#[test]
fn on_picture_decides_by_the_format_alone() {
    let (stage, request) = on_picture("x.webp".to_string(), Some(PictureFormat::WebP));
    assert_eq!(stage, Stage::Measuring { file_name: "x.webp".to_string(), discard: vec![] });
    assert_eq!(request, Request::Measure { file_name: "x.webp".to_string() });
    let (stage, _) = on_picture("x.gif".to_string(), Some(PictureFormat::Gif));
    assert_eq!(
        stage,
        Stage::Converting { source: "x.gif".to_string(), output: "x.mp4".to_string() }
    );
}

#[test]
fn a_stream_without_a_length_is_rejected() {
    let (state, request) = probing().advance(Reply::Length(None), A, B, C);
    assert_eq!(state, closed());
    assert_eq!(
        request,
        failure(LoadError::Rejected(
            "Failed to read Content_length Header from Reddit Download".to_string()
        ))
    );
}

#[test]
fn a_stream_over_the_budget_is_rejected_before_it_is_read() {
    let (state, request) = probing().advance(Reply::Length(Some(8_000_001)), A, B, C);
    assert_eq!(state, closed());
    assert_eq!(
        request,
        failure(LoadError::Rejected("Reddit File is over the Limit of 8 Megabytes".to_string()))
    );
}

#[test]
fn a_stream_at_the_budget_is_fetched_with_its_audio() {
    let (state, request) = probing().advance(Reply::Length(Some(8_000_000)), A, B, C);
    assert_eq!(
        state,
        at(Stage::Tracks {
            video_file: A.to_string(),
            audio_file: B.to_string(),
            output: format!("{C}.mp4"),
        })
    );
    assert_eq!(
        request,
        Request::DownloadPair {
            video_url: "https://v/v".to_string(),
            video_file: A.to_string(),
            audio_url: "https://v/a".to_string(),
            audio_file: B.to_string(),
        }
    );
}

#[test]
fn on_length_holds_the_length_against_the_budget_in_bytes() {
    let (stage, _) = on_length("v".to_string(), "a".to_string(), Some(1_000_000), 1, A, B, C);
    assert!(matches!(stage, Stage::Tracks { .. }));
    let (stage, request) = on_length("v".to_string(), "a".to_string(), Some(1_048_576), 1, A, B, C);
    assert_eq!(stage, Stage::Closed);
    assert_eq!(
        request,
        failure(LoadError::Rejected("Reddit File is over the Limit of 1 Megabytes".to_string()))
    );
    let (stage, _) = on_length("v".to_string(), "a".to_string(), Some(0), 0, A, B, C);
    assert!(matches!(stage, Stage::Tracks { .. }));
    let (stage, _) = on_length("v".to_string(), "a".to_string(), Some(u64::MAX), u64::MAX, A, B, C);
    assert!(matches!(stage, Stage::Tracks { .. }));
}

#[test]
fn stored_tracks_are_merged() {
    let stage = Stage::Tracks {
        video_file: A.to_string(),
        audio_file: B.to_string(),
        output: format!("{C}.mp4"),
    };
    let (state, request) = at(stage).advance(Reply::Stored, A, B, C);
    assert_eq!(
        state,
        at(Stage::Merging {
            video_file: A.to_string(),
            audio_file: B.to_string(),
            output: format!("{C}.mp4"),
        })
    );
    assert_eq!(
        request,
        Request::Run {
            tool: Tool::Muxer,
            arguments: names(&["-i", A, "-i", B, "-c", "copy", &format!("{C}.mp4")]),
            output: format!("{C}.mp4"),
        }
    );
}

#[test]
fn tracks_that_could_not_be_stored_are_discarded() {
    let (stage, request) = on_tracks(
        A.to_string(),
        B.to_string(),
        format!("{C}.mp4"),
        Reply::Fault("disk full".to_string()),
    );
    assert_eq!(stage, Stage::Closed);
    assert_eq!(
        request,
        Request::Fail {
            error: LoadError::Error("disk full".to_string()),
            discard: names(&[A, B]),
        }
    );
}

#[test]
fn a_merge_that_succeeds_has_the_output_measured_and_the_tracks_set_aside() {
    let stage = Stage::Merging {
        video_file: A.to_string(),
        audio_file: B.to_string(),
        output: format!("{C}.mp4"),
    };
    let (state, request) =
        at(stage).advance(Reply::Exited { success: true, output_present: true }, A, B, C);
    assert_eq!(
        state,
        at(Stage::Measuring { file_name: format!("{C}.mp4"), discard: names(&[A, B]) })
    );
    assert_eq!(request, Request::Measure { file_name: format!("{C}.mp4") });
}

#[test]
fn a_merge_that_fails_is_an_error_and_discards_everything() {
    let stage = Stage::Merging {
        video_file: A.to_string(),
        audio_file: B.to_string(),
        output: format!("{C}.mp4"),
    };
    let (state, request) =
        at(stage).advance(Reply::Exited { success: false, output_present: false }, A, B, C);
    assert_eq!(state, closed());
    assert_eq!(
        request,
        Request::Fail {
            error: LoadError::Error("The media tool ended with a failure".to_string()),
            discard: names(&[A, B, &format!("{C}.mp4")]),
        }
    );
}

#[test]
fn a_tool_that_could_not_be_run_is_an_error() {
    let (stage, request) = on_tool(
        names(&["x.gif"]),
        "x.mp4".to_string(),
        Reply::Fault("No such file or directory".to_string()),
    );
    assert_eq!(stage, Stage::Closed);
    assert_eq!(
        request,
        Request::Fail {
            error: LoadError::Error("No such file or directory".to_string()),
            discard: names(&["x.gif", "x.mp4"]),
        }
    );
}

#[test]
fn a_conversion_that_succeeds_has_the_video_measured() {
    let stage = Stage::Converting { source: "x.gif".to_string(), output: "x.mp4".to_string() };
    let (state, request) =
        at(stage).advance(Reply::Exited { success: true, output_present: true }, A, B, C);
    assert_eq!(
        state,
        at(Stage::Measuring { file_name: "x.mp4".to_string(), discard: names(&["x.gif"]) })
    );
    assert_eq!(request, Request::Measure { file_name: "x.mp4".to_string() });
}

#[test]
fn resume_names_files_by_fresh_identifiers() {
    let (state, request) = probing().resume(Reply::Length(Some(1)));
    let Request::DownloadPair { video_url, video_file, audio_url, audio_file } = request else {
        panic!("the tracks are to be fetched");
    };
    assert_eq!(video_url, "https://v/v");
    assert_eq!(audio_url, "https://v/a");
    assert!(is_identifier(&video_file));
    assert!(is_identifier(&audio_file));
    assert_ne!(video_file, audio_file);
    let Stage::Tracks { video_file: kept_video, audio_file: kept_audio, output } = state.stage
    else {
        panic!("the tracks are awaited");
    };
    assert_eq!(kept_video, video_file);
    assert_eq!(kept_audio, audio_file);
    assert!(output.ends_with(".mp4"));
    assert!(is_identifier(&output[..36]));
    assert_ne!(&output[..36], video_file);
    assert_ne!(&output[..36], audio_file);
}

#[test]
fn resume_names_a_picture_by_a_fresh_identifier_and_its_extension() {
    let (first, _) = at(Stage::Metadata).resume(Reply::Body(IMAGE_POST.to_string()));
    let (second, _) = at(Stage::Metadata).resume(Reply::Body(IMAGE_POST.to_string()));
    let Stage::Picture { file_name: one } = first.stage else {
        panic!("the picture is awaited");
    };
    let Stage::Picture { file_name: other } = second.stage else {
        panic!("the picture is awaited");
    };
    assert!(one.ends_with(".gif"));
    assert!(is_identifier(&one[..36]));
    assert_ne!(one, other);
}

#[test]
fn a_whole_video_fetch_from_link_to_artifact() {
    let (state, request) = load("https://www.reddit.com/r/x/comments/1/t/", 8);
    assert!(matches!(request, Request::Get { .. }));
    let (state, request) = state.advance(Reply::Body(VIDEO_POST.to_string()), A, B, C);
    assert!(matches!(request, Request::Probe { .. }));
    let (state, request) = state.advance(Reply::Length(Some(5_000_000)), A, B, C);
    assert!(matches!(request, Request::DownloadPair { .. }));
    let (state, request) = state.advance(Reply::Stored, A, B, C);
    assert!(matches!(request, Request::Run { tool: Tool::Muxer, .. }));
    let (state, request) =
        state.advance(Reply::Exited { success: true, output_present: true }, A, B, C);
    assert_eq!(request, Request::Measure { file_name: format!("{C}.mp4") });
    let (state, request) = state.advance(Reply::Size(4_200_000), A, B, C);
    assert_eq!(
        request,
        Request::Deliver {
            file_name: format!("{C}.mp4"),
            size_bytes: 4_200_000,
            discard: names(&[A, B]),
        }
    );
    assert_eq!(state.stage, Stage::Closed);
    assert_eq!(state.max_filesize, 8);
}
