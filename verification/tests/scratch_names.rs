use gamersbot::muxer::{mux_arguments, transcode_arguments, video_name};
use gamersbot::scratch::{artifact_name, stem};

#[test]
fn artifact_name_joins_stem_and_extension() {
    assert_eq!(artifact_name("67e55044-10b1-426f-9247-bb680e5fe0c8", "jpg"),
        "67e55044-10b1-426f-9247-bb680e5fe0c8.jpg");
    assert_eq!(artifact_name("a", ""), "a.");
    assert_eq!(artifact_name("", "gif"), ".gif");
}

#[test]
fn stem_is_what_stands_before_the_first_dot() {
    assert_eq!(stem("abc.tar.gz"), "abc");
    assert_eq!(stem("abc"), "abc");
    assert_eq!(stem(".hidden"), "");
    assert_eq!(stem(""), "");
}

#[test]
fn stem_gives_back_what_artifact_name_was_built_on() {
    let id = "67e55044-10b1-426f-9247-bb680e5fe0c8";
    assert_eq!(stem(&artifact_name(id, "gif")), id);
}

#[test]
fn video_name_swaps_the_extension() {
    assert_eq!(video_name("67e55044-10b1-426f-9247-bb680e5fe0c8.gif"),
        "67e55044-10b1-426f-9247-bb680e5fe0c8.mp4");
    assert_eq!(video_name("clip"), "clip.mp4");
}

#[test]
fn mux_arguments_copy_both_streams() {
    assert_eq!(
        mux_arguments("video", "audio", "out.mp4"),
        vec!["-i", "video", "-i", "audio", "-c", "copy", "out.mp4"]
    );
}

#[test]
fn transcode_arguments_name_input_and_output() {
    assert_eq!(transcode_arguments("in.gif", "in.mp4"), vec!["-i", "in.gif", "in.mp4"]);
}
