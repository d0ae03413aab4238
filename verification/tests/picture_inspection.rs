use gamersbot::picture::{inspect, PictureFormat};

fn encoded(format: image::ImageFormat) -> Vec<u8> {
    let picture = image::DynamicImage::ImageRgba8(image::RgbaImage::new(2, 2));
    let mut bytes = std::io::Cursor::new(Vec::new());
    picture.write_to(&mut bytes, format).expect("the picture is encoded");
    bytes.into_inner()
}

#[test]
fn a_png_with_the_extension_png_is_seen_as_png() {
    assert_eq!(inspect(&encoded(image::ImageFormat::Png), "png"), Some(PictureFormat::Png));
}

#[test]
fn a_gif_with_the_extension_gif_is_seen_as_gif() {
    assert_eq!(inspect(&encoded(image::ImageFormat::Gif), "gif"), Some(PictureFormat::Gif));
}

#[test]
fn the_extension_is_read_without_regard_to_case() {
    assert_eq!(inspect(&encoded(image::ImageFormat::Gif), "GIF"), Some(PictureFormat::Gif));
}

#[test]
fn a_bmp_with_the_extension_bmp_is_seen_as_bmp() {
    assert_eq!(inspect(&encoded(image::ImageFormat::Bmp), "bmp"), Some(PictureFormat::Bmp));
}

#[test]
fn bytes_that_are_no_picture_are_not_seen() {
    assert_eq!(inspect(&b"<html>a text post</html>".to_vec(), "png"), None);
    assert_eq!(inspect(&Vec::new(), "gif"), None);
}

#[test]
fn a_picture_with_the_extension_of_another_format_is_not_seen() {
    assert_eq!(inspect(&encoded(image::ImageFormat::Png), "gif"), None);
}

#[test]
fn a_picture_with_an_unknown_extension_is_not_seen() {
    assert_eq!(inspect(&encoded(image::ImageFormat::Png), ""), None);
    assert_eq!(inspect(&encoded(image::ImageFormat::Png), "a.png"), None);
    assert_eq!(inspect(&encoded(image::ImageFormat::Png), "com/r/rust/comments/abc/"), None);
    assert_eq!(inspect(&encoded(image::ImageFormat::Png), "png?width=640"), None);
}

#[test]
fn a_jpeg_is_known_by_both_of_its_extensions() {
    let bytes = {
        let picture = image::DynamicImage::ImageRgb8(image::RgbImage::new(2, 2));
        let mut bytes = std::io::Cursor::new(Vec::new());
        picture.write_to(&mut bytes, image::ImageFormat::Jpeg).expect("the picture is encoded");
        bytes.into_inner()
    };
    assert_eq!(inspect(&bytes, "jpg"), Some(PictureFormat::Jpeg));
    assert_eq!(inspect(&bytes, "jpeg"), Some(PictureFormat::Jpeg));
}
