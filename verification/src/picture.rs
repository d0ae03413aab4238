//! Looking at the bytes of a downloaded picture: whether they decode at all,
//! and in which format. The decoding itself is the `image` crate's.

use vstd::prelude::*;

verus! {

/// The formats that the `image` crate tells apart.
#[derive(Debug, Clone, Copy, PartialEq, Eq, Structural)]
pub enum PictureFormat {
    Png,
    Jpeg,
    Gif,
    WebP,
    Pnm,
    Tiff,
    Tga,
    Dds,
    Bmp,
    Ico,
    Hdr,
    OpenExr,
    Farbfeld,
    Avif,
    Qoi,
    Other,
}

/// `image::ImageFormat`, handed from one call into the `image` crate to the
/// next. Nothing inside it is seen here: `format_kind` tells which it is.
#[verifier::external_type_specification]
#[verifier::external_body]
pub struct ExImageFormat(image::ImageFormat);

/// The format that `image::ImageFormat::from_extension` knows by the
/// extension `extension`, or `None` where it knows none by it.
pub uninterp spec fn format_by_extension(extension: Seq<char>) -> Option<image::ImageFormat>;

/// Whether `image::load_from_memory_with_format` decodes `bytes` in the
/// given format.
pub uninterp spec fn decodes_in(bytes: Seq<u8>, format: image::ImageFormat) -> bool;

/// Which of the formats `format` is.
pub uninterp spec fn format_kind(format: image::ImageFormat) -> PictureFormat;

/// `image::ImageFormat::from_extension`. Not proved: that the outcome
/// depends on the extension's text alone, which `format_by_extension` names.
#[verifier::external_body]
fn format_from_extension(extension: &str) -> (format: Option<image::ImageFormat>)
    ensures
        format == format_by_extension(extension@),
{
    image::ImageFormat::from_extension(extension)
}

/// `image::load_from_memory_with_format`, of which only success or failure
/// is kept. Not proved: that it depends on the bytes and the format alone,
/// which `decodes_in` names.
#[verifier::external_body]
fn decodes(bytes: &Vec<u8>, format: image::ImageFormat) -> (ok: bool)
    ensures
        ok == decodes_in(bytes@, format),
{
    image::load_from_memory_with_format(bytes, format).is_ok()
}

/// Tells the variants of `image::ImageFormat` apart. Not proved: that each
/// variant is handed on under its own name.
#[verifier::external_body]
fn kind_of(format: image::ImageFormat) -> (kind: PictureFormat)
    ensures
        kind == format_kind(format),
{
    match format {
        image::ImageFormat::Png => PictureFormat::Png, image::ImageFormat::Jpeg => PictureFormat::Jpeg,
        image::ImageFormat::Gif => PictureFormat::Gif, image::ImageFormat::WebP => PictureFormat::WebP,
        image::ImageFormat::Pnm => PictureFormat::Pnm, image::ImageFormat::Tiff => PictureFormat::Tiff,
        image::ImageFormat::Tga => PictureFormat::Tga, image::ImageFormat::Dds => PictureFormat::Dds,
        image::ImageFormat::Bmp => PictureFormat::Bmp, image::ImageFormat::Ico => PictureFormat::Ico,
        image::ImageFormat::Hdr => PictureFormat::Hdr, image::ImageFormat::OpenExr => PictureFormat::OpenExr,
        image::ImageFormat::Farbfeld => PictureFormat::Farbfeld, image::ImageFormat::Avif => PictureFormat::Avif,
        image::ImageFormat::Qoi => PictureFormat::Qoi,
        _ => PictureFormat::Other,
    }
}

/// What looking at a picture gives: the format that its extension tells,
/// if its bytes decode in that format; `None` where the extension tells no
/// format or the bytes do not decode in it.
pub open spec fn inspection_of(bytes: Seq<u8>, extension: Seq<char>) -> Option<PictureFormat> {
    match format_by_extension(extension) {
        Some(format) => if decodes_in(bytes, format) {
            Some(format_kind(format))
        } else {
            None
        },
        None => None,
    }
}

/// Looks at the picture with the content `bytes` whose name ends in
/// `extension`.
pub fn inspect(bytes: &Vec<u8>, extension: &str) -> (seen: Option<PictureFormat>)
    ensures
        seen == inspection_of(bytes@, extension@),
{
    match format_from_extension(extension) {
        Some(format) => {
            if decodes(bytes, format) {
                Some(kind_of(format))
            } else {
                None
            }
        },
        None => None,
    }
}

} // verus!
