//! Image formats, and the conversion of a fetched image into the format that
//! pages are kept in.

use vstd::prelude::*;
use std::io::Cursor;

verus! {

/// An image as `image` holds it after decoding.
#[verifier::external_type_specification]
#[verifier::external_body]
pub struct ExDynamicImage(image::DynamicImage);

/// What `image` reports when it cannot decode or encode.
#[verifier::external_type_specification]
#[verifier::external_body]
pub struct ExImageError(image::ImageError);

/// The format of an image's bytes.
#[derive(Debug, Clone, Copy, PartialEq, Eq, Structural)]
pub enum ImageKind {
    Png,
    Jpeg,
    Gif,
    WebP,
    Pnm,
    Tiff,
    Tga,
    Dds,
    Bmp,
    Ico,
    Hdr,
    OpenExr,
    Farbfeld,
    Avif,
    Qoi,
    Pcx,
}

/// The format that pages are kept in, as the configuration names it.
#[derive(Debug, Clone, Copy, PartialEq, Eq, Structural)]
pub enum DownloadFormat {
    Webp,
    Jpeg,
}

/// Why an image could not be made ready for saving.
#[derive(Debug, Clone, Copy, PartialEq, Eq, Structural)]
pub enum SaveError {
    /// The bytes fetched are no image that can be read.
    Decode,
    /// Pages cannot be kept in the format asked for.
    UnsupportedTarget,
    /// The image could not be written in the format asked for.
    Encode,
}

/// The formats an image can be converted to.
pub open spec fn convertible_to(target: ImageKind) -> bool {
    target == ImageKind::WebP || target == ImageKind::Jpeg
}

/// What a conversion gives for a target format, once the decoder has spoken,
/// and the encoder too where it was asked: `decoded` says whether the bytes
/// could be read, `encoded` what the encoder returned.
pub open spec fn conversion_result(
    target: ImageKind,
    decoded: bool,
    encoded: Option<Seq<u8>>,
) -> Result<Seq<u8>, SaveError> {
    if !decoded {
        Err(SaveError::Decode)
    } else if !convertible_to(target) {
        Err(SaveError::UnsupportedTarget)
    } else {
        match encoded {
            Some(bytes) => Ok(bytes),
            None => Err(SaveError::Encode),
        }
    }
}

impl DownloadFormat {
    /// The file extension of pages kept in this format.
    pub open spec fn extension_text(self) -> Seq<char> {
        match self {
            DownloadFormat::Webp => "webp"@,
            DownloadFormat::Jpeg => "jpg"@,
        }
    }

    /// The image format that this format stands for.
    pub open spec fn image_kind(self) -> ImageKind {
        match self {
            DownloadFormat::Webp => ImageKind::WebP,
            DownloadFormat::Jpeg => ImageKind::Jpeg,
        }
    }

    /// The file extension of pages kept in this format.
    pub fn extension(&self) -> (ext: &'static str)
        ensures
            ext@ == self.extension_text(),
    {
        match self {
            DownloadFormat::Webp => "webp",
            DownloadFormat::Jpeg => "jpg",
        }
    }

    /// The image format that this format stands for.
    pub fn to_image_format(&self) -> (kind: ImageKind)
        ensures
            kind == self.image_kind(),
            convertible_to(kind),
    {
        match self {
            DownloadFormat::Webp => ImageKind::WebP,
            DownloadFormat::Jpeg => ImageKind::Jpeg,
        }
    }
}

/// Decodes with `image::load_from_memory`, which guesses the format from the
/// bytes. Nothing is claimed of the outcome: which formats are read depends on
/// the decoders that the process has registered.
#[verifier::external_body]
fn load_from_memory(data: &Vec<u8>) -> (decoded: Result<image::DynamicImage, image::ImageError>) {
    image::load_from_memory(data.as_slice())
}

/// Encodes as WebP in memory: `DynamicImage::to_rgba8`, then
/// `ImageBuffer::write_to` with `ImageFormat::WebP`. Nothing is claimed of the
/// bytes, nor of when the encoder fails.
#[verifier::external_body]
fn write_webp(img: &image::DynamicImage) -> (encoded: Result<Vec<u8>, image::ImageError>) {
    let mut out: Vec<u8> = Vec::new();
    img.to_rgba8().write_to(&mut Cursor::new(&mut out), image::ImageFormat::WebP).map(|()| out)
}

/// Encodes as JPEG in memory: `DynamicImage::to_rgb8`, then
/// `ImageBuffer::write_to` with `ImageFormat::Jpeg`. Nothing is claimed of the
/// bytes, nor of when the encoder fails.
#[verifier::external_body]
fn write_jpeg(img: &image::DynamicImage) -> (encoded: Result<Vec<u8>, image::ImageError>) {
    let mut out: Vec<u8> = Vec::new();
    img.to_rgb8().write_to(&mut Cursor::new(&mut out), image::ImageFormat::Jpeg).map(|()| out)
}

/// The plain content of what the encoder returned.
pub open spec fn encoded_bytes(encoded: Option<Result<Vec<u8>, image::ImageError>>) -> Option<
    Seq<u8>,
> {
    match encoded {
        Some(Ok(bytes)) => Some(bytes@),
        _ => None,
    }
}

/// Settles a conversion from what the decoder and the encoder returned.
///
/// `decoded` says whether the bytes could be read. `encoded` is what the
/// encoder returned, or `None` where it was not asked. A decoder's failure
/// comes first, then a target that pages cannot be kept in, then an encoder's
/// failure.
pub fn settle_conversion(
    target: ImageKind,
    decoded: bool,
    encoded: Option<Result<Vec<u8>, image::ImageError>>,
) -> (res: Result<Vec<u8>, SaveError>)
    ensures
        match res {
            Ok(bytes) => conversion_result(target, decoded, encoded_bytes(encoded)) == Ok::<
                Seq<u8>,
                SaveError,
            >(bytes@),
            Err(e) => conversion_result(target, decoded, encoded_bytes(encoded)) == Err::<
                Seq<u8>,
                SaveError,
            >(e),
        },
{
    if !decoded {
        return Err(SaveError::Decode);
    }
    match target {
        ImageKind::WebP | ImageKind::Jpeg => {},
        _ => {
            return Err(SaveError::UnsupportedTarget);
        },
    }
    match encoded {
        Some(Ok(bytes)) => Ok(bytes),
        _ => Err(SaveError::Encode),
    }
}

/// Makes the bytes to save for an image fetched as `source` where pages are
/// kept as `target`.
///
/// Bytes that are in the target format already are saved as they are.
/// Otherwise the image is decoded and encoded anew, which can fail in three
/// ways: the bytes cannot be read; the target is neither WebP nor JPEG; the
/// encoder fails. Whether the decoder and the encoder succeed is theirs to
/// say, so a success is promised only where neither is asked.
pub fn convert_image(target: ImageKind, data: Vec<u8>, source: ImageKind) -> (res: Result<
    Vec<u8>,
    SaveError,
>)
    ensures
        target == source ==> (res matches Ok(bytes) && bytes@ == data@),
        res is Ok && target != source ==> convertible_to(target),
        res is Err ==> target != source,
        res == Err::<Vec<u8>, SaveError>(SaveError::UnsupportedTarget) ==> !convertible_to(target),
        res == Err::<Vec<u8>, SaveError>(SaveError::Encode) ==> convertible_to(target),
{
    if target == source {
        return Ok(data);
    }
    match load_from_memory(&data) {
        Err(_) => settle_conversion(target, false, None),
        Ok(img) => {
            let encoded = match target {
                ImageKind::WebP => Some(write_webp(&img)),
                ImageKind::Jpeg => Some(write_jpeg(&img)),
                _ => None,
            };
            settle_conversion(target, true, encoded)
        },
    }
}

} // verus!
