use comic_downloader::image_format::{
    convert_image, settle_conversion, DownloadFormat, ImageKind, SaveError,
};
use image::{DynamicImage, ImageFormat, Rgba, RgbaImage};
use std::io::Cursor;

fn png_bytes() -> Vec<u8> {
    let mut img = RgbaImage::new(4, 3);
    for (x, y, pixel) in img.enumerate_pixels_mut() {
        *pixel = Rgba([(x * 60) as u8, (y * 80) as u8, 128, 255]);
    }
    let mut out = Vec::new();
    DynamicImage::ImageRgba8(img).write_to(&mut Cursor::new(&mut out), ImageFormat::Png).unwrap();
    out
}

#[test]
fn image_in_the_target_format_is_saved_as_it_is() {
    let bytes = vec![1u8, 2, 3, 4];
    assert_eq!(convert_image(ImageKind::WebP, bytes.clone(), ImageKind::WebP), Ok(bytes.clone()));
    assert_eq!(convert_image(ImageKind::Jpeg, bytes.clone(), ImageKind::Jpeg), Ok(bytes.clone()));
    assert_eq!(convert_image(ImageKind::Tiff, bytes.clone(), ImageKind::Tiff), Ok(bytes));
}

#[test]
fn png_is_converted_to_jpeg() {
    let png = png_bytes();
    let jpeg = convert_image(ImageKind::Jpeg, png.clone(), ImageKind::Png).unwrap();
    assert_ne!(jpeg, png);
    assert_eq!(image::guess_format(&jpeg).unwrap(), ImageFormat::Jpeg);
    let decoded = image::load_from_memory(&jpeg).unwrap();
    assert_eq!((decoded.width(), decoded.height()), (4, 3));
}

#[test]
fn png_is_converted_to_webp() {
    let png = png_bytes();
    let webp = convert_image(ImageKind::WebP, png.clone(), ImageKind::Png).unwrap();
    assert_ne!(webp, png);
    assert_eq!(image::guess_format(&webp).unwrap(), ImageFormat::WebP);
    let decoded = image::load_from_memory(&webp).unwrap();
    assert_eq!((decoded.width(), decoded.height()), (4, 3));
}

#[test]
fn unreadable_bytes_are_a_decode_error() {
    assert_eq!(
        convert_image(ImageKind::Jpeg, vec![0u8; 16], ImageKind::Png),
        Err(SaveError::Decode)
    );
    assert_eq!(convert_image(ImageKind::Bmp, Vec::new(), ImageKind::Png), Err(SaveError::Decode));
}

#[test]
fn other_targets_are_refused_after_decoding() {
    assert_eq!(
        convert_image(ImageKind::Gif, png_bytes(), ImageKind::Png),
        Err(SaveError::UnsupportedTarget)
    );
    assert_eq!(
        convert_image(ImageKind::Png, png_bytes(), ImageKind::Jpeg),
        Err(SaveError::UnsupportedTarget)
    );
}

#[test]
fn conversion_is_settled_in_order() {
    let failure = || image::load_from_memory(&[]).unwrap_err();
    assert_eq!(settle_conversion(ImageKind::Gif, false, None), Err(SaveError::Decode));
    assert_eq!(
        settle_conversion(ImageKind::Jpeg, false, Some(Ok(vec![1]))),
        Err(SaveError::Decode)
    );
    assert_eq!(settle_conversion(ImageKind::Gif, true, None), Err(SaveError::UnsupportedTarget));
    assert_eq!(
        settle_conversion(ImageKind::Gif, true, Some(Ok(vec![1]))),
        Err(SaveError::UnsupportedTarget)
    );
    assert_eq!(settle_conversion(ImageKind::Jpeg, true, Some(Ok(vec![1, 2]))), Ok(vec![1, 2]));
    assert_eq!(settle_conversion(ImageKind::WebP, true, Some(Ok(vec![9]))), Ok(vec![9]));
    assert_eq!(
        settle_conversion(ImageKind::Jpeg, true, Some(Err(failure()))),
        Err(SaveError::Encode)
    );
    assert_eq!(settle_conversion(ImageKind::WebP, true, None), Err(SaveError::Encode));
}

#[test]
fn download_formats_name_their_files() {
    assert_eq!(DownloadFormat::Webp.extension(), "webp");
    assert_eq!(DownloadFormat::Jpeg.extension(), "jpg");
    assert_eq!(DownloadFormat::Webp.to_image_format(), ImageKind::WebP);
    assert_eq!(DownloadFormat::Jpeg.to_image_format(), ImageKind::Jpeg);
}
