use std::io::Cursor;
use thumbnailer::error::ThumbResult;
use thumbnailer::{create_thumbnails, create_thumbnails_samplefilter, FilterType, MediaType, ThumbnailSize};

enum SourceFormat {
    Png,
    Jpeg,
    Webp,
}

enum TargetFormat {
    Png,
    Jpeg,
}

fn png_bytes() -> Vec<u8> {
    let image = image::DynamicImage::ImageRgba8(image::RgbaImage::from_pixel(
        40,
        30,
        image::Rgba([120, 40, 200, 255]),
    ));
    let mut buf = Cursor::new(Vec::new());
    image.write_to(&mut buf, image::ImageFormat::Png).unwrap();
    buf.into_inner()
}

fn jpg_bytes() -> Vec<u8> {
    let image = image::DynamicImage::ImageRgb8(image::RgbImage::from_pixel(
        40,
        30,
        image::Rgb([10, 250, 60]),
    ));
    let mut buf = Cursor::new(Vec::new());
    image.write_to(&mut buf, image::ImageFormat::Jpeg).unwrap();
    buf.into_inner()
}

fn webp_bytes() -> Vec<u8> {
    let image = image::RgbaImage::from_pixel(40, 30, image::Rgba([7, 80, 160, 255]));
    let (width, height) = (image.width(), image.height());
    let raw = image.into_raw();
    webp::Encoder::from_rgba(&raw, width, height)
        .encode_lossless()
        .to_vec()
}

#[test]
fn it_converts_png_thumbnails_for_png() {
    write_thumbnail(SourceFormat::Png, TargetFormat::Png).unwrap();

    for filter in [
        FilterType::Nearest,
        FilterType::Triangle,
        FilterType::CatmullRom,
        FilterType::Gaussian,
        FilterType::Lanczos3,
    ] {
        write_thumbnail_samplefilter(SourceFormat::Png, TargetFormat::Png, filter).unwrap();
    }
}

#[test]
fn it_converts_jpeg_thumbnails_for_png() {
    write_thumbnail(SourceFormat::Png, TargetFormat::Jpeg).unwrap();

    for filter in [
        FilterType::Nearest,
        FilterType::Triangle,
        FilterType::CatmullRom,
        FilterType::Gaussian,
        FilterType::Lanczos3,
    ] {
        write_thumbnail_samplefilter(SourceFormat::Png, TargetFormat::Jpeg, filter).unwrap();
    }
}

#[test]
fn it_converts_png_thumbnails_for_jpeg() {
    write_thumbnail(SourceFormat::Jpeg, TargetFormat::Png).unwrap();

    for filter in [
        FilterType::Nearest,
        FilterType::Triangle,
        FilterType::CatmullRom,
        FilterType::Gaussian,
        FilterType::Lanczos3,
    ] {
        write_thumbnail_samplefilter(SourceFormat::Jpeg, TargetFormat::Png, filter).unwrap();
    }
}

#[test]
fn it_converts_jpeg_thumbnails_for_jpeg() {
    write_thumbnail(SourceFormat::Jpeg, TargetFormat::Jpeg).unwrap();

    for filter in [
        FilterType::Nearest,
        FilterType::Triangle,
        FilterType::CatmullRom,
        FilterType::Gaussian,
        FilterType::Lanczos3,
    ] {
        write_thumbnail_samplefilter(SourceFormat::Jpeg, TargetFormat::Jpeg, filter).unwrap();
    }
}

#[test]
fn it_converts_png_thumbnails_for_webp() {
    write_thumbnail(SourceFormat::Webp, TargetFormat::Png).unwrap();

    for filter in [
        FilterType::Nearest,
        FilterType::Triangle,
        FilterType::CatmullRom,
        FilterType::Gaussian,
        FilterType::Lanczos3,
    ] {
        write_thumbnail_samplefilter(SourceFormat::Webp, TargetFormat::Png, filter).unwrap();
    }
}

#[test]
fn it_converts_jpeg_thumbnails_for_webp() {
    write_thumbnail(SourceFormat::Webp, TargetFormat::Jpeg).unwrap();

    for filter in [
        FilterType::Nearest,
        FilterType::Triangle,
        FilterType::CatmullRom,
        FilterType::Gaussian,
        FilterType::Lanczos3,
    ] {
        write_thumbnail_samplefilter(SourceFormat::Webp, TargetFormat::Jpeg, filter).unwrap();
    }
}

fn write_thumbnail(
    source_format: SourceFormat,
    target_format: TargetFormat,
) -> ThumbResult<Vec<u8>> {
    let sizes = vec![ThumbnailSize::Medium];
    let thumb = match source_format {
        SourceFormat::Png => create_thumbnails(&png_bytes(), MediaType::png(), &sizes).unwrap(),
        SourceFormat::Jpeg => create_thumbnails(&jpg_bytes(), MediaType::jpeg(), &sizes).unwrap(),
        SourceFormat::Webp => create_thumbnails(&webp_bytes(), MediaType::webp(), &sizes).unwrap(),
    }
    .pop()
    .unwrap();

    match target_format {
        TargetFormat::Png => thumb.write_png(),
        TargetFormat::Jpeg => thumb.write_jpeg(8),
    }
}

fn write_thumbnail_samplefilter(
    source_format: SourceFormat,
    target_format: TargetFormat,
    filter: FilterType,
) -> ThumbResult<Vec<u8>> {
    let sizes = vec![ThumbnailSize::Medium];
    let thumb = match source_format {
        SourceFormat::Png => {
            create_thumbnails_samplefilter(&png_bytes(), MediaType::png(), &sizes, filter).unwrap()
        }
        SourceFormat::Jpeg => {
            create_thumbnails_samplefilter(&jpg_bytes(), MediaType::jpeg(), &sizes, filter)
                .unwrap()
        }
        SourceFormat::Webp => {
            create_thumbnails_samplefilter(&webp_bytes(), MediaType::webp(), &sizes, filter)
                .unwrap()
        }
    }
    .pop()
    .unwrap();

    match target_format {
        TargetFormat::Png => thumb.write_png(),
        TargetFormat::Jpeg => thumb.write_jpeg(8),
    }
}
