use imagebridge::dynimage::{
    dynamic_image_as_bytes, dynamic_image_brighten, dynamic_image_color, dynamic_image_crop_imm,
    dynamic_image_into_luma8, dynamic_image_into_rgb8,
    dynamic_image_dimensions, dynamic_image_fliph, dynamic_image_flipv, dynamic_image_get_pixel,
    dynamic_image_grayscale, dynamic_image_height, dynamic_image_in_bounds,
    dynamic_image_into_bytes, dynamic_image_invert, dynamic_image_load_from_memory,
    dynamic_image_pixels, dynamic_image_resize_exact, dynamic_image_rotate180,
    dynamic_image_rotate270, dynamic_image_rotate90, dynamic_image_thumbnail_exact, dynamic_image_width, ColorType,
    FilterType, SeekFrom, SeekType,
};
use imagebridge::errors::{
    get_image_error, io_error_type, limit_error_type, parameter_error_type,
    unsupported_error_type, ErrorType, IoKind, LimitKind, ParameterKind, UnsupportedKind,
};
use imagebridge::hooks::{WordFns, WordLog};
use imagebridge::item::{Item, PixelResult, Rgba};
use imagebridge::iter::iter_collect;

fn sample_image() -> image::DynamicImage {
    // A 2x2 image with a distinct color in every corner.
    let buf = image::RgbaImage::from_fn(2, 2, |x, y| match (x, y) {
        (0, 0) => image::Rgba([255, 0, 0, 255]),
        (1, 0) => image::Rgba([0, 255, 0, 255]),
        (0, 1) => image::Rgba([0, 0, 255, 255]),
        _ => image::Rgba([10, 20, 30, 40]),
    });
    image::DynamicImage::ImageRgba8(buf)
}

fn wide_image() -> image::DynamicImage {
    image::DynamicImage::ImageRgba8(image::RgbaImage::new(5, 3))
}

#[test]
fn width_height_dimensions() {
    let img = wide_image();
    assert_eq!(dynamic_image_width(&img), 5);
    assert_eq!(dynamic_image_height(&img), 3);
    let d = dynamic_image_dimensions(&img);
    assert_eq!(d.width, 5);
    assert_eq!(d.height, 3);
}

#[test]
fn in_bounds_matches_dimensions() {
    let img = wide_image();
    assert!(dynamic_image_in_bounds(&img, 4, 2));
    assert!(!dynamic_image_in_bounds(&img, 5, 0));
    assert!(!dynamic_image_in_bounds(&img, 0, 3));
}

#[test]
fn get_pixel_reads_channels() {
    let img = sample_image();
    assert_eq!(
        dynamic_image_get_pixel(&img, 0, 0),
        Rgba { r: 255, g: 0, b: 0, a: 255 }
    );
    assert_eq!(
        dynamic_image_get_pixel(&img, 1, 1),
        Rgba { r: 10, g: 20, b: 30, a: 40 }
    );
}

#[test]
fn pixels_walk_row_major() {
    let img = sample_image();
    let h = WordFns;
    let mut it = dynamic_image_pixels::<WordFns>(&img);
    let mut o = WordLog::new();
    let out = iter_collect(&mut it, &h, &mut o);
    assert_eq!(it.size, 4);
    assert_eq!(
        out[0],
        Item::Pixel(PixelResult { x: 0, y: 0, color: Rgba { r: 255, g: 0, b: 0, a: 255 } })
    );
    assert_eq!(
        out[1],
        Item::Pixel(PixelResult { x: 1, y: 0, color: Rgba { r: 0, g: 255, b: 0, a: 255 } })
    );
    assert_eq!(
        out[2],
        Item::Pixel(PixelResult { x: 0, y: 1, color: Rgba { r: 0, g: 0, b: 255, a: 255 } })
    );
    assert_eq!(
        out[3],
        Item::Pixel(PixelResult { x: 1, y: 1, color: Rgba { r: 10, g: 20, b: 30, a: 40 } })
    );
}

#[test]
fn load_from_memory_round_trip() {
    let img = sample_image();
    let mut buf: Vec<u8> = Vec::new();
    img.write_to(&mut std::io::Cursor::new(&mut buf), image::ImageFormat::Png)
        .unwrap();
    let loaded = dynamic_image_load_from_memory(&buf);
    assert_eq!(loaded.err, ErrorType::IMAGE_ERROR_NONE);
    let back = loaded.res.unwrap();
    assert_eq!(dynamic_image_width(&back), 2);
    assert_eq!(dynamic_image_height(&back), 2);
    assert_eq!(
        dynamic_image_get_pixel(&back, 0, 0),
        Rgba { r: 255, g: 0, b: 0, a: 255 }
    );
}

#[test]
fn load_from_memory_rejects_garbage() {
    let loaded = dynamic_image_load_from_memory(&[1, 2, 3, 4]);
    assert!(loaded.res.is_none());
    assert_ne!(loaded.err, ErrorType::IMAGE_ERROR_NONE);
}

#[test]
fn transforms_keep_or_swap_dimensions() {
    let img = wide_image();
    assert_eq!(dynamic_image_dimensions(&dynamic_image_brighten(&img, 10)).width, 5);
    assert_eq!(dynamic_image_dimensions(&dynamic_image_grayscale(&img)).height, 3);
    assert_eq!(dynamic_image_dimensions(&dynamic_image_fliph(&img)).width, 5);
    assert_eq!(dynamic_image_dimensions(&dynamic_image_flipv(&img)).height, 3);
    let r90 = dynamic_image_rotate90(&img);
    assert_eq!(dynamic_image_width(&r90), 3);
    assert_eq!(dynamic_image_height(&r90), 5);
    let r180 = dynamic_image_rotate180(&img);
    assert_eq!(dynamic_image_width(&r180), 5);
    let mut inv = wide_image();
    dynamic_image_invert(&mut inv);
    assert_eq!(dynamic_image_width(&inv), 5);
}

#[test]
fn fliph_mirrors_pixels() {
    let img = sample_image();
    let flipped = dynamic_image_fliph(&img);
    assert_eq!(
        dynamic_image_get_pixel(&flipped, 0, 0),
        Rgba { r: 0, g: 255, b: 0, a: 255 }
    );
    assert_eq!(
        dynamic_image_get_pixel(&flipped, 1, 0),
        Rgba { r: 255, g: 0, b: 0, a: 255 }
    );
}

#[test]
fn crop_clamps_to_the_image() {
    let img = wide_image();
    let c = dynamic_image_crop_imm(&img, 1, 1, 100, 100);
    assert_eq!(dynamic_image_width(&c), 4);
    assert_eq!(dynamic_image_height(&c), 2);
    let c2 = dynamic_image_crop_imm(&img, 9, 9, 1, 1);
    assert_eq!(dynamic_image_width(&c2), 0);
    assert_eq!(dynamic_image_height(&c2), 0);
}

#[test]
fn resize_exact_and_thumbnail_exact_hit_the_request() {
    let img = wide_image();
    let r = dynamic_image_resize_exact(&img, 7, 2, FilterType::FILTER_TYPE_NEAREST);
    assert_eq!(dynamic_image_width(&r), 7);
    assert_eq!(dynamic_image_height(&r), 2);
    let t = dynamic_image_thumbnail_exact(&img, 2, 1);
    assert_eq!(dynamic_image_width(&t), 2);
    assert_eq!(dynamic_image_height(&t), 1);
}

#[test]
fn color_reports_the_backing_layout() {
    let img = sample_image();
    assert_eq!(dynamic_image_color(&img), ColorType::COLOR_TYPE_RGBA8);
    let gray = image::DynamicImage::ImageLuma8(image::GrayImage::new(1, 1));
    assert_eq!(dynamic_image_color(&gray), ColorType::COLOR_TYPE_L8);
}

#[test]
fn bytes_expose_the_backing_buffer() {
    let img = sample_image();
    let bytes = dynamic_image_as_bytes(&img);
    assert_eq!(bytes.len(), 2 * 2 * 4);
    assert_eq!(&bytes[0..4], &[255, 0, 0, 255]);
    let owned = dynamic_image_into_bytes(img);
    assert_eq!(owned.len(), 16);
}

#[test]
fn parameter_error_codes() {
    assert_eq!(
        parameter_error_type(ParameterKind::DimensionMismatch),
        ErrorType::IMAGE_ERROR_PARAMETER_DIMENSION_MISMATCH
    );
    assert_eq!(
        parameter_error_type(ParameterKind::FailedAlready),
        ErrorType::IMAGE_ERROR_PARAMETER_FAILED_ALREADY
    );
    assert_eq!(
        parameter_error_type(ParameterKind::Generic),
        ErrorType::IMAGE_ERROR_PARAMETER_MALFORMED
    );
    assert_eq!(
        parameter_error_type(ParameterKind::NoMoreData),
        ErrorType::IMAGE_ERROR_PARAMETER_NO_MORE_DATA
    );
    assert_eq!(
        parameter_error_type(ParameterKind::Other),
        ErrorType::IMAGE_ERROR_UNKNOWN
    );
}

#[test]
fn limit_and_unsupported_error_codes() {
    assert_eq!(
        limit_error_type(LimitKind::DimensionError),
        ErrorType::IMAGE_ERROR_DIMENSION_ERROR
    );
    assert_eq!(
        limit_error_type(LimitKind::InsufficientMemory),
        ErrorType::IMAGE_ERROR_INSUFFICIENT_MEMORY
    );
    assert_eq!(
        limit_error_type(LimitKind::Unsupported),
        ErrorType::IMAGE_ERROR_LIMITS_UNSUPPORTED
    );
    assert_eq!(
        unsupported_error_type(UnsupportedKind::Color),
        ErrorType::IMAGE_ERROR_UNSUPPORTED_COLOR
    );
    assert_eq!(
        unsupported_error_type(UnsupportedKind::Format),
        ErrorType::IMAGE_ERROR_UNSUPPORTED_FORMAT
    );
    assert_eq!(
        unsupported_error_type(UnsupportedKind::GenericFeature),
        ErrorType::IMAGE_ERROR_UNSUPPORTED_OTHER
    );
}

#[test]
fn io_error_codes() {
    assert_eq!(io_error_type(IoKind::NotFound), ErrorType::IMAGE_ERROR_IO_NOT_FOUND);
    assert_eq!(
        io_error_type(IoKind::PermissionDenied),
        ErrorType::IMAGE_ERROR_IO_PERMISSION_DENIED
    );
    assert_eq!(
        io_error_type(IoKind::ConnectionRefused),
        ErrorType::IMAGE_ERROR_IO_CONNECTION_REFUSED
    );
    assert_eq!(io_error_type(IoKind::BrokenPipe), ErrorType::IMAGE_ERROR_IO_BROKEN_PIPE);
    assert_eq!(io_error_type(IoKind::TimedOut), ErrorType::IMAGE_ERROR_IO_TIMED_OUT);
    assert_eq!(
        io_error_type(IoKind::UnexpectedEof),
        ErrorType::IMAGE_ERROR_IO_UNEXPECTED_EOF
    );
    assert_eq!(io_error_type(IoKind::Other), ErrorType::IMAGE_ERROR_IO_OTHER);
    assert_eq!(io_error_type(IoKind::Unknown), ErrorType::IMAGE_ERROR_UNKNOWN);
}

#[test]
fn image_errors_map_to_codes() {
    let io = image::ImageError::IoError(std::io::Error::new(
        std::io::ErrorKind::NotFound,
        "missing",
    ));
    assert_eq!(get_image_error(io), ErrorType::IMAGE_ERROR_IO_NOT_FOUND);

    let param = image::ImageError::Parameter(image::error::ParameterError::from_kind(
        image::error::ParameterErrorKind::DimensionMismatch,
    ));
    assert_eq!(
        get_image_error(param),
        ErrorType::IMAGE_ERROR_PARAMETER_DIMENSION_MISMATCH
    );

    let limits = image::ImageError::Limits(image::error::LimitError::from_kind(
        image::error::LimitErrorKind::InsufficientMemory,
    ));
    assert_eq!(get_image_error(limits), ErrorType::IMAGE_ERROR_INSUFFICIENT_MEMORY);

    let unsupported = image::ImageError::Unsupported(
        image::error::UnsupportedError::from_format_and_kind(
            image::error::ImageFormatHint::Name("mystery".to_string()),
            image::error::UnsupportedErrorKind::Format(image::error::ImageFormatHint::Name(
                "mystery".to_string(),
            )),
        ),
    );
    assert_eq!(get_image_error(unsupported), ErrorType::IMAGE_ERROR_UNSUPPORTED_FORMAT);
}

#[test]
fn seek_from_constructors() {
    let s = SeekFrom::from_start(42);
    assert_eq!(s.ty, SeekType::SEEK_FROM_START);
    assert_eq!(s.start, 42);
    let e = SeekFrom::from_end(-3);
    assert_eq!(e.ty, SeekType::SEEK_FROM_END);
    assert_eq!(e.offset, -3);
    let c = SeekFrom::from_current(7);
    assert_eq!(c.ty, SeekType::SEEK_FROM_CURRENT);
    assert_eq!(c.offset, 7);
}

#[test]
fn conversions_keep_dimensions_and_change_layout() {
    let img = wide_image();
    let gray = dynamic_image_into_luma8(&img);
    assert_eq!(dynamic_image_width(&gray), 5);
    assert_eq!(dynamic_image_height(&gray), 3);
    assert_eq!(dynamic_image_color(&gray), ColorType::COLOR_TYPE_L8);
    let rgb = dynamic_image_into_rgb8(&img);
    assert_eq!(dynamic_image_color(&rgb), ColorType::COLOR_TYPE_RGB8);
    assert_eq!(dynamic_image_width(&rgb), 5);
}

#[test]
fn rotations_relocate_pixels() {
    let img = sample_image();
    // A quarter turn clockwise sends the bottom-left corner to the top-left.
    let r90 = dynamic_image_rotate90(&img);
    assert_eq!(
        dynamic_image_get_pixel(&r90, 0, 0),
        Rgba { r: 0, g: 0, b: 255, a: 255 }
    );
    assert_eq!(
        dynamic_image_get_pixel(&r90, 1, 0),
        Rgba { r: 255, g: 0, b: 0, a: 255 }
    );
    // A half turn sends the top-left corner to the bottom-right.
    let r180 = dynamic_image_rotate180(&img);
    assert_eq!(
        dynamic_image_get_pixel(&r180, 1, 1),
        Rgba { r: 255, g: 0, b: 0, a: 255 }
    );
    // Three quarter turns send the top-right corner to the top-left.
    let r270 = dynamic_image_rotate270(&img);
    assert_eq!(
        dynamic_image_get_pixel(&r270, 0, 0),
        Rgba { r: 0, g: 255, b: 0, a: 255 }
    );
}

#[test]
fn flipv_mirrors_pixels() {
    let img = sample_image();
    let flipped = dynamic_image_flipv(&img);
    assert_eq!(
        dynamic_image_get_pixel(&flipped, 0, 0),
        Rgba { r: 0, g: 0, b: 255, a: 255 }
    );
    assert_eq!(
        dynamic_image_get_pixel(&flipped, 1, 1),
        Rgba { r: 0, g: 255, b: 0, a: 255 }
    );
}
