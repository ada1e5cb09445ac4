//! Cursor images and the shared memory that they lie in.
use dual_cursor::image::{
    convert_frame, load_png_as_argb8888, shared_cursor_size, FrameError, LoadError, PngInfo,
    COLOR_RGB, COLOR_RGBA,
};
use dual_cursor::shm::{shm_layout, ShmLayout};

fn encode(
    width: u32,
    height: u32,
    color: png::ColorType,
    depth: png::BitDepth,
    bytes: &[u8],
) -> Vec<u8> {
    let mut file = Vec::new();
    let mut encoder = png::Encoder::new(&mut file, width, height);
    encoder.set_color(color);
    encoder.set_depth(depth);
    let mut writer = encoder.write_header().unwrap();
    writer.write_image_data(bytes).unwrap();
    writer.finish().unwrap();
    file
}

fn info(width: u32, height: u32, color_type: u8) -> PngInfo {
    PngInfo { width, height, color_type, bit_depth: 8, frame_size: 0 }
}

#[test]
fn rgba_is_loaded_as_blue_green_red_alpha() {
    let file = encode(
        2,
        1,
        png::ColorType::Rgba,
        png::BitDepth::Eight,
        &[1, 2, 3, 4, 50, 60, 70, 80],
    );
    let (w, h, px) = load_png_as_argb8888(&file).unwrap();
    assert_eq!((w, h), (2, 1));
    assert_eq!(px, vec![3, 2, 1, 4, 70, 60, 50, 80]);
}

#[test]
fn rgb_is_loaded_opaque() {
    let file =
        encode(1, 2, png::ColorType::Rgb, png::BitDepth::Eight, &[10, 20, 30, 40, 50, 60]);
    let (w, h, px) = load_png_as_argb8888(&file).unwrap();
    assert_eq!((w, h), (1, 2));
    assert_eq!(px, vec![30, 20, 10, 0xFF, 60, 50, 40, 0xFF]);
}

#[test]
fn a_larger_image_keeps_every_pixel() {
    let side = 32u32;
    let mut bytes = Vec::new();
    for i in 0..side * side {
        bytes.push((i % 251) as u8);
        bytes.push((i % 241) as u8);
        bytes.push((i % 239) as u8);
        bytes.push((i % 233) as u8);
    }
    let file = encode(side, side, png::ColorType::Rgba, png::BitDepth::Eight, &bytes);
    let (w, h, px) = load_png_as_argb8888(&file).unwrap();
    assert_eq!((w, h), (side, side));
    assert_eq!(px.len(), 4 * 32 * 32);
    for i in 0..(side * side) as usize {
        assert_eq!(px[4 * i], bytes[4 * i + 2]);
        assert_eq!(px[4 * i + 1], bytes[4 * i + 1]);
        assert_eq!(px[4 * i + 2], bytes[4 * i]);
        assert_eq!(px[4 * i + 3], bytes[4 * i + 3]);
    }
}

#[test]
fn bytes_that_are_no_png_are_refused() {
    assert!(matches!(load_png_as_argb8888(&[]), Err(LoadError::Info(_))));
    assert!(matches!(load_png_as_argb8888(b"not a picture at all"), Err(LoadError::Info(_))));
}

#[test]
fn sixteen_bit_images_are_refused() {
    let file = encode(1, 1, png::ColorType::Rgb, png::BitDepth::Sixteen, &[0, 1, 2, 3, 4, 5]);
    assert!(matches!(load_png_as_argb8888(&file), Err(LoadError::BitDepth(16))));
}

#[test]
fn one_bit_images_are_refused_for_their_depth() {
    let file = encode(1, 1, png::ColorType::Grayscale, png::BitDepth::One, &[0x80]);
    assert!(matches!(load_png_as_argb8888(&file), Err(LoadError::BitDepth(1))));
}

#[test]
fn grey_images_are_refused() {
    let file = encode(1, 1, png::ColorType::Grayscale, png::BitDepth::Eight, &[7]);
    assert!(matches!(
        load_png_as_argb8888(&file),
        Err(LoadError::Pixels(FrameError::ColorType(0)))
    ));
    let file = encode(1, 1, png::ColorType::GrayscaleAlpha, png::BitDepth::Eight, &[7, 8]);
    assert!(matches!(
        load_png_as_argb8888(&file),
        Err(LoadError::Pixels(FrameError::ColorType(4)))
    ));
}

#[test]
fn a_truncated_file_has_no_frame() {
    let mut bytes = Vec::new();
    for i in 0..64 * 64 * 4u32 {
        bytes.push((i.wrapping_mul(2654435761) >> 24) as u8);
    }
    let mut file = encode(64, 64, png::ColorType::Rgba, png::BitDepth::Eight, &bytes);
    file.truncate(200);
    assert!(matches!(load_png_as_argb8888(&file), Err(LoadError::Frame(_))));
}

#[test]
fn a_frame_smaller_than_the_image_is_refused() {
    let mut file = Vec::new();
    let mut encoder = png::Encoder::new(&mut file, 2, 2);
    encoder.set_color(png::ColorType::Rgba);
    encoder.set_depth(png::BitDepth::Eight);
    encoder.set_animated(1, 0).unwrap();
    let mut writer = encoder.write_header().unwrap();
    writer.set_frame_dimension(1, 1).unwrap();
    writer.write_image_data(&[1, 2, 3, 4]).unwrap();
    writer.finish().unwrap();
    assert!(matches!(
        load_png_as_argb8888(&file),
        Err(LoadError::Pixels(FrameError::ShortFrame))
    ));
}

#[test]
fn frames_are_converted_by_their_colour_type() {
    assert_eq!(convert_frame(&info(1, 1, COLOR_RGBA), &[1, 2, 3, 4]), Ok(vec![3, 2, 1, 4]));
    assert_eq!(convert_frame(&info(1, 1, COLOR_RGB), &[1, 2, 3]), Ok(vec![3, 2, 1, 255]));
    assert_eq!(convert_frame(&info(1, 1, 3), &[1, 2, 3]), Err(FrameError::ColorType(3)));
}

#[test]
fn bytes_behind_the_frame_are_ignored() {
    assert_eq!(
        convert_frame(&info(1, 1, COLOR_RGB), &[1, 2, 3, 9, 9, 9]),
        Ok(vec![3, 2, 1, 255])
    );
}

#[test]
fn frames_need_all_their_bytes() {
    assert_eq!(convert_frame(&info(2, 1, COLOR_RGB), &[1, 2, 3, 4, 5]), Err(FrameError::ShortFrame));
    assert_eq!(
        convert_frame(&info(1, 2, COLOR_RGBA), &[1, 2, 3, 4, 5, 6, 7]),
        Err(FrameError::ShortFrame)
    );
}

#[test]
fn too_many_pixels_are_refused_before_anything_else() {
    assert_eq!(convert_frame(&info(65536, 65536, 0), &[]), Err(FrameError::PixelCount));
    assert_eq!(convert_frame(&info(65536, 65535, 0), &[]), Err(FrameError::ColorType(0)));
}

#[test]
fn rgb_shows_as_opaque_rgba() {
    let rgb = convert_frame(&info(2, 1, COLOR_RGB), &[1, 2, 3, 4, 5, 6]);
    let rgba = convert_frame(&info(2, 1, COLOR_RGBA), &[1, 2, 3, 255, 4, 5, 6, 255]);
    assert_eq!(rgb, rgba);
}

#[test]
fn rgba_conversion_undoes_itself() {
    let img = vec![9, 8, 7, 6, 5, 4, 3, 2];
    let once = convert_frame(&info(2, 1, COLOR_RGBA), &img).unwrap();
    assert_ne!(once, img);
    assert_eq!(convert_frame(&info(2, 1, COLOR_RGBA), &once), Ok(img));
}

#[test]
fn both_images_must_have_the_same_dimensions() {
    assert_eq!(shared_cursor_size((32, 32), (32, 32)), Some(32));
    assert_eq!(shared_cursor_size((24, 32), (24, 32)), Some(24));
    assert_eq!(shared_cursor_size((32, 32), (32, 31)), None);
    assert_eq!(shared_cursor_size((32, 32), (31, 32)), None);
}

#[test]
fn a_square_image_fills_its_pool() {
    let l = shm_layout(32, 32, 4096).unwrap();
    assert_eq!(l, ShmLayout { pool_size: 4096, offset: 0, width: 32, height: 32, stride: 128 });
    assert_eq!(l.offset + l.stride * l.height, l.pool_size);
}

#[test]
fn an_image_that_is_not_square_fills_its_pool() {
    let l = shm_layout(24, 32, 3072).unwrap();
    assert_eq!(l, ShmLayout { pool_size: 3072, offset: 0, width: 24, height: 32, stride: 96 });
    assert_eq!(l.offset + l.stride * l.height, l.pool_size);
    let l = shm_layout(5, 0, 0).unwrap();
    assert_eq!(l, ShmLayout { pool_size: 0, offset: 0, width: 5, height: 0, stride: 20 });
    assert_eq!(l.offset + l.stride * l.height, l.pool_size);
}

#[test]
fn lines_that_are_too_long_have_no_layout() {
    assert_eq!(shm_layout(0x4000_0000, 1, 0), None);
    let l = shm_layout(0x3FFF_FFFF, 1, 0).unwrap();
    assert_eq!(l.stride, -4);
    assert_eq!(l.width, 0x3FFF_FFFF);
}
