//! Cursor images: PNG files turned into the pixel bytes that `wl_shm` shows.
use vstd::prelude::*;

verus! {

/// The PNG colour type code of red, green and blue samples.
pub const COLOR_RGB: u8 = 2;

/// The PNG colour type code of red, green, blue and alpha samples.
pub const COLOR_RGBA: u8 = 6;

/// The only supported number of bits per sample.
pub const DEPTH_EIGHT: u8 = 8;

/// What the header of a PNG file says of its image.
#[derive(Clone, Copy, Debug, PartialEq, Eq, Structural)]
pub struct PngInfo {
    /// Width in pixels.
    pub width: u32,
    /// Height in pixels.
    pub height: u32,
    /// The colour type code of the PNG format.
    pub color_type: u8,
    /// Bits per sample.
    pub bit_depth: u8,
    /// Bytes of a buffer that holds one decoded frame.
    pub frame_size: usize,
}

/// Why the bytes of a decoded frame make no cursor image.
#[derive(Clone, Copy, Debug, PartialEq, Eq, Structural)]
pub enum FrameError {
    /// The number of pixels does not fit in 32 bits, or four bytes for each of
    /// them do not fit in memory.
    PixelCount,
    /// The colour type with this code is neither RGB nor RGBA.
    ColorType(u8),
    /// The frame holds fewer bytes than its pixels need.
    ShortFrame,
}

/// Why a PNG file makes no cursor image.
#[derive(Debug)]
pub enum LoadError {
    /// The file has no readable header.
    Info(png::DecodingError),
    /// The image has this many bits per sample, not eight.
    BitDepth(u8),
    /// The image data cannot be decoded.
    Frame(png::DecodingError),
    /// The decoded frame cannot be converted.
    Pixels(FrameError),
}

/// The error of the `png` crate.
#[verifier::external_type_specification]
#[verifier::external_body]
pub struct ExDecodingError(png::DecodingError);

/// What `png::Decoder::read_info` reads from the bytes of a file: the header of
/// the image, or nothing where it fails. An image whose size exceeds `word`, the
/// largest `usize` of the machine, is a failure too.
pub uninterp spec fn png_info(data: Seq<u8>, word: usize) -> Option<PngInfo>;

/// What `png::Reader::next_frame` makes of the first frame of a file, on a
/// machine whose largest `usize` is `word`: the contents of the buffer afterwards
/// and the number of leading bytes that are the frame, or nothing where it fails.
pub uninterp spec fn png_frame(data: Seq<u8>, buf: Seq<u8>, word: usize) -> Option<
    (Seq<u8>, usize),
>;

/// Calls `png::Decoder::read_info` on `data`, with the decoder's default limits
/// and transformations.
///
/// Trusted: the call succeeds exactly where `png_info` has a value, and the
/// dimensions, the colour type, the bit depth and `output_buffer_size` of the
/// reader are then that value.
#[verifier::external_body]
fn read_info(data: &[u8]) -> (r: Result<PngInfo, png::DecodingError>)
    requires
        usize::MAX > u32::MAX,
    ensures
        match r {
            Ok(info) => png_info(data@, usize::MAX) == Some(info),
            Err(_) => png_info(data@, usize::MAX) is None,
        },
{
    let reader = png::Decoder::new(std::io::Cursor::new(data)).read_info()?;
    let info = reader.info();
    Ok(PngInfo {
        width: info.width,
        height: info.height,
        color_type: info.color_type as u8,
        bit_depth: info.bit_depth as u8,
        frame_size: reader.output_buffer_size(),
    })
}

/// Calls `png::Reader::next_frame` on a fresh reader of `data`.
///
/// Trusted: the call succeeds exactly where `png_frame` has a value, which is then
/// the buffer's new contents and the frame's `buffer_size`; the buffer keeps its
/// length, and the frame fits in it.
#[verifier::external_body]
fn next_frame(data: &[u8], buf: &mut Vec<u8>) -> (r: Result<usize, png::DecodingError>)
    requires
        usize::MAX > u32::MAX,
    ensures
        final(buf)@.len() == old(buf)@.len(),
        match r {
            Ok(n) => {
                &&& n <= final(buf)@.len()
                &&& png_frame(data@, old(buf)@, usize::MAX) == Some((final(buf)@, n))
            },
            Err(_) => png_frame(data@, old(buf)@, usize::MAX) is None,
        },
{
    let mut reader = png::Decoder::new(std::io::Cursor::new(data)).read_info()?;
    let frame = reader.next_frame(buf)?;
    Ok(frame.buffer_size())
}

/// The number of samples of `pixels` pixels of a supported colour type.
pub open spec fn samples(color_type: u8, pixels: int) -> int {
    if color_type == COLOR_RGBA {
        4 * pixels
    } else {
        3 * pixels
    }
}

/// The byte of channel `c` of pixel `p` as `wl_shm` reads ARGB8888: blue, green,
/// red, alpha. An image without alpha is opaque.
pub open spec fn argb_byte(color_type: u8, img: Seq<u8>, p: int, c: int) -> u8 {
    let s = samples(color_type, p);
    if c == 0 {
        img[s + 2]
    } else if c == 1 {
        img[s + 1]
    } else if c == 2 {
        img[s]
    } else if color_type == COLOR_RGBA {
        img[s + 3]
    } else {
        0xFFu8
    }
}

/// The ARGB8888 bytes of the first `pixels` pixels of `img`.
pub open spec fn argb8888(color_type: u8, img: Seq<u8>, pixels: nat) -> Seq<u8> {
    Seq::new(4 * pixels, |k: int| argb_byte(color_type, img, k / 4, k % 4))
}

/// What becomes of the bytes `img` of a decoded frame.
pub open spec fn converted(info: PngInfo, img: Seq<u8>) -> Result<Seq<u8>, FrameError> {
    let pixels = info.width * info.height;
    if pixels > u32::MAX || 4 * pixels > usize::MAX {
        Err(FrameError::PixelCount)
    } else if info.color_type != COLOR_RGBA && info.color_type != COLOR_RGB {
        Err(FrameError::ColorType(info.color_type))
    } else if img.len() < samples(info.color_type, pixels) {
        Err(FrameError::ShortFrame)
    } else {
        Ok(argb8888(info.color_type, img, pixels as nat))
    }
}

/// Writes the pixels of `img` in ARGB8888 order.
fn swizzle(color_type: u8, img: &[u8], pixels: usize) -> (argb: Vec<u8>)
    requires
        color_type == COLOR_RGBA || color_type == COLOR_RGB,
        samples(color_type, pixels as int) <= img@.len(),
        4 * pixels <= usize::MAX,
    ensures
        argb@ == argb8888(color_type, img@, pixels as nat),
{
    let has_alpha = color_type == COLOR_RGBA;
    let step: usize = if has_alpha { 4 } else { 3 };
    let len: usize = img.len();
    let mut argb: Vec<u8> = Vec::new();
    let mut i: usize = 0;
    let mut s: usize = 0;
    while i < pixels
        invariant
            i <= pixels,
            s == samples(color_type, i as int),
            step == samples(color_type, 1),
            has_alpha == (color_type == COLOR_RGBA),
            samples(color_type, pixels as int) <= len == img@.len(),
            argb@ == argb8888(color_type, img@, i as nat),
        decreases pixels - i,
    {
        let ghost before = argb@;
        argb.push(img[s + 2]);
        argb.push(img[s + 1]);
        argb.push(img[s]);
        argb.push(if has_alpha { img[s + 3] } else { 0xFF });
        proof {
            let after = argb8888(color_type, img@, (i + 1) as nat);
            assert forall|k: int| 0 <= k < 4 * (i + 1) implies argb@[k] == after[k] by {
                if k < 4 * i {
                    assert(argb@[k] == before[k]);
                } else {
                    assert(k / 4 == i);
                }
            }
            assert(argb@ =~= after);
        }
        i += 1;
        s += step;
    }
    argb
}

/// Turns the bytes `img` of a decoded frame of an 8-bit image into ARGB8888 bytes.
pub fn convert_frame(info: &PngInfo, img: &[u8]) -> (r: Result<Vec<u8>, FrameError>)
    ensures
        match r {
            Ok(argb) => converted(*info, img@) == Ok::<Seq<u8>, FrameError>(argb@),
            Err(e) => converted(*info, img@) == Err::<Seq<u8>, FrameError>(e),
        },
{
    proof {
        assert(0 <= info.width * info.height <= 0xFFFF_FFFF * 0xFFFF_FFFF) by (nonlinear_arith)
            requires
                0 <= info.width <= 0xFFFF_FFFF,
                0 <= info.height <= 0xFFFF_FFFF,
        ;
    }
    let pixels: u64 = info.width as u64 * info.height as u64;
    if pixels > u32::MAX as u64 {
        return Err(FrameError::PixelCount);
    }
    if pixels > (usize::MAX / 4) as u64 {
        return Err(FrameError::PixelCount);
    }
    if info.color_type != COLOR_RGBA && info.color_type != COLOR_RGB {
        return Err(FrameError::ColorType(info.color_type));
    }
    let pixels: usize = pixels as usize;
    let needed: usize = if info.color_type == COLOR_RGBA { 4 * pixels } else { 3 * pixels };
    if img.len() < needed {
        return Err(FrameError::ShortFrame);
    }
    Ok(swizzle(info.color_type, img, pixels))
}

/// A buffer of `n` zero bytes.
pub open spec fn zeros(n: usize) -> Seq<u8> {
    Seq::new(n as nat, |i: int| 0u8)
}

/// What loading the file `data` comes to: each way to fail, or the image.
pub open spec fn loads(data: Seq<u8>, r: Result<(u32, u32, Vec<u8>), LoadError>) -> bool {
    match png_info(data, usize::MAX) {
        None => r matches Err(LoadError::Info(_)),
        Some(info) => if info.bit_depth != DEPTH_EIGHT {
            r matches Err(LoadError::BitDepth(d)) && d == info.bit_depth
        } else {
            match png_frame(data, zeros(info.frame_size), usize::MAX) {
                None => r matches Err(LoadError::Frame(_)),
                Some((buf, n)) => match converted(info, buf.take(n as int)) {
                    Ok(argb) => r matches Ok((w, h, px)) && w == info.width && h == info.height
                        && px@ == argb,
                    Err(e) => r matches Err(LoadError::Pixels(f)) && f == e,
                },
            }
        },
    }
}

/// Decodes a PNG (RGB or RGBA, 8-bit) into its width, its height and raw ARGB8888
/// bytes as expected by `wl_shm`.
///
/// The decoder counts frames and the bits of interlaced images in a `usize`, for which
/// 32 bits do not always suffice.
pub fn load_png_as_argb8888(data: &[u8]) -> (r: Result<(u32, u32, Vec<u8>), LoadError>)
    requires
        usize::MAX > u32::MAX,
    ensures
        loads(data@, r),
{
    let info = match read_info(data) {
        Ok(info) => info,
        Err(e) => return Err(LoadError::Info(e)),
    };
    if info.bit_depth != DEPTH_EIGHT {
        return Err(LoadError::BitDepth(info.bit_depth));
    }
    let mut img_buf: Vec<u8> = vec![0u8; info.frame_size];
    assert(img_buf@ =~= zeros(info.frame_size));
    let n: usize = match next_frame(data, &mut img_buf) {
        Ok(n) => n,
        Err(e) => return Err(LoadError::Frame(e)),
    };
    let img = vstd::slice::slice_subrange(img_buf.as_slice(), 0, n);
    assert(img@ =~= img_buf@.take(n as int));
    match convert_frame(&info, img) {
        Ok(argb) => Ok((info.width, info.height, argb)),
        Err(e) => Err(LoadError::Pixels(e)),
    }
}

/// The side of the square cursor surfaces: the width that both images have, where
/// they have the same dimensions.
pub fn shared_cursor_size(a: (u32, u32), b: (u32, u32)) -> (size: Option<u32>)
    ensures
        size == (if a == b { Some(a.0) } else { None }),
{
    if a.0 == b.0 && a.1 == b.1 {
        Some(a.0)
    } else {
        None
    }
}

/// The first `pixels` pixels of the RGB image `img` with an opaque alpha sample
/// added to each.
pub open spec fn opaque_rgba(img: Seq<u8>, pixels: nat) -> Seq<u8> {
    Seq::new(4 * pixels, |k: int| if k % 4 == 3 { 0xFFu8 } else { img[3 * (k / 4) + k % 4] })
}

/// An RGB image shows as the RGBA image that differs from it only in saying that
/// every pixel is opaque.
pub proof fn law_rgb_is_opaque_rgba(img: Seq<u8>, pixels: nat)
    requires
        3 * pixels <= img.len(),
    ensures
        argb8888(COLOR_RGB, img, pixels) == argb8888(COLOR_RGBA, opaque_rgba(img, pixels), pixels),
{
    let rgba = opaque_rgba(img, pixels);
    let a = argb8888(COLOR_RGB, img, pixels);
    let b = argb8888(COLOR_RGBA, rgba, pixels);
    assert forall|k: int| 0 <= k < 4 * pixels implies #[trigger] a[k] == b[k] by {
        let s = (k / 4) * 4;
        assert(s / 4 == k / 4 && (s + 1) / 4 == k / 4 && (s + 2) / 4 == k / 4 && (s + 3) / 4
            == k / 4);
        assert(s % 4 == 0 && (s + 1) % 4 == 1 && (s + 2) % 4 == 2 && (s + 3) % 4 == 3);
    }
    assert(a =~= b);
}

/// The conversion of an RGBA image loses nothing: done twice it gives the image back.
pub proof fn law_rgba_conversion_undoes_itself(img: Seq<u8>, pixels: nat)
    requires
        4 * pixels <= img.len(),
    ensures
        argb8888(COLOR_RGBA, argb8888(COLOR_RGBA, img, pixels), pixels) == img.take(
            4 * pixels as int,
        ),
{
    let argb = argb8888(COLOR_RGBA, img, pixels);
    let back = argb8888(COLOR_RGBA, argb, pixels);
    assert forall|k: int| 0 <= k < 4 * pixels implies #[trigger] back[k] == img[k] by {
        let s = (k / 4) * 4;
        assert(s / 4 == k / 4 && (s + 1) / 4 == k / 4 && (s + 2) / 4 == k / 4 && (s + 3) / 4
            == k / 4);
        assert(s % 4 == 0 && (s + 1) % 4 == 1 && (s + 2) % 4 == 2 && (s + 3) % 4 == 3);
    }
    assert(back =~= img.take(4 * pixels as int));
}

/// A loaded image has four bytes for each of its pixels.
pub proof fn law_loaded_image_fills_its_dimensions(
    data: Seq<u8>,
    r: Result<(u32, u32, Vec<u8>), LoadError>,
)
    requires
        loads(data, r),
        r is Ok,
    ensures
        r->Ok_0.2@.len() == 4 * (r->Ok_0.0 * r->Ok_0.1),
{
    let info = png_info(data, usize::MAX)->0;
    assert(info.width * info.height >= 0) by (nonlinear_arith)
        requires
            info.width >= 0,
            info.height >= 0,
    ;
}

/// Each pixel keeps its colour: its blue, green, red and alpha bytes stand in this order
/// where its samples stood in the opposite order of colours, and a pixel without alpha
/// is opaque.
pub proof fn law_pixels_keep_their_colours(img: Seq<u8>, pixels: nat, p: int)
    requires
        0 <= p < pixels,
    ensures
        ({
            let rgba = argb8888(6, img, pixels);
            let rgb = argb8888(2, img, pixels);
            &&& rgba.len() == 4 * pixels
            &&& rgba[4 * p] == img[4 * p + 2]
            &&& rgba[4 * p + 1] == img[4 * p + 1]
            &&& rgba[4 * p + 2] == img[4 * p]
            &&& rgba[4 * p + 3] == img[4 * p + 3]
            &&& rgb.len() == 4 * pixels
            &&& rgb[4 * p] == img[3 * p + 2]
            &&& rgb[4 * p + 1] == img[3 * p + 1]
            &&& rgb[4 * p + 2] == img[3 * p]
            &&& rgb[4 * p + 3] == 255
        }),
{
    assert((4 * p) / 4 == p && (4 * p + 1) / 4 == p && (4 * p + 2) / 4 == p && (4 * p + 3) / 4
        == p);
    assert((4 * p) % 4 == 0 && (4 * p + 1) % 4 == 1 && (4 * p + 2) % 4 == 2 && (4 * p + 3) % 4
        == 3);
}

/// A frame is converted exactly where its pixels can be counted, its colour type is RGB
/// or RGBA, and it has a sample for each channel of each pixel. Of the ways to fail the
/// first in this order is told.
pub proof fn law_frames_convert_where_they_can(info: PngInfo, img: Seq<u8>)
    ensures
        ({
            let pixels = info.width * info.height;
            let countable = pixels <= 0xFFFF_FFFF && 4 * pixels <= usize::MAX;
            let known = info.color_type == 2 || info.color_type == 6;
            let needed = if info.color_type == 6 { 4 * pixels } else { 3 * pixels };
            match converted(info, img) {
                Ok(argb) => countable && known && img.len() >= needed && argb.len() == 4 * pixels,
                Err(FrameError::PixelCount) => !countable,
                Err(FrameError::ColorType(code)) => countable && !known && code == info.color_type,
                Err(FrameError::ShortFrame) => countable && known && img.len() < needed,
            }
        }),
{
    let pixels = info.width * info.height;
    assert(pixels >= 0) by (nonlinear_arith)
        requires
            pixels == info.width * info.height,
            info.width >= 0,
            info.height >= 0,
    ;
}

/// A converted frame shows each pixel in the colour of its samples.
pub proof fn law_converted_frames_keep_their_colours(info: PngInfo, img: Seq<u8>, p: int)
    requires
        converted(info, img) is Ok,
        0 <= p < info.width * info.height,
    ensures
        ({
            let argb = converted(info, img)->Ok_0;
            let s = if info.color_type == 6 { 4 * p } else { 3 * p };
            &&& argb[4 * p] == img[s + 2]
            &&& argb[4 * p + 1] == img[s + 1]
            &&& argb[4 * p + 2] == img[s]
            &&& argb[4 * p + 3] == (if info.color_type == 6 { img[s + 3] } else { 255u8 })
        }),
{
    law_pixels_keep_their_colours(img, (info.width * info.height) as nat, p);
}

/// A file loads exactly where it has a readable header of an image with eight bits per
/// sample, its frame can be decoded into a buffer of zeros, and the bytes of that frame
/// can be converted; the image then has the dimensions of the header. Each way to fail
/// is told apart.
pub proof fn law_files_load_where_they_can(
    data: Seq<u8>,
    r: Result<(u32, u32, Vec<u8>), LoadError>,
)
    requires
        loads(data, r),
    ensures
        ({
            let header = png_info(data, usize::MAX);
            let info = header->0;
            let buf = Seq::new(info.frame_size as nat, |i: int| 0u8);
            let frame = png_frame(data, buf, usize::MAX);
            let bytes = (frame->0).0.take((frame->0).1 as int);
            match r {
                Err(LoadError::Info(_)) => header is None,
                Err(LoadError::BitDepth(depth)) => header is Some && depth == info.bit_depth
                    && depth != 8,
                Err(LoadError::Frame(_)) => header is Some && info.bit_depth == 8 && frame is None,
                Err(LoadError::Pixels(e)) => header is Some && info.bit_depth == 8
                    && frame is Some && converted(info, bytes) == Err::<Seq<u8>, FrameError>(e),
                Ok((width, height, argb)) => {
                    &&& header is Some && info.bit_depth == 8 && frame is Some
                    &&& width == info.width && height == info.height
                    &&& converted(info, bytes) == Ok::<Seq<u8>, FrameError>(argb@)
                },
            }
        }),
{
    if let Some(info) = png_info(data, usize::MAX) {
        assert(zeros(info.frame_size) =~= Seq::new(info.frame_size as nat, |i: int| 0u8));
    }
}

} // verus!
