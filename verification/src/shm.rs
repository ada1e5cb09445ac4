//! The shared memory that holds the pixels of a cursor.
use vstd::prelude::*;

verus! {

/// The numbers with which a `wl_shm` pool and the buffer in it are created.
#[derive(Clone, Copy, Debug, PartialEq, Eq, Structural)]
pub struct ShmLayout {
    /// Bytes of the pool.
    pub pool_size: i32,
    /// Where the buffer starts in the pool.
    pub offset: i32,
    /// Width of the buffer in pixels.
    pub width: i32,
    /// Height of the buffer in pixels.
    pub height: i32,
    /// Bytes from one line of the buffer to the next.
    pub stride: i32,
}

/// The pool and the buffer for a `width` by `height` image of `len` bytes, each
/// number as the protocol's 32 bits hold it.
pub open spec fn layout(width: u32, height: u32, len: usize) -> ShmLayout {
    ShmLayout {
        pool_size: len as i32,
        offset: 0,
        width: width as i32,
        height: height as i32,
        stride: ((4 * width) as u32) as i32,
    }
}

/// The pool and the buffer for a `width` by `height` ARGB8888 image of `len` bytes,
/// or nothing where the bytes of a line do not fit in 32 bits.
pub fn shm_layout(width: u32, height: u32, len: usize) -> (r: Option<ShmLayout>)
    ensures
        r == (if 4 * width <= u32::MAX {
            Some(layout(width, height, len))
        } else {
            None
        }),
{
    if width > u32::MAX / 4 {
        return None;
    }
    Some(
        ShmLayout {
            pool_size: len as i32,
            offset: 0,
            width: width as i32,
            height: height as i32,
            stride: (width * 4) as i32,
        },
    )
}

/// The buffer of an image is exactly its pool: line by line it covers all the bytes of
/// the image and no others. Where the image has any pixels, no number of its layout is
/// cut off.
pub proof fn law_image_fills_its_pool(width: u32, height: u32, len: usize)
    requires
        len == 4 * (width * height),
        len <= i32::MAX,
    ensures
        ({
            let l = layout(width, height, len);
            &&& l.pool_size == len
            &&& l.offset + l.stride * l.height == l.pool_size
        }),
        len > 0 ==> {
            let l = layout(width, height, len);
            &&& 4 * width <= u32::MAX
            &&& l.width == width
            &&& l.height == height
            &&& l.stride == 4 * l.width
        },
{
    let l = layout(width, height, len);
    if width == 0 || height == 0 {
        assert(width * height == 0) by (nonlinear_arith)
            requires
                width == 0 || height == 0,
        ;
        assert(l.stride == 0 || l.height == 0);
        assert(l.stride * l.height == 0) by (nonlinear_arith)
            requires
                l.stride == 0 || l.height == 0,
        ;
    } else {
        assert(width <= width * height && height <= width * height) by (nonlinear_arith)
            requires
                width >= 1,
                height >= 1,
        ;
        assert((4 * width) * height == 4 * (width * height)) by (nonlinear_arith);
    }
}

/// The buffer of a square image is exactly its pool, and no number of its layout is cut
/// off.
pub proof fn law_square_image_fills_its_pool(side: u32, len: usize)
    requires
        len == 4 * (side * side),
        len <= i32::MAX,
    ensures
        4 * side <= u32::MAX,
        ({
            let l = layout(side, side, len);
            &&& l.pool_size == len
            &&& l.offset + l.stride * l.height == l.pool_size
            &&& l.stride == 4 * l.width
            &&& l.width == l.height == side
        }),
{
    law_image_fills_its_pool(side, side, len);
    assert(side * side > 0 || side == 0) by (nonlinear_arith)
        requires
            side >= 0,
    ;
}

/// The buffer starts at the start of its pool, and each number that 32 bits hold is kept.
pub proof fn law_layouts_keep_their_numbers(width: u32, height: u32, len: usize)
    ensures
        ({
            let l = layout(width, height, len);
            &&& l.offset == 0
            &&& l.pool_size == len as i32
            &&& l.width == width as i32
            &&& l.height == height as i32
            &&& len <= 0x7FFF_FFFF ==> l.pool_size == len
            &&& width <= 0x7FFF_FFFF ==> l.width == width
            &&& height <= 0x7FFF_FFFF ==> l.height == height
            &&& width <= 0x1FFF_FFFF ==> l.stride == width + width + width + width
            &&& 0x2000_0000 <= width <= 0x3FFF_FFFF ==> l.stride == 4 * width - 0x1_0000_0000
        }),
{
    let stride: u32 = (4 * width) as u32;
    if 0x2000_0000 <= width <= 0x3FFF_FFFF {
        assert(stride as i32 == stride - 0x1_0000_0000) by (bit_vector)
            requires
                stride >= 0x8000_0000u32,
        ;
    }
}

} // verus!
