//! Preparing imported images: bringing decoded PNG data to RGBA and
//! cutting an image down to the part that is not fully transparent.

use vstd::prelude::*;
use crate::SpriteType;
use crate::anim::{Frame, TextureFormat};
use crate::frame_info::{frame_type_at, has_layer, spec_has_layer, FrameType};

verus! {

/// Where the kept part of an image lay in the image, and its size.
#[derive(Copy, Clone, PartialEq, Eq, Debug, Structural)]
pub struct FrameCoords {
    pub x_offset: i32,
    pub y_offset: i32,
    pub width: u32,
    pub height: u32,
}

/// The kept part of an image, as RGBA rows, with its place.
#[derive(Clone, PartialEq, Eq, Debug)]
pub struct Bounded {
    pub data: Vec<u8>,
    pub coords: FrameCoords,
}

/// The alpha value of the pixel in column `x` of row `y`.
pub open spec fn alpha_at(data: Seq<u8>, width: int, x: int, y: int) -> u8 {
    data[(y * width + x) * 4 + 3]
}

/// Every pixel of row `y` is fully transparent.
pub open spec fn row_blank(data: Seq<u8>, width: int, y: int) -> bool {
    forall|x: int| 0 <= x < width ==> alpha_at(data, width, x, y) == 0
}

/// Every pixel of column `x` in the rows from `top` up to `bottom` is
/// fully transparent.
pub open spec fn column_blank(data: Seq<u8>, width: int, x: int, top: int, bottom: int) -> bool {
    forall|y: int| top <= y < bottom ==> alpha_at(data, width, x, y) == 0
}

/// Every pixel of the image is fully transparent.
pub open spec fn image_blank(data: Seq<u8>, width: int, height: int) -> bool {
    forall|y: int| 0 <= y < height ==> row_blank(data, width, y)
}

/// The rectangle of the columns from `left` up to `right` and the rows
/// from `top` up to `bottom` is the smallest that holds every pixel that is
/// not fully transparent: its outer rows and columns each hold such a
/// pixel, and outside it there is none.
pub open spec fn is_bounding_box(
    data: Seq<u8>,
    width: int,
    height: int,
    left: int,
    top: int,
    right: int,
    bottom: int,
) -> bool {
    &&& 0 <= left < right <= width
    &&& 0 <= top < bottom <= height
    &&& !row_blank(data, width, top)
    &&& !row_blank(data, width, bottom - 1)
    &&& forall|y: int| 0 <= y < top ==> row_blank(data, width, y)
    &&& forall|y: int| bottom <= y < height ==> row_blank(data, width, y)
    &&& !column_blank(data, width, left, top, bottom)
    &&& !column_blank(data, width, right - 1, top, bottom)
    &&& forall|x: int| 0 <= x < left ==> column_blank(data, width, x, top, bottom)
    &&& forall|x: int| right <= x < width ==> column_blank(data, width, x, top, bottom)
}

/// The bytes of the pixels from column `left` on, `w` wide, of the `rows`
/// rows from `top` on, row after row.
pub open spec fn cropped(data: Seq<u8>, width: int, left: int, top: int, w: int, rows: nat) -> Seq<
    u8,
>
    decreases rows,
{
    if rows == 0 {
        Seq::empty()
    } else {
        cropped(data, width, left, top, w, (rows - 1) as nat) + data.subrange(
            ((top + rows - 1) * width + left) * 4,
            ((top + rows - 1) * width + left + w) * 4,
        )
    }
}

proof fn lemma_pixel_in_bounds(width: int, height: int, x: int, y: int)
    requires
        0 <= x < width,
        0 <= y < height,
    ensures
        0 <= y * width,
        0 <= (y * width + x) * 4,
        (y * width + x) * 4 + 3 < 4 * width * height,
{
    assert(0 <= y * width) by (nonlinear_arith)
        requires
            0 <= y,
            0 <= width,
    ;
    assert((y + 1) * width <= height * width) by (nonlinear_arith)
        requires
            y + 1 <= height,
            0 <= width,
    ;
    assert((y + 1) * width == y * width + width) by (nonlinear_arith);
    assert(4 * width * height == 4 * (height * width)) by (nonlinear_arith);
}

proof fn lemma_span_in_bounds(width: int, height: int, x: int, w: int, y: int)
    requires
        0 <= x,
        0 <= w,
        x + w <= width,
        0 <= y < height,
    ensures
        0 <= (y * width + x) * 4 <= (y * width + x + w) * 4 <= 4 * width * height,
{
    assert(0 <= y * width) by (nonlinear_arith)
        requires
            0 <= y,
            0 <= width,
    ;
    assert((y + 1) * width <= height * width) by (nonlinear_arith)
        requires
            y + 1 <= height,
            0 <= width,
    ;
    assert((y + 1) * width == y * width + width) by (nonlinear_arith);
    assert(4 * width * height == 4 * (height * width)) by (nonlinear_arith);
}

fn alpha(data: &[u8], width: usize, height: usize, x: usize, y: usize) -> (r: u8)
    requires
        data@.len() == 4 * width * height,
        x < width,
        y < height,
    ensures
        r == alpha_at(data@, width as int, x as int, y as int),
{
    let len = data.len();
    proof {
        lemma_pixel_in_bounds(width as int, height as int, x as int, y as int);
    }
    assert((y * width + x) * 4 + 3 < len);
    data[(y * width + x) * 4 + 3]
}

fn row_is_blank(data: &[u8], width: usize, height: usize, y: usize) -> (r: bool)
    requires
        data@.len() == 4 * width * height,
        y < height,
    ensures
        r == row_blank(data@, width as int, y as int),
{
    let mut x: usize = 0;
    while x < width
        invariant
            data@.len() == 4 * width * height,
            y < height,
            x <= width,
            forall|j: int| 0 <= j < x ==> alpha_at(data@, width as int, j, y as int) == 0,
        decreases width - x,
    {
        if alpha(data, width, height, x, y) != 0 {
            return false;
        }
        x += 1;
    }
    true
}

fn column_is_blank(
    data: &[u8],
    width: usize,
    height: usize,
    x: usize,
    top: usize,
    bottom: usize,
) -> (r: bool)
    requires
        data@.len() == 4 * width * height,
        x < width,
        top <= bottom <= height,
    ensures
        r == column_blank(data@, width as int, x as int, top as int, bottom as int),
{
    let mut y: usize = top;
    while y < bottom
        invariant
            data@.len() == 4 * width * height,
            x < width,
            top <= y <= bottom <= height,
            forall|j: int| top <= j < y ==> alpha_at(data@, width as int, x as int, j) == 0,
        decreases bottom - y,
    {
        if alpha(data, width, height, x, y) != 0 {
            return false;
        }
        y += 1;
    }
    true
}

/// The first row that holds a pixel which is not fully transparent.
fn first_filled_row(data: &[u8], width: usize, height: usize) -> (r: Option<usize>)
    requires
        data@.len() == 4 * width * height,
    ensures
        match r {
            Some(top) => {
                &&& top < height
                &&& !row_blank(data@, width as int, top as int)
                &&& forall|y: int| 0 <= y < top ==> row_blank(data@, width as int, y)
            },
            None => image_blank(data@, width as int, height as int),
        },
{
    let mut y: usize = 0;
    while y < height
        invariant
            data@.len() == 4 * width * height,
            y <= height,
            forall|j: int| 0 <= j < y ==> row_blank(data@, width as int, j),
        decreases height - y,
    {
        if !row_is_blank(data, width, height, y) {
            return Some(y);
        }
        y += 1;
    }
    None
}

/// The row after the last one that holds a pixel which is not fully
/// transparent.
fn after_last_filled_row(data: &[u8], width: usize, height: usize, top: usize) -> (r: usize)
    requires
        data@.len() == 4 * width * height,
        top < height,
        !row_blank(data@, width as int, top as int),
    ensures
        top < r <= height,
        !row_blank(data@, width as int, r - 1),
        forall|y: int| r <= y < height ==> row_blank(data@, width as int, y),
{
    let mut bottom: usize = height;
    while bottom > top + 1
        invariant
            data@.len() == 4 * width * height,
            top < bottom <= height,
            !row_blank(data@, width as int, top as int),
            forall|j: int| bottom <= j < height ==> row_blank(data@, width as int, j),
        decreases bottom,
    {
        if !row_is_blank(data, width, height, bottom - 1) {
            return bottom;
        }
        bottom -= 1;
    }
    bottom
}

/// The first column that holds, in the rows from `top` up to `bottom`, a
/// pixel which is not fully transparent.
fn first_filled_column(data: &[u8], width: usize, height: usize, top: usize, bottom: usize) -> (r:
    Option<usize>)
    requires
        data@.len() == 4 * width * height,
        top <= bottom <= height,
    ensures
        match r {
            Some(left) => {
                &&& left < width
                &&& !column_blank(data@, width as int, left as int, top as int, bottom as int)
                &&& forall|x: int|
                    0 <= x < left ==> column_blank(data@, width as int, x, top as int, bottom as int)
            },
            None => forall|x: int|
                0 <= x < width ==> column_blank(data@, width as int, x, top as int, bottom as int),
        },
{
    let mut x: usize = 0;
    while x < width
        invariant
            data@.len() == 4 * width * height,
            top <= bottom <= height,
            x <= width,
            forall|j: int|
                0 <= j < x ==> column_blank(data@, width as int, j, top as int, bottom as int),
        decreases width - x,
    {
        if !column_is_blank(data, width, height, x, top, bottom) {
            return Some(x);
        }
        x += 1;
    }
    None
}

/// The column after the last one that holds, in the rows from `top` up to
/// `bottom`, a pixel which is not fully transparent.
fn after_last_filled_column(
    data: &[u8],
    width: usize,
    height: usize,
    top: usize,
    bottom: usize,
    left: usize,
) -> (r: usize)
    requires
        data@.len() == 4 * width * height,
        top <= bottom <= height,
        left < width,
        !column_blank(data@, width as int, left as int, top as int, bottom as int),
    ensures
        left < r <= width,
        !column_blank(data@, width as int, r - 1, top as int, bottom as int),
        forall|x: int|
            r <= x < width ==> column_blank(data@, width as int, x, top as int, bottom as int),
{
    let mut right: usize = width;
    while right > left + 1
        invariant
            data@.len() == 4 * width * height,
            top <= bottom <= height,
            left < right <= width,
            !column_blank(data@, width as int, left as int, top as int, bottom as int),
            forall|j: int|
                right <= j < width ==> column_blank(data@, width as int, j, top as int, bottom as int),
        decreases right,
    {
        if !column_is_blank(data, width, height, right - 1, top, bottom) {
            return right;
        }
        right -= 1;
    }
    right
}

/// Copies the rectangle out of the image, row after row.
fn crop(data: &[u8], width: usize, height: usize, left: usize, top: usize, w: usize, h: usize) -> (r:
    Vec<u8>)
    requires
        data@.len() == 4 * width * height,
        left + w <= width,
        top + h <= height,
    ensures
        r@ == cropped(data@, width as int, left as int, top as int, w as int, h as nat),
{
    let mut out: Vec<u8> = Vec::new();
    let mut row: usize = 0;
    while row < h
        invariant
            data@.len() == 4 * width * height,
            left + w <= width,
            top + h <= height,
            row <= h,
            out@ == cropped(data@, width as int, left as int, top as int, w as int, row as nat),
        decreases h - row,
    {
        proof {
            lemma_span_in_bounds(
                width as int,
                height as int,
                left as int,
                w as int,
                (top + row) as int,
            );
        }
        let len = data.len();
        assert(((top + row) * width + left + w) * 4 <= len);
        let start = ((top + row) * width + left) * 4;
        let end = ((top + row) * width + left + w) * 4;
        let ghost before = out@;
        out.extend_from_slice(&data[start..end]);
        assert(out@ =~= before + data@.subrange(start as int, end as int));
        row += 1;
    }
    out
}

/// Cuts an RGBA image of `width` by `height` pixels down to the smallest
/// rectangle that holds every pixel which is not fully transparent.
///
/// The offsets of the result say where the rectangle lay in the image. An
/// image without such a pixel gives an empty rectangle at the origin.
pub fn rgba_bounding_box(data: &[u8], width: u32, height: u32) -> (r: Bounded)
    requires
        data@.len() == 4 * width * height,
        width <= i32::MAX,
        height <= i32::MAX,
    ensures
        image_blank(data@, width as int, height as int) ==> {
            &&& r.data@.len() == 0
            &&& r.coords == (FrameCoords { x_offset: 0, y_offset: 0, width: 0, height: 0 })
        },
        !image_blank(data@, width as int, height as int) ==> {
            &&& is_bounding_box(
                data@,
                width as int,
                height as int,
                r.coords.x_offset as int,
                r.coords.y_offset as int,
                r.coords.x_offset + r.coords.width,
                r.coords.y_offset + r.coords.height,
            )
            &&& r.data@ == cropped(
                data@,
                width as int,
                r.coords.x_offset as int,
                r.coords.y_offset as int,
                r.coords.width as int,
                r.coords.height as nat,
            )
        },
{
    let w = width as usize;
    let h = height as usize;
    let top = match first_filled_row(data, w, h) {
        Some(top) => top,
        None => {
            return Bounded {
                data: Vec::new(),
                coords: FrameCoords { x_offset: 0, y_offset: 0, width: 0, height: 0 },
            };
        },
    };
    let bottom = after_last_filled_row(data, w, h, top);
    let left = match first_filled_column(data, w, h, top, bottom) {
        Some(left) => left,
        None => {
            proof {
                assert forall|x: int| 0 <= x < w implies alpha_at(
                    data@,
                    w as int,
                    x,
                    top as int,
                ) == 0 by {
                    assert(column_blank(data@, w as int, x, top as int, bottom as int));
                }
                assert(row_blank(data@, w as int, top as int));
            }
            return Bounded {
                data: Vec::new(),
                coords: FrameCoords { x_offset: 0, y_offset: 0, width: 0, height: 0 },
            };
        },
    };
    let right = after_last_filled_column(data, w, h, top, bottom, left);
    let out_width = right - left;
    let out_height = bottom - top;
    let out = crop(data, w, h, left, top, out_width, out_height);
    Bounded {
        data: out,
        coords: FrameCoords {
            x_offset: left as i32,
            y_offset: top as i32,
            width: out_width as u32,
            height: out_height as u32,
        },
    }
}

/// How the samples of a decoded pixel are laid out.
#[derive(Copy, Clone, PartialEq, Eq, Debug, Structural)]
pub enum ColorType {
    Grayscale,
    RGB,
    Indexed,
    GrayscaleAlpha,
    RGBA,
}

/// The number of bits of one decoded sample.
#[derive(Copy, Clone, PartialEq, Eq, Debug, Structural)]
pub enum BitDepth {
    One,
    Two,
    Four,
    Eight,
    Sixteen,
}

/// What a decoder says of the image it has decoded.
#[derive(Copy, Clone, PartialEq, Eq, Debug, Structural)]
pub struct OutputInfo {
    pub width: u32,
    pub height: u32,
    pub color_type: ColorType,
    pub bit_depth: BitDepth,
    pub line_size: usize,
}

/// Why decoded image data cannot be brought to RGBA.
#[derive(Copy, Clone, PartialEq, Eq, Debug, Structural)]
pub enum ImportError {
    /// Only samples of eight bits are taken.
    BitDepth(BitDepth),
    /// The data is not three bytes for each pixel.
    RgbSize,
    /// The data is not one byte for each pixel.
    GrayscaleSize,
    /// The data is not two bytes for each pixel.
    GrayscaleAlphaSize,
    /// Pixels of this layout are not taken.
    ColorType(ColorType),
}

/// RGB pixels with full opacity added to each.
pub open spec fn rgb_to_rgba(buf: Seq<u8>) -> Seq<u8> {
    Seq::new(
        (buf.len() / 3 * 4) as nat,
        |i: int|
            if i % 4 == 3 {
                0xffu8
            } else {
                buf[i / 4 * 3 + i % 4]
            },
    )
}

/// Grey pixels as RGB pixels with full opacity.
pub open spec fn grayscale_to_rgba(buf: Seq<u8>) -> Seq<u8> {
    Seq::new(
        (buf.len() * 4) as nat,
        |i: int|
            if i % 4 == 3 {
                0xffu8
            } else {
                buf[i / 4]
            },
    )
}

/// Grey pixels with alpha as RGB pixels with the same alpha.
pub open spec fn grayscale_alpha_to_rgba(buf: Seq<u8>) -> Seq<u8> {
    Seq::new(
        (buf.len() / 2 * 4) as nat,
        |i: int|
            if i % 4 == 3 {
                buf[i / 4 * 2 + 1]
            } else {
                buf[i / 4 * 2]
            },
    )
}

/// The RGBA data for decoded data `buf` of the kind that `info` tells, or
/// the reason for which there is none.
pub open spec fn spec_arbitrary_png_to_rgba(buf: Seq<u8>, info: OutputInfo) -> Result<
    Seq<u8>,
    ImportError,
> {
    if info.bit_depth != BitDepth::Eight {
        Err(ImportError::BitDepth(info.bit_depth))
    } else {
        match info.color_type {
            ColorType::RGBA => Ok(buf),
            ColorType::RGB => if buf.len() != info.width * info.height * 3 {
                Err(ImportError::RgbSize)
            } else {
                Ok(rgb_to_rgba(buf))
            },
            ColorType::Grayscale => if buf.len() != info.width * info.height {
                Err(ImportError::GrayscaleSize)
            } else {
                Ok(grayscale_to_rgba(buf))
            },
            ColorType::GrayscaleAlpha => if buf.len() != info.width * info.height * 2 {
                Err(ImportError::GrayscaleAlphaSize)
            } else {
                Ok(grayscale_alpha_to_rgba(buf))
            },
            ColorType::Indexed => Err(ImportError::ColorType(ColorType::Indexed)),
        }
    }
}

/// Whether `len` bytes are `samples` bytes for each pixel of the image.
fn has_size(len: usize, info: &OutputInfo, samples: u8) -> (r: bool)
    requires
        1 <= samples <= 4,
    ensures
        r == (len == info.width * info.height * samples),
{
    assert(info.width * info.height <= 0xffff_ffff * 0xffff_ffff) by (nonlinear_arith)
        requires
            0 <= info.width <= 0xffff_ffff,
            0 <= info.height <= 0xffff_ffff,
    ;
    let pixels = (info.width as u128) * (info.height as u128);
    assert(pixels * samples <= 0xffff_ffff * 0xffff_ffff * 4) by (nonlinear_arith)
        requires
            0 <= pixels <= 0xffff_ffff * 0xffff_ffff,
            0 <= samples <= 4,
    ;
    len as u128 == pixels * (samples as u128)
}

/// Brings decoded PNG data of eight bits a sample to RGBA. RGBA data is
/// handed back as it is; RGB and grey data get full opacity; palette data
/// is refused, and so is data whose length does not fit the image.
pub fn arbitrary_png_to_rgba(buf: Vec<u8>, info: &OutputInfo) -> (r: Result<Vec<u8>, ImportError>)
    ensures
        match r {
            Ok(out) => spec_arbitrary_png_to_rgba(buf@, *info) == Ok::<Seq<u8>, ImportError>(out@),
            Err(e) => spec_arbitrary_png_to_rgba(buf@, *info) == Err::<Seq<u8>, ImportError>(e),
        },
{
    match info.bit_depth {
        BitDepth::Eight => {},
        _ => {
            return Err(ImportError::BitDepth(info.bit_depth));
        },
    }
    match info.color_type {
        ColorType::RGBA => Ok(buf),
        ColorType::RGB => {
            if !has_size(buf.len(), info, 3) {
                return Err(ImportError::RgbSize);
            }
            let pixels = buf.len() / 3;
            let mut out: Vec<u8> = Vec::new();
            let mut i: usize = 0;
            while i < pixels
                invariant
                    pixels * 3 == buf@.len(),
                    buf@.len() <= usize::MAX,
                    i <= pixels,
                    out@.len() == i * 4,
                    forall|j: int|
                        0 <= j < i * 4 ==> out@[j] == if j % 4 == 3 {
                            0xffu8
                        } else {
                            buf@[j / 4 * 3 + j % 4]
                        },
                decreases pixels - i,
            {
                out.push(buf[i * 3]);
                out.push(buf[i * 3 + 1]);
                out.push(buf[i * 3 + 2]);
                out.push(0xff);
                i += 1;
            }
            assert(out@ =~= rgb_to_rgba(buf@));
            Ok(out)
        },
        ColorType::Grayscale => {
            if !has_size(buf.len(), info, 1) {
                return Err(ImportError::GrayscaleSize);
            }
            let pixels = buf.len();
            let mut out: Vec<u8> = Vec::new();
            let mut i: usize = 0;
            while i < pixels
                invariant
                    pixels == buf@.len(),
                    buf@.len() <= usize::MAX,
                    i <= pixels,
                    out@.len() == i * 4,
                    forall|j: int|
                        0 <= j < i * 4 ==> out@[j] == if j % 4 == 3 {
                            0xffu8
                        } else {
                            buf@[j / 4]
                        },
                decreases pixels - i,
            {
                out.push(buf[i]);
                out.push(buf[i]);
                out.push(buf[i]);
                out.push(0xff);
                i += 1;
            }
            assert(out@ =~= grayscale_to_rgba(buf@));
            Ok(out)
        },
        ColorType::GrayscaleAlpha => {
            if !has_size(buf.len(), info, 2) {
                return Err(ImportError::GrayscaleAlphaSize);
            }
            let pixels = buf.len() / 2;
            let mut out: Vec<u8> = Vec::new();
            let mut i: usize = 0;
            while i < pixels
                invariant
                    pixels * 2 == buf@.len(),
                    buf@.len() <= usize::MAX,
                    i <= pixels,
                    out@.len() == i * 4,
                    forall|j: int|
                        0 <= j < i * 4 ==> out@[j] == if j % 4 == 3 {
                            buf@[j / 4 * 2 + 1]
                        } else {
                            buf@[j / 4 * 2]
                        },
                decreases pixels - i,
            {
                out.push(buf[i * 2]);
                out.push(buf[i * 2]);
                out.push(buf[i * 2]);
                out.push(buf[i * 2 + 1]);
                i += 1;
            }
            assert(out@ =~= grayscale_alpha_to_rgba(buf@));
            Ok(out)
        },
        ColorType::Indexed => Err(ImportError::ColorType(ColorType::Indexed)),
    }
}

/// The sum of the two numbers, held to the range of `i32`.
pub open spec fn spec_saturating_add(a: i32, b: i32) -> int {
    if a + b > i32::MAX {
        i32::MAX as int
    } else if a + b < i32::MIN {
        i32::MIN as int
    } else {
        a + b
    }
}

/// The place of a kept image part in the coordinates of its sprite: the
/// offsets moved by the origin of the frame set, held to the range of
/// `i32`, and then offsets and size multiplied by `scale`. `None` where a
/// product leaves the range of its field.
pub open spec fn spec_place_frame(
    coords: FrameCoords,
    offset_x: i32,
    offset_y: i32,
    scale: u32,
) -> Option<FrameCoords> {
    let x = spec_saturating_add(coords.x_offset, offset_x) * scale;
    let y = spec_saturating_add(coords.y_offset, offset_y) * scale;
    let w = coords.width * scale;
    let h = coords.height * scale;
    if i32::MIN <= x <= i32::MAX && i32::MIN <= y <= i32::MAX && w <= u32::MAX && h <= u32::MAX {
        Some(FrameCoords { x_offset: x as i32, y_offset: y as i32, width: w as u32, height: h as u32 })
    } else {
        None
    }
}

fn scaled_offset(offset: i32, origin: i32, scale: u32) -> (r: Option<i32>)
    ensures
        match r {
            Some(v) => v == spec_saturating_add(offset, origin) * scale,
            None => !(i32::MIN <= spec_saturating_add(offset, origin) * scale <= i32::MAX),
        },
{
    let sum = offset as i64 + origin as i64;
    let moved: i64 = if sum > i32::MAX as i64 {
        i32::MAX as i64
    } else if sum < i32::MIN as i64 {
        i32::MIN as i64
    } else {
        sum
    };
    assert(-0x8000_0000 * 0xffff_ffff <= moved * scale <= 0x7fff_ffff * 0xffff_ffff)
        by (nonlinear_arith)
        requires
            -0x8000_0000 <= moved <= 0x7fff_ffff,
            0 <= scale <= 0xffff_ffff,
    ;
    let product = moved * (scale as i64);
    if product > i32::MAX as i64 || product < i32::MIN as i64 {
        None
    } else {
        Some(product as i32)
    }
}

fn scaled_size(size: u32, scale: u32) -> (r: Option<u32>)
    ensures
        match r {
            Some(v) => v == size * scale,
            None => size * scale > u32::MAX,
        },
{
    assert(0 <= size * scale <= 0xffff_ffff * 0xffff_ffff) by (nonlinear_arith)
        requires
            0 <= size <= 0xffff_ffff,
            0 <= scale <= 0xffff_ffff,
    ;
    let product = (size as u64) * (scale as u64);
    if product > u32::MAX as u64 {
        None
    } else {
        Some(product as u32)
    }
}

/// Moves the place of a kept image part by the origin of its frame set and
/// scales it.
pub fn place_frame(coords: FrameCoords, offset_x: i32, offset_y: i32, scale: u32) -> (r: Option<
    FrameCoords,
>)
    ensures
        r == spec_place_frame(coords, offset_x, offset_y, scale),
{
    let x_offset = match scaled_offset(coords.x_offset, offset_x, scale) {
        Some(v) => v,
        None => {
            return None;
        },
    };
    let y_offset = match scaled_offset(coords.y_offset, offset_y, scale) {
        Some(v) => v,
        None => {
            return None;
        },
    };
    let width = match scaled_size(coords.width, scale) {
        Some(v) => v,
        None => {
            return None;
        },
    };
    let height = match scaled_size(coords.height, scale) {
        Some(v) => v,
        None => {
            return None;
        },
    };
    Some(FrameCoords { x_offset, y_offset, width, height })
}

/// The formats of the layers that have images: a layer without images has
/// no format.
pub fn layer_formats(formats: &[TextureFormat], layers: &[(u32, String)]) -> (r: Vec<
    Option<TextureFormat>,
>)
    ensures
        r@.len() == formats@.len(),
        forall|i: int|
            0 <= i < formats@.len() ==> #[trigger] r@[i] == if spec_has_layer(layers@, i) {
                Some(formats@[i])
            } else {
                None
            },
{
    let mut out: Vec<Option<TextureFormat>> = Vec::new();
    let mut i: usize = 0;
    while i < formats.len()
        invariant
            i <= formats@.len(),
            out@.len() == i,
            forall|j: int|
                0 <= j < i ==> #[trigger] out@[j] == if spec_has_layer(layers@, j) {
                    Some(formats@[j])
                } else {
                    None
                },
        decreases formats@.len() - i,
    {
        if has_layer(layers, i) {
            out.push(Some(formats[i]));
        } else {
            out.push(None);
        }
        i += 1;
    }
    out
}

/// The variant that imported frames go to: HD where HD2 frames come with
/// them, else the variant asked for.
pub fn import_type(ty: SpriteType, with_hd2: bool) -> (r: SpriteType)
    ensures
        r == if with_hd2 {
            SpriteType::Hd
        } else {
            ty
        },
{
    if with_hd2 {
        SpriteType::Hd
    } else {
        ty
    }
}

/// The factor by which laid out frame coordinates of a variant grow.
pub open spec fn spec_scale_mul(ty: SpriteType) -> u16 {
    match ty {
        SpriteType::Hd2 => 2,
        _ => 1,
    }
}

pub fn scale_mul(ty: SpriteType) -> (r: u16)
    ensures
        r == spec_scale_mul(ty),
{
    match ty {
        SpriteType::Hd2 => 2,
        _ => 1,
    }
}

/// The step to whose multiples the frame sizes of a variant are brought.
pub open spec fn spec_alignment(ty: SpriteType) -> u16 {
    match ty {
        SpriteType::Hd => 32,
        SpriteType::Hd2 => 16,
        SpriteType::Sd => 4,
    }
}

pub fn alignment(ty: SpriteType) -> (r: u16)
    ensures
        r == spec_alignment(ty),
{
    match ty {
        SpriteType::Hd => 32,
        SpriteType::Hd2 => 16,
        SpriteType::Sd => 4,
    }
}

/// `val` brought up to the next multiple of `step`.
pub open spec fn spec_align(val: int, step: int) -> int {
    if val % step == 0 {
        val
    } else {
        val + step - val % step
    }
}

/// What [`spec_align`] gives is a multiple of the step, not below the
/// value and less than a step above it, and no multiple `m` of the step
/// that is not below the value is less.
pub proof fn lemma_align_is_least_multiple(val: int, step: int, m: int)
    requires
        0 <= val,
        0 < step,
        val <= m,
        m % step == 0,
    ensures
        spec_align(val, step) % step == 0,
        val <= spec_align(val, step) < val + step,
        spec_align(val, step) <= m,
{
    let a = spec_align(val, step);
    let q = val / step;
    let r = val % step;
    let k = m / step;
    vstd::arithmetic::div_mod::lemma_fundamental_div_mod(val, step);
    vstd::arithmetic::div_mod::lemma_fundamental_div_mod(m, step);
    if r != 0 {
        assert(a == (q + 1) * step) by (nonlinear_arith)
            requires
                a == val + step - r,
                val == step * q + r,
        ;
        vstd::arithmetic::div_mod::lemma_mod_multiples_basic(q + 1, step);
        assert(k >= q + 1) by (nonlinear_arith)
            requires
                step * k >= step * q + r,
                r > 0,
                step > 0,
        ;
        assert(step * k >= (q + 1) * step) by (nonlinear_arith)
            requires
                k >= q + 1,
                step > 0,
        ;
    }
}

/// Brings a frame size up to the next multiple of the step of the variant.
/// `None` where that is past the range of `u16`.
pub fn align(val: u16, ty: SpriteType) -> (r: Option<u16>)
    ensures
        match r {
            Some(v) => v == spec_align(val as int, spec_alignment(ty) as int),
            None => spec_align(val as int, spec_alignment(ty) as int) > u16::MAX,
        },
{
    let step = alignment(ty) as u32;
    let rest = val as u32 % step;
    let aligned = if rest == 0 {
        val as u32
    } else {
        val as u32 + step - rest
    };
    if aligned > u16::MAX as u32 {
        None
    } else {
        Some(aligned as u16)
    }
}

/// A laid out frame made ready for a variant: its sizes brought up to the
/// step of the variant `ty`, and then all its coordinates multiplied by
/// `scale`. `None` where a number leaves the range of its field.
pub open spec fn spec_finish_frame(f: Frame, ty: SpriteType, scale: u16) -> Option<Frame> {
    let step = spec_alignment(ty) as int;
    let tex_x = f.tex_x * scale;
    let tex_y = f.tex_y * scale;
    let x_off = f.x_off * scale;
    let y_off = f.y_off * scale;
    let width = spec_align(f.width as int, step) * scale;
    let height = spec_align(f.height as int, step) * scale;
    if tex_x <= u16::MAX && tex_y <= u16::MAX && i16::MIN <= x_off <= i16::MAX && i16::MIN <= y_off
        <= i16::MAX && width <= u16::MAX && height <= u16::MAX {
        Some(
            Frame {
                tex_x: tex_x as u16,
                tex_y: tex_y as u16,
                x_off: x_off as i16,
                y_off: y_off as i16,
                width: width as u16,
                height: height as u16,
                unknown: f.unknown,
            },
        )
    } else {
        None
    }
}

fn scaled_u16(val: u32, scale: u16) -> (r: Option<u16>)
    requires
        val <= 0x2_0000,
    ensures
        match r {
            Some(v) => v == val * scale,
            None => val * scale > u16::MAX,
        },
{
    assert(0 <= val * scale <= 0x2_0000 * 0xffff) by (nonlinear_arith)
        requires
            0 <= val <= 0x2_0000,
            0 <= scale <= 0xffff,
    ;
    let product = (val as u64) * (scale as u64);
    if product > u16::MAX as u64 {
        None
    } else {
        Some(product as u16)
    }
}

fn scaled_i16(val: i16, scale: u16) -> (r: Option<i16>)
    ensures
        match r {
            Some(v) => v == val * scale,
            None => !(i16::MIN <= val * scale <= i16::MAX),
        },
{
    assert(-0x8000 * 0xffff <= val * scale <= 0x7fff * 0xffff) by (nonlinear_arith)
        requires
            -0x8000 <= val <= 0x7fff,
            0 <= scale <= 0xffff,
    ;
    let product = (val as i64) * (scale as i64);
    if product > i16::MAX as i64 || product < i16::MIN as i64 {
        None
    } else {
        Some(product as i16)
    }
}

fn aligned_size(val: u16, ty: SpriteType, scale: u16) -> (r: Option<u16>)
    ensures
        match r {
            Some(v) => v == spec_align(val as int, spec_alignment(ty) as int) * scale,
            None => spec_align(val as int, spec_alignment(ty) as int) * scale > u16::MAX,
        },
{
    let step = alignment(ty) as u32;
    let rest = val as u32 % step;
    let aligned = if rest == 0 {
        val as u32
    } else {
        val as u32 + step - rest
    };
    assert(aligned <= val + step && step <= 32);
    scaled_u16(aligned, scale)
}

/// Makes a laid out frame ready for a variant.
pub fn finish_frame(f: &Frame, ty: SpriteType, scale: u16) -> (r: Option<Frame>)
    ensures
        r == spec_finish_frame(*f, ty, scale),
{
    let tex_x = match scaled_u16(f.tex_x as u32, scale) {
        Some(v) => v,
        None => {
            return None;
        },
    };
    let tex_y = match scaled_u16(f.tex_y as u32, scale) {
        Some(v) => v,
        None => {
            return None;
        },
    };
    let x_off = match scaled_i16(f.x_off, scale) {
        Some(v) => v,
        None => {
            return None;
        },
    };
    let y_off = match scaled_i16(f.y_off, scale) {
        Some(v) => v,
        None => {
            return None;
        },
    };
    let width = match aligned_size(f.width, ty, scale) {
        Some(v) => v,
        None => {
            return None;
        },
    };
    let height = match aligned_size(f.height, ty, scale) {
        Some(v) => v,
        None => {
            return None;
        },
    };
    Some(Frame { tex_x, tex_y, x_off, y_off, width, height, unknown: f.unknown })
}

/// Makes every laid out frame ready for a variant. `None` where one of
/// them cannot be made ready.
pub fn finish_frames(frames: &[Frame], ty: SpriteType, scale: u16) -> (r: Option<Vec<Frame>>)
    ensures
        match r {
            Some(out) => {
                &&& out@.len() == frames@.len()
                &&& forall|i: int|
                    0 <= i < frames@.len() ==> spec_finish_frame(#[trigger] frames@[i], ty, scale)
                        == Some(out@[i])
            },
            None => exists|i: int|
                0 <= i < frames@.len() && spec_finish_frame(#[trigger] frames@[i], ty, scale)
                    .is_none(),
        },
{
    let mut out: Vec<Frame> = Vec::new();
    let mut i: usize = 0;
    while i < frames.len()
        invariant
            i <= frames@.len(),
            out@.len() == i,
            forall|j: int|
                0 <= j < i ==> spec_finish_frame(#[trigger] frames@[j], ty, scale) == Some(out@[j]),
        decreases frames@.len() - i,
    {
        match finish_frame(&frames[i], ty, scale) {
            Some(f) => {
                out.push(f);
            },
            None => {
                return None;
            },
        }
        i += 1;
    }
    Some(out)
}

/// Gives every frame the type of the last run that covers it; a frame that
/// no run covers keeps its type. Runs may reach past the last frame.
pub fn apply_frame_types(frames: &[Frame], types: &[FrameType]) -> (r: Vec<Frame>)
    ensures
        r@.len() == frames@.len(),
        forall|i: int|
            0 <= i < frames@.len() ==> #[trigger] r@[i] == (Frame {
                unknown: frame_type_at(types@, types@.len(), i, frames@[i].unknown),
                ..frames@[i]
            }),
{
    let mut out: Vec<Frame> = Vec::new();
    let mut i: usize = 0;
    while i < frames.len()
        invariant
            i <= frames@.len(),
            out@.len() == i,
            forall|j: int|
                0 <= j < i ==> #[trigger] out@[j] == (Frame {
                    unknown: frame_type_at(types@, types@.len(), j, frames@[j].unknown),
                    ..frames@[j]
                }),
        decreases frames@.len() - i,
    {
        let f = &frames[i];
        let mut unknown = f.unknown;
        let mut n: usize = 0;
        while n < types.len()
            invariant
                n <= types@.len(),
                i < frames@.len(),
                unknown == frame_type_at(types@, n as nat, i as int, frames@[i as int].unknown),
            decreases types@.len() - n,
        {
            if types[n].covers(i) {
                unknown = types[n].frame_type;
            }
            n += 1;
        }
        out.push(
            Frame {
                tex_x: f.tex_x,
                tex_y: f.tex_y,
                x_off: f.x_off,
                y_off: f.y_off,
                width: f.width,
                height: f.height,
                unknown,
            },
        );
        i += 1;
    }
    out
}

} // verus!
