//! Exporting frames: the canvas that all frames of a sprite are drawn on,
//! the image of one frame on that canvas, the runs of frames of one type,
//! and the text that describes the exported set.

use vstd::prelude::*;
use vstd::string::*;
use crate::anim::{Frame, RgbaTexture, SpriteValues};
use crate::text::{decimal, decimal3, push_decimal, push_decimal3, push_signed_decimal, signed_decimal};

verus! {

/// The common canvas of the frames of a sprite. The bases are the
/// coordinates of its upper left corner; they are never positive.
#[derive(Copy, Clone, PartialEq, Eq, Debug, Structural)]
pub struct Canvas {
    pub x_base: i32,
    pub y_base: i32,
    pub width: u32,
    pub height: u32,
}

/// The blank pixels around a frame on its canvas.
#[derive(Copy, Clone, PartialEq, Eq, Debug, Structural)]
pub struct Margins {
    pub left: u32,
    pub top: u32,
    pub right: u32,
    pub bottom: u32,
}

/// A run of frames that is written out with one type.
#[derive(Copy, Clone, PartialEq, Eq, Debug, Structural)]
pub struct TypeRun {
    pub first_frame: usize,
    /// The last frame of the run; it belongs to the run.
    pub last_frame: usize,
    pub frame_type: u32,
}

/// Why a frame cannot be exported.
#[derive(Copy, Clone, PartialEq, Eq, Debug, Structural)]
pub enum ExportError {
    /// The frame begins left of or above the canvas.
    Offset,
    /// The frame reaches past the right or the lower edge of the canvas.
    Size,
    /// The texture does not hold every row of the frame.
    BadFrameData,
    /// The image could not be encoded.
    Encode,
}

/// The least horizontal offset among the first `n` frames, and at most 0.
pub open spec fn min_x_off(frames: Seq<Frame>, n: nat) -> int
    decreases n,
{
    if n == 0 {
        0
    } else {
        let rest = min_x_off(frames, (n - 1) as nat);
        if frames[n - 1].x_off < rest {
            frames[n - 1].x_off as int
        } else {
            rest
        }
    }
}

/// The rightmost edge among the first `n` frames; 1 where there is none.
pub open spec fn max_right(frames: Seq<Frame>, n: nat) -> int
    decreases n,
{
    if n == 0 {
        1
    } else if n == 1 {
        frames[0].x_off + frames[0].width
    } else {
        let rest = max_right(frames, (n - 1) as nat);
        if frames[n - 1].x_off + frames[n - 1].width > rest {
            frames[n - 1].x_off + frames[n - 1].width
        } else {
            rest
        }
    }
}

/// The lowest edge among the first `n` frames; 1 where there is none.
pub open spec fn max_bottom(frames: Seq<Frame>, n: nat) -> int
    decreases n,
{
    if n == 0 {
        1
    } else if n == 1 {
        frames[0].y_off + frames[0].height
    } else {
        let rest = max_bottom(frames, (n - 1) as nat);
        if frames[n - 1].y_off + frames[n - 1].height > rest {
            frames[n - 1].y_off + frames[n - 1].height
        } else {
            rest
        }
    }
}

pub open spec fn spec_max(a: int, b: int) -> int {
    if a > b {
        a
    } else {
        b
    }
}

/// The canvas for the frames of a sprite with the given values.
///
/// Both bases are the least horizontal offset of the frames, or 0 where
/// that is positive. The canvas reaches from its base to the rightmost and
/// the lowest edge of the frames, and at least to the width and the height
/// of the sprite.
pub open spec fn spec_canvas(frames: Seq<Frame>, values: SpriteValues) -> Canvas {
    let base = min_x_off(frames, frames.len());
    Canvas {
        x_base: base as i32,
        y_base: base as i32,
        width: (spec_max(max_right(frames, frames.len()), values.width as int) - base) as u32,
        height: (spec_max(max_bottom(frames, frames.len()), values.height as int) - base) as u32,
    }
}

/// Works out the canvas for the frames of a sprite.
pub fn canvas(frames: &[Frame], values: &SpriteValues) -> (r: Canvas)
    ensures
        r == spec_canvas(frames@, *values),
        -0x8000 <= r.x_base <= 0,
        r.width <= 0x2_0000,
        r.height <= 0x2_0000,
{
    let mut base: i32 = 0;
    let mut right: i32 = 1;
    let mut bottom: i32 = 1;
    let mut i: usize = 0;
    while i < frames.len()
        invariant
            i <= frames@.len(),
            base == min_x_off(frames@, i as nat),
            right == max_right(frames@, i as nat),
            bottom == max_bottom(frames@, i as nat),
            -0x8000 <= base <= 0,
            -0x8000 <= right <= 0x1_8000,
            -0x8000 <= bottom <= 0x1_8000,
        decreases frames@.len() - i,
    {
        let f = &frames[i];
        if (f.x_off as i32) < base {
            base = f.x_off as i32;
        }
        let f_right = f.x_off as i32 + f.width as i32;
        if i == 0 || f_right > right {
            right = f_right;
        }
        let f_bottom = f.y_off as i32 + f.height as i32;
        if i == 0 || f_bottom > bottom {
            bottom = f_bottom;
        }
        i += 1;
    }
    let right = if right > values.width as i32 {
        right
    } else {
        values.width as i32
    };
    let bottom = if bottom > values.height as i32 {
        bottom
    } else {
        values.height as i32
    };
    Canvas {
        x_base: base,
        y_base: base,
        width: (right - base) as u32,
        height: (bottom - base) as u32,
    }
}

/// The blank pixels around `frame` on `canvas`, or why the frame does not
/// lie on it.
pub open spec fn spec_margins(frame: Frame, canvas: Canvas) -> Result<Margins, ExportError> {
    let left = frame.x_off - canvas.x_base;
    let top = frame.y_off - canvas.y_base;
    if !(0 <= left <= i32::MAX && 0 <= top <= i32::MAX) {
        Err(ExportError::Offset)
    } else if left + frame.width > canvas.width || top + frame.height > canvas.height {
        Err(ExportError::Size)
    } else {
        Ok(
            Margins {
                left: left as u32,
                top: top as u32,
                right: (canvas.width - (left + frame.width)) as u32,
                bottom: (canvas.height - (top + frame.height)) as u32,
            },
        )
    }
}

pub fn margins(frame: &Frame, canvas: &Canvas) -> (r: Result<Margins, ExportError>)
    ensures
        r == spec_margins(*frame, *canvas),
{
    let left = frame.x_off as i64 - canvas.x_base as i64;
    let top = frame.y_off as i64 - canvas.y_base as i64;
    if left < 0 || left > i32::MAX as i64 || top < 0 || top > i32::MAX as i64 {
        return Err(ExportError::Offset);
    }
    if left + frame.width as i64 > canvas.width as i64 || top + frame.height as i64
        > canvas.height as i64 {
        return Err(ExportError::Size);
    }
    Ok(
        Margins {
            left: left as u32,
            top: top as u32,
            right: (canvas.width as i64 - (left + frame.width as i64)) as u32,
            bottom: (canvas.height as i64 - (top + frame.height as i64)) as u32,
        },
    )
}

/// `n` bytes of zero.
pub open spec fn blank(n: int) -> Seq<u8> {
    Seq::new(n as nat, |i: int| 0u8)
}

/// `n` rows of `width` blank pixels.
pub open spec fn blank_rows(width: int, n: nat) -> Seq<u8>
    decreases n,
{
    if n == 0 {
        Seq::empty()
    } else {
        blank_rows(width, (n - 1) as nat) + blank(width * 4)
    }
}

/// Where row `row` of the frame begins in the bytes of a texture that is
/// `texture_width` pixels wide.
pub open spec fn row_start(texture_width: u32, frame: Frame, row: int) -> int {
    ((frame.tex_y + row) * texture_width + frame.tex_x) * 4
}

/// The texture holds all of row `row` of the frame.
pub open spec fn row_readable(len: int, texture_width: u32, frame: Frame, row: int) -> bool {
    row_start(texture_width, frame, row) + frame.width * 4 <= len
}

/// The first `n` rows of the frame, each between its blank margins.
pub open spec fn frame_rows(
    data: Seq<u8>,
    texture_width: u32,
    frame: Frame,
    m: Margins,
    n: nat,
) -> Seq<u8>
    decreases n,
{
    if n == 0 {
        Seq::empty()
    } else {
        frame_rows(data, texture_width, frame, m, (n - 1) as nat) + blank(m.left * 4)
            + data.subrange(
            row_start(texture_width, frame, n - 1),
            row_start(texture_width, frame, n - 1) + frame.width * 4,
        ) + blank(m.right * 4)
    }
}

/// The image of the frame on a canvas of `width` pixels: blank rows above,
/// the rows of the frame, blank rows below.
pub open spec fn spec_frame_image(
    data: Seq<u8>,
    texture_width: u32,
    frame: Frame,
    m: Margins,
    width: u32,
) -> Seq<u8> {
    blank_rows(width as int, m.top as nat) + frame_rows(
        data,
        texture_width,
        frame,
        m,
        frame.height as nat,
    ) + blank_rows(width as int, m.bottom as nat)
}

proof fn lemma_blank_rows_len(width: int, n: nat)
    requires
        0 <= width,
    ensures
        blank_rows(width, n).len() == n * (width * 4),
    decreases n,
{
    if n > 0 {
        lemma_blank_rows_len(width, (n - 1) as nat);
        assert(n * (width * 4) == (n - 1) * (width * 4) + width * 4) by (nonlinear_arith);
    } else {
        assert(0 * (width * 4) == 0) by (nonlinear_arith);
    }
}

proof fn lemma_frame_rows_len(data: Seq<u8>, texture_width: u32, frame: Frame, m: Margins, n: nat)
    requires
        forall|row: int|
            0 <= row < n ==> 0 <= row_start(texture_width, frame, row) && row_readable(
                data.len() as int,
                texture_width,
                frame,
                row,
            ),
    ensures
        frame_rows(data, texture_width, frame, m, n).len() == n * ((m.left + frame.width + m.right)
            * 4),
    decreases n,
{
    let w = (m.left + frame.width + m.right) * 4;
    if n > 0 {
        lemma_frame_rows_len(data, texture_width, frame, m, (n - 1) as nat);
        assert(row_readable(data.len() as int, texture_width, frame, n - 1));
        assert(n * w == (n - 1) * w + w) by (nonlinear_arith);
    } else {
        assert(0 * w == 0) by (nonlinear_arith);
    }
}

/// The image of a frame that lies on its canvas fills the canvas.
pub proof fn lemma_frame_image_len(
    data: Seq<u8>,
    texture_width: u32,
    frame: Frame,
    canvas: Canvas,
)
    requires
        spec_margins(frame, canvas) is Ok,
        forall|row: int|
            0 <= row < frame.height ==> row_readable(
                data.len() as int,
                texture_width,
                frame,
                row,
            ),
    ensures
        spec_frame_image(
            data,
            texture_width,
            frame,
            spec_margins(frame, canvas).unwrap(),
            canvas.width,
        ).len() == 4 * canvas.width * canvas.height,
{
    let m = spec_margins(frame, canvas).unwrap();
    let w = canvas.width as int;
    lemma_blank_rows_len(w, m.top as nat);
    lemma_blank_rows_len(w, m.bottom as nat);
    assert forall|row: int| 0 <= row < frame.height implies 0 <= row_start(
        texture_width,
        frame,
        row,
    ) by {
        assert(0 <= (frame.tex_y + row) * texture_width) by (nonlinear_arith)
            requires
                0 <= frame.tex_y + row,
                0 <= texture_width,
        ;
    }
    lemma_frame_rows_len(data, texture_width, frame, m, frame.height as nat);
    assert(m.left + frame.width + m.right == w);
    assert(m.top + frame.height + m.bottom == canvas.height);
    assert(m.top * (w * 4) + frame.height * (w * 4) + m.bottom * (w * 4) == 4 * w * canvas.height)
        by (nonlinear_arith)
        requires
            m.top + frame.height + m.bottom == canvas.height,
    ;
}

fn push_blank(out: &mut Vec<u8>, n: u64)
    ensures
        final(out)@ == old(out)@ + blank(n as int),
{
    let mut i: u64 = 0;
    while i < n
        invariant
            i <= n,
            out@ == old(out)@ + blank(i as int),
        decreases n - i,
    {
        let ghost before = out@;
        out.push(0);
        assert(out@ =~= old(out)@ + blank(i + 1));
        i += 1;
    }
}

fn push_blank_rows(out: &mut Vec<u8>, width: u32, n: u32)
    ensures
        final(out)@ == old(out)@ + blank_rows(width as int, n as nat),
{
    let mut i: u32 = 0;
    assert(out@ =~= old(out)@ + blank_rows(width as int, 0));
    while i < n
        invariant
            i <= n,
            out@ == old(out)@ + blank_rows(width as int, i as nat),
        decreases n - i,
    {
        push_blank(out, width as u64 * 4);
        assert(out@ =~= old(out)@ + blank_rows(width as int, (i + 1) as nat));
        i += 1;
    }
}

/// Draws the frame on the canvas.
///
/// The frame must lie on the canvas, and the texture must hold each of its
/// rows; the first of these that fails is the error.
pub fn frame_image(texture: &RgbaTexture, frame: &Frame, canvas: &Canvas) -> (r: Result<
    Vec<u8>,
    ExportError,
>)
    ensures
        match r {
            Ok(out) => {
                &&& spec_margins(*frame, *canvas) is Ok
                &&& forall|row: int|
                    0 <= row < frame.height ==> row_readable(
                        texture.data@.len() as int,
                        texture.width,
                        *frame,
                        row,
                    )
                &&& out@ == spec_frame_image(
                    texture.data@,
                    texture.width,
                    *frame,
                    spec_margins(*frame, *canvas).unwrap(),
                    canvas.width,
                )
            },
            Err(e) => match spec_margins(*frame, *canvas) {
                Err(me) => e == me,
                Ok(_) => e == ExportError::BadFrameData && exists|row: int|
                    0 <= row < frame.height && !row_readable(
                        texture.data@.len() as int,
                        texture.width,
                        *frame,
                        row,
                    ),
            },
        },
{
    let m = match margins(frame, canvas) {
        Ok(m) => m,
        Err(e) => {
            return Err(e);
        },
    };
    let mut out: Vec<u8> = Vec::new();
    push_blank_rows(&mut out, canvas.width, m.top);
    let ghost top = out@;
    let len = texture.data.len();
    let mut row: u16 = 0;
    assert(out@ =~= top + frame_rows(texture.data@, texture.width, *frame, m, 0));
    while row < frame.height
        invariant
            row <= frame.height,
            len == texture.data@.len(),
            spec_margins(*frame, *canvas) == Ok::<Margins, ExportError>(m),
            out@ == top + frame_rows(texture.data@, texture.width, *frame, m, row as nat),
            forall|j: int|
                0 <= j < row ==> row_readable(
                    texture.data@.len() as int,
                    texture.width,
                    *frame,
                    j,
                ),
        decreases frame.height - row,
    {
        assert(0 <= (frame.tex_y + row) * texture.width <= 0x1_fffe * 0xffff_ffff)
            by (nonlinear_arith)
            requires
                0 <= frame.tex_y + row <= 0x1_fffe,
                0 <= texture.width <= 0xffff_ffff,
        ;
        let start = ((frame.tex_y as u64 + row as u64) * texture.width as u64 + frame.tex_x as u64)
            * 4;
        let end = start + frame.width as u64 * 4;
        assert(start == row_start(texture.width, *frame, row as int));
        if end > len as u64 {
            assert(!row_readable(len as int, texture.width, *frame, row as int));
            return Err(ExportError::BadFrameData);
        }
        push_blank(&mut out, m.left as u64 * 4);
        let ghost before = out@;
        out.extend_from_slice(&texture.data[start as usize..end as usize]);
        assert(out@ =~= before + texture.data@.subrange(start as int, end as int));
        push_blank(&mut out, m.right as u64 * 4);
        assert(out@ =~= top + frame_rows(
            texture.data@,
            texture.width,
            *frame,
            m,
            (row + 1) as nat,
        ));
        row += 1;
    }
    push_blank_rows(&mut out, canvas.width, m.bottom);
    Ok(out)
}

/// The type of frame `i`, and 0 past the last frame.
pub open spec fn type_of(frames: Seq<Frame>, i: int) -> u32 {
    if 0 <= i < frames.len() {
        frames[i].unknown
    } else {
        0
    }
}

/// Where the run begins that is open after the first `n` frames were
/// looked at. A run is closed by a frame whose type differs from that of
/// the frame the run began with; the frame that closes it belongs to the
/// run, and the next run begins after it.
pub open spec fn open_run_start(frames: Seq<Frame>, n: nat) -> int
    decreases n,
{
    if n == 0 {
        0
    } else {
        let start = open_run_start(frames, (n - 1) as nat);
        if frames[n - 1].unknown != type_of(frames, start) {
            n as int
        } else {
            start
        }
    }
}

/// The runs that are closed after the first `n` frames were looked at, each
/// with the type of the frame it began with.
pub open spec fn closed_runs(frames: Seq<Frame>, n: nat) -> Seq<TypeRun>
    decreases n,
{
    if n == 0 {
        Seq::empty()
    } else {
        let start = open_run_start(frames, (n - 1) as nat);
        let runs = closed_runs(frames, (n - 1) as nat);
        if frames[n - 1].unknown != type_of(frames, start) {
            runs.push(
                TypeRun {
                    first_frame: start as usize,
                    last_frame: (n - 1) as usize,
                    frame_type: type_of(frames, start),
                },
            )
        } else {
            runs
        }
    }
}

/// The runs of all frames: the closed ones, and the open one if it holds a
/// frame.
pub open spec fn spec_frame_type_runs(frames: Seq<Frame>) -> Seq<TypeRun> {
    let start = open_run_start(frames, frames.len());
    if start < frames.len() {
        closed_runs(frames, frames.len()).push(
            TypeRun {
                first_frame: start as usize,
                last_frame: (frames.len() - 1) as usize,
                frame_type: type_of(frames, start),
            },
        )
    } else {
        closed_runs(frames, frames.len())
    }
}

/// Splits the frames into the runs that the description of an exported set
/// lists.
pub fn frame_type_runs(frames: &[Frame]) -> (r: Vec<TypeRun>)
    ensures
        r@ == spec_frame_type_runs(frames@),
{
    let mut runs: Vec<TypeRun> = Vec::new();
    let mut start: usize = 0;
    let mut first_unk: u32 = if frames.len() > 0 {
        frames[0].unknown
    } else {
        0
    };
    let mut i: usize = 0;
    while i < frames.len()
        invariant
            i <= frames@.len(),
            start <= i,
            start == open_run_start(frames@, i as nat),
            first_unk == type_of(frames@, start as int),
            runs@ == closed_runs(frames@, i as nat),
        decreases frames@.len() - i,
    {
        if frames[i].unknown != first_unk {
            runs.push(TypeRun { first_frame: start, last_frame: i, frame_type: first_unk });
            start = i + 1;
            first_unk = if start < frames.len() {
                frames[start].unknown
            } else {
                0
            };
        }
        i += 1;
    }
    if start < frames.len() {
        runs.push(
            TypeRun { first_frame: start, last_frame: frames.len() - 1, frame_type: first_unk },
        );
    }
    runs
}

/// The name of the image file of frame `n` of the layer with the prefix
/// `prefix`.
pub open spec fn spec_frame_file_name(prefix: Seq<char>, n: nat) -> Seq<char> {
    prefix + "_"@ + decimal3(n) + ".png"@
}

pub fn frame_file_name(prefix: &str, n: u64) -> (r: String)
    ensures
        r@ == spec_frame_file_name(prefix@, n as nat),
{
    let mut name = String::from_str(prefix);
    name.append("_");
    push_decimal3(&mut name, n);
    name.append(".png");
    name
}

/// The lines that name the prefix of each of the first `n` layers that has
/// one.
pub open spec fn layer_lines(prefixes: Seq<Option<String>>, n: nat) -> Seq<char>
    decreases n,
{
    if n == 0 {
        Seq::empty()
    } else {
        let lines = layer_lines(prefixes, (n - 1) as nat);
        match prefixes[n - 1] {
            Some(prefix) => lines + "layer_"@ + decimal((n - 1) as nat) + " = "@ + prefix@ + "\n"@,
            None => lines,
        }
    }
}

/// The lines of the first `n` runs.
pub open spec fn run_lines(runs: Seq<TypeRun>, n: nat) -> Seq<char>
    decreases n,
{
    if n == 0 {
        Seq::empty()
    } else {
        run_lines(runs, (n - 1) as nat) + "frame_types_"@ + decimal(runs[n - 1].first_frame as nat)
            + "_"@ + decimal(runs[n - 1].last_frame as nat) + " = "@ + decimal(
            runs[n - 1].frame_type as nat,
        ) + "\n"@
    }
}

/// The description of an exported frame set.
pub open spec fn spec_frame_info_text(
    frame_count: usize,
    canvas: Canvas,
    prefixes: Seq<Option<String>>,
    runs: Seq<TypeRun>,
) -> Seq<char> {
    "# Frame info for an anim file\n\n"@ + "frame_count = "@ + decimal(frame_count as nat) + "\n"@
        + "offset_x = "@ + signed_decimal(canvas.x_base as int) + "\n"@ + "offset_y = "@
        + signed_decimal(canvas.y_base as int) + "\n"@ + layer_lines(prefixes, prefixes.len())
        + run_lines(runs, runs.len())
}

/// Writes the description of an exported frame set: a heading, the number
/// of frames, the bases of the canvas, the prefix of each exported layer,
/// and the type of each run of frames.
pub fn frame_info_text(
    frame_count: usize,
    canvas: &Canvas,
    prefixes: &[Option<String>],
    runs: &[TypeRun],
) -> (r: String)
    ensures
        r@ == spec_frame_info_text(frame_count, *canvas, prefixes@, runs@),
{
    let mut out = String::from_str("# Frame info for an anim file\n\n");
    out.append("frame_count = ");
    push_decimal(&mut out, frame_count as u64);
    out.append("\n");
    out.append("offset_x = ");
    push_signed_decimal(&mut out, canvas.x_base);
    out.append("\n");
    out.append("offset_y = ");
    push_signed_decimal(&mut out, canvas.y_base);
    out.append("\n");
    let ghost head = out@;
    let mut i: usize = 0;
    assert(out@ =~= head + layer_lines(prefixes@, 0));
    while i < prefixes.len()
        invariant
            i <= prefixes@.len(),
            out@ == head + layer_lines(prefixes@, i as nat),
        decreases prefixes@.len() - i,
    {
        if let Some(prefix) = &prefixes[i] {
            out.append("layer_");
            push_decimal(&mut out, i as u64);
            out.append(" = ");
            out.append(prefix.as_str());
            out.append("\n");
        }
        assert(out@ =~= head + layer_lines(prefixes@, (i + 1) as nat));
        i += 1;
    }
    let ghost layers = out@;
    let mut n: usize = 0;
    assert(out@ =~= layers + run_lines(runs@, 0));
    while n < runs.len()
        invariant
            n <= runs@.len(),
            out@ == layers + run_lines(runs@, n as nat),
        decreases runs@.len() - n,
    {
        out.append("frame_types_");
        push_decimal(&mut out, runs[n].first_frame as u64);
        out.append("_");
        push_decimal(&mut out, runs[n].last_frame as u64);
        out.append(" = ");
        push_decimal(&mut out, runs[n].frame_type as u64);
        out.append("\n");
        assert(out@ =~= layers + run_lines(runs@, (n + 1) as nat));
        n += 1;
    }
    assert(out@ =~= spec_frame_info_text(frame_count, *canvas, prefixes@, runs@));
    out
}

/// The PNG file that the `png` crate writes for an RGBA image of eight bits
/// a sample with the given pixels, width and height.
pub uninterp spec fn png_rgba(data: Seq<u8>, width: u32, height: u32) -> Seq<u8>;

/// Encodes RGBA pixels as a PNG file in memory with `png::Encoder`: the
/// colour type is set to RGBA, the header is written with
/// `Encoder::write_header` and the pixels with `Writer::write_image_data`.
///
/// Not verified. The contract names the bytes that come back, and says
/// that the encoder takes every image that has pixels and refuses one
/// that has none: the header is refused for a width or height of zero,
/// the pixels only for a wrong length, and writing into memory does not
/// fail. The encoder works out the length of a row in bits, which is why
/// the width is bounded.
#[verifier::external_body]
fn encode_rgba(data: &[u8], width: u32, height: u32) -> (r: Option<Vec<u8>>)
    requires
        data@.len() == 4 * width * height,
        32 * width <= usize::MAX,
    ensures
        r matches Some(bytes) ==> bytes@ == png_rgba(data@, width, height),
        r is Some == (width > 0 && height > 0),
{
    let mut out = Vec::new();
    {
        let mut encoder = png::Encoder::new(&mut out, width, height);
        encoder.set_color(png::ColorType::RGBA);
        let mut writer = encoder.write_header().ok()?;
        writer.write_image_data(data).ok()?;
    }
    Some(out)
}

/// An image of this size has pixels, and its rows are not too long for
/// this machine to encode.
pub open spec fn spec_encodable(width: u32, height: u32) -> bool {
    width > 0 && height > 0 && 32 * width <= usize::MAX
}

/// Draws the frame on the canvas and encodes the image as a PNG file.
///
/// What [`frame_image`] refuses is refused here for the same reason. A
/// frame that can be drawn gives a file, unless the canvas has no pixels
/// or is too wide for this machine; that gives `Encode`.
pub fn frame_png(texture: &RgbaTexture, frame: &Frame, canvas: &Canvas) -> (r: Result<
    Vec<u8>,
    ExportError,
>)
    ensures
        match r {
            Ok(bytes) => {
                &&& spec_margins(*frame, *canvas) is Ok
                &&& forall|row: int|
                    0 <= row < frame.height ==> row_readable(
                        texture.data@.len() as int,
                        texture.width,
                        *frame,
                        row,
                    )
                &&& spec_encodable(canvas.width, canvas.height)
                &&& bytes@ == png_rgba(
                    spec_frame_image(
                        texture.data@,
                        texture.width,
                        *frame,
                        spec_margins(*frame, *canvas).unwrap(),
                        canvas.width,
                    ),
                    canvas.width,
                    canvas.height,
                )
            },
            Err(e) => match spec_margins(*frame, *canvas) {
                Err(me) => e == me,
                Ok(_) => if exists|row: int|
                    0 <= row < frame.height && !row_readable(
                        texture.data@.len() as int,
                        texture.width,
                        *frame,
                        row,
                    ) {
                    e == ExportError::BadFrameData
                } else {
                    e == ExportError::Encode && !spec_encodable(canvas.width, canvas.height)
                },
            },
        },
{
    let image = match frame_image(texture, frame, canvas) {
        Ok(image) => image,
        Err(e) => {
            return Err(e);
        },
    };
    proof {
        lemma_frame_image_len(texture.data@, texture.width, *frame, *canvas);
    }
    if canvas.width as u64 * 32 > usize::MAX as u64 {
        return Err(ExportError::Encode);
    }
    match encode_rgba(image.as_slice(), canvas.width, canvas.height) {
        Some(bytes) => Ok(bytes),
        None => Err(ExportError::Encode),
    }
}

} // verus!
