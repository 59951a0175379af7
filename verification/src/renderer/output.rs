//! Layout of the buffer that the rendered texture is copied into, and the
//! recovery of tightly packed RGBA rows from it.

use vstd::prelude::*;

use crate::error::{invalid_data_error, TiedyeError};
use crate::raster::Image;
use super::textures::{texture_start, texture_start_spec, CopyTarget};

verus! {

/// Bytes in one RGBA8 texel.
pub const BYTES_PER_TEXEL: u32 = 4;

/// `wgpu::COPY_BYTES_PER_ROW_ALIGNMENT`: the stride of every row of a
/// texture-to-buffer copy must be a multiple of this many bytes. The wgpu
/// source defines it as the constant 256.
#[verifier::external_body]
fn copy_bytes_per_row_alignment() -> (alignment: u32)
    ensures
        alignment == 256,
{
    wgpu::COPY_BYTES_PER_ROW_ALIGNMENT
}

/// The smallest multiple of 256 that is at least `4 * width`.
pub open spec fn padded_row_bytes(width: u32) -> int {
    if (4 * width) % 256 == 0 {
        4 * width
    } else {
        (4 * width) + 256 - (4 * width) % 256
    }
}

/// Stride, in bytes, of each row of the read-back buffer for an image
/// `width` texels wide: the row's `4 * width` bytes rounded up to the copy
/// alignment.
pub fn padded_bytes_per_row(width: u32) -> (padded: u32)
    requires
        4 * width <= u32::MAX - 255,
    ensures
        padded == padded_row_bytes(width),
        padded % 256 == 0,
        4 * width <= padded < 4 * width + 256,
{
    let alignment = copy_bytes_per_row_alignment();
    let unpadded = width * BYTES_PER_TEXEL;
    let blocks = if unpadded % alignment == 0 {
        unpadded / alignment
    } else {
        unpadded / alignment + 1
    };
    blocks * alignment
}

/// The first `rows` rows of `row_bytes` bytes each, taken from a buffer whose
/// rows start every `stride` bytes, laid end to end.
pub open spec fn unpadded_rows(buffer: Seq<u8>, row_bytes: nat, stride: nat, rows: nat) -> Seq<u8>
    decreases rows,
{
    if rows == 0 {
        Seq::empty()
    } else {
        let start = (rows - 1) * stride;
        unpadded_rows(buffer, row_bytes, stride, (rows - 1) as nat) + buffer.subrange(
            start as int,
            start + row_bytes,
        )
    }
}

/// Whether a mapped buffer of `len` bytes holds every row of a `width` by
/// `height` image read back with row stride `padded`, with all the offsets the
/// read-back computes fitting in 32 bits.
pub open spec fn readback_in_bounds(len: int, width: u32, height: u32, padded: u32) -> bool {
    &&& 4 * width * height <= u32::MAX
    &&& height > 0 ==> {
        &&& (height - 1) * padded <= u32::MAX
        &&& (height - 1) * padded + 4 * width <= len
    }
}

proof fn lemma_row_offsets(row: int, height: int, padded: int, width4: int)
    requires
        0 <= row < height,
        0 <= padded,
        0 <= width4,
    ensures
        row * padded <= (height - 1) * padded,
        row * padded + width4 <= (height - 1) * padded + width4,
{
    assert(row * padded <= (height - 1) * padded) by (nonlinear_arith)
        requires
            0 <= row <= height - 1,
            0 <= padded,
    ;
}

proof fn lemma_product_bounds(width: int, height: int)
    requires
        0 <= width,
        0 <= height,
        4 * width * height <= u32::MAX,
    ensures
        width * height <= u32::MAX,
        width * height * 4 == 4 * width * height,
        height > 0 ==> 4 * width <= u32::MAX,
{
    assert(width * height <= 4 * width * height) by (nonlinear_arith)
        requires
            0 <= width,
            0 <= height,
    ;
    assert(width * height * 4 == 4 * width * height) by (nonlinear_arith);
    assert(height > 0 ==> 4 * width <= 4 * width * height) by (nonlinear_arith)
        requires
            0 <= width,
            0 <= height,
    ;
}

/// Copies the first `4 * width` bytes of each of `height` rows that start
/// every `padded` bytes in `mapped` into one tightly packed buffer.
pub fn strip_row_padding(mapped: &[u8], width: u32, height: u32, padded: u32) -> (pixels: Vec<u8>)
    requires
        readback_in_bounds(mapped@.len() as int, width, height, padded),
    ensures
        pixels@ == unpadded_rows(mapped@, 4 * width as nat, padded as nat, height as nat),
        pixels@.len() == 4 * width * height,
{
    proof {
        lemma_product_bounds(width as int, height as int);
    }
    let mut pixels: Vec<u8> = Vec::with_capacity((width * height * BYTES_PER_TEXEL) as usize);
    let mut row: u32 = 0;
    while row < height
        invariant
            row <= height,
            readback_in_bounds(mapped@.len() as int, width, height, padded),
            pixels@ == unpadded_rows(mapped@, 4 * width as nat, padded as nat, row as nat),
        decreases height - row,
    {
        proof {
            lemma_row_offsets(row as int, height as int, padded as int, 4 * width as int);
            if row > 0 {
                lemma_row_offsets(row - 1, height as int, padded as int, 4 * width as int);
            }
            lemma_unpadded_rows_len(mapped@, 4 * width as nat, padded as nat, row as nat);
            lemma_product_bounds(width as int, height as int);
        }
        let start = (row * padded) as usize;
        let row_bytes = (width * BYTES_PER_TEXEL) as usize;
        assert(start + row_bytes <= mapped.len());
        pixels.extend_from_slice(&mapped[start..start + row_bytes]);
        row = row + 1;
    }
    proof {
        lemma_unpadded_rows_len(mapped@, 4 * width as nat, padded as nat, height as nat);
        assert(4 * width * height == height * (4 * width)) by (nonlinear_arith);
    }
    pixels
}

/// The packed rows have `rows * row_bytes` bytes when every row lies inside
/// the buffer.
pub proof fn lemma_unpadded_rows_len(buffer: Seq<u8>, row_bytes: nat, stride: nat, rows: nat)
    requires
        rows > 0 ==> (rows - 1) * stride + row_bytes <= buffer.len(),
    ensures
        unpadded_rows(buffer, row_bytes, stride, rows).len() == rows * row_bytes,
    decreases rows,
{
    if rows > 0 {
        if rows > 1 {
            assert((rows - 2) * stride <= (rows - 1) * stride) by (nonlinear_arith)
                requires
                    rows >= 2,
            ;
        }
        lemma_unpadded_rows_len(buffer, row_bytes, stride, (rows - 1) as nat);
        assert(rows * row_bytes == (rows - 1) * row_bytes + row_bytes) by (nonlinear_arith);
    }
}

/// Byte `col` of row `row` in a buffer whose rows start every `stride` bytes.
pub open spec fn byte_at(bytes: Seq<u8>, stride: int, row: int, col: int) -> u8 {
    bytes[row * stride + col]
}

proof fn lemma_earlier_row_before(row: int, col: int, row_bytes: int, rows: int)
    requires
        0 <= row < rows - 1,
        0 <= col < row_bytes,
    ensures
        0 <= row * row_bytes + col < (rows - 1) * row_bytes,
{
    assert(0 <= row * row_bytes) by (nonlinear_arith)
        requires
            0 <= row,
            0 <= row_bytes,
    ;
    assert(row * row_bytes + row_bytes <= (rows - 1) * row_bytes) by (nonlinear_arith)
        requires
            row + 1 <= rows - 1,
            0 <= row_bytes,
    ;
}

/// Law: byte `col` of row `row` of the packed rows is byte `col` of row `row`
/// of the padded buffer.
pub proof fn lemma_unpadded_rows_byte(
    buffer: Seq<u8>,
    row_bytes: nat,
    stride: nat,
    rows: nat,
    row: int,
    col: int,
)
    requires
        rows > 0 ==> (rows - 1) * stride + row_bytes <= buffer.len(),
        0 <= row < rows,
        0 <= col < row_bytes,
    ensures
        byte_at(unpadded_rows(buffer, row_bytes, stride, rows), row_bytes as int, row, col)
            == byte_at(buffer, stride as int, row, col),
    decreases rows,
{
    let prev = unpadded_rows(buffer, row_bytes, stride, (rows - 1) as nat);
    if rows > 1 {
        assert((rows - 2) * stride <= (rows - 1) * stride) by (nonlinear_arith)
            requires
                rows >= 2,
        ;
    }
    lemma_unpadded_rows_len(buffer, row_bytes, stride, (rows - 1) as nat);
    if row == rows - 1 {
        assert(row * row_bytes == (rows - 1) * row_bytes);
        assert(row * stride == (rows - 1) * stride);
    } else {
        lemma_earlier_row_before(row, col, row_bytes as int, rows as int);
        lemma_unpadded_rows_byte(buffer, row_bytes, stride, (rows - 1) as nat, row, col);
    }
}

/// Law: stripping the padding from a buffer whose rows hold the bytes of
/// `pixels` gives `pixels` back, whatever the padding bytes between the rows
/// are.
pub proof fn lemma_strip_recovers_rows(
    buffer: Seq<u8>,
    pixels: Seq<u8>,
    row_bytes: nat,
    stride: nat,
    rows: nat,
)
    requires
        pixels.len() == rows * row_bytes,
        rows > 0 ==> (rows - 1) * stride + row_bytes <= buffer.len(),
        forall|row: int, col: int|
            0 <= row < rows && 0 <= col < row_bytes ==> #[trigger] byte_at(
                buffer,
                stride as int,
                row,
                col,
            ) == byte_at(pixels, row_bytes as int, row, col),
    ensures
        unpadded_rows(buffer, row_bytes, stride, rows) == pixels,
{
    let packed = unpadded_rows(buffer, row_bytes, stride, rows);
    lemma_unpadded_rows_len(buffer, row_bytes, stride, rows);
    assert forall|i: int| 0 <= i < packed.len() implies packed[i] == pixels[i] by {
        let rb = row_bytes as int;
        assert(rb > 0) by (nonlinear_arith)
            requires
                0 <= i < rows * rb,
                0 <= rb,
        ;
        let row = i / rb;
        let col = i % rb;
        vstd::arithmetic::div_mod::lemma_fundamental_div_mod(i, rb);
        assert(0 <= col < rb);
        assert(0 <= row < rows) by (nonlinear_arith)
            requires
                0 <= i < rows * rb,
                rb > 0,
                row == i / rb,
        ;
        lemma_unpadded_rows_byte(buffer, row_bytes, stride, rows, row, col);
        assert(byte_at(buffer, stride as int, row, col) == byte_at(pixels, rb, row, col));
        assert(row * rb + col == i) by (nonlinear_arith)
            requires
                i == rb * row + col,
        ;
    }
    assert(packed =~= pixels);
}

/// Turns the mapped read-back buffer of a `width` by `height` render, whose
/// rows start every `padded` bytes, into the rendered image: each row's
/// `4 * width` bytes, without the padding, row after row.
///
/// The image is refused, as an invalid-data I/O error, only where the image
/// size `4 * width` does not fit in `usize` (possible only with 32-bit `usize`
/// and `height == 0`).
pub fn read_image(mapped: &[u8], width: u32, height: u32, padded: u32) -> (result: Result<
    Image,
    TiedyeError,
>)
    requires
        readback_in_bounds(mapped@.len() as int, width, height, padded),
    ensures
        result is Ok <==> 4 * width <= usize::MAX,
        result matches Err(e) ==> e is IoError,
        result matches Ok(image) ==> {
            &&& image@.width == width
            &&& image@.height == height
            &&& image@.bytes == unpadded_rows(mapped@, 4 * width as nat, padded as nat, height as nat)
            &&& image@.bytes.len() == 4 * width * height
            &&& forall|row: int, col: int|
                0 <= row < height && 0 <= col < 4 * width ==> #[trigger] byte_at(
                    image@.bytes,
                    4 * width,
                    row,
                    col,
                ) == byte_at(mapped@, padded as int, row, col)
        },
{
    let pixels = strip_row_padding(mapped, width, height, padded);
    let ghost packed = pixels@;
    proof {
        assert forall|row: int, col: int|
            0 <= row < height && 0 <= col < 4 * width implies #[trigger] byte_at(
                packed,
                4 * width,
                row,
                col,
            ) == byte_at(mapped@, padded as int, row, col) by {
            lemma_unpadded_rows_byte(
                mapped@,
                4 * width as nat,
                padded as nat,
                height as nat,
                row,
                col,
            );
        }
    }
    match Image::from_raw(width, height, pixels) {
        Some(image) => Ok(image),
        None => Err(
            TiedyeError::IoError(invalid_data_error("failed to create image from GPU output")),
        ),
    }
}

/// Whether a `width` by `height` render can be read back with every offset
/// and size the read-back computes fitting in 32 bits.
pub open spec fn readback_fits(width: u32, height: u32) -> bool {
    &&& 4 * width <= u32::MAX - 255
    &&& padded_row_bytes(width) * height <= u32::MAX
}

/// Tests [`readback_fits`].
pub fn fits_readback(width: u32, height: u32) -> (fits: bool)
    ensures
        fits == readback_fits(width, height),
{
    if width > (u32::MAX - 255) / BYTES_PER_TEXEL {
        return false;
    }
    let padded = padded_bytes_per_row(width) as u64;
    proof {
        assert(padded * height <= u32::MAX * u32::MAX) by (nonlinear_arith)
            requires
                padded <= u32::MAX,
                height <= u32::MAX,
        ;
    }
    padded * (height as u64) <= u32::MAX as u64
}

/// Tests [`readback_in_bounds`].
pub fn readback_is_in_bounds(len: usize, width: u32, height: u32, padded: u32) -> (in_bounds: bool)
    ensures
        in_bounds == readback_in_bounds(len as int, width, height, padded),
{
    let w = width as u64;
    let h = height as u64;
    proof {
        assert(w * h <= u32::MAX * u32::MAX) by (nonlinear_arith)
            requires
                w <= u32::MAX,
                h <= u32::MAX,
        ;
        assert(4 * width * height == w * h * 4) by (nonlinear_arith)
            requires
                w == width,
                h == height,
        ;
    }
    if w * h > (u32::MAX / 4) as u64 {
        return false;
    }
    if height == 0 {
        return true;
    }
    let rows_before_last = (height - 1) as u64;
    proof {
        assert(rows_before_last * padded <= u32::MAX * u32::MAX) by (nonlinear_arith)
            requires
                rows_before_last <= u32::MAX,
                padded <= u32::MAX,
        ;
    }
    let last_start = rows_before_last * (padded as u64);
    if last_start > u32::MAX as u64 {
        return false;
    }
    last_start + w * 4 <= len as u64
}

/// How a GPU buffer may be used.
#[derive(Debug, Clone, Copy, PartialEq, Eq, Structural)]
pub struct BufferUsage {
    /// Bound as a uniform buffer.
    pub uniform: bool,
    /// Copied into.
    pub copy_dst: bool,
    /// Mapped for reading by the host.
    pub map_read: bool,
}

/// The read-back buffer is copied into and mapped for reading, nothing else.
pub open spec fn readback_usage() -> BufferUsage {
    BufferUsage { uniform: false, copy_dst: true, map_read: true }
}

/// Where the rendered texture is copied for reading: the buffer, and the
/// layout of the copy in it.
#[derive(Debug, Clone, Copy, PartialEq, Eq, Structural)]
pub struct ReadbackLayout {
    /// Distance from the start of one row to the next in the buffer.
    pub padded_bytes_per_row: u32,
    pub buffer_size: u64,
    pub usage: BufferUsage,
    /// Whether the buffer starts out mapped.
    pub mapped_at_creation: bool,
    /// Where in the buffer the first row goes.
    pub offset: u64,
    /// Rows per layer; `None` for a single-layer texture.
    pub rows_per_image: Option<u32>,
    /// Where in the rendered texture the copy starts.
    pub source: CopyTarget,
}

/// The read-back buffer for a `width` by `height` render: rows padded to the
/// copy alignment, `height` of them from offset 0, in an unmapped buffer used
/// only as a copy destination and for mapped reads; the copy takes the whole
/// texture from its start.
pub fn readback_layout(width: u32, height: u32) -> (layout: ReadbackLayout)
    requires
        readback_fits(width, height),
    ensures
        layout.padded_bytes_per_row == padded_row_bytes(width),
        layout.buffer_size == padded_row_bytes(width) * height,
        layout.usage == readback_usage(),
        !layout.mapped_at_creation,
        layout.offset == 0,
        layout.rows_per_image is None,
        layout.source == texture_start_spec(),
        readback_in_bounds(
            layout.buffer_size as int,
            width,
            height,
            layout.padded_bytes_per_row,
        ),
{
    let padded = padded_bytes_per_row(width);
    let size = padded * height;
    proof {
        lemma_readback_buffer_suffices(width, height);
    }
    ReadbackLayout {
        padded_bytes_per_row: padded,
        buffer_size: size as u64,
        usage: BufferUsage { uniform: false, copy_dst: true, map_read: true },
        mapped_at_creation: false,
        offset: 0,
        rows_per_image: None,
        source: texture_start(),
    }
}

/// A buffer of `height` rows of `padded >= 4 * width` bytes holds every row of
/// the image at stride `padded`.
proof fn lemma_padded_buffer_holds_rows(width: int, height: int, padded: int)
    requires
        0 <= width,
        0 <= height,
        4 * width <= padded,
        padded * height <= u32::MAX,
    ensures
        4 * width * height <= padded * height,
        height > 0 ==> (height - 1) * padded + 4 * width <= padded * height,
        height > 0 ==> (height - 1) * padded <= padded * height,
{
    assert(4 * width * height <= padded * height) by (nonlinear_arith)
        requires
            0 <= 4 * width <= padded,
            0 <= height,
    ;
    assert(height > 0 ==> (height - 1) * padded + padded == padded * height) by (nonlinear_arith);
}

/// Law: a padded row is the smallest multiple of 256 bytes that holds the
/// row's `4 * width` bytes: it is such a multiple, and no other such multiple
/// `other` is smaller.
pub proof fn lemma_padded_row_is_least_aligned(width: u32, other: int)
    ensures
        padded_row_bytes(width) % 256 == 0,
        4 * width <= padded_row_bytes(width),
        padded_row_bytes(width) < 4 * width + 256,
        other % 256 == 0 && 4 * width <= other ==> padded_row_bytes(width) <= other,
{
}

/// Law: the read-back buffer is copied into and mapped for reading, and is no
/// uniform buffer.
pub proof fn lemma_readback_usage()
    ensures
        !readback_usage().uniform,
        readback_usage().copy_dst,
        readback_usage().map_read,
{
}

/// Law: the buffer a read-back layout asks for holds every row the read-back
/// takes, with every offset in 32 bits.
pub proof fn lemma_readback_buffer_suffices(width: u32, height: u32)
    requires
        readback_fits(width, height),
    ensures
        readback_in_bounds(
            padded_row_bytes(width) * height,
            width,
            height,
            padded_row_bytes(width) as u32,
        ),
{
    lemma_padded_buffer_holds_rows(width as int, height as int, padded_row_bytes(width));
}

/// Law: the bytes between rows never reach the image; two buffers that agree
/// on every row's bytes give the same packed rows.
pub proof fn lemma_padding_ignored(
    first: Seq<u8>,
    second: Seq<u8>,
    row_bytes: nat,
    stride: nat,
    rows: nat,
)
    requires
        rows > 0 ==> (rows - 1) * stride + row_bytes <= first.len(),
        rows > 0 ==> (rows - 1) * stride + row_bytes <= second.len(),
        forall|row: int, col: int|
            0 <= row < rows && 0 <= col < row_bytes ==> #[trigger] byte_at(
                first,
                stride as int,
                row,
                col,
            ) == byte_at(second, stride as int, row, col),
    ensures
        unpadded_rows(first, row_bytes, stride, rows) == unpadded_rows(
            second,
            row_bytes,
            stride,
            rows,
        ),
{
    let packed = unpadded_rows(second, row_bytes, stride, rows);
    lemma_unpadded_rows_len(second, row_bytes, stride, rows);
    assert forall|row: int, col: int|
        0 <= row < rows && 0 <= col < row_bytes implies #[trigger] byte_at(
            first,
            stride as int,
            row,
            col,
        ) == byte_at(packed, row_bytes as int, row, col) by {
        lemma_unpadded_rows_byte(second, row_bytes, stride, rows, row, col);
    }
    lemma_strip_recovers_rows(first, packed, row_bytes, stride, rows);
}

} // verus!
