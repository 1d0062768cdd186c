//! Turning the pixels read back from the GPU into a PNG stream: the row layout of the
//! read-back buffer, the removal of its row padding, and the encoding.

use vstd::prelude::*;

verus! {

/// Bytes of one pixel: red, green, blue, alpha.
pub const BYTES_PER_PIXEL: u32 = 4;

/// Rows of a buffer that a texture is copied to begin at multiples of this many bytes.
pub const ROW_ALIGNMENT: u32 = 256;

/// How the rows of a page lie in the read-back buffer.
#[derive(Debug, Clone, Copy, PartialEq, Eq, Structural)]
pub struct RowLayout {
    /// The bytes of a row that hold pixels.
    pub unpadded_bytes_per_row: u32,
    /// The bytes from the start of one row to the start of the next.
    pub padded_bytes_per_row: u32,
}

/// The least multiple of the row alignment that holds `n` bytes.
pub open spec fn padded_len(n: int) -> int {
    (n + ROW_ALIGNMENT - 1) / (ROW_ALIGNMENT as int) * ROW_ALIGNMENT
}

/// The row layout for pages `width` pixels wide, or `None` where a padded row would not
/// fit 32 bits.
pub fn row_layout(width: u32) -> (r: Option<RowLayout>)
    ensures
        r is Some <==> padded_len(width * BYTES_PER_PIXEL) <= u32::MAX,
        r matches Some(l) ==> {
            &&& l.unpadded_bytes_per_row == width * BYTES_PER_PIXEL
            &&& l.padded_bytes_per_row == padded_len(width * BYTES_PER_PIXEL)
            &&& l.unpadded_bytes_per_row <= l.padded_bytes_per_row < l.unpadded_bytes_per_row
                + ROW_ALIGNMENT
            &&& l.padded_bytes_per_row % ROW_ALIGNMENT == 0
        },
{
    let unpadded: u64 = width as u64 * 4;
    let padding: u64 = (256 - unpadded % 256) % 256;
    let padded: u64 = unpadded + padding;
    assert(padded == padded_len(unpadded as int));
    if padded > u32::MAX as u64 {
        None
    } else {
        Some(
            RowLayout {
                unpadded_bytes_per_row: unpadded as u32,
                padded_bytes_per_row: padded as u32,
            },
        )
    }
}

/// The pixel bytes of the first `rows` rows of a padded buffer: of each row the first
/// `unpadded` bytes, one row after the other.
pub open spec fn unpadded_rows(buffer: Seq<u8>, padded: int, unpadded: int, rows: int) -> Seq<u8>
    decreases rows,
{
    if rows <= 0 {
        Seq::empty()
    } else {
        unpadded_rows(buffer, padded, unpadded, rows - 1) + buffer.subrange(
            (rows - 1) * padded,
            (rows - 1) * padded + unpadded,
        )
    }
}

/// Why a page was not exported.
#[derive(Debug, Clone, Copy, PartialEq, Eq, Structural)]
pub enum ExportError {
    /// The page has no pixels: its width or height is 0.
    NoPixels,
    /// A row holds more pixel bytes than the distance from one row to the next.
    RowLayout,
    /// The buffer is not `height` rows long.
    BufferSize,
    /// The encoder failed.
    Encoding,
}

/// The rows fit the buffer: every row's pixel bytes lie within its padded row, and the
/// buffer is `height` padded rows long.
pub open spec fn buffer_fits(len: int, layout: RowLayout, height: u32) -> bool {
    &&& layout.unpadded_bytes_per_row <= layout.padded_bytes_per_row
    &&& len == layout.padded_bytes_per_row * height
}

proof fn lemma_row_in_buffer(padded: int, unpadded: int, row: int, height: int)
    requires
        0 <= row < height,
        0 <= unpadded <= padded,
    ensures
        0 <= row * padded,
        row * padded + unpadded <= height * padded,
        (row + 1) * padded == row * padded + padded,
{
    assert(0 <= row * padded) by (nonlinear_arith)
        requires
            0 <= row,
            0 <= padded,
    ;
    assert((row + 1) * padded == row * padded + padded) by (nonlinear_arith);
    assert((row + 1) * padded <= height * padded) by (nonlinear_arith)
        requires
            row + 1 <= height,
            0 <= padded,
    ;
}

proof fn lemma_unpadded_len(buffer: Seq<u8>, padded: int, unpadded: int, rows: int)
    requires
        0 <= rows,
        0 <= unpadded <= padded,
        rows * padded <= buffer.len(),
    ensures
        unpadded_rows(buffer, padded, unpadded, rows).len() == rows * unpadded,
    decreases rows,
{
    if rows > 0 {
        lemma_row_in_buffer(padded, unpadded, rows - 1, rows);
        lemma_unpadded_len(buffer, padded, unpadded, rows - 1);
        assert(rows * unpadded == (rows - 1) * unpadded + unpadded) by (nonlinear_arith);
    } else {
        assert(rows * unpadded == 0) by (nonlinear_arith)
            requires
                rows == 0,
        ;
    }
}

/// Removes the padding at the end of each row of a read-back buffer.
pub fn strip_row_padding(buffer: &[u8], layout: RowLayout, height: u32) -> (r: Result<
    Vec<u8>,
    ExportError,
>)
    ensures
        r is Ok <==> buffer_fits(buffer@.len() as int, layout, height),
        r matches Ok(pixels) ==> {
            &&& pixels@ == unpadded_rows(
                buffer@,
                layout.padded_bytes_per_row as int,
                layout.unpadded_bytes_per_row as int,
                height as int,
            )
            &&& pixels@.len() == layout.unpadded_bytes_per_row * height
        },
        r matches Err(e) ==> e == (if layout.unpadded_bytes_per_row
            > layout.padded_bytes_per_row {
            ExportError::RowLayout
        } else {
            ExportError::BufferSize
        }),
{
    let padded = layout.padded_bytes_per_row as usize;
    let unpadded = layout.unpadded_bytes_per_row as usize;
    if unpadded > padded {
        return Err(ExportError::RowLayout);
    }
    assert(padded * height <= 0xffff_ffff * 0xffff_ffff) by (nonlinear_arith)
        requires
            padded <= 0xffff_ffff,
            height <= 0xffff_ffff,
    ;
    if buffer.len() as u64 != padded as u64 * height as u64 {
        return Err(ExportError::BufferSize);
    }
    let len = buffer.len();
    let mut pixels: Vec<u8> = Vec::new();
    let mut row: usize = 0;
    while row < height as usize
        invariant
            row <= height,
            len == buffer@.len(),
            unpadded <= padded,
            buffer@.len() == padded * height,
            pixels@ == unpadded_rows(buffer@, padded as int, unpadded as int, row as int),
        decreases height - row,
    {
        proof {
            lemma_row_in_buffer(padded as int, unpadded as int, row as int, height as int);
            assert(height * padded == padded * height) by (nonlinear_arith);
        }
        let start = row * padded;
        let mut col: usize = 0;
        while col < unpadded
            invariant
                col <= unpadded <= padded,
                len == buffer@.len(),
                start == row * padded,
                start + unpadded <= buffer@.len(),
                pixels@ == unpadded_rows(buffer@, padded as int, unpadded as int, row as int)
                    + buffer@.subrange(start as int, start + col),
            decreases unpadded - col,
        {
            pixels.push(buffer[start + col]);
            col = col + 1;
            assert(buffer@.subrange(start as int, start + col) == buffer@.subrange(
                start as int,
                start + col - 1,
            ).push(buffer@[start + col - 1]));
        }
        row = row + 1;
    }
    proof {
        assert(height * padded <= buffer@.len()) by (nonlinear_arith)
            requires
                buffer@.len() == padded * height,
        ;
        lemma_unpadded_len(buffer@, padded as int, unpadded as int, height as int);
        assert(height * unpadded == unpadded * height) by (nonlinear_arith);
    }
    Ok(pixels)
}

/// The PNG stream that the `png` crate writes for an image of `width` by `height` pixels of
/// eight-bit red, green, blue and alpha, given row by row.
pub uninterp spec fn png_stream(width: u32, height: u32, rgba: Seq<u8>) -> Seq<u8>;

/// The error type of the `png` crate's encoder.
#[verifier::external_type_specification]
#[verifier::external_body]
pub struct ExEncodingError(png::EncodingError);

/// Encodes an image into memory with `png::Encoder`: eight bits per channel, colour type
/// RGBA, the header written by `write_header`, the pixels by `Writer::write_image_data`,
/// the end by `Writer::finish`. The contract claims that the encoder succeeds on an image
/// with pixels and a buffer of its size, and gives the stream its name. The encoder refuses
/// only an image without pixels and a buffer of the wrong length, and writing into memory
/// does not fail.
#[verifier::external_body]
fn png_encode(width: u32, height: u32, rgba: &[u8]) -> (r: Result<Vec<u8>, png::EncodingError>)
    requires
        width > 0,
        height > 0,
        rgba@.len() == BYTES_PER_PIXEL * width * height,
    ensures
        r is Ok,
        r matches Ok(stream) ==> stream@ == png_stream(width, height, rgba@),
{
    let mut stream = Vec::new();
    let mut encoder = png::Encoder::new(&mut stream, width, height);
    encoder.set_depth(png::BitDepth::Eight);
    encoder.set_color(png::ColorType::Rgba);
    let mut writer = encoder.write_header()?;
    writer.write_image_data(rgba)?;
    writer.finish()?;
    Ok(stream)
}

/// What an export returns for what the encoder returned.
pub fn encoded(result: Result<Vec<u8>, png::EncodingError>) -> (r: Result<Vec<u8>, ExportError>)
    ensures
        match result {
            Ok(stream) => r == Ok::<Vec<u8>, ExportError>(stream),
            Err(_) => r == Err::<Vec<u8>, ExportError>(ExportError::Encoding),
        },
{
    match result {
        Ok(stream) => Ok(stream),
        Err(_) => Err(ExportError::Encoding),
    }
}

/// Encodes the pixels of a page as a PNG stream. An image with pixels and a buffer of four
/// bytes for each of them is always encoded.
pub fn encode_png(width: u32, height: u32, rgba: &[u8]) -> (r: Result<Vec<u8>, ExportError>)
    ensures
        width == 0 || height == 0 ==> r == Err::<Vec<u8>, ExportError>(ExportError::NoPixels),
        width > 0 && height > 0 && rgba@.len() != BYTES_PER_PIXEL * width * height ==> r == Err::<
            Vec<u8>,
            ExportError,
        >(ExportError::BufferSize),
        width > 0 && height > 0 && rgba@.len() == BYTES_PER_PIXEL * width * height ==> (
        r matches Ok(stream) && stream@ == png_stream(width, height, rgba@)),
{
    if width == 0 || height == 0 {
        return Err(ExportError::NoPixels);
    }
    let row: u64 = 4 * width as u64;
    assert(row * height == BYTES_PER_PIXEL * width * height) by (nonlinear_arith)
        requires
            row == BYTES_PER_PIXEL * width,
    ;
    assert(row * height <= 0x4_0000_0000 * 0x1_0000_0000) by (nonlinear_arith)
        requires
            row <= 0x4_0000_0000,
            height <= 0x1_0000_0000,
    ;
    if rgba.len() as u128 != row as u128 * height as u128 {
        return Err(ExportError::BufferSize);
    }
    encoded(png_encode(width, height, rgba))
}

/// Exports a page from the buffer its picture was read back to: the row padding is
/// removed and the pixels are encoded as a PNG stream. A page with pixels whose rows fit 32
/// bits, in a buffer of `height` padded rows, is always exported.
pub fn export_page(buffer: &[u8], width: u32, height: u32) -> (r: Result<Vec<u8>, ExportError>)
    ensures
        width == 0 || height == 0 ==> r == Err::<Vec<u8>, ExportError>(ExportError::NoPixels),
        width > 0 && height > 0 && padded_len(width * BYTES_PER_PIXEL) > u32::MAX ==> r == Err::<
            Vec<u8>,
            ExportError,
        >(ExportError::RowLayout),
        width > 0 && height > 0 && padded_len(width * BYTES_PER_PIXEL) <= u32::MAX
            && buffer@.len() != padded_len(width * BYTES_PER_PIXEL) * height ==> r == Err::<
            Vec<u8>,
            ExportError,
        >(ExportError::BufferSize),
        width > 0 && height > 0 && padded_len(width * BYTES_PER_PIXEL) <= u32::MAX
            && buffer@.len() == padded_len(width * BYTES_PER_PIXEL) * height ==> (r matches Ok(
            stream,
        ) && stream@ == png_stream(
            width,
            height,
            unpadded_rows(
                buffer@,
                padded_len(width * BYTES_PER_PIXEL),
                width * BYTES_PER_PIXEL,
                height as int,
            ),
        )),
{
    if width == 0 || height == 0 {
        return Err(ExportError::NoPixels);
    }
    let layout = match row_layout(width) {
        Some(l) => l,
        None => {
            return Err(ExportError::RowLayout);
        },
    };
    match strip_row_padding(buffer, layout, height) {
        Ok(pixels) => {
            assert(layout.unpadded_bytes_per_row * height == BYTES_PER_PIXEL * width * height)
                by (nonlinear_arith)
                requires
                    layout.unpadded_bytes_per_row == width * BYTES_PER_PIXEL,
            ;
            encode_png(width, height, pixels.as_slice())
        },
        Err(e) => Err(e),
    }
}

} // verus!
