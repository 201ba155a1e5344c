//! The attenuation image drawn over the spectrogram.
//!
//! A gate map arrives as one opacity per analyzed cell. It is turned into an
//! image of bounded size whose rows follow the frequency scale of the tiles
//! underneath, and handed over as a single still frame.

use vstd::prelude::*;

verus! {

/// Upper bound on the image width, so the job cost does not track clip length.
pub const MASK_IMAGE_WIDTH: usize = 512;

/// Height of the image; it is stretched over the plane at paint time.
pub const MASK_IMAGE_HEIGHT: usize = 192;

/// An RGBA pixel buffer of the `image` crate.
#[verifier::external_body]
pub struct PixelBuffer {
    inner: image::RgbaImage,
}

/// A list of animation frames in a `smallvec` list with room for one inline.
#[verifier::external_body]
pub struct FrameList {
    inner: smallvec::SmallVec<[image::Frame; 1]>,
}

/// `image::Frame`, carried through as it is.
#[verifier::external_type_specification]
#[verifier::external_body]
pub struct ExFrame(image::Frame);

/// The bytes a pixel buffer holds.
pub uninterp spec fn buffer_bytes(buffer: PixelBuffer) -> Seq<u8>;

/// Width and height of a pixel buffer.
pub uninterp spec fn buffer_size(buffer: PixelBuffer) -> (u32, u32);

/// The bytes of the picture a frame shows.
pub uninterp spec fn frame_bytes(frame: image::Frame) -> Seq<u8>;

/// Width and height of the picture a frame shows.
pub uninterp spec fn frame_size(frame: image::Frame) -> (u32, u32);

/// The picture bytes of each frame in a list, in order.
pub uninterp spec fn list_bytes(list: FrameList) -> Seq<Seq<u8>>;

/// The picture sizes of each frame in a list, in order.
pub uninterp spec fn list_sizes(list: FrameList) -> Seq<(u32, u32)>;

/// Whether `len` bytes hold four for each pixel, with a row length that fits in
/// a machine word.
pub open spec fn pixels_fit(width: nat, height: nat, len: nat) -> bool {
    &&& 4 * width <= usize::MAX
    &&& 4 * width * height <= len
}

/// Calls `image::ImageBuffer::from_raw` for RGBA pixels.
///
/// The buffer is made exactly when four bytes per pixel fit in the bytes given
/// (and the length of one row fits in a machine word); it keeps the bytes and
/// the dimensions as they are.
#[verifier::external_body]
fn rgba_from_raw(width: u32, height: u32, pixels: Vec<u8>) -> (buffer: Option<PixelBuffer>)
    ensures
        buffer is Some == pixels_fit(width as nat, height as nat, pixels@.len()),
        buffer is Some ==> buffer_bytes(buffer->0) == pixels@,
        buffer is Some ==> buffer_size(buffer->0) == (width, height),
{
    image::ImageBuffer::from_raw(width, height, pixels).map(|inner| PixelBuffer { inner })
}

/// Calls `image::Frame::new`: a frame without delay or offset that shows the
/// whole buffer.
#[verifier::external_body]
fn still_frame(buffer: PixelBuffer) -> (frame: image::Frame)
    ensures
        frame_bytes(frame) == buffer_bytes(buffer),
        frame_size(frame) == buffer_size(buffer),
{
    image::Frame::new(buffer.inner)
}

/// Calls `smallvec::SmallVec::from_elem`: a list of `n` copies of the frame.
/// Only lists that stay inline are made.
#[verifier::external_body]
fn frames_from_elem(frame: image::Frame, n: usize) -> (list: FrameList)
    requires
        n <= 1,
    ensures
        list_bytes(list) == Seq::new(n as nat, |i: int| frame_bytes(frame)),
        list_sizes(list) == Seq::new(n as nat, |i: int| frame_size(frame)),
{
    FrameList { inner: smallvec::SmallVec::from_elem(frame, n) }
}

/// Reads one frame of the list through `smallvec`'s slice access.
#[verifier::external_body]
fn frame_at(list: &FrameList, index: usize) -> (frame: &image::Frame)
    requires
        index < list_bytes(*list).len(),
    ensures
        frame_bytes(*frame) == list_bytes(*list)[index as int],
        frame_size(*frame) == list_sizes(*list)[index as int],
{
    &list.inner[index]
}

/// Opacity of every analyzed time-frequency cell, column by column.
///
/// An untouched cell has opacity zero, so it is invisible.
pub struct GateMask {
    pub columns: usize,
    pub bins: usize,
    pub alpha: Vec<u8>,
}

impl GateMask {
    /// One opacity per cell.
    pub open spec fn wf(self) -> bool {
        self.alpha@.len() == self.columns * self.bins
    }

    /// Opacity of the cell at a column and a frequency bin.
    pub open spec fn cell(self, column: int, bin: int) -> u8 {
        self.alpha@[column * self.bins + bin]
    }

    /// Whether there is anything to draw.
    pub open spec fn drawable(self) -> bool {
        self.columns != 0 && self.bins >= 2
    }
}

/// Width of the image for a map with so many columns.
pub open spec fn image_width(columns: nat) -> nat {
    if columns < MASK_IMAGE_WIDTH { columns } else { MASK_IMAGE_WIDTH as nat }
}

/// The map column shown at pixel column `x`.
pub open spec fn mask_column(columns: nat, x: int) -> int {
    x * columns / (image_width(columns) as int)
}

/// The frequency bin shown at an image row; a bin past the end shows the last.
pub open spec fn mask_bin(bins: nat, row_bin: int) -> int {
    if row_bin < bins { row_bin } else { bins - 1 }
}

/// The four bytes of one pixel.
pub open spec fn mask_pixel(
    mask: GateMask,
    tint: (u8, u8, u8),
    row_bins: Seq<usize>,
    row: int,
    x: int,
) -> Seq<u8> {
    seq![
        tint.0,
        tint.1,
        tint.2,
        mask.cell(mask_column(mask.columns as nat, x), mask_bin(mask.bins as nat, row_bins[row] as int)),
    ]
}

/// The bytes of the first `count` pixels of a row, left to right.
pub open spec fn row_bytes(
    mask: GateMask,
    tint: (u8, u8, u8),
    row_bins: Seq<usize>,
    row: int,
    count: nat,
) -> Seq<u8>
    decreases count,
{
    if count == 0 {
        Seq::empty()
    } else {
        row_bytes(mask, tint, row_bins, row, (count - 1) as nat) + mask_pixel(
            mask,
            tint,
            row_bins,
            row,
            count - 1,
        )
    }
}

/// The bytes of the first `rows` image rows, top to bottom.
pub open spec fn image_bytes(
    mask: GateMask,
    tint: (u8, u8, u8),
    row_bins: Seq<usize>,
    rows: nat,
) -> Seq<u8>
    decreases rows,
{
    if rows == 0 {
        Seq::empty()
    } else {
        image_bytes(mask, tint, row_bins, (rows - 1) as nat) + row_bytes(
            mask,
            tint,
            row_bins,
            rows - 1,
            image_width(mask.columns as nat),
        )
    }
}

proof fn lemma_row_len(mask: GateMask, tint: (u8, u8, u8), row_bins: Seq<usize>, row: int, count: nat)
    ensures
        row_bytes(mask, tint, row_bins, row, count).len() == 4 * count,
    decreases count,
{
    if count > 0 {
        lemma_row_len(mask, tint, row_bins, row, (count - 1) as nat);
    }
}

proof fn lemma_image_len(mask: GateMask, tint: (u8, u8, u8), row_bins: Seq<usize>, rows: nat)
    ensures
        image_bytes(mask, tint, row_bins, rows).len() == 4 * image_width(mask.columns as nat) * rows,
    decreases rows,
{
    let w = image_width(mask.columns as nat);
    if rows > 0 {
        lemma_image_len(mask, tint, row_bins, (rows - 1) as nat);
        lemma_row_len(mask, tint, row_bins, rows - 1, w);
        assert(4 * w * (rows - 1) + 4 * w == 4 * w * rows) by (nonlinear_arith)
            requires
                rows > 0,
        ;
    } else {
        assert(4 * w * rows == 0) by (nonlinear_arith)
            requires
                rows == 0,
        ;
    }
}

/// A map column stays inside the map, and a cell of it inside the opacities.
proof fn lemma_cell_inside(columns: nat, bins: nat, x: int, bin: int)
    requires
        columns > 0,
        0 <= x < image_width(columns),
        0 <= bin < bins,
    ensures
        0 <= mask_column(columns, x) < columns,
        0 <= mask_column(columns, x) * bins + bin < columns * bins,
{
    let w = image_width(columns) as int;
    let c = mask_column(columns, x);
    assert(0 <= x * columns / w < columns) by (nonlinear_arith)
        requires
            0 <= x < w,
            columns > 0,
    ;
    assert(0 <= c * bins + bin < columns * bins) by (nonlinear_arith)
        requires
            0 <= c < columns,
            0 <= bin < bins,
    ;
}

/// Turns a gate map into an image whose rows show the given bins.
///
/// `row_bins` names, for each image row from the top, the frequency bin that
/// the frequency scale puts there. Nothing is drawn for a map without columns
/// or with fewer than two bins.
pub fn build_mask_image(mask: &GateMask, tint: (u8, u8, u8), row_bins: &Vec<usize>) -> (image: Option<FrameList>)
    requires
        mask.wf(),
        row_bins@.len() == MASK_IMAGE_HEIGHT,
        mask.columns * MASK_IMAGE_WIDTH <= usize::MAX,
    ensures
        image is Some <==> mask.drawable(),
        image matches Some(list) ==> {
            &&& list_bytes(list) == seq![
                image_bytes(*mask, tint, row_bins@, MASK_IMAGE_HEIGHT as nat),
            ]
            &&& list_sizes(list) == seq![
                (image_width(mask.columns as nat) as u32, MASK_IMAGE_HEIGHT as u32),
            ]
        },
{
    if mask.columns == 0 || mask.bins < 2 {
        return None;
    }
    let width: usize = if mask.columns < MASK_IMAGE_WIDTH { mask.columns } else { MASK_IMAGE_WIDTH };
    let mut pixels: Vec<u8> = Vec::new();
    let mut row: usize = 0;
    while row < MASK_IMAGE_HEIGHT
        invariant
            mask.wf(),
            mask.drawable(),
            row <= MASK_IMAGE_HEIGHT,
            row_bins@.len() == MASK_IMAGE_HEIGHT,
            mask.columns * MASK_IMAGE_WIDTH <= usize::MAX,
            width == image_width(mask.columns as nat),
            pixels@ == image_bytes(*mask, tint, row_bins@, row as nat),
        decreases MASK_IMAGE_HEIGHT - row,
    {
        let bin: usize = if row_bins[row] < mask.bins { row_bins[row] } else { mask.bins - 1 };
        let ghost above = pixels@;
        let mut x: usize = 0;
        while x < width
            invariant
                mask.wf(),
                mask.drawable(),
                row < MASK_IMAGE_HEIGHT,
                row_bins@.len() == MASK_IMAGE_HEIGHT,
                mask.columns * MASK_IMAGE_WIDTH <= usize::MAX,
                width == image_width(mask.columns as nat),
                bin == mask_bin(mask.bins as nat, row_bins@[row as int] as int),
                bin < mask.bins,
                x <= width,
                pixels@ == above + row_bytes(*mask, tint, row_bins@, row as int, x as nat),
            decreases width - x,
        {
            proof {
                lemma_cell_inside(mask.columns as nat, mask.bins as nat, x as int, bin as int);
                assert(x * mask.columns <= usize::MAX) by (nonlinear_arith)
                    requires
                        x < MASK_IMAGE_WIDTH,
                        mask.columns * MASK_IMAGE_WIDTH <= usize::MAX,
                ;
                assert(mask_column(mask.columns as nat, x as int) * mask.bins >= 0) by (nonlinear_arith)
                    requires
                        mask_column(mask.columns as nat, x as int) >= 0,
                ;
            }
            let ghost before = pixels@;
            let column: usize = x * mask.columns / width;
            proof {
                assert(column == mask_column(mask.columns as nat, x as int));
                assert(mask.alpha.len() == mask.columns * mask.bins);
            }
            let alpha: u8 = mask.alpha[column * mask.bins + bin];
            pixels.push(tint.0);
            pixels.push(tint.1);
            pixels.push(tint.2);
            pixels.push(alpha);
            proof {
                let pixel = mask_pixel(*mask, tint, row_bins@, row as int, x as int);
                assert(pixels@ =~= before + pixel);
                assert(pixels@ =~= above + row_bytes(*mask, tint, row_bins@, row as int, (x + 1) as nat));
            }
            x += 1;
        }
        row += 1;
    }
    proof {
        lemma_image_len(*mask, tint, row_bins@, MASK_IMAGE_HEIGHT as nat);
    }
    match rgba_from_raw(width as u32, MASK_IMAGE_HEIGHT as u32, pixels) {
        None => None,
        Some(buffer) => {
            let list = frames_from_elem(still_frame(buffer), 1);
            proof {
                assert(list_bytes(list) =~= seq![
                    image_bytes(*mask, tint, row_bins@, MASK_IMAGE_HEIGHT as nat),
                ]);
                assert(list_sizes(list) =~= seq![
                    (image_width(mask.columns as nat) as u32, MASK_IMAGE_HEIGHT as u32),
                ]);
            }
            Some(list)
        },
    }
}

/// The still frame of a mask image.
pub fn mask_frame(image: &FrameList) -> (frame: Option<&image::Frame>)
    ensures
        frame is Some <==> list_bytes(*image).len() > 0,
        frame matches Some(f) ==> frame_bytes(*f) == list_bytes(*image)[0] && frame_size(*f)
            == list_sizes(*image)[0],
{
    if frame_count(image) == 0 {
        None
    } else {
        Some(frame_at(image, 0))
    }
}

/// Calls `smallvec::SmallVec::len`: the number of frames in the list.
#[verifier::external_body]
fn frame_count(list: &FrameList) -> (count: usize)
    ensures
        count == list_bytes(*list).len(),
        count == list_sizes(*list).len(),
{
    list.inner.len()
}

// ------------------------------------------------------------------- laws

/// Every pixel of the image has the tint, and the opacity of the cell that its
/// column and its row stand for.
pub proof fn law_every_pixel_shows_its_cell(
    mask: GateMask,
    tint: (u8, u8, u8),
    row_bins: Seq<usize>,
    rows: nat,
    row: int,
    x: int,
)
    requires
        0 <= row < rows,
        0 <= x < image_width(mask.columns as nat),
    ensures
        ({
            let at = 4 * (row * image_width(mask.columns as nat) + x);
            let bytes = image_bytes(mask, tint, row_bins, rows);
            &&& 0 <= at
            &&& at + 4 <= bytes.len()
            &&& bytes.subrange(at, at + 4) == mask_pixel(mask, tint, row_bins, row, x)
        }),
    decreases rows,
{
    let w = image_width(mask.columns as nat);
    let at = 4 * (row * w + x);
    let above = image_bytes(mask, tint, row_bins, (rows - 1) as nat);
    let bytes = image_bytes(mask, tint, row_bins, rows);
    lemma_image_len(mask, tint, row_bins, rows);
    lemma_image_len(mask, tint, row_bins, (rows - 1) as nat);
    lemma_row_len(mask, tint, row_bins, rows - 1, w);
    assert(0 <= row * w) by (nonlinear_arith)
        requires
            0 <= row,
    ;
    if row < rows - 1 {
        law_every_pixel_shows_its_cell(mask, tint, row_bins, (rows - 1) as nat, row, x);
        assert(bytes.subrange(at, at + 4) =~= above.subrange(at, at + 4));
    } else {
        assert(4 * w * (rows - 1) == 4 * (row * w)) by (nonlinear_arith)
            requires
                row == rows - 1,
        ;
        lemma_row_pixel(mask, tint, row_bins, row, w, x);
        let last = row_bytes(mask, tint, row_bins, row, w);
        assert(above.len() == 4 * (row * w));
        assert(bytes.subrange(at, at + 4) =~= last.subrange(4 * x, 4 * x + 4));
    }
}

proof fn lemma_row_pixel(
    mask: GateMask,
    tint: (u8, u8, u8),
    row_bins: Seq<usize>,
    row: int,
    count: nat,
    x: int,
)
    requires
        0 <= x < count,
    ensures
        row_bytes(mask, tint, row_bins, row, count).len() == 4 * count,
        row_bytes(mask, tint, row_bins, row, count).subrange(4 * x, 4 * x + 4) == mask_pixel(
            mask,
            tint,
            row_bins,
            row,
            x,
        ),
    decreases count,
{
    let bytes = row_bytes(mask, tint, row_bins, row, count);
    let before = row_bytes(mask, tint, row_bins, row, (count - 1) as nat);
    lemma_row_len(mask, tint, row_bins, row, count);
    lemma_row_len(mask, tint, row_bins, row, (count - 1) as nat);
    if x < count - 1 {
        lemma_row_pixel(mask, tint, row_bins, row, (count - 1) as nat, x);
        assert(bytes.subrange(4 * x, 4 * x + 4) =~= before.subrange(4 * x, 4 * x + 4));
    } else {
        assert(bytes.subrange(4 * x, 4 * x + 4) =~= mask_pixel(mask, tint, row_bins, row, x));
    }
}

/// In every pixel of the picture stand the tint and, as its opacity, what was
/// measured: in the column whose share of the picture the pixel falls into, at
/// the frequency of its row, or at the highest where the row lies above it.
pub proof fn law_the_picture_shows_what_was_measured(
    mask: GateMask,
    tint: (u8, u8, u8),
    row_bins: Seq<usize>,
    rows: nat,
    row: int,
    x: int,
    column: int,
    bin: int,
)
    requires
        mask.columns > 0,
        mask.bins > 0,
        0 <= row < rows,
        0 <= x < image_width(mask.columns as nat),
        column * image_width(mask.columns as nat) <= x * mask.columns < (column + 1) * image_width(
            mask.columns as nat,
        ),
        bin == if row_bins[row] < mask.bins {
            row_bins[row] as int
        } else {
            mask.bins - 1
        },
    ensures
        ({
            let at = 4 * (row * image_width(mask.columns as nat) + x);
            let bytes = image_bytes(mask, tint, row_bins, rows);
            &&& bytes[at] == tint.0
            &&& bytes[at + 1] == tint.1
            &&& bytes[at + 2] == tint.2
            &&& bytes[at + 3] == mask.alpha@[column * mask.bins + bin]
        }),
{
    let w = image_width(mask.columns as nat) as int;
    let at = 4 * (row * w + x);
    let bytes = image_bytes(mask, tint, row_bins, rows);
    law_every_pixel_shows_its_cell(mask, tint, row_bins, rows, row, x);
    let pixel = bytes.subrange(at, at + 4);
    assert(pixel[0] == bytes[at] && pixel[1] == bytes[at + 1] && pixel[2] == bytes[at + 2]
        && pixel[3] == bytes[at + 3]);
    let n = mask.columns as int;
    assert(x * n / w == column) by (nonlinear_arith)
        requires
            column * w <= x * n < (column + 1) * w,
            w > 0,
    ;
}

/// The picture is as wide as there are columns, up to 512 pixels, and holds four
/// bytes for each pixel.
pub proof fn law_the_picture_has_its_size(
    mask: GateMask,
    tint: (u8, u8, u8),
    row_bins: Seq<usize>,
    rows: nat,
)
    ensures
        mask.columns <= 512 ==> image_width(mask.columns as nat) == mask.columns,
        mask.columns > 512 ==> image_width(mask.columns as nat) == 512,
        image_bytes(mask, tint, row_bins, rows).len() == 4 * image_width(mask.columns as nat)
            * rows,
{
    lemma_image_len(mask, tint, row_bins, rows);
}

/// There is something to draw where something was measured, at two frequencies
/// at least.
pub proof fn law_something_measured_can_be_drawn(mask: GateMask)
    ensures
        mask.drawable() <==> mask.columns > 0 && mask.bins >= 2,
        mask.wf() <==> mask.alpha@.len() == mask.columns * mask.bins,
{
}

/// The picture is 512 pixels wide at most, and 192 high.
pub proof fn law_the_picture_is_bounded()
    ensures
        MASK_IMAGE_WIDTH == 512,
        8 * MASK_IMAGE_HEIGHT == 3 * MASK_IMAGE_WIDTH,
{
}

} // verus!
