use vstd::prelude::*;

use crate::ppu::palette::rgb::{Rgb, Rgbt};
use crate::ppu::pixel_index::{PixelColumn, PixelColumnIterator, PixelIndex, PixelRow, COLUMN_COUNT, ROW_COUNT};
use crate::ppu::render::ppm::Ppm;

verus! {

/// The RGBA bytes of one pixel as a frame stores it: opaque, since there is no transparency.
pub open spec fn rgba(rgb: Rgb) -> Seq<u8> {
    seq![rgb.red, rgb.green, rgb.blue, 0xFF]
}

/// An image held in memory: four bytes (red, green, blue, alpha) for each pixel, row by row.
pub struct Frame {
    buffer: Vec<u8>,
    pixel_width: usize,
    pixel_height: usize,
}

impl Frame {
    pub closed spec fn spec_buffer(&self) -> Seq<u8> {
        self.buffer@
    }

    pub closed spec fn spec_pixel_width(&self) -> usize {
        self.pixel_width
    }

    pub closed spec fn spec_pixel_height(&self) -> usize {
        self.pixel_height
    }

    pub open spec fn wf(&self) -> bool {
        self.spec_buffer().len() == 4 * self.spec_pixel_width() * self.spec_pixel_height()
    }

    /// A black (all zero) image of the given size.
    pub fn dummy(pixel_width: usize, pixel_height: usize) -> (r: Frame)
        requires
            4 * pixel_width <= usize::MAX,
            4 * pixel_width * pixel_height <= usize::MAX,
        ensures
            r.wf(),
            r.spec_pixel_width() == pixel_width,
            r.spec_pixel_height() == pixel_height,
            r.spec_buffer() == Seq::new((4 * pixel_width * pixel_height) as nat, |i: int| 0u8),
    {
        Frame {
            buffer: zeroes(4 * pixel_width * pixel_height),
            pixel_width,
            pixel_height,
        }
    }

    /// A black image the size of the visible screen.
    pub fn exact_sized() -> (r: Frame)
        ensures
            r.wf(),
            r.spec_pixel_width() == COLUMN_COUNT,
            r.spec_pixel_height() == ROW_COUNT,
            r.spec_buffer() == Seq::new((4 * COLUMN_COUNT * ROW_COUNT) as nat, |i: int| 0u8),
    {
        Self::dummy(PixelColumn::COLUMN_COUNT, PixelRow::ROW_COUNT)
    }

    pub fn frame(&self) -> (r: &[u8])
        ensures
            r@ == self.spec_buffer(),
    {
        self.buffer.as_slice()
    }

    pub fn pixel_count(&self) -> (r: usize)
        requires
            self.spec_pixel_width() * self.spec_pixel_height() <= usize::MAX,
        ensures
            r == self.spec_pixel_width() * self.spec_pixel_height(),
    {
        self.pixel_width() * self.pixel_height()
    }

    pub fn pixel_width(&self) -> (r: usize)
        ensures
            r == self.spec_pixel_width(),
    {
        self.pixel_width
    }

    pub fn pixel_height(&self) -> (r: usize)
        ensures
            r == self.spec_pixel_height(),
    {
        self.pixel_height
    }

    /// Changes the size; the new image is all zero.
    pub fn resize(&mut self, new_pixel_width: usize, new_pixel_height: usize)
        requires
            4 * new_pixel_width <= usize::MAX,
            4 * new_pixel_width * new_pixel_height <= usize::MAX,
        ensures
            final(self).wf(),
            final(self).spec_pixel_width() == new_pixel_width,
            final(self).spec_pixel_height() == new_pixel_height,
            final(self).spec_buffer() == Seq::new((4 * new_pixel_width * new_pixel_height) as nat, |i: int| 0u8),
    {
        self.buffer = zeroes(4 * new_pixel_width * new_pixel_height);
        self.pixel_width = new_pixel_width;
        self.pixel_height = new_pixel_height;
    }

    /// Writes an opaque pixel.
    pub fn set_pixel(&mut self, column: usize, row: usize, rgb: Rgb)
        requires
            old(self).wf(),
            column < old(self).spec_pixel_width(),
            row < old(self).spec_pixel_height(),
        ensures
            final(self).wf(),
            final(self).spec_pixel_width() == old(self).spec_pixel_width(),
            final(self).spec_pixel_height() == old(self).spec_pixel_height(),
            ({
                let index = 4 * (old(self).spec_pixel_width() * row + column);
                final(self).spec_buffer() == old(self).spec_buffer()
                    .update(index, rgb.red)
                    .update(index + 1, rgb.green)
                    .update(index + 2, rgb.blue)
                    .update(index + 3, 0xFF)
            }),
    {
        let width = self.pixel_width;
        let height = self.pixel_height;
        let len = self.buffer.len();
        proof {
            lemma_pixel_offset(width as int, height as int, column as int, row as int);
        }
        assert(width * row <= width * row + column);
        let index = 4 * (width * row + column);
        self.buffer.set(index, rgb.red());
        self.buffer.set(index + 1, rgb.green());
        self.buffer.set(index + 2, rgb.blue());
        // No transparency.
        self.buffer.set(index + 3, 0xFF);
    }

    /// Copies the red, green and blue bytes of each pixel (dropping alpha) into `data`.
    pub fn write_all_pixel_data(&self, data: &mut [u8])
        requires
            self.wf(),
            old(data)@.len() == 3 * self.spec_pixel_width() * self.spec_pixel_height(),
        ensures
            final(data)@.len() == old(data)@.len(),
            forall|p: int, k: int| 0 <= p < self.spec_pixel_width() * self.spec_pixel_height() && 0 <= k < 3
                ==> #[trigger] final(data)@[3 * p + k] == self.spec_buffer()[4 * p + k],
    {
        let ghost n = self.spec_pixel_width() * self.spec_pixel_height();
        proof {
            lemma_four_times(n, self.spec_pixel_width() as int, self.spec_pixel_height() as int);
        }
        let count = data.len() / 3;
        assert(count == n);
        assert(self.buffer.len() == 4 * n);
        let mut p: usize = 0;
        while p < count
            invariant
                count == n,
                4 * n <= usize::MAX,
                p <= count,
                data@.len() == 3 * n,
                self.spec_buffer().len() == 4 * n,
                forall|q: int, k: int| 0 <= q < p && 0 <= k < 3
                    ==> #[trigger] data@[3 * q + k] == self.spec_buffer()[4 * q + k],
            decreases count - p,
        {
            assert(4 * p + 3 < 4 * n);
            data[3 * p] = self.buffer[4 * p];
            data[3 * p + 1] = self.buffer[4 * p + 1];
            data[3 * p + 2] = self.buffer[4 * p + 2];
            proof {
                assert forall|q: int, k: int| 0 <= q < p + 1 && 0 <= k < 3
                    implies #[trigger] data@[3 * q + k] == self.spec_buffer()[4 * q + k] by {
                    if q < p {
                        assert(3 * q + k < 3 * p);
                    } else {
                        assert(q == p);
                        assert(k == 0 || k == 1 || k == 2);
                    }
                }
            }
            p = p + 1;
        }
    }

    /// The image as a binary PPM.
    pub fn to_ppm(&self) -> (r: Ppm)
        requires
            self.wf(),
        ensures
            r.wf(),
            r.spec_width() == self.spec_pixel_width(),
            r.spec_height() == self.spec_pixel_height(),
            forall|p: int, k: int| 0 <= p < self.spec_pixel_width() * self.spec_pixel_height() && 0 <= k < 3
                ==> #[trigger] r.spec_data()[3 * p + k] == self.spec_buffer()[4 * p + k],
    {
        let ghost n = self.spec_pixel_width() * self.spec_pixel_height();
        proof {
            lemma_four_times(n, self.spec_pixel_width() as int, self.spec_pixel_height() as int);
        }
        assert(self.buffer.len() == 4 * n);
        let count = self.pixel_count();
        let mut data = zeroes(3 * count);
        self.write_all_pixel_data(data.as_mut_slice());
        Ppm::new(data, self.pixel_width(), self.pixel_height())
    }
}

proof fn lemma_four_times(n: int, w: int, h: int)
    requires
        n == w * h,
        w >= 0,
        h >= 0,
    ensures
        4 * w * h == 4 * n,
        3 * w * h == 3 * n,
{
    assert(4 * w * h == 4 * (w * h)) by (nonlinear_arith);
    assert(3 * w * h == 3 * (w * h)) by (nonlinear_arith);
}

proof fn lemma_pixel_offset(w: int, h: int, column: int, row: int)
    requires
        0 <= column < w,
        0 <= row < h,
    ensures
        w * row + column < w * h,
        4 * (w * row + column) + 3 < 4 * w * h,
{
    assert(w * row + column < w * h) by (nonlinear_arith)
        requires
            0 <= column < w,
            0 <= row < h,
    ;
    assert(4 * w * h == 4 * (w * h)) by (nonlinear_arith);
}

/// `n` zero bytes.
fn zeroes(n: usize) -> (r: Vec<u8>)
    ensures
        r@ == Seq::new(n as nat, |i: int| 0u8),
{
    let mut r: Vec<u8> = Vec::new();
    while r.len() < n
        invariant
            r.len() <= n,
            r@ == Seq::new(r.len() as nat, |i: int| 0u8),
        decreases n - r.len(),
    {
        r.push(0);
    }
    r
}

/// Values for each pixel of a screen-sized grid, row by row.
#[derive(Clone, Debug)]
pub struct FrameBuffer<T> {
    buffer: Vec<T>,
    column_count: u16,
    row_count: u16,
}

impl<T> FrameBuffer<T> {
    pub closed spec fn spec_cells(&self) -> Seq<T> {
        self.buffer@
    }

    pub closed spec fn spec_column_count(&self) -> u16 {
        self.column_count
    }

    pub closed spec fn spec_row_count(&self) -> u16 {
        self.row_count
    }

    pub open spec fn wf(&self) -> bool {
        self.spec_cells().len() == self.spec_column_count() * self.spec_row_count()
    }

    /// The value at a column and row (`index` by a column and row pair).
    pub fn get(&self, column: u16, row: u16) -> (r: &T)
        requires
            self.wf(),
            column < self.spec_column_count(),
            row < self.spec_row_count(),
        ensures
            *r == self.spec_cells()[row * self.spec_column_count() + column],
    {
        proof {
            lemma_cell_offset(self.column_count as int, self.row_count as int, column as int, row as int);
        }
        assert((row as usize) * (self.column_count as usize) + (column as usize) <= 0xFFFF_FFFF) by (nonlinear_arith)
            requires
                row < 0x1_0000,
                column < 0x1_0000,
                self.column_count < 0x1_0000,
        ;
        &self.buffer[(row as usize) * (self.column_count as usize) + (column as usize)]
    }

    /// The value at a pixel of the screen (`index` by a pixel index), which is laid out with 256
    /// columns whatever the column count.
    pub fn get_at(&self, index: PixelIndex) -> (r: &T)
        requires
            index.spec_to_usize() < self.spec_cells().len(),
        ensures
            *r == self.spec_cells()[index.spec_to_usize()],
    {
        &self.buffer[index.to_usize()]
    }

    /// Sets the value at a pixel of the screen (`index_mut` by a pixel index).
    pub fn set_at(&mut self, index: PixelIndex, value: T)
        requires
            index.spec_to_usize() < old(self).spec_cells().len(),
        ensures
            final(self).spec_cells() == old(self).spec_cells().update(index.spec_to_usize(), value),
            final(self).spec_column_count() == old(self).spec_column_count(),
            final(self).spec_row_count() == old(self).spec_row_count(),
    {
        self.buffer.set(index.to_usize(), value);
    }
}

proof fn lemma_cell_offset(columns: int, rows: int, column: int, row: int)
    requires
        0 <= column < columns,
        0 <= row < rows,
    ensures
        row * columns + column < columns * rows,
{
    assert(row * columns + column < columns * rows) by (nonlinear_arith)
        requires
            0 <= column < columns,
            0 <= row < rows,
    ;
}

impl<T: Copy> FrameBuffer<T> {
    /// A buffer of the given size with every cell holding `value`.
    pub fn filled(column_count: u16, row_count: u16, value: T) -> (r: FrameBuffer<T>)
        requires
            column_count * row_count <= u16::MAX,
        ensures
            r.wf(),
            r.spec_column_count() == column_count,
            r.spec_row_count() == row_count,
            r.spec_cells() == Seq::new((column_count * row_count) as nat, |i: int| value),
    {
        let n = (column_count * row_count) as usize;
        let mut buffer: Vec<T> = Vec::new();
        while buffer.len() < n
            invariant
                buffer.len() <= n,
                buffer@ == Seq::new(buffer.len() as nat, |i: int| value),
            decreases n - buffer.len(),
        {
            buffer.push(value);
        }
        FrameBuffer { buffer, column_count, row_count }
    }
}

impl<T: Default> FrameBuffer<T> {
    /// Resets every pixel of a screen row to the default value.
    pub fn clear_row(&mut self, row: PixelRow)
        requires
            row.wf(),
            COLUMN_COUNT * (row@ + 1) <= old(self).spec_cells().len(),
        ensures
            final(self).spec_cells().len() == old(self).spec_cells().len(),
            final(self).spec_column_count() == old(self).spec_column_count(),
            final(self).spec_row_count() == old(self).spec_row_count(),
            forall|i: int| 0 <= i < final(self).spec_cells().len() && !(COLUMN_COUNT * row@ <= i < COLUMN_COUNT * (row@ + 1))
                ==> #[trigger] final(self).spec_cells()[i] == old(self).spec_cells()[i],
            forall|i: int| COLUMN_COUNT * row@ <= i < COLUMN_COUNT * (row@ + 1)
                ==> call_ensures(T::default, (), #[trigger] final(self).spec_cells()[i]),
    {
        let ghost start = COLUMN_COUNT * row@;
        let mut columns = PixelColumn::iter();
        let mut done: usize = 0;
        while done < COLUMN_COUNT
            invariant
                done <= COLUMN_COUNT,
                columns.spec_next_column() == done,
                row.wf(),
                start == COLUMN_COUNT * row@,
                start + COLUMN_COUNT <= old(self).spec_cells().len(),
                self.spec_cells().len() == old(self).spec_cells().len(),
                self.spec_column_count() == old(self).spec_column_count(),
                self.spec_row_count() == old(self).spec_row_count(),
                forall|i: int| 0 <= i < self.spec_cells().len() && !(start <= i < start + done)
                    ==> #[trigger] self.spec_cells()[i] == old(self).spec_cells()[i],
                forall|i: int| start <= i < start + done ==> call_ensures(T::default, (), #[trigger] self.spec_cells()[i]),
            decreases COLUMN_COUNT - done,
        {
            let column = match columns.next() {
                Some(column) => column,
                None => {
                    assert(false);
                    return;
                },
            };
            proof {
                PixelColumn::lemma_spec_new(done as u8);
            }
            let index = PixelIndex { column, row };
            self.buffer.set(index.to_usize(), T::default());
            done = done + 1;
        }
    }
}

impl<T: Copy + Default> FrameBuffer<T> {
    /// Puts the buffer back to its default: the size of the screen, every cell the default value.
    pub fn clear(&mut self)
        ensures
            final(self).wf(),
            final(self).spec_column_count() == COLUMN_COUNT,
            final(self).spec_row_count() == ROW_COUNT,
            exists|d: T| call_ensures(T::default, (), d)
                && final(self).spec_cells() == Seq::new((COLUMN_COUNT * ROW_COUNT) as nat, |i: int| d),
    {
        *self = FrameBuffer::default();
    }
}

impl<T: Copy + Default> Default for FrameBuffer<T> {
    fn default() -> (r: FrameBuffer<T>)
        ensures
            r.wf(),
            r.spec_column_count() == COLUMN_COUNT,
            r.spec_row_count() == ROW_COUNT,
            exists|d: T| call_ensures(T::default, (), d)
                && r.spec_cells() == Seq::new((COLUMN_COUNT * ROW_COUNT) as nat, |i: int| d),
    {
        let d = T::default();
        Self::filled(PixelColumn::COLUMN_COUNT as u16, PixelRow::ROW_COUNT as u16, d)
    }
}

/// Whether column (or row) `c` is on a line that runs from `first` to `last`, wrapping around
/// past the edge when `last` is not after `first` (so a line whose ends meet covers everything).
pub open spec fn in_wrapped_range(c: int, first: int, last: int) -> bool {
    if first < last {
        first <= c <= last
    } else {
        c >= first || c <= last
    }
}

/// A `WIDTH` by `HEIGHT` image for debug screens, whose transparent pixels show a background color.
pub struct DebugBuffer<const WIDTH: usize, const HEIGHT: usize> {
    buffer: Vec<Rgbt>,
    background_rgb: Rgb,
}

impl<const WIDTH: usize, const HEIGHT: usize> DebugBuffer<WIDTH, HEIGHT> {
    /// Every pixel of the `WIDTH` by `HEIGHT` grid is present.
    pub open spec fn wf(&self) -> bool {
        self.spec_pixels().len() == WIDTH * HEIGHT
    }

    /// The pixels, row by row.
    pub closed spec fn spec_pixels(&self) -> Seq<Rgbt> {
        self.buffer@
    }

    pub closed spec fn spec_background_rgb(&self) -> Rgb {
        self.background_rgb
    }

    /// The color shown at a pixel: the background where the pixel is transparent.
    pub open spec fn spec_shown(&self, column: int, row: int) -> Rgb {
        match self.spec_pixels()[row * WIDTH + column] {
            Rgbt::Opaque(rgb) => rgb,
            Rgbt::Transparent => self.spec_background_rgb(),
        }
    }

    /// An all transparent buffer.
    pub fn new(background_rgb: Rgb) -> (r: DebugBuffer<WIDTH, HEIGHT>)
        requires
            WIDTH * HEIGHT <= usize::MAX,
        ensures
            r.wf(),
            r.spec_pixels() == Seq::new((WIDTH * HEIGHT) as nat, |i: int| Rgbt::Transparent),
            r.spec_background_rgb() == background_rgb,
    {
        let n = WIDTH * HEIGHT;
        let mut buffer: Vec<Rgbt> = Vec::new();
        while buffer.len() < n
            invariant
                n == WIDTH * HEIGHT,
                buffer.len() <= n,
                buffer@ == Seq::new(buffer.len() as nat, |i: int| Rgbt::Transparent),
            decreases n - buffer.len(),
        {
            buffer.push(Rgbt::Transparent);
        }
        DebugBuffer { buffer, background_rgb }
    }

    /// Draws a screen-sized buffer of values with its top left corner at (`left_column`,
    /// `top_row`), turning each value into a color with `transform`.
    pub fn place_frame_buffer_with<F, T: Copy>(
        &mut self,
        left_column: usize,
        top_row: usize,
        frame: &FrameBuffer<T>,
        transform: F,
    )
        where F: Fn(T) -> Rgb,
        requires
            old(self).wf(),
            left_column + COLUMN_COUNT <= WIDTH,
            top_row + ROW_COUNT <= HEIGHT,
            COLUMN_COUNT * ROW_COUNT <= frame.spec_cells().len(),
            forall|value: T| call_requires(transform, (value,)),
        ensures
            final(self).wf(),
            final(self).spec_background_rgb() == old(self).spec_background_rgb(),
            forall|r: int, c: int| 0 <= r < HEIGHT && 0 <= c < WIDTH
                && top_row <= r < top_row + ROW_COUNT && left_column <= c < left_column + COLUMN_COUNT
                ==> #[trigger] cell_placed(
                    final(self).spec_pixels(),
                    r * WIDTH + c,
                    frame.spec_cells()[COLUMN_COUNT * (r - top_row) + (c - left_column)],
                    transform,
                ),
            forall|r: int, c: int| 0 <= r < HEIGHT && 0 <= c < WIDTH
                && !(top_row <= r < top_row + ROW_COUNT && left_column <= c < left_column + COLUMN_COUNT)
                ==> #[trigger] final(self).spec_pixels()[r * WIDTH + c] == old(self).spec_pixels()[r * WIDTH + c],
    {
        let mut row: usize = 0;
        while row < ROW_COUNT
            invariant
                row <= ROW_COUNT,
                left_column + COLUMN_COUNT <= WIDTH,
                top_row + ROW_COUNT <= HEIGHT,
                COLUMN_COUNT * ROW_COUNT <= frame.spec_cells().len(),
                forall|value: T| call_requires(transform, (value,)),
                self.wf(),
                self.spec_background_rgb() == old(self).spec_background_rgb(),
                forall|r: int, c: int| 0 <= r < HEIGHT && 0 <= c < WIDTH
                    && top_row <= r < top_row + row && left_column <= c < left_column + COLUMN_COUNT
                    ==> #[trigger] cell_placed(
                        self.spec_pixels(),
                        r * WIDTH + c,
                        frame.spec_cells()[COLUMN_COUNT * (r - top_row) + (c - left_column)],
                        transform,
                    ),
                forall|r: int, c: int| 0 <= r < HEIGHT && 0 <= c < WIDTH
                    && !(top_row <= r < top_row + row && left_column <= c < left_column + COLUMN_COUNT)
                    ==> #[trigger] self.spec_pixels()[r * WIDTH + c] == old(self).spec_pixels()[r * WIDTH + c],
            decreases ROW_COUNT - row,
        {
            let mut column: usize = 0;
            while column < COLUMN_COUNT
                invariant
                    row < ROW_COUNT,
                    column <= COLUMN_COUNT,
                    left_column + COLUMN_COUNT <= WIDTH,
                    top_row + ROW_COUNT <= HEIGHT,
                    COLUMN_COUNT * ROW_COUNT <= frame.spec_cells().len(),
                    forall|value: T| call_requires(transform, (value,)),
                    self.wf(),
                    self.spec_background_rgb() == old(self).spec_background_rgb(),
                    forall|r: int, c: int| 0 <= r < HEIGHT && 0 <= c < WIDTH
                        && ((top_row <= r < top_row + row && left_column <= c < left_column + COLUMN_COUNT)
                        || (r == top_row + row && left_column <= c < left_column + column))
                        ==> #[trigger] cell_placed(
                            self.spec_pixels(),
                            r * WIDTH + c,
                            frame.spec_cells()[COLUMN_COUNT * (r - top_row) + (c - left_column)],
                            transform,
                        ),
                    forall|r: int, c: int| 0 <= r < HEIGHT && 0 <= c < WIDTH
                        && !((top_row <= r < top_row + row && left_column <= c < left_column + COLUMN_COUNT)
                        || (r == top_row + row && left_column <= c < left_column + column))
                        ==> #[trigger] self.spec_pixels()[r * WIDTH + c] == old(self).spec_pixels()[r * WIDTH + c],
                decreases COLUMN_COUNT - column,
            {
                proof {
                    lemma_grid_index(WIDTH as int, HEIGHT as int, left_column + column, top_row + row);
                    lemma_grid_index(COLUMN_COUNT as int, ROW_COUNT as int, column as int, row as int);
                    assert(COLUMN_COUNT * row + column == row * COLUMN_COUNT + column) by (nonlinear_arith);
                }
                let value = frame.buffer[COLUMN_COUNT * row + column];
                let rgb = transform(value);
                let ghost before = self.spec_pixels();
                self.write(left_column + column, top_row + row, rgb);
                proof {
                    let target = (top_row + row) * WIDTH + (left_column + column);
                    assert forall|r: int, c: int| 0 <= r < HEIGHT && 0 <= c < WIDTH
                        && ((top_row <= r < top_row + row && left_column <= c < left_column + COLUMN_COUNT)
                        || (r == top_row + row && left_column <= c < left_column + column + 1))
                        implies #[trigger] cell_placed(
                            self.spec_pixels(),
                            r * WIDTH + c,
                            frame.spec_cells()[COLUMN_COUNT * (r - top_row) + (c - left_column)],
                            transform,
                        ) by {
                        lemma_grid_index(WIDTH as int, HEIGHT as int, c, r);
                        if r == top_row + row && c == left_column + column {
                            lemma_cell_placed_now(self.spec_pixels(), r * WIDTH + c, value, transform, rgb);
                        } else {
                            lemma_grid_index_distinct(WIDTH as int, c, r, left_column + column, top_row + row);
                            lemma_cell_placed_kept(
                                before,
                                self.spec_pixels(),
                                r * WIDTH + c,
                                frame.spec_cells()[COLUMN_COUNT * (r - top_row) + (c - left_column)],
                                transform,
                            );
                        }
                    }
                    assert forall|r: int, c: int| 0 <= r < HEIGHT && 0 <= c < WIDTH
                        && !((top_row <= r < top_row + row && left_column <= c < left_column + COLUMN_COUNT)
                        || (r == top_row + row && left_column <= c < left_column + column + 1))
                        implies #[trigger] self.spec_pixels()[r * WIDTH + c] == old(self).spec_pixels()[r * WIDTH + c] by {
                        lemma_grid_index(WIDTH as int, HEIGHT as int, c, r);
                        lemma_grid_index_distinct(WIDTH as int, c, r, left_column + column, top_row + row);
                        assert(self.spec_pixels()[r * WIDTH + c] == before[r * WIDTH + c]);
                    }
                }
                column = column + 1;
            }
            row = row + 1;
        }
    }

    /// Draws a horizontal line across `row` (taken modulo the height) from `left_column` to
    /// `right_column` (taken modulo the width), wrapping around the right edge if need be.
    pub fn place_wrapping_horizontal_line(&mut self, row: usize, left_column: usize, right_column: usize, rgb: Rgb)
        requires
            old(self).wf(),
            WIDTH > 0,
            HEIGHT > 0,
        ensures
            final(self).wf(),
            final(self).spec_background_rgb() == old(self).spec_background_rgb(),
            final(self).spec_pixels().len() == old(self).spec_pixels().len(),
            forall|r: int, c: int| 0 <= r < HEIGHT && 0 <= c < WIDTH ==>
                #[trigger] final(self).spec_pixels()[r * WIDTH + c] == (
                    if r == (row % HEIGHT) as int && in_wrapped_range(c, (left_column % WIDTH) as int, (right_column % WIDTH) as int) {
                        Rgbt::Opaque(rgb)
                    } else {
                        old(self).spec_pixels()[r * WIDTH + c]
                    }
                ),
    {
        let row = row % HEIGHT;
        let left_column = left_column % WIDTH;
        let right_column = right_column % WIDTH;
        if left_column < right_column {
            self.fill_row_span(row, left_column, right_column + 1, rgb);
        } else {
            self.fill_row_span(row, left_column, WIDTH, rgb);
            self.fill_row_span(row, 0, right_column + 1, rgb);
        }
    }

    /// Colors the columns from `start` up to (not including) `end` of one row.
    fn fill_row_span(&mut self, row: usize, start: usize, end: usize, rgb: Rgb)
        requires
            old(self).wf(),
            row < HEIGHT,
            start <= end <= WIDTH,
        ensures
            final(self).wf(),
            final(self).spec_background_rgb() == old(self).spec_background_rgb(),
            final(self).spec_pixels().len() == old(self).spec_pixels().len(),
            forall|r: int, c: int| 0 <= r < HEIGHT && 0 <= c < WIDTH ==>
                #[trigger] final(self).spec_pixels()[r * WIDTH + c] == (
                    if r == row && start <= c < end {
                        Rgbt::Opaque(rgb)
                    } else {
                        old(self).spec_pixels()[r * WIDTH + c]
                    }
                ),
    {
        let mut column = start;
        while column < end
            invariant
                row < HEIGHT,
                start <= column <= end <= WIDTH,
                self.spec_background_rgb() == old(self).spec_background_rgb(),
                self.spec_pixels().len() == old(self).spec_pixels().len(),
                self.spec_pixels().len() == WIDTH * HEIGHT,
                forall|r: int, c: int| 0 <= r < HEIGHT && 0 <= c < WIDTH ==>
                    #[trigger] self.spec_pixels()[r * WIDTH + c] == (
                        if r == row && start <= c < column {
                            Rgbt::Opaque(rgb)
                        } else {
                            old(self).spec_pixels()[r * WIDTH + c]
                        }
                    ),
            decreases end - column,
        {
            self.write(column, row, rgb);
            proof {
                assert forall|r: int, c: int| 0 <= r < HEIGHT && 0 <= c < WIDTH implies
                    #[trigger] self.spec_pixels()[r * WIDTH + c] == (
                        if r == row && start <= c < column + 1 {
                            Rgbt::Opaque(rgb)
                        } else {
                            old(self).spec_pixels()[r * WIDTH + c]
                        }
                    ) by {
                    lemma_grid_index(WIDTH as int, HEIGHT as int, c, r);
                    lemma_grid_index(WIDTH as int, HEIGHT as int, column as int, row as int);
                    if !(r == row && c == column) {
                        lemma_grid_index_distinct(WIDTH as int, c, r, column as int, row as int);
                    }
                }
            }
            column = column + 1;
        }
    }

    /// Colors the rows from `start` up to (not including) `end` of one column.
    fn fill_column_span(&mut self, column: usize, start: usize, end: usize, rgb: Rgb)
        requires
            old(self).wf(),
            column < WIDTH,
            start <= end <= HEIGHT,
        ensures
            final(self).wf(),
            final(self).spec_background_rgb() == old(self).spec_background_rgb(),
            final(self).spec_pixels().len() == old(self).spec_pixels().len(),
            forall|r: int, c: int| 0 <= r < HEIGHT && 0 <= c < WIDTH ==>
                #[trigger] final(self).spec_pixels()[r * WIDTH + c] == (
                    if c == column && start <= r < end {
                        Rgbt::Opaque(rgb)
                    } else {
                        old(self).spec_pixels()[r * WIDTH + c]
                    }
                ),
    {
        let mut row = start;
        while row < end
            invariant
                column < WIDTH,
                start <= row <= end <= HEIGHT,
                self.spec_background_rgb() == old(self).spec_background_rgb(),
                self.spec_pixels().len() == old(self).spec_pixels().len(),
                self.spec_pixels().len() == WIDTH * HEIGHT,
                forall|r: int, c: int| 0 <= r < HEIGHT && 0 <= c < WIDTH ==>
                    #[trigger] self.spec_pixels()[r * WIDTH + c] == (
                        if c == column && start <= r < row {
                            Rgbt::Opaque(rgb)
                        } else {
                            old(self).spec_pixels()[r * WIDTH + c]
                        }
                    ),
            decreases end - row,
        {
            self.write(column, row, rgb);
            proof {
                assert forall|r: int, c: int| 0 <= r < HEIGHT && 0 <= c < WIDTH implies
                    #[trigger] self.spec_pixels()[r * WIDTH + c] == (
                        if c == column && start <= r < row + 1 {
                            Rgbt::Opaque(rgb)
                        } else {
                            old(self).spec_pixels()[r * WIDTH + c]
                        }
                    ) by {
                    lemma_grid_index(WIDTH as int, HEIGHT as int, c, r);
                    lemma_grid_index(WIDTH as int, HEIGHT as int, column as int, row as int);
                    if !(r == row && c == column) {
                        lemma_grid_index_distinct(WIDTH as int, c, r, column as int, row as int);
                    }
                }
            }
            row = row + 1;
        }
    }

    /// Draws a vertical line down `column` (taken modulo the width) from `top_row` to
    /// `bottom_row` (taken modulo the height), wrapping around the bottom edge if need be.
    pub fn place_wrapping_vertical_line(&mut self, column: usize, top_row: usize, bottom_row: usize, rgb: Rgb)
        requires
            old(self).wf(),
            WIDTH > 0,
            HEIGHT > 0,
        ensures
            final(self).wf(),
            final(self).spec_background_rgb() == old(self).spec_background_rgb(),
            final(self).spec_pixels().len() == old(self).spec_pixels().len(),
            forall|r: int, c: int| 0 <= r < HEIGHT && 0 <= c < WIDTH ==>
                #[trigger] final(self).spec_pixels()[r * WIDTH + c] == (
                    if c == (column % WIDTH) as int && in_wrapped_range(r, (top_row % HEIGHT) as int, (bottom_row % HEIGHT) as int) {
                        Rgbt::Opaque(rgb)
                    } else {
                        old(self).spec_pixels()[r * WIDTH + c]
                    }
                ),
    {
        let column = column % WIDTH;
        let top_row = top_row % HEIGHT;
        let bottom_row = bottom_row % HEIGHT;
        if top_row < bottom_row {
            self.fill_column_span(column, top_row, bottom_row + 1, rgb);
        } else {
            self.fill_column_span(column, top_row, HEIGHT, rgb);
            self.fill_column_span(column, 0, bottom_row + 1, rgb);
        }
    }

    /// Writes the RGBA bytes of every shown pixel (opaque, the background where transparent) into
    /// `buffer`, row by row.
    pub fn copy_to_rgba_buffer(&self, buffer: &mut [u8])
        requires
            self.wf(),
            4 * WIDTH * HEIGHT <= old(buffer)@.len(),
        ensures
            final(buffer)@.len() == old(buffer)@.len(),
            forall|r: int, c: int, k: int| 0 <= r < HEIGHT && 0 <= c < WIDTH && 0 <= k < 4 ==>
                #[trigger] final(buffer)@[4 * (r * WIDTH + c) + k] == rgba(self.spec_shown(c, r))[k],
            forall|i: int| 4 * WIDTH * HEIGHT <= i < old(buffer)@.len() ==> #[trigger] final(buffer)@[i] == old(buffer)@[i],
    {
        let n = self.buffer.len();
        assert(4 * WIDTH * HEIGHT == 4 * n) by (nonlinear_arith)
            requires
                n == WIDTH * HEIGHT,
        ;
        let buffer_len = buffer.len();
        let mut p: usize = 0;
        while p < n
            invariant
                n == WIDTH * HEIGHT,
                self.spec_pixels().len() == n,
                4 * n <= buffer@.len(),
                buffer@.len() == old(buffer)@.len(),
                buffer_len == buffer@.len(),
                p <= n,
                forall|q: int, k: int| 0 <= q < p && 0 <= k < 4 ==>
                    #[trigger] buffer@[4 * q + k] == rgba(self.spec_shown_at(q))[k],
                forall|i: int| 4 * n <= i < buffer@.len() ==> #[trigger] buffer@[i] == old(buffer)@[i],
            decreases n - p,
        {
            let pixel = match self.buffer[p] {
                Rgbt::Opaque(rgb) => rgb,
                Rgbt::Transparent => self.background_rgb,
            };
            buffer[4 * p] = pixel.red();
            buffer[4 * p + 1] = pixel.green();
            buffer[4 * p + 2] = pixel.blue();
            // No transparency.
            buffer[4 * p + 3] = 0xFF;
            proof {
                assert forall|q: int, k: int| 0 <= q < p + 1 && 0 <= k < 4 implies
                    #[trigger] buffer@[4 * q + k] == rgba(self.spec_shown_at(q))[k] by {
                    if q < p {
                        assert(4 * q + k < 4 * p);
                    } else {
                        assert(k == 0 || k == 1 || k == 2 || k == 3);
                    }
                }
            }
            p = p + 1;
        }
        proof {
            assert forall|r: int, c: int, k: int| 0 <= r < HEIGHT && 0 <= c < WIDTH && 0 <= k < 4 implies
                #[trigger] buffer@[4 * (r * WIDTH + c) + k] == rgba(self.spec_shown(c, r))[k] by {
                lemma_grid_index(WIDTH as int, HEIGHT as int, c, r);
                assert(buffer@[4 * (r * WIDTH + c) + k] == rgba(self.spec_shown_at(r * WIDTH + c))[k]);
            }
        }
    }

    /// The color shown at position `p` of the row-by-row pixels.
    pub open spec fn spec_shown_at(&self, p: int) -> Rgb {
        match self.spec_pixels()[p] {
            Rgbt::Opaque(rgb) => rgb,
            Rgbt::Transparent => self.spec_background_rgb(),
        }
    }

    fn write(&mut self, column: usize, row: usize, rgb: Rgb)
        requires
            old(self).wf(),
            column < WIDTH,
            row < HEIGHT,
        ensures
            final(self).wf(),
            final(self).spec_pixels() == old(self).spec_pixels().update(row * WIDTH + column, Rgbt::Opaque(rgb)),
            final(self).spec_background_rgb() == old(self).spec_background_rgb(),
    {
        self.write_rgbt(column, row, Rgbt::Opaque(rgb));
    }

    /// Sets the pixel at a column and row.
    pub fn write_rgbt(&mut self, column: usize, row: usize, rgbt: Rgbt)
        requires
            old(self).wf(),
            column < WIDTH,
            row < HEIGHT,
        ensures
            final(self).wf(),
            final(self).spec_pixels() == old(self).spec_pixels().update(row * WIDTH + column, rgbt),
            final(self).spec_background_rgb() == old(self).spec_background_rgb(),
    {
        proof {
            lemma_grid_index(WIDTH as int, HEIGHT as int, column as int, row as int);
        }
        let len = self.buffer.len();
        assert(row * WIDTH + column < len);
        self.buffer.set(row * WIDTH + column, rgbt);
    }
}

/// A column and row inside a grid have their own place in its row-by-row layout.
proof fn lemma_grid_index(width: int, height: int, column: int, row: int)
    requires
        0 <= column < width,
        0 <= row < height,
    ensures
        0 <= row * width + column < width * height,
        row * width <= row * width + column,
{
    assert(row * width + column < width * height) by (nonlinear_arith)
        requires
            0 <= column < width,
            0 <= row < height,
    ;
    assert(0 <= row * width) by (nonlinear_arith)
        requires
            0 <= row,
            0 <= width,
    ;
}

proof fn lemma_grid_index_distinct(width: int, c1: int, r1: int, c2: int, r2: int)
    requires
        0 <= c1 < width,
        0 <= c2 < width,
        !(c1 == c2 && r1 == r2),
    ensures
        r1 * width + c1 != r2 * width + c2,
{
    if r1 == r2 {
    } else if r1 < r2 {
        assert(r1 * width + c1 < r2 * width + c2) by (nonlinear_arith)
            requires
                0 <= c1 < width,
                0 <= c2,
                r1 < r2,
        ;
    } else {
        assert(r2 * width + c2 < r1 * width + c1) by (nonlinear_arith)
            requires
                0 <= c2 < width,
                0 <= c1,
                r2 < r1,
        ;
    }
}

/// The pixel at `index` shows, opaque, a color that `transform` may give for `value`.
pub open spec fn cell_placed<F: Fn(T) -> Rgb, T>(pixels: Seq<Rgbt>, index: int, value: T, transform: F) -> bool {
    exists|rgb: Rgb| call_ensures(transform, (value,), rgb) && pixels[index] == Rgbt::Opaque(rgb)
}

proof fn lemma_cell_placed_now<F: Fn(T) -> Rgb, T>(pixels: Seq<Rgbt>, index: int, value: T, transform: F, rgb: Rgb)
    requires
        call_ensures(transform, (value,), rgb),
        pixels[index] == Rgbt::Opaque(rgb),
    ensures
        cell_placed(pixels, index, value, transform),
{
}

proof fn lemma_cell_placed_kept<F: Fn(T) -> Rgb, T>(before: Seq<Rgbt>, after: Seq<Rgbt>, index: int, value: T, transform: F)
    requires
        cell_placed(before, index, value, transform),
        after[index] == before[index],
    ensures
        cell_placed(after, index, value, transform),
{
    let x = choose|x: Rgb| call_ensures(transform, (value,), x) && before[index] == Rgbt::Opaque(x);
    assert(call_ensures(transform, (value,), x) && after[index] == Rgbt::Opaque(x));
}

} // verus!
