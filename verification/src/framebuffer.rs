//! The pixel grid that the caller draws into.

use vstd::prelude::*;

verus! {

/// One colour, four 8-bit channels.
#[derive(Copy, Clone, Debug, PartialEq, Eq, Hash, Structural)]
pub struct Pixel {
    pub red: u8,
    pub green: u8,
    pub blue: u8,
    pub alpha: u8,
}

impl Pixel {
    /// Opaque black.
    pub open spec fn spec_black() -> Pixel {
        Pixel { red: 0, green: 0, blue: 0, alpha: 255 }
    }

    /// The four channels in the order in which they lie in memory.
    pub open spec fn channels(self) -> Seq<u8> {
        seq![self.red, self.green, self.blue, self.alpha]
    }

    /// The pixel that has these four channels.
    pub open spec fn of_channels(channels: Seq<u8>) -> Pixel {
        Pixel { red: channels[0], green: channels[1], blue: channels[2], alpha: channels[3] }
    }

    #[verifier::when_used_as_spec(spec_black)]
    pub fn black() -> (pixel: Pixel)
        ensures
            pixel == Pixel::spec_black(),
    {
        Pixel { red: 0, green: 0, blue: 0, alpha: 255 }
    }

    /// The pixel as it is stored: its channels side by side.
    fn to_cell(self) -> (cell: [u8; 4])
        ensures
            cell@ == self.channels(),
    {
        [self.red, self.green, self.blue, self.alpha]
    }
}

/// The bytes of a row-major pixel sequence: four per pixel, red first.
pub open spec fn pixel_bytes(pixels: Seq<Pixel>) -> Seq<u8> {
    Seq::new(4 * pixels.len(), |i: int| pixels[i / 4].channels()[i % 4])
}

/// The bytes of a sequence of four-byte cells, cell after cell.
pub open spec fn cell_bytes(cells: Seq<[u8; 4]>) -> Seq<u8> {
    Seq::new(4 * cells.len(), |i: int| cells[i / 4]@[i % 4])
}

/// `bytemuck::cast_slice` from four-byte cells to bytes. The result is the
/// cells' own memory read as bytes: four for each cell, in the cells' order.
/// A cell has the size of four bytes and the alignment of one, so the cast
/// cannot fail.
#[verifier::external_body]
fn cast_cells(cells: &Vec<[u8; 4]>) -> (bytes: &[u8])
    ensures
        bytes@ == cell_bytes(cells@),
{
    bytemuck::cast_slice(cells)
}

/// A coordinate inside a `width * height` grid has its row-major place inside the grid.
pub proof fn lemma_index_in_grid(x: int, y: int, width: int, height: int)
    requires
        0 <= x < width,
        0 <= y < height,
    ensures
        0 <= y * width + x < width * height,
{
    assert(y * width + x < width * height) by (nonlinear_arith)
        requires
            0 <= x < width,
            0 <= y < height,
    ;
    assert(0 <= y * width) by (nonlinear_arith)
        requires
            0 <= y,
            0 <= width,
    ;
}

/// A pixel written at `(x, y)` shows in the bytes at offset `4 * (y * width +
/// x)`, channel by channel, and every other byte is as it was.
pub proof fn lemma_written_pixel_bytes(
    pixels: Seq<Pixel>,
    width: int,
    height: int,
    x: int,
    y: int,
    pixel: Pixel,
)
    requires
        pixels.len() == width * height,
        0 <= x < width,
        0 <= y < height,
    ensures
        ({
            let offset = 4 * (y * width + x);
            let bytes = pixel_bytes(pixels.update(y * width + x, pixel));
            &&& bytes.len() == pixel_bytes(pixels).len()
            &&& 0 <= offset
            &&& offset + 4 <= bytes.len()
            &&& bytes[offset] == pixel.red
            &&& bytes[offset + 1] == pixel.green
            &&& bytes[offset + 2] == pixel.blue
            &&& bytes[offset + 3] == pixel.alpha
            &&& forall|i: int|
                0 <= i < bytes.len() && !(offset <= i < offset + 4) ==> bytes[i] == pixel_bytes(
                    pixels,
                )[i]
        }),
{
    lemma_index_in_grid(x, y, width, height);
}

/// A grid has as many pixels as its width times its height.
pub proof fn lemma_pixel_count(buffer: FrameBuffer)
    ensures
        buffer@.len() == buffer.spec_width() * buffer.spec_height(),
{
    assert(0 <= buffer.width * buffer.height) by (nonlinear_arith)
        requires
            0 <= buffer.width,
            0 <= buffer.height,
    ;
}

/// A dense grid of pixels, row after row.
pub struct FrameBuffer {
    width: usize,
    height: usize,
    pixels: Vec<[u8; 4]>,
}

impl View for FrameBuffer {
    type V = Seq<Pixel>;

    /// The pixels in row-major order: the pixel at `(x, y)` is at `y * width + x`.
    closed spec fn view(&self) -> Seq<Pixel> {
        Seq::new(
            (self.width * self.height) as nat,
            |i: int| Pixel::of_channels(self.pixels@[i]@),
        )
    }
}

impl FrameBuffer {
    #[verifier::type_invariant]
    spec fn well_formed(self) -> bool {
        self.pixels.len() == self.width * self.height
    }

    pub closed spec fn spec_width(&self) -> usize {
        self.width
    }

    pub closed spec fn spec_height(&self) -> usize {
        self.height
    }

    /// A buffer of `width * height` black pixels.
    pub fn new(width: usize, height: usize) -> (buffer: FrameBuffer)
        requires
            width * height <= usize::MAX,
        ensures
            buffer.spec_width() == width,
            buffer.spec_height() == height,
            buffer@.len() == width * height,
            buffer@ == Seq::new((width * height) as nat, |i: int| Pixel::spec_black()),
    {
        let count: usize = width * height;
        let black = Pixel::black().to_cell();
        let mut pixels: Vec<[u8; 4]> = Vec::new();
        while pixels.len() < count
            invariant
                pixels@.len() <= count,
                black@ == Pixel::spec_black().channels(),
                forall|i: int| 0 <= i < pixels@.len() ==> pixels@[i] == black,
            decreases count - pixels@.len(),
        {
            pixels.push(black);
        }
        let buffer = FrameBuffer { width, height, pixels };
        assert(buffer@ =~= Seq::new((width * height) as nat, |i: int| Pixel::spec_black()));
        buffer
    }

    /// Overwrites the pixel at `(x, y)`. Coordinates outside the grid change nothing.
    pub fn set_pixel(&mut self, x: usize, y: usize, pixel: Pixel)
        ensures
            final(self).spec_width() == old(self).spec_width(),
            final(self).spec_height() == old(self).spec_height(),
            final(self)@.len() == old(self)@.len(),
            final(self)@ == if x < old(self).spec_width() && y < old(self).spec_height() {
                old(self)@.update(y * old(self).spec_width() + x, pixel)
            } else {
                old(self)@
            },
    {
        proof {
            use_type_invariant(&*self);
        }
        if x < self.width && y < self.height {
            proof {
                lemma_index_in_grid(x as int, y as int, self.width as int, self.height as int);
            }
            let i = self.coord_to_index(x, y);
            let cell = pixel.to_cell();
            self.pixels[i] = cell;
            assert(self@ =~= old(self)@.update(i as int, pixel));
        }
    }

    /// The place of `(x, y)` in row-major order.
    fn coord_to_index(&self, x: usize, y: usize) -> (index: usize)
        requires
            y * self.spec_width() + x <= usize::MAX,
        ensures
            index == y * self.spec_width() + x,
    {
        assert(0 <= y * self.width <= y * self.width + x) by (nonlinear_arith)
            requires
                0 <= y,
                0 <= self.width,
                0 <= x,
        ;
        y * self.width + x
    }

    /// The whole grid as bytes, for upload: four per pixel in the order red,
    /// green, blue, alpha, pixels in row-major order.
    pub fn as_bytes(&self) -> (bytes: &[u8])
        ensures
            bytes@ == pixel_bytes(self@),
            bytes@.len() == 4 * (self.spec_width() * self.spec_height()),
    {
        proof {
            use_type_invariant(self);
        }
        let bytes = cast_cells(&self.pixels);
        assert(bytes@ =~= pixel_bytes(self@));
        bytes
    }

    #[verifier::when_used_as_spec(spec_width)]
    pub fn width(&self) -> (width: usize)
        ensures
            width == self.spec_width(),
    {
        self.width
    }

    #[verifier::when_used_as_spec(spec_height)]
    pub fn height(&self) -> (height: usize)
        ensures
            height == self.spec_height(),
    {
        self.height
    }
}

} // verus!
