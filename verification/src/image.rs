use vstd::prelude::*;

use crate::utils::HandleAllocator;

verus! {

/// Every texture the demo uploads stores four bytes per pixel.
pub const BYTES_PER_PIXEL: usize = 4;

/// Raw pixel data for one texture, in row-major order: the byte for channel
/// `c` of the pixel at row `y`, column `x` sits at `(y * width + x) *
/// bytes_per_pixel + c`.
pub struct ImageData {
    pub bytes_per_pixel: usize,
    pub width: usize,
    pub height: usize,
    pub data: Vec<u8>,
}

/// A pixel group strictly before row `rows` starts before the end of those
/// rows.
proof fn lemma_pixel_index_bound(y2: int, x2: int, c: int, rows: int, w: int, b: int)
    by (nonlinear_arith)
    requires
        0 <= y2 < rows,
        0 <= x2 < w,
        0 <= c < b,
    ensures
        (y2 * w + x2) * b + c < rows * w * b,
        0 <= (y2 * w + x2) * b + c,
{
}

impl ImageData {
    /// The data holds exactly one `bytes_per_pixel` group per pixel.
    pub open spec fn wf(self) -> bool {
        &&& self.bytes_per_pixel >= 1
        &&& self.data@.len() == self.width * self.height * self.bytes_per_pixel
    }

    pub fn get_data_size(&self) -> (r: usize)
        requires
            self.wf(),
        ensures
            r == self.width * self.height * self.bytes_per_pixel,
            r == self.data@.len(),
    {
        let n = self.data.len();
        proof {
            assert(self.width * self.height <= self.width * self.height * self.bytes_per_pixel
                && self.width * self.height * self.bytes_per_pixel
                    == (self.width * self.height) * self.bytes_per_pixel)
                by (nonlinear_arith)
                requires self.bytes_per_pixel >= 1, self.width >= 0, self.height >= 0;
        }
        self.width * self.height * self.bytes_per_pixel
    }

    /// Copies out the channel bytes of the pixel at column `x`, row `y`.
    pub fn get_pixel(&self, x: usize, y: usize) -> (r: Vec<u8>)
        requires
            self.wf(),
            x < self.width,
            y < self.height,
        ensures
            r@ == self.data@.subrange(
                ((y * self.width + x) * self.bytes_per_pixel) as int,
                ((y * self.width + x) * self.bytes_per_pixel + self.bytes_per_pixel) as int,
            ),
    {
        let n = self.data.len();
        proof {
            assert(y * self.width <= y * self.width + x
                && (y * self.width + x) <= (y * self.width + x) * self.bytes_per_pixel
                && (y * self.width + x) * self.bytes_per_pixel + self.bytes_per_pixel
                    <= self.width * self.height * self.bytes_per_pixel) by (nonlinear_arith)
                requires
                    0 <= x < self.width,
                    0 <= y < self.height,
                    self.bytes_per_pixel >= 1,
                ;
        }
        let begin = (y * self.width + x) * self.bytes_per_pixel;
        let mut r: Vec<u8> = Vec::new();
        let mut c: usize = 0;
        while c < self.bytes_per_pixel
            invariant
                self.wf(),
                c <= self.bytes_per_pixel,
                begin == (y * self.width + x) * self.bytes_per_pixel,
                begin + self.bytes_per_pixel <= self.data@.len(),
                self.data@.len() <= usize::MAX,
                r@ == self.data@.subrange(begin as int, begin + c),
            decreases self.bytes_per_pixel - c,
        {
            r.push(self.data[begin + c]);
            proof {
                assert(r@ =~= self.data@.subrange(begin as int, begin + c + 1));
            }
            c = c + 1;
        }
        r
    }
}

/// The byte of channel `c` for the pixel at column `x`, row `y` of a
/// checkerboard texture: the first channel dims every other column to
/// `accent`, the second dims every other row, the third is a constant blue
/// value, and the fourth is fully opaque.
pub open spec fn checker_byte(x: int, y: int, accent: u8, blue: u8, c: int) -> u8 {
    if c == 0 {
        if x % 2 == 0 { accent } else { 0xFFu8 }
    } else if c == 1 {
        if y % 2 == 0 { accent } else { 0xFFu8 }
    } else if c == 2 {
        blue
    } else {
        0xFFu8
    }
}

/// A texture is the checkerboard pattern for the given dimensions and colors.
pub open spec fn is_checker_texture(
    img: ImageData,
    width: int,
    height: int,
    accent: u8,
    blue: u8,
) -> bool {
    &&& img.wf()
    &&& img.width == width
    &&& img.height == height
    &&& img.bytes_per_pixel == BYTES_PER_PIXEL
    &&& forall|y: int, x: int, c: int|
        0 <= y < height && 0 <= x < width && 0 <= c < BYTES_PER_PIXEL
            ==> img.data@[(y * width + x) * BYTES_PER_PIXEL + c]
                == checker_byte(x, y, accent, blue, c)
}

/// Builds one checkerboard texture pixel by pixel.
pub fn checker_texture(width: usize, height: usize, accent: u8, blue: u8) -> (r: ImageData)
    requires
        width * height * BYTES_PER_PIXEL <= usize::MAX,
    ensures
        is_checker_texture(r, width as int, height as int, accent, blue),
{
    let mut data: Vec<u8> = Vec::new();
    let mut y: usize = 0;
    while y < height
        invariant
            y <= height,
            data@.len() == y * width * BYTES_PER_PIXEL,
            forall|y2: int, x2: int, c: int|
                0 <= y2 < y && 0 <= x2 < width && 0 <= c < BYTES_PER_PIXEL
                    ==> data@[(y2 * width + x2) * BYTES_PER_PIXEL + c]
                        == checker_byte(x2, y2, accent, blue, c),
        decreases height - y,
    {
        let mut x: usize = 0;
        while x < width
            invariant
                x <= width,
                y < height,
                data@.len() == (y * width + x) * BYTES_PER_PIXEL,
                data@.len() == y * width * BYTES_PER_PIXEL + x * BYTES_PER_PIXEL,
                forall|y2: int, x2: int, c: int|
                    0 <= y2 < y && 0 <= x2 < width && 0 <= c < BYTES_PER_PIXEL
                        ==> data@[(y2 * width + x2) * BYTES_PER_PIXEL + c]
                            == checker_byte(x2, y2, accent, blue, c),
                forall|x2: int, c: int|
                    0 <= x2 < x && 0 <= c < BYTES_PER_PIXEL
                        ==> data@[(y * width + x2) * BYTES_PER_PIXEL + c]
                            == checker_byte(x2, y as int, accent, blue, c),
            decreases width - x,
        {
            let ghost base = data@.len() as int;
            let shade_x: u8 = if x % 2 == 0 { accent } else { 0xFFu8 };
            let shade_y: u8 = if y % 2 == 0 { accent } else { 0xFFu8 };
            data.push(shade_x);
            data.push(shade_y);
            data.push(blue);
            data.push(0xFFu8);
            proof {
                assert forall|y2: int, x2: int, c: int|
                    0 <= y2 < y && 0 <= x2 < width && 0 <= c < BYTES_PER_PIXEL
                        implies #[trigger] data@[(y2 * width + x2) * BYTES_PER_PIXEL + c]
                            == checker_byte(x2, y2, accent, blue, c) by {
                    lemma_pixel_index_bound(
                        y2, x2, c, y as int, width as int, BYTES_PER_PIXEL as int,
                    );
                }
                assert(forall|c: int| 0 <= c < BYTES_PER_PIXEL
                    ==> data@[base + c] == checker_byte(x as int, y as int, accent, blue, c));
            }
            x = x + 1;
        }
        proof {
            assert(y * width * BYTES_PER_PIXEL + width * BYTES_PER_PIXEL
                == (y + 1) * width * BYTES_PER_PIXEL) by (nonlinear_arith);
        }
        y = y + 1;
    }
    proof {
        assert(height * width * BYTES_PER_PIXEL == width * height * BYTES_PER_PIXEL)
            by (nonlinear_arith);
    }
    ImageData { bytes_per_pixel: BYTES_PER_PIXEL, width, height, data }
}

/// The two textures the demo renders with: a small dim-gray checkerboard and
/// a larger blue-tinted one.
pub fn get_textures() -> (r: Vec<ImageData>)
    ensures
        r@.len() == 2,
        is_checker_texture(r@[0], 4, 4, 0xA0u8, 0xA0u8),
        is_checker_texture(r@[1], 8, 8, 0xC0u8, 0xFFu8),
{
    let first = checker_texture(4, 4, 0xA0u8, 0xA0u8);
    let second = checker_texture(8, 8, 0xC0u8, 0xFFu8);
    let mut r: Vec<ImageData> = Vec::new();
    r.push(first);
    r.push(second);
    r
}

/// A device-local 2D texture image: its handle, view and memory, and the
/// pixel dimensions it was created with. Immutable after creation; the pixel
/// upload itself is the renderer's staging path.
pub struct Image {
    pub handle: u64,
    pub image_view: u64,
    pub memory: u64,
    pub width: u32,
    pub height: u32,
}

impl Image {
    /// Creates the image object, binds fresh memory, and creates its view,
    /// in that order.
    pub fn new(ids: &mut HandleAllocator, image_data: &ImageData) -> (r: Self)
        requires
            image_data.width <= u32::MAX,
            image_data.height <= u32::MAX,
            old(ids).next < u64::MAX - 2,
        ensures
            r.handle == old(ids).next,
            r.memory == old(ids).next + 1,
            r.image_view == old(ids).next + 2,
            r.width == image_data.width,
            r.height == image_data.height,
            final(ids).next == old(ids).next + 3,
            old(ids).wf() ==> final(ids).wf(),
    {
        let handle = ids.fresh();
        let memory = ids.fresh();
        let image_view = ids.fresh();
        Self {
            handle,
            image_view,
            memory,
            width: image_data.width as u32,
            height: image_data.height as u32,
        }
    }
}

} // verus!
