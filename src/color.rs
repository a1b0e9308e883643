use vstd::prelude::*;

verus! {

/// Anything that exposes the three 8-bit channels of a color.
pub trait Color {
    spec fn red(&self) -> u8;

    spec fn green(&self) -> u8;

    spec fn blue(&self) -> u8;

    fn get_red(&self) -> (r: u8)
        ensures
            r == self.red(),
    ;

    fn get_blue(&self) -> (r: u8)
        ensures
            r == self.blue(),
    ;

    fn get_green(&self) -> (r: u8)
        ensures
            r == self.green(),
    ;
}

/// The channels of a color as one triple, red first.
pub open spec fn channels<C: Color>(c: C) -> (u8, u8, u8) {
    (c.red(), c.green(), c.blue())
}

/// A read-only surface of colors addressed by `(x, y)`, `x` growing to the
/// right and `y` downwards from the top-left corner.
pub trait ColorSrc {
    type C: Color;

    /// Whether `(x, y)` lies on the surface.
    spec fn contains(&self, x: int, y: int) -> bool;

    /// The channels of the color at `(x, y)`.
    spec fn color_at(&self, x: int, y: int) -> (u8, u8, u8);

    fn contains_pixel(&self, x: i32, y: i32) -> (r: bool)
        ensures
            r == self.contains(x as int, y as int),
    ;

    fn get_pixel(&self, x: i32, y: i32) -> (c: Self::C)
        requires
            self.contains(x as int, y as int),
        ensures
            channels(c) == self.color_at(x as int, y as int),
    ;
}

/// A 32-bit pixel word as read little-endian from a capture buffer: red in
/// the lowest byte, green in the next, blue in the one above; the top byte
/// is ignored.
pub struct Win32Color(pub u32);

impl Color for Win32Color {
    open spec fn red(&self) -> u8 {
        (self.0 % 256) as u8
    }

    open spec fn green(&self) -> u8 {
        (self.0 / 256 % 256) as u8
    }

    open spec fn blue(&self) -> u8 {
        (self.0 / 65536 % 256) as u8
    }

    fn get_red(&self) -> (r: u8) {
        (self.0 % 256) as u8
    }

    fn get_blue(&self) -> (r: u8) {
        (self.0 / 65536 % 256) as u8
    }

    fn get_green(&self) -> (r: u8) {
        (self.0 / 256 % 256) as u8
    }
}

/// A display capture: a row-major buffer, top row first, four bytes per
/// pixel, together with its width and height in pixels.
pub struct Win32Bitmap(pub Vec<u8>, (usize, usize));

impl Win32Bitmap {
    pub closed spec fn width(&self) -> int {
        self.1.0 as int
    }

    pub closed spec fn height(&self) -> int {
        self.1.1 as int
    }

    /// The bytes of the buffer.
    pub closed spec fn bytes(&self) -> Seq<u8> {
        self.0@
    }

    /// Index of the first byte of the pixel at `(x, y)`.
    pub open spec fn offset(&self, x: int, y: int) -> int {
        4 * (y * self.width() + x)
    }

    /// A bitmap over `data` of `width` by `height` pixels; `None` when the
    /// buffer holds fewer than four bytes for each of them.
    pub fn new(data: Vec<u8>, width: usize, height: usize) -> (r: Option<Win32Bitmap>)
        ensures
            r is Some <==> 4 * width * height <= data@.len(),
            r matches Some(b) ==> b.bytes() == data@ && b.width() == width && b.height() == height,
    {
        let len = data.len();
        let total = width.checked_mul(height);
        let bytes = match total {
            Some(n) => n.checked_mul(4),
            None => None,
        };
        proof {
            assert(4 * width * height == (width * height) * 4) by (nonlinear_arith);
            assert(4 * width * height >= width * height) by (nonlinear_arith);
        }
        match bytes {
            Some(b) => {
                if b <= len {
                    Some(Win32Bitmap(data, (width, height)))
                } else {
                    None
                }
            },
            None => None,
        }
    }

    /// A bitmap over a display capture of `width` by `height` pixels whose
    /// color depth is `bits_per_pixel`; only 32-bit captures are read.
    pub fn from_capture(data: Vec<u8>, width: i32, height: i32, bits_per_pixel: u16) -> (r: Result<
        Win32Bitmap,
        CaptureError,
    >)
        ensures
            bits_per_pixel != 32 ==> r == Err::<Win32Bitmap, CaptureError>(
                CaptureError::UnsupportedDepth(bits_per_pixel),
            ),
            bits_per_pixel == 32 && (width < 0 || height < 0) ==> r == Err::<
                Win32Bitmap,
                CaptureError,
            >(CaptureError::NegativeSize),
            bits_per_pixel == 32 && width >= 0 && height >= 0 ==> match r {
                Ok(b) => 4 * width * height <= data@.len() && b.bytes() == data@ && b.width()
                    == width && b.height() == height,
                Err(e) => 4 * width * height > data@.len() && e == CaptureError::ShortBuffer,
            },
    {
        if bits_per_pixel != 32 {
            return Err(CaptureError::UnsupportedDepth(bits_per_pixel));
        }
        if width < 0 || height < 0 {
            return Err(CaptureError::NegativeSize);
        }
        match Win32Bitmap::new(data, width as usize, height as usize) {
            Some(b) => Ok(b),
            None => Err(CaptureError::ShortBuffer),
        }
    }

    pub fn dimensions(&self) -> (r: (usize, usize))
        ensures
            r.0 == self.width(),
            r.1 == self.height(),
    {
        self.1
    }
}

/// Why a display capture cannot be read as a bitmap.
#[derive(Debug, Copy, Clone, PartialEq, Eq, Structural)]
pub enum CaptureError {
    /// The capture does not hold 32 bits per pixel.
    UnsupportedDepth(u16),
    /// The capture reports a negative width or height.
    NegativeSize,
    /// The buffer holds fewer than four bytes per pixel.
    ShortBuffer,
}

/// Bytes of a device-independent bitmap of `width` by `height` pixels at
/// `bits_per_pixel`: each row padded to a whole number of 32-bit words.
pub open spec fn dib_len(width: int, height: int, bits_per_pixel: int) -> int {
    (width * bits_per_pixel + 31) / 32 * 4 * height
}

/// The buffer size that a capture of `width` by `height` pixels at
/// `bits_per_pixel` fills; `None` for a negative size or one that does not
/// fit in `usize`.
pub fn dib_buffer_len(width: i32, height: i32, bits_per_pixel: u16) -> (r: Option<usize>)
    ensures
        r is Some <==> width >= 0 && height >= 0 && dib_len(width as int, height as int, bits_per_pixel as int)
            <= usize::MAX,
        r matches Some(n) ==> n == dib_len(width as int, height as int, bits_per_pixel as int),
{
    if width < 0 || height < 0 {
        return None;
    }
    let w = width as u128;
    let h = height as u128;
    let bits = bits_per_pixel as u128;
    proof {
        assert(w * bits <= 0x1_0000_0000 * 0x1_0000) by (nonlinear_arith)
            requires
                0 <= w <= 0x1_0000_0000,
                0 <= bits <= 0x1_0000,
        ;
    }
    let words = (w * bits + 31) / 32;
    proof {
        assert(words * 4 * h <= 0x1_0000_0000_0000 * 0x1_0000_0000) by (nonlinear_arith)
            requires
                0 <= words <= 0x4000_0000_0000int,
                0 <= h <= 0x1_0000_0000,
        ;
    }
    let total = words * 4 * h;
    if total > usize::MAX as u128 {
        None
    } else {
        Some(total as usize)
    }
}

/// The word made of four bytes, the first one lowest.
pub open spec fn le_word(b0: u8, b1: u8, b2: u8, b3: u8) -> int {
    b0 + 256 * b1 + 65536 * b2 + 16777216 * b3
}

impl ColorSrc for Win32Bitmap {
    type C = Win32Color;

    open spec fn contains(&self, x: int, y: int) -> bool {
        &&& 0 <= x < self.width()
        &&& 0 <= y < self.height()
        &&& self.offset(x, y) + 4 <= self.bytes().len()
    }

    open spec fn color_at(&self, x: int, y: int) -> (u8, u8, u8) {
        let i = self.offset(x, y);
        (self.bytes()[i], self.bytes()[i + 1], self.bytes()[i + 2])
    }

    fn contains_pixel(&self, x: i32, y: i32) -> (r: bool) {
        if x < 0 || y < 0 {
            return false;
        }
        let (width, height) = self.1;
        let len = self.0.len();
        if x as usize >= width || y as usize >= height {
            return false;
        }
        // the pixel's bytes start at 4 * (y * width + x)
        let start = match (y as usize).checked_mul(width) {
            Some(row) => match row.checked_add(x as usize) {
                Some(cell) => cell.checked_mul(4),
                None => None,
            },
            None => None,
        };
        proof {
            assert(y * self.width() <= y * self.width() + x);
        }
        match start {
            Some(start) => start < len && 4 <= len - start,
            None => false,
        }
    }

    fn get_pixel(&self, x: i32, y: i32) -> (c: Win32Color) {
        let width = self.1.0;
        // the buffer's length bounds the index arithmetic below
        let _len = self.0.len();
        proof {
            assert(0 <= y * self.width() <= y * self.width() + x) by (nonlinear_arith)
                requires
                    0 <= y,
                    0 <= x,
                    0 <= self.width(),
            ;
        }
        let row = (y as usize) * width;
        let index = 4 * (row + (x as usize));
        let b0 = self.0[index];
        let b1 = self.0[index + 1];
        let b2 = self.0[index + 2];
        let b3 = self.0[index + 3];
        let word = b0 as u32 + 256 * (b1 as u32) + 65536 * (b2 as u32) + 16777216 * (b3 as u32);
        let c = Win32Color(word);
        proof {
            lemma_le_word_bytes(b0, b1, b2, b3);
        }
        c
    }
}

proof fn lemma_le_word_bytes(b0: u8, b1: u8, b2: u8, b3: u8)
    ensures
        le_word(b0, b1, b2, b3) % 256 == b0,
        le_word(b0, b1, b2, b3) / 256 % 256 == b1,
        le_word(b0, b1, b2, b3) / 65536 % 256 == b2,
{
    let w = le_word(b0, b1, b2, b3);
    assert(w / 256 == b1 + 256 * b2 + 65536 * b3);
    assert(w / 65536 == b2 + 256 * b3);
}

/// A color held as its three channels.
#[derive(Clone, Copy, Debug, PartialEq, Eq)]
pub struct RgbColor {
    pub red: u8,
    pub green: u8,
    pub blue: u8,
}

impl Color for RgbColor {
    open spec fn red(&self) -> u8 {
        self.red
    }

    open spec fn green(&self) -> u8 {
        self.green
    }

    open spec fn blue(&self) -> u8 {
        self.blue
    }

    fn get_red(&self) -> (r: u8) {
        self.red
    }

    fn get_blue(&self) -> (r: u8) {
        self.blue
    }

    fn get_green(&self) -> (r: u8) {
        self.green
    }
}

} // verus!
