//! The finished picture and its plain-text form.

use vstd::prelude::*;

verus! {

/// A picture of `width` by `height` pixels. Row 0 is the top row; within
/// a row the pixels run from left to right. A pixel is its red, green
/// and blue byte.
pub struct Framebuffer {
    pub width: u32,
    pub height: u32,
    pub pixels: Vec<[u8; 3]>,
}

/// A number in decimal digits, as ASCII bytes.
pub open spec fn decimal(n: nat) -> Seq<u8>
    decreases n,
{
    if n < 10 {
        seq![(48 + n) as u8]
    } else {
        decimal(n / 10).push((48 + n % 10) as u8)
    }
}

/// One pixel as text: its three bytes in decimal, separated by single
/// spaces and ended by a line feed.
pub open spec fn triple(pixel: [u8; 3]) -> Seq<u8> {
    decimal(pixel@[0] as nat) + seq![32u8] + decimal(pixel@[1] as nat) + seq![32u8] + decimal(
        pixel@[2] as nat,
    ) + seq![10u8]
}

/// The head of the text: the line that names the format (a capital P and
/// the digit three), the line of width and height, and the line `255`.
pub open spec fn header(width: u32, height: u32) -> Seq<u8> {
    seq![80u8, 51u8, 10u8] + decimal(width as nat) + seq![32u8] + decimal(height as nat)
        + seq![10u8, 50u8, 53u8, 53u8, 10u8]
}

/// The text of the first `n` pixels of row `y`.
pub open spec fn row_text(pixels: Seq<[u8; 3]>, width: u32, y: int, n: nat) -> Seq<u8>
    decreases n,
{
    if n == 0 {
        Seq::empty()
    } else {
        row_text(pixels, width, y, (n - 1) as nat) + triple(pixels[y * width + n - 1])
    }
}

/// The text of the last `n` rows, the bottom row first.
pub open spec fn rows_text(pixels: Seq<[u8; 3]>, width: u32, height: u32, n: nat) -> Seq<u8>
    decreases n,
{
    if n == 0 {
        Seq::empty()
    } else {
        rows_text(pixels, width, height, (n - 1) as nat) + row_text(
            pixels,
            width,
            height - n,
            width as nat,
        )
    }
}

/// A picture as plain text: the head, then one line per pixel, row by row
/// from the bottom row to the top row, and within a row from left to
/// right.
pub open spec fn ppm_text(pixels: Seq<[u8; 3]>, width: u32, height: u32) -> Seq<u8> {
    header(width, height) + rows_text(pixels, width, height, height as nat)
}

fn push_decimal(out: &mut Vec<u8>, n: u32)
    ensures
        final(out)@ == old(out)@ + decimal(n as nat),
    decreases n,
{
    if n >= 10 {
        push_decimal(out, n / 10);
        let digit: u8 = (48 + n % 10) as u8;
        out.push(digit);
        assert(out@ =~= old(out)@ + decimal(n as nat));
    } else {
        let digit: u8 = (48 + n) as u8;
        out.push(digit);
        assert(out@ =~= old(out)@ + decimal(n as nat));
    }
}

fn push_triple(out: &mut Vec<u8>, pixel: [u8; 3])
    ensures
        final(out)@ == old(out)@ + triple(pixel),
{
    push_decimal(out, pixel[0] as u32);
    out.push(32u8);
    push_decimal(out, pixel[1] as u32);
    out.push(32u8);
    push_decimal(out, pixel[2] as u32);
    out.push(10u8);
    assert(out@ =~= old(out)@ + triple(pixel));
}

fn push_header(out: &mut Vec<u8>, width: u32, height: u32)
    ensures
        final(out)@ == old(out)@ + header(width, height),
{
    out.push(80u8);
    out.push(51u8);
    out.push(10u8);
    push_decimal(out, width);
    out.push(32u8);
    push_decimal(out, height);
    out.push(10u8);
    out.push(50u8);
    out.push(53u8);
    out.push(53u8);
    out.push(10u8);
    assert(out@ =~= old(out)@ + header(width, height));
}

impl Framebuffer {
    /// Whether the picture holds exactly one pixel for every place.
    pub open spec fn well_formed(&self) -> bool {
        self.pixels.len() == self.width * self.height
    }

    /// The place of the pixel in column `x` of row `y` among the pixels.
    pub open spec fn index_spec(&self, x: int, y: int) -> int {
        y * self.width + x
    }

    /// A black picture of the given size; none if it would hold more
    /// pixels than can be counted.
    pub fn new(width: u32, height: u32) -> (res: Option<Framebuffer>)
        ensures
            res is Some <==> width * height <= usize::MAX,
            res matches Some(frame) ==> {
                &&& frame.well_formed()
                &&& frame.width == width
                &&& frame.height == height
                &&& forall|i: int| 0 <= i < frame.pixels.len() ==> frame.pixels[i]@ == seq![0u8, 0u8, 0u8]
            },
    {
        assert(width * height <= u64::MAX) by (nonlinear_arith)
            requires
                width <= u32::MAX,
                height <= u32::MAX,
        ;
        let count: u64 = (width as u64) * (height as u64);
        if count > usize::MAX as u64 {
            return None;
        }
        let black: [u8; 3] = [0u8, 0u8, 0u8];
        assert(black@ =~= seq![0u8, 0u8, 0u8]);
        let mut pixels: Vec<[u8; 3]> = Vec::new();
        let mut i: u64 = 0;
        while i < count
            invariant
                i <= count,
                pixels.len() == i,
                black@ == seq![0u8, 0u8, 0u8],
                forall|k: int| 0 <= k < pixels.len() ==> pixels[k] == black,
            decreases count - i,
        {
            pixels.push(black);
            i = i + 1;
        }
        Some(Framebuffer { width, height, pixels })
    }

    /// The picture of the given size made of the given pixels, row by row
    /// from the top; none unless there is exactly one pixel for every
    /// place.
    pub fn from_pixels(width: u32, height: u32, pixels: Vec<[u8; 3]>) -> (res: Option<
        Framebuffer,
    >)
        ensures
            res is Some <==> pixels.len() == width * height,
            res matches Some(frame) ==> {
                &&& frame.well_formed()
                &&& frame.width == width
                &&& frame.height == height
                &&& frame.pixels == pixels
            },
    {
        assert(width * height <= u64::MAX) by (nonlinear_arith)
            requires
                width <= u32::MAX,
                height <= u32::MAX,
        ;
        let count: u64 = (width as u64) * (height as u64);
        if pixels.len() as u64 != count {
            return None;
        }
        Some(Framebuffer { width, height, pixels })
    }

    /// The place of the pixel in column `x` of row `y` among the pixels.
    pub fn index(&self, x: u32, y: u32) -> (i: usize)
        requires
            self.well_formed(),
            x < self.width,
            y < self.height,
        ensures
            i == self.index_spec(x as int, y as int),
            i < self.pixels.len(),
    {
        assert(y * self.width + x < self.width * self.height) by (nonlinear_arith)
            requires
                x < self.width,
                y < self.height,
        ;
        let i: u64 = (y as u64) * (self.width as u64) + (x as u64);
        i as usize
    }

    /// The pixel in column `x` of row `y`.
    pub fn get(&self, x: u32, y: u32) -> (pixel: [u8; 3])
        requires
            self.well_formed(),
            x < self.width,
            y < self.height,
        ensures
            pixel == self.pixels[self.index_spec(x as int, y as int)],
    {
        let i = self.index(x, y);
        self.pixels[i]
    }

    /// Sets the pixel in column `x` of row `y` and leaves all others as
    /// they were.
    pub fn set(&mut self, x: u32, y: u32, pixel: [u8; 3])
        requires
            old(self).well_formed(),
            x < old(self).width,
            y < old(self).height,
        ensures
            final(self).width == old(self).width,
            final(self).height == old(self).height,
            final(self).pixels@ == old(self).pixels@.update(
                old(self).index_spec(x as int, y as int),
                pixel,
            ),
            final(self).well_formed(),
    {
        let i = self.index(x, y);
        self.pixels.set(i, pixel);
    }

    /// The picture as plain text (see [`ppm_text`]).
    pub fn to_ppm(&self) -> (text: Vec<u8>)
        requires
            self.well_formed(),
        ensures
            text@ == ppm_text(self.pixels@, self.width, self.height),
    {
        let mut out: Vec<u8> = Vec::new();
        push_header(&mut out, self.width, self.height);
        let ghost head = header(self.width, self.height);
        assert(out@ =~= head);
        let mut done: u32 = 0;
        while done < self.height
            invariant
                done <= self.height,
                self.well_formed(),
                head == header(self.width, self.height),
                out@ == head + rows_text(self.pixels@, self.width, self.height, done as nat),
            decreases self.height - done,
        {
            let y: u32 = self.height - done - 1;
            let ghost before = out@;
            let mut x: u32 = 0;
            assert(out@ =~= before + row_text(self.pixels@, self.width, y as int, 0));
            while x < self.width
                invariant
                    x <= self.width,
                    y < self.height,
                    self.well_formed(),
                    out@ == before + row_text(self.pixels@, self.width, y as int, x as nat),
                decreases self.width - x,
            {
                let pixel = self.get(x, y);
                push_triple(&mut out, pixel);
                x = x + 1;
                assert(out@ =~= before + row_text(self.pixels@, self.width, y as int, x as nat));
            }
            done = done + 1;
            assert(out@ =~= head + rows_text(self.pixels@, self.width, self.height, done as nat));
        }
        out
    }
}

} // verus!
