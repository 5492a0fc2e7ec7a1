//! Textures read from a decoded picture.

use crate::error::TracerError;
use crate::scalar::Scalar;
use vstd::prelude::*;

verus! {

/// The number of bytes per pixel: red, green, blue.
pub const CHANNELS: u32 = 3;

/// The bit pattern of 1.0.
pub const ONE_BITS: u32 = 0x3f80_0000;

/// Where a picture is to be read from.
#[derive(Debug)]
pub struct ImageBuilder {
    pub path: String,
}

impl ImageBuilder {
    /// The place of a picture.
    pub fn new(path: String) -> (b: ImageBuilder)
        ensures
            b.path == path,
    {
        ImageBuilder { path }
    }
}

/// A decoded picture: rows of pixels from the top down, each pixel three
/// bytes.
pub struct Image {
    pub image: Vec<u8>,
    pub width: u32,
    pub height: u32,
    pub bytes_per_line: u32,
}

impl Image {
    /// Whether the picture is not empty and holds as many bytes as its
    /// width and height call for.
    pub open spec fn well_formed(&self) -> bool {
        &&& self.width > 0
        &&& self.height > 0
        &&& self.bytes_per_line == CHANNELS * self.width
        &&& self.image.len() == self.bytes_per_line * self.height
    }

    /// Whether the bytes can be a picture of the given width and height.
    pub open spec fn fits(width: u32, height: u32, bytes: int) -> bool {
        &&& width > 0
        &&& height > 0
        &&& CHANNELS * width <= u32::MAX
        &&& bytes == CHANNELS * width * height
    }

    /// The picture of the given width and height made of the given bytes.
    /// Fails with [`TracerError::ImageError`] exactly when the picture
    /// would be empty, its lines too long to count, or the number of bytes
    /// not three times the number of pixels.
    pub fn new(width: u32, height: u32, image: Vec<u8>) -> (res: Result<Image, TracerError>)
        ensures
            res is Ok <==> Image::fits(width, height, image.len() as int),
            res matches Err(e) ==> e is ImageError,
            res matches Ok(picture) ==> {
                &&& picture.well_formed()
                &&& picture.width == width
                &&& picture.height == height
                &&& picture.image == image
            },
    {
        if width == 0 || height == 0 || width > u32::MAX / CHANNELS {
            return Err(TracerError::ImageError("empty or oversized image".to_owned()));
        }
        let bytes_per_line: u32 = CHANNELS * width;
        assert(bytes_per_line * height <= u64::MAX) by (nonlinear_arith)
            requires
                bytes_per_line <= u32::MAX,
                height <= u32::MAX,
        ;
        let expected: u64 = (bytes_per_line as u64) * (height as u64);
        if image.len() as u64 != expected {
            assert(image.len() != CHANNELS * width * height) by (nonlinear_arith)
                requires
                    image.len() as u64 != expected,
                    expected == (CHANNELS * width) * height,
                    image.len() <= u64::MAX,
            ;
            return Err(TracerError::ImageError("image size does not match its data".to_owned()));
        }
        assert(image.len() == CHANNELS * width * height) by (nonlinear_arith)
            requires
                image.len() as u64 == expected,
                expected == (CHANNELS * width) * height,
        ;
        Ok(Image { image, width, height, bytes_per_line })
    }

    /// The offset of the first byte of the pixel in column `i` of row `j`.
    pub open spec fn offset(&self, i: int, j: int) -> int {
        j * self.bytes_per_line + i * CHANNELS
    }

    /// The column nearest to `i` that the picture has.
    pub open spec fn nearest_column(&self, i: u32) -> int {
        if i < self.width {
            i as int
        } else {
            self.width - 1
        }
    }

    /// The row nearest to `j` that the picture has.
    pub open spec fn nearest_row(&self, j: u32) -> int {
        if j < self.height {
            j as int
        } else {
            self.height - 1
        }
    }

    /// The red, green and blue of the pixel nearest to column `i` of row
    /// `j`: columns and rows beyond the picture's edge count as the last
    /// column and row.
    pub fn texel(&self, i: u32, j: u32) -> (rgb: [u8; 3])
        requires
            self.well_formed(),
        ensures
            rgb@ == self.image@.subrange(
                self.offset(self.nearest_column(i), self.nearest_row(j)),
                self.offset(self.nearest_column(i), self.nearest_row(j)) + 3,
            ),
    {
        let ii: u32 = if i < self.width {
            i
        } else {
            self.width - 1
        };
        let jj: u32 = if j < self.height {
            j
        } else {
            self.height - 1
        };
        let line: u64 = self.bytes_per_line as u64;
        assert(jj * line + ii * 3 + 3 <= self.image.len()) by (nonlinear_arith)
            requires
                line == 3 * self.width,
                ii < self.width,
                jj < self.height,
                self.image.len() == line * self.height,
        ;
        let id64: u64 = (jj as u64) * line + (ii as u64) * (CHANNELS as u64);
        let id: usize = id64 as usize;
        let rgb = [self.image[id], self.image[id + 1], self.image[id + 2]];
        assert(rgb@ =~= self.image@.subrange(id as int, id + 3));
        rgb
    }

    /// The surface coordinates at which the picture is read: `u`, and `v`
    /// after its flip, each held between zero and one.
    pub fn clamp_uv(u: Scalar, flipped_v: Scalar) -> (uv: (Scalar, Scalar))
        ensures
            uv.0 == u.clamp_spec(Scalar::zero_spec(), Scalar { bits: ONE_BITS }),
            uv.1 == flipped_v.clamp_spec(Scalar::zero_spec(), Scalar { bits: ONE_BITS }),
    {
        let zero = Scalar::zero();
        let one = Scalar::from_bits(ONE_BITS);
        (u.clamp(zero, one), flipped_v.clamp(zero, one))
    }
}

} // verus!
