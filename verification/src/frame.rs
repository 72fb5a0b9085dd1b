//! The RGBA frame buffer: its size, the place of each pixel in it, and the
//! pass that writes the finished colours as bytes.
//!
//! Pixels are numbered row by row, `index = y * width + x`, in the order in
//! which they are shaded. The buffer holds them back to front: pixel 0 fills
//! the last four bytes and the last pixel the first four. Read row by row,
//! the buffer therefore shows pixel `(x, y)` in column `width - 1 - x` of row
//! `height - 1 - y`.

use vstd::prelude::*;
use crate::scalar::clamp;
use crate::scalar::clamped;
use crate::scalar::Scalar;
use crate::vector::Color;

verus! {

/// The alpha byte of every rendered pixel.
pub const OPAQUE: u8 = 255;

/// Bits of the double nearest to 0.999: the brightest that an averaged
/// channel may be before gamma correction.
pub const BRIGHTEST_BITS: u64 = 0x3FEF_F7CE_D916_872B;

/// An averaged channel, limited to the interval from zero to 0.999.
pub open spec fn spec_limit(channel: Scalar) -> Scalar {
    clamped(channel, Scalar { bits: 0 }, Scalar { bits: BRIGHTEST_BITS })
}

/// Limits an averaged channel to the interval from zero to 0.999, ready for
/// gamma correction. A NaN stays a NaN, and ends as the byte zero.
#[verifier::when_used_as_spec(spec_limit)]
pub fn limit(channel: Scalar) -> (r: Scalar)
    ensures
        r == spec_limit(channel),
        !channel.is_nan() ==> (Scalar { bits: 0 }).spec_le(r) && r.spec_le(
            Scalar { bits: BRIGHTEST_BITS },
        ),
{
    clamp(channel, Scalar { bits: 0 }, Scalar { bits: BRIGHTEST_BITS })
}

/// Why the settings of a rendering were turned down.
#[derive(Clone, Copy, PartialEq, Eq, Structural, Debug)]
pub enum SettingsError {
    /// No sample per pixel: the average would divide by zero.
    ZeroSamples,
    /// No bounce allowed: every path would end black before it starts.
    ZeroDepth,
    /// Fewer than two pixels along an axis: a pixel's place on the screen is
    /// its column over `width - 1` and its row over `height - 1`.
    TooSmall,
}

/// Why `render` left the frame untouched.
#[derive(Clone, Copy, PartialEq, Eq, Structural, Debug)]
pub enum RenderError {
    /// The settings are not ones that `Settings::new` accepts.
    Settings(SettingsError),
    /// The frame is not `width * height * 4` bytes long.
    BufferSize,
    /// There is not exactly one colour per pixel.
    PixelCount,
}

/// Size of the image and the work spent on each of its pixels.
#[derive(Clone, Copy, PartialEq, Eq, Structural, Debug)]
pub struct Settings {
    pub width: u32,
    pub height: u32,
    pub samples: usize,
    pub max_depth: usize,
}

impl Settings {
    /// At least one sample per pixel, one bounce per path and two pixels
    /// along each axis.
    pub open spec fn valid(self) -> bool {
        self.samples > 0 && self.max_depth > 0 && self.width >= 2 && self.height >= 2
    }

    /// What is wrong with the settings, if anything: a missing sample is
    /// reported before a missing bounce, and that before a missing extent.
    pub open spec fn fault(width: u32, height: u32, samples: usize, max_depth: usize) -> Option<
        SettingsError,
    > {
        if samples == 0 {
            Some(SettingsError::ZeroSamples)
        } else if max_depth == 0 {
            Some(SettingsError::ZeroDepth)
        } else if width < 2 || height < 2 {
            Some(SettingsError::TooSmall)
        } else {
            None
        }
    }

    /// What is wrong with these settings, if anything.
    pub open spec fn spec_check(self) -> Option<SettingsError> {
        Settings::fault(self.width, self.height, self.samples, self.max_depth)
    }

    /// Accepts the settings of a rendering, or says what is wrong with them.
    pub fn new(width: u32, height: u32, samples: usize, max_depth: usize) -> (r: Result<
        Settings,
        SettingsError,
    >)
        ensures
            r == match Settings::fault(width, height, samples, max_depth) {
                Some(error) => Err::<Settings, SettingsError>(error),
                None => Ok::<Settings, SettingsError>(
                    (Settings { width, height, samples, max_depth }),
                ),
            },
            r matches Ok(s) ==> s.valid(),
    {
        let settings = Settings { width, height, samples, max_depth };
        match settings.check() {
            Some(error) => Err(error),
            None => Ok(settings),
        }
    }

    /// Says what is wrong with settings that did not come from `new`, if
    /// anything is.
    #[verifier::when_used_as_spec(spec_check)]
    pub fn check(self) -> (fault: Option<SettingsError>)
        ensures
            fault == self.spec_check(),
            fault is None <==> self.valid(),
    {
        if self.samples == 0 {
            Some(SettingsError::ZeroSamples)
        } else if self.max_depth == 0 {
            Some(SettingsError::ZeroDepth)
        } else if self.width < 2 || self.height < 2 {
            Some(SettingsError::TooSmall)
        } else {
            None
        }
    }
}

/// Why `render` refuses to write, if it does: the settings' fault first,
/// then a frame of the wrong length, then a wrong number of colours.
pub open spec fn refusal(frame_len: int, settings: Settings, colors: int) -> Option<RenderError> {
    match settings.spec_check() {
        Some(fault) => Some(RenderError::Settings(fault)),
        None => if frame_len != self::frame_len(settings.width, settings.height) {
            Some(RenderError::BufferSize)
        } else if colors != pixel_count(settings.width, settings.height) {
            Some(RenderError::PixelCount)
        } else {
            None
        },
    }
}

/// Number of pixels of a `width` by `height` image.
pub open spec fn pixel_count(width: u32, height: u32) -> int {
    width * height
}

/// Number of bytes of a `width` by `height` frame: four for each pixel.
pub open spec fn frame_len(width: u32, height: u32) -> int {
    4 * (width * height)
}

/// The four-byte group that holds pixel `index` in a frame of `count` pixels.
pub open spec fn spec_slot(index: int, count: int) -> int {
    count - 1 - index
}

/// The number of the pixel in column `x` of row `y`.
pub open spec fn spec_pixel_index(x: int, y: int, width: int) -> int {
    y * width + x
}

/// The four bytes of `group` are the channels of `color`, each scaled to a
/// byte, followed by an opaque alpha.
pub open spec fn group_holds(frame: Seq<u8>, group: int, color: Color) -> bool {
    &&& frame[4 * group] == color.x.spec_quantize()
    &&& frame[4 * group + 1] == color.y.spec_quantize()
    &&& frame[4 * group + 2] == color.z.spec_quantize()
    &&& frame[4 * group + 3] == OPAQUE
}

/// `frame` is exactly the image `pixels`: four bytes per pixel, each pixel
/// in its slot.
pub open spec fn laid_out(frame: Seq<u8>, pixels: Seq<Color>) -> bool {
    &&& frame.len() == 4 * pixels.len()
    &&& forall|i: int|
        0 <= i < pixels.len() ==> group_holds(frame, spec_slot(i, pixels.len() as int), #[trigger] pixels[i])
}

/// Column and row of pixel `index` in an image `width` pixels wide.
pub fn pixel_coords(index: usize, width: usize) -> (xy: (usize, usize))
    requires
        width > 0,
    ensures
        xy.0 == index % width,
        xy.1 == index / width,
        xy.0 < width,
        spec_pixel_index(xy.0 as int, xy.1 as int, width as int) == index,
{
    proof {
        vstd::arithmetic::div_mod::lemma_fundamental_div_mod(index as int, width as int);
        vstd::arithmetic::mul::lemma_mul_is_commutative(width as int, index as int / width as int);
    }
    (index % width, index / width)
}

/// The four-byte group of pixel `index` in a frame of `count` pixels.
pub fn slot(index: usize, count: usize) -> (group: usize)
    requires
        index < count,
    ensures
        group == spec_slot(index as int, count as int),
        group < count,
{
    count - 1 - index
}

/// Writes the image `pixels` of a rendering with `settings` into `frame`: for
/// every pixel its red, green and blue, each scaled from the unit interval to
/// a byte, and an opaque alpha.
///
/// The settings must be valid: at least one sample per pixel and one bounce
/// per path went into the colours. The frame must be `width * height * 4`
/// bytes long and there must be one colour for each of the `width * height`
/// pixels. Otherwise nothing is written and the error says what failed.
pub fn render(frame: &mut [u8], settings: &Settings, pixels: &[Color]) -> (r: Result<
    (),
    RenderError,
>)
    ensures
        r == match refusal(old(frame)@.len() as int, *settings, pixels@.len() as int) {
            Some(error) => Err::<(), RenderError>(error),
            None => Ok::<(), RenderError>(()),
        },
        r is Ok ==> settings.valid(),
        !settings.valid() ==> r is Err,
        r is Err ==> final(frame)@ == old(frame)@,
        r is Ok ==> laid_out(final(frame)@, pixels@),
{
    match settings.check() {
        Some(fault) => {
            return Err(RenderError::Settings(fault));
        },
        None => {},
    }
    let width: u32 = settings.width;
    let height: u32 = settings.height;
    assert(width * height <= 0xFFFF_FFFF * 0xFFFF_FFFF) by (nonlinear_arith)
        requires
            width <= 0xFFFF_FFFF,
            height <= 0xFFFF_FFFF,
    ;
    let count: u64 = (width as u64) * (height as u64);
    let bytes: u128 = 4 * (count as u128);
    if frame.len() as u128 != bytes {
        return Err(RenderError::BufferSize);
    }
    if pixels.len() as u64 != count {
        return Err(RenderError::PixelCount);
    }
    let n: usize = pixels.len();
    let mut i: usize = 0;
    while i < n
        invariant
            i <= n,
            n == pixels@.len(),
            frame@.len() == 4 * n,
            4 * n <= usize::MAX,
            forall|j: int|
                0 <= j < i ==> group_holds(frame@, spec_slot(j, n as int), #[trigger] pixels@[j]),
        decreases n - i,
    {
        let color: Color = pixels[i];
        let base: usize = 4 * slot(i, n);
        frame[base] = color.x.quantize();
        frame[base + 1] = color.y.quantize();
        frame[base + 2] = color.z.quantize();
        frame[base + 3] = OPAQUE;
        i = i + 1;
    }
    Ok(())
}

/// Row-major numbering reaches every pixel of the image under an index of
/// its own, and `pixel_coords` leads from the index back to the pixel.
pub proof fn lemma_index_of_coords(x: int, y: int, width: int, height: int)
    requires
        0 <= x < width,
        0 <= y < height,
    ensures
        0 <= spec_pixel_index(x, y, width) < width * height,
        spec_pixel_index(x, y, width) % width == x,
        spec_pixel_index(x, y, width) / width == y,
{
    vstd::arithmetic::div_mod::lemma_fundamental_div_mod_converse(
        spec_pixel_index(x, y, width),
        width,
        y,
        x,
    );
    assert(y * width + x < width * height) by (nonlinear_arith)
        requires
            0 <= x < width,
            0 <= y < height,
    ;
    assert(0 <= y * width) by (nonlinear_arith)
        requires
            0 <= y,
            0 < width,
    ;
}

/// Every index below the pixel count names a pixel inside the image.
pub proof fn lemma_coords_of_index(index: int, width: int, height: int)
    requires
        0 <= index < width * height,
        0 < width,
    ensures
        0 <= index % width < width,
        0 <= index / width < height,
        spec_pixel_index(index % width, index / width, width) == index,
{
    vstd::arithmetic::div_mod::lemma_fundamental_div_mod(index, width);
    vstd::arithmetic::div_mod::lemma_mod_bound(index, width);
    vstd::arithmetic::mul::lemma_mul_is_commutative(width, index / width);
    let q = index / width;
    assert(q < height) by (nonlinear_arith)
        requires
            q * width <= index,
            index < width * height,
            0 < width,
    ;
    assert(0 <= q) by (nonlinear_arith)
        requires
            q * width + width > index,
            0 <= index,
            0 < width,
    ;
}

/// Read row by row, the frame holds pixel `(x, y)` in column `width - 1 - x`
/// of row `height - 1 - y`: the image is mirrored along both axes.
pub proof fn lemma_slot_mirrors_both_axes(x: int, y: int, width: int, height: int)
    requires
        0 <= x < width,
        0 <= y < height,
    ensures
        spec_slot(spec_pixel_index(x, y, width), width * height) == spec_pixel_index(
            width - 1 - x,
            height - 1 - y,
            width,
        ),
{
    assert((height - 1 - y) * width + (width - 1 - x) == width * height - 1 - (y * width + x))
        by (nonlinear_arith);
}

/// Distinct pixels have distinct groups of the frame, and the group of a
/// pixel's group is the pixel again: the writes of a rendering pass never
/// overlap and leave no group out.
pub proof fn lemma_slots_are_a_permutation(i: int, j: int, count: int)
    requires
        0 <= i < count,
        0 <= j < count,
    ensures
        0 <= spec_slot(i, count) < count,
        spec_slot(spec_slot(i, count), count) == i,
        i != j ==> spec_slot(i, count) != spec_slot(j, count),
{
}

} // verus!
