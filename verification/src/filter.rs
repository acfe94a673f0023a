//! The image filters: which there are, and what each one asks of the
//! imaging backend.
//!
//! A filter is a pure transform of one image into another. This module
//! fixes its parameters and the order of its steps; the pixels are the
//! backend's. A filter is laid out as a list of [`ImageOp`]s that the
//! backend carries out in order on a working image, which starts as a copy
//! of the source. The source itself is never changed. A step can fail, for
//! an image that the step's colour conversion cannot take; what to do then
//! is for the caller to decide.

use vstd::prelude::*;

verus! {

/// An image transform together with its parameter.
#[derive(Clone, Copy, Debug, PartialEq, Eq, Structural)]
pub enum Filter {
    /// Leaves the image as it is.
    Identity,
    /// Turns three colour channels into one channel of luminance.
    Grayscale,
    /// Gaussian smoothing with a kernel whose size is made from the
    /// strength.
    Blur(u16),
    /// Unsharp masking; a higher strength gives a blurrier mask and with it
    /// stronger edges.
    Sharpen(u16),
    /// Adds a constant to the saturation of every pixel; a negative one
    /// takes colour away.
    Saturate(i32),
}

/// A change from one colour representation to another.
#[derive(Clone, Copy, Debug, PartialEq, Eq, Structural)]
pub enum ColorConversion {
    /// Blue, green, red to one channel of luminance.
    BgrToGray,
    /// Blue, green, red to hue, saturation, value.
    BgrToHsv,
    /// Hue, saturation, value to blue, green, red.
    HsvToBgr,
}

/// One step that the imaging backend performs on the working image.
#[derive(Clone, Copy, Debug, PartialEq, Eq, Structural)]
pub enum ImageOp {
    /// Converts the working image to another colour representation.
    ConvertColor(ColorConversion),
    /// Smooths the working image with a square Gaussian kernel. A
    /// `kernel_size` of 0 leaves the size to the backend, which derives it
    /// from `sigma`; a `sigma` of 0 leaves the deviation to the backend,
    /// which derives it from `kernel_size`.
    GaussianBlur { kernel_size: u16, sigma: u16 },
    /// Replaces the working image by a weighted sum of the source image and
    /// the working image, with no offset, each channel clamped to its range.
    /// The weights are counted in halves: the source enters with
    /// `source_halves / 2`, the working image with `working_halves / 2`.
    BlendWithSource { source_halves: i32, working_halves: i32 },
    /// Adds `delta` to every value of one channel of the working image,
    /// clamped to the channel's range. Channels are counted from 0.
    ShiftChannel { channel: u8, delta: i32 },
}

/// The weight of the source image in a sharpened image, in halves: 1.5.
pub const SHARPEN_SOURCE_HALVES: i32 = 3;

/// The weight of the blurred image in a sharpened image, in halves: -0.5.
pub const SHARPEN_BLURRED_HALVES: i32 = -1;

/// The position of the saturation channel in a hue, saturation, value image.
pub const SATURATION_CHANNEL: u8 = 1;

/// The odd number made from a strength: an even strength is raised by one,
/// an odd strength stays. Zero becomes 1, the smallest kernel there is.
pub open spec fn forced_odd(strength: u16) -> u16 {
    if strength % 2 == 0 {
        (strength + 1) as u16
    } else {
        strength
    }
}

/// The steps of the conversion to grayscale.
pub open spec fn grayscale_ops() -> Seq<ImageOp> {
    seq![ImageOp::ConvertColor(ColorConversion::BgrToGray)]
}

/// The steps of a blur: one smoothing with a kernel of the odd size made
/// from the strength, the deviation left to the backend.
pub open spec fn blur_ops(strength: u16) -> Seq<ImageOp> {
    seq![ImageOp::GaussianBlur { kernel_size: forced_odd(strength), sigma: 0 }]
}

/// The steps of sharpening: a smoothing whose deviation is the odd number
/// made from the strength, the kernel size left to the backend, and then
/// 1.5 times the source less 0.5 times the smoothed image.
pub open spec fn sharpen_ops(strength: u16) -> Seq<ImageOp> {
    seq![
        ImageOp::GaussianBlur { kernel_size: 0, sigma: forced_odd(strength) },
        ImageOp::BlendWithSource {
            source_halves: SHARPEN_SOURCE_HALVES,
            working_halves: SHARPEN_BLURRED_HALVES,
        },
    ]
}

/// The steps of a change of saturation: to hue, saturation, value; the
/// constant added to the saturation channel; and back.
pub open spec fn saturate_ops(delta: i32) -> Seq<ImageOp> {
    seq![
        ImageOp::ConvertColor(ColorConversion::BgrToHsv),
        ImageOp::ShiftChannel { channel: SATURATION_CHANNEL, delta },
        ImageOp::ConvertColor(ColorConversion::HsvToBgr),
    ]
}

/// The steps of a filter, in the order in which they are performed.
pub open spec fn filter_ops(filter: Filter) -> Seq<ImageOp> {
    match filter {
        Filter::Identity => Seq::<ImageOp>::empty(),
        Filter::Grayscale => grayscale_ops(),
        Filter::Blur(strength) => blur_ops(strength),
        Filter::Sharpen(strength) => sharpen_ops(strength),
        Filter::Saturate(delta) => saturate_ops(delta),
    }
}

impl Filter {
    /// The kernel size that a strength stands for. Kernel sizes are odd: an
    /// even strength is raised by one and an odd one is used as it is.
    pub fn kernel_size(strength: u16) -> (size: u16)
        ensures
            size == forced_odd(strength),
            strength % 2 == 0 ==> size == strength + 1,
            strength % 2 == 1 ==> size == strength,
            size % 2 == 1,
            size >= 1,
    {
        if strength % 2 == 0 {
            strength + 1
        } else {
            strength
        }
    }

    /// The steps that turn a colour image into a grayscale image.
    pub fn grayscale() -> (ops: Vec<ImageOp>)
        ensures
            ops@ == grayscale_ops(),
    {
        let mut ops: Vec<ImageOp> = Vec::new();
        ops.push(ImageOp::ConvertColor(ColorConversion::BgrToGray));
        ops
    }

    /// The steps that blur an image with the given strength.
    pub fn blur(strength: u16) -> (ops: Vec<ImageOp>)
        ensures
            ops@ == blur_ops(strength),
    {
        let mut ops: Vec<ImageOp> = Vec::new();
        ops.push(ImageOp::GaussianBlur { kernel_size: Filter::kernel_size(strength), sigma: 0 });
        ops
    }

    /// The steps that sharpen an image with the given strength.
    pub fn sharpen(strength: u16) -> (ops: Vec<ImageOp>)
        ensures
            ops@ == sharpen_ops(strength),
    {
        let mut ops: Vec<ImageOp> = Vec::new();
        ops.push(ImageOp::GaussianBlur { kernel_size: 0, sigma: Filter::kernel_size(strength) });
        ops.push(
            ImageOp::BlendWithSource {
                source_halves: SHARPEN_SOURCE_HALVES,
                working_halves: SHARPEN_BLURRED_HALVES,
            },
        );
        ops
    }

    /// The steps that add `delta` to the saturation of an image.
    pub fn saturate(delta: i32) -> (ops: Vec<ImageOp>)
        ensures
            ops@ == saturate_ops(delta),
    {
        let mut ops: Vec<ImageOp> = Vec::new();
        ops.push(ImageOp::ConvertColor(ColorConversion::BgrToHsv));
        ops.push(ImageOp::ShiftChannel { channel: SATURATION_CHANNEL, delta });
        ops.push(ImageOp::ConvertColor(ColorConversion::HsvToBgr));
        ops
    }

    /// The steps of this filter, in the order in which they are performed.
    pub fn operations(&self) -> (ops: Vec<ImageOp>)
        ensures
            ops@ == filter_ops(*self),
    {
        match self {
            Filter::Identity => Vec::new(),
            Filter::Grayscale => Filter::grayscale(),
            Filter::Blur(strength) => Filter::blur(*strength),
            Filter::Sharpen(strength) => Filter::sharpen(*strength),
            Filter::Saturate(delta) => Filter::saturate(*delta),
        }
    }
}

/// The number that a blur uses as its kernel size, and sharpening as the
/// deviation of its mask, is made from the strength in one way: for an even
/// strength it is the strength plus one, for an odd strength the strength
/// itself. It is always odd.
pub proof fn strength_is_forced_odd(strength: u16)
    ensures
        forced_odd(strength) % 2 == 1,
        strength % 2 == 0 ==> forced_odd(strength) == strength + 1,
        strength % 2 == 1 ==> forced_odd(strength) == strength,
        blur_ops(strength)[0] == (ImageOp::GaussianBlur {
            kernel_size: forced_odd(strength),
            sigma: 0,
        }),
        sharpen_ops(strength)[0] == (ImageOp::GaussianBlur {
            kernel_size: 0,
            sigma: forced_odd(strength),
        }),
{
}

} // verus!
