//! The closed catalog of pixel encodings and their byte-layout arithmetic.
//!
//! Every encoding is classified three ways (row alignment, block compression,
//! numeric kind of its elements), and the storage an image of a given extent
//! takes is computed from the encoding's pixel or block size.

use vstd::prelude::*;

verus! {

/// A pixel encoding.
#[derive(Copy, Clone, Debug, PartialEq, Eq, Hash)]
pub enum PixelKind {
    R32F,
    R32UI,
    R16F,
    D32F,
    D16,
    D24S8,
    RGBA8,
    SRGBA8,
    RGB8,
    SRGB8,
    BGRA8,
    BGR8,
    RG8,
    LA8,
    LA16,
    RG16,
    R8,
    L8,
    L16,
    R8UI,
    R16,
    RGB16,
    RGBA16,
    DXT1RGB,
    DXT1RGBA,
    DXT3RGBA,
    DXT5RGBA,
    RGB32F,
    RGBA32F,
    RGB16F,
    RGBA16F,
    R8RGTC,
    RG8RGTC,
    R11G11B10F,
    RGB10A2,
}

/// How the raw stored values of an encoding map to numbers.
#[derive(Copy, Clone, Debug, PartialEq, Eq, Hash)]
pub enum PixelElementKind {
    Float,
    NormalizedUnsignedInteger,
    Integer,
    UnsignedInteger,
}

impl PixelKind {
    /// Whether the encoding stores fixed-size 4x4 blocks rather than pixels.
    pub open spec fn spec_is_compressed(self) -> bool {
        self is DXT1RGB || self is DXT1RGBA || self is DXT3RGBA || self is DXT5RGBA
            || self is R8RGTC || self is RG8RGTC
    }

    /// Bytes one encoded block takes; 0 for an encoding that has no blocks.
    pub open spec fn spec_block_size(self) -> nat {
        if self is DXT1RGB || self is DXT1RGBA || self is R8RGTC {
            8
        } else if self is DXT3RGBA || self is DXT5RGBA || self is RG8RGTC {
            16
        } else {
            0
        }
    }

    /// Bytes one pixel takes; 0 for a block-compressed encoding, whose pixels
    /// have no storage of their own.
    pub open spec fn spec_bytes_per_pixel(self) -> nat {
        match self {
            PixelKind::RGBA32F => 16,
            PixelKind::RGB32F => 12,
            PixelKind::RGBA16 | PixelKind::RGBA16F => 8,
            PixelKind::RGB16 | PixelKind::RGB16F => 6,
            PixelKind::RGBA8
            | PixelKind::SRGBA8
            | PixelKind::BGRA8
            | PixelKind::RG16
            | PixelKind::LA16
            | PixelKind::D24S8
            | PixelKind::D32F
            | PixelKind::R32F
            | PixelKind::R32UI
            | PixelKind::R11G11B10F
            | PixelKind::RGB10A2 => 4,
            PixelKind::RGB8 | PixelKind::SRGB8 | PixelKind::BGR8 => 3,
            PixelKind::RG8
            | PixelKind::LA8
            | PixelKind::R16
            | PixelKind::L16
            | PixelKind::D16
            | PixelKind::R16F => 2,
            PixelKind::R8 | PixelKind::L8 | PixelKind::R8UI => 1,
            PixelKind::DXT1RGB
            | PixelKind::DXT1RGBA
            | PixelKind::DXT3RGBA
            | PixelKind::DXT5RGBA
            | PixelKind::R8RGTC
            | PixelKind::RG8RGTC => 0,
        }
    }

    /// Byte alignment of each row in a transfer; `None` where the encoding
    /// has no rows of pixels to align.
    pub open spec fn spec_unpack_alignment(self) -> Option<u8> {
        if self.spec_is_compressed() {
            None
        } else if self is RG8 || self is LA8 || self is D16 || self is R16F || self is L16
            || self is R16 {
            Some(2u8)
        } else if self is R8 || self is L8 || self is R8UI || self is SRGB8 || self is RGB8
            || self is BGR8 || self is R11G11B10F {
            Some(1u8)
        } else {
            Some(4u8)
        }
    }

    /// Numeric kind of the encoding's elements.
    pub open spec fn spec_element_kind(self) -> PixelElementKind {
        if self is R32F || self is R16F || self is RGB32F || self is RGBA32F || self is RGBA16F
            || self is RGB16F || self is D32F || self is R11G11B10F {
            PixelElementKind::Float
        } else if self is R8UI || self is R32UI {
            PixelElementKind::UnsignedInteger
        } else {
            PixelElementKind::NormalizedUnsignedInteger
        }
    }

    /// Byte alignment a row-by-row transfer of this encoding needs: 4, 2 or 1
    /// for the encodings that store pixels, `None` for the block-compressed
    /// ones.
    pub fn unpack_alignment(self) -> (alignment: Option<u8>)
        ensures
            alignment == self.spec_unpack_alignment(),
            alignment is None <==> self.spec_is_compressed(),
            alignment matches Some(a) ==> a == 1 || a == 2 || a == 4,
    {
        match self {
            Self::RGBA16
            | Self::RGBA16F
            | Self::RGB16
            | Self::RGB16F
            | Self::RGBA32F
            | Self::RGB32F
            | Self::RGBA8
            | Self::SRGBA8
            | Self::BGRA8
            | Self::RG16
            | Self::LA16
            | Self::D24S8
            | Self::D32F
            | Self::R32F
            | Self::R32UI
            | Self::RGB10A2 => Some(4),
            Self::RG8 | Self::LA8 | Self::D16 | Self::R16F | Self::L16 | Self::R16 => Some(2),
            Self::R8
            | Self::L8
            | Self::R8UI
            | Self::SRGB8
            | Self::RGB8
            | Self::BGR8
            | Self::R11G11B10F => Some(1),
            Self::DXT1RGB
            | Self::DXT1RGBA
            | Self::DXT3RGBA
            | Self::DXT5RGBA
            | Self::R8RGTC
            | Self::RG8RGTC => None,
        }
    }

    /// Whether the encoding is block-compressed. Every encoding is listed:
    /// a new one cannot be added without deciding this.
    pub fn is_compressed(self) -> (compressed: bool)
        ensures
            compressed == self.spec_is_compressed(),
    {
        match self {
            Self::DXT1RGB
            | Self::DXT1RGBA
            | Self::DXT3RGBA
            | Self::DXT5RGBA
            | Self::R8RGTC
            | Self::RG8RGTC => true,
            Self::RGBA16
            | Self::RGBA16F
            | Self::RGB16
            | Self::RGB16F
            | Self::RGBA8
            | Self::SRGBA8
            | Self::RGB8
            | Self::SRGB8
            | Self::BGRA8
            | Self::BGR8
            | Self::RG16
            | Self::R16
            | Self::D24S8
            | Self::D32F
            | Self::R32F
            | Self::R32UI
            | Self::RG8
            | Self::D16
            | Self::R16F
            | Self::R8
            | Self::R8UI
            | Self::RGB32F
            | Self::RGBA32F
            | Self::R11G11B10F
            | Self::RGB10A2
            | Self::L8
            | Self::LA8
            | Self::L16
            | Self::LA16 => false,
        }
    }

    /// Numeric kind of the encoding's elements: float for the floating-point
    /// and packed-float encodings, unsigned integer for `R8UI` and `R32UI`,
    /// normalized unsigned integer for all others.
    pub fn element_kind(self) -> (kind: PixelElementKind)
        ensures
            kind == self.spec_element_kind(),
            !(kind is Integer),
    {
        match self {
            Self::R32F
            | Self::R16F
            | Self::RGB32F
            | Self::RGBA32F
            | Self::RGBA16F
            | Self::RGB16F
            | Self::D32F
            | Self::R11G11B10F => PixelElementKind::Float,
            Self::D16
            | Self::D24S8
            | Self::RGBA8
            | Self::SRGBA8
            | Self::RGB8
            | Self::SRGB8
            | Self::BGRA8
            | Self::BGR8
            | Self::RG8
            | Self::RG16
            | Self::R8
            | Self::R16
            | Self::RGB16
            | Self::RGBA16
            | Self::DXT1RGB
            | Self::DXT1RGBA
            | Self::DXT3RGBA
            | Self::DXT5RGBA
            | Self::R8RGTC
            | Self::RG8RGTC
            | Self::RGB10A2
            | Self::LA8
            | Self::L8
            | Self::LA16
            | Self::L16 => PixelElementKind::NormalizedUnsignedInteger,
            Self::R8UI | Self::R32UI => PixelElementKind::UnsignedInteger,
        }
    }

    /// Bytes one encoded 4x4 block takes, for a block-compressed encoding.
    pub fn block_size(self) -> (size: Option<usize>)
        ensures
            size is Some <==> self.spec_is_compressed(),
            size matches Some(bytes) ==> bytes == self.spec_block_size(),
    {
        match self {
            Self::DXT1RGB | Self::DXT1RGBA | Self::R8RGTC => Some(8),
            Self::DXT3RGBA | Self::DXT5RGBA | Self::RG8RGTC => Some(16),
            Self::RGBA16
            | Self::RGBA16F
            | Self::RGB16
            | Self::RGB16F
            | Self::RGBA8
            | Self::SRGBA8
            | Self::RGB8
            | Self::SRGB8
            | Self::BGRA8
            | Self::BGR8
            | Self::RG16
            | Self::R16
            | Self::D24S8
            | Self::D32F
            | Self::R32F
            | Self::R32UI
            | Self::RG8
            | Self::D16
            | Self::R16F
            | Self::R8
            | Self::R8UI
            | Self::RGB32F
            | Self::RGBA32F
            | Self::R11G11B10F
            | Self::RGB10A2
            | Self::L8
            | Self::LA8
            | Self::L16
            | Self::LA16 => None,
        }
    }

    /// Bytes one pixel takes, for an encoding that stores pixels.
    pub fn bytes_per_pixel(self) -> (size: Option<usize>)
        ensures
            size is None <==> self.spec_is_compressed(),
            size matches Some(bytes) ==> bytes == self.spec_bytes_per_pixel() && 1 <= bytes <= 16,
    {
        match self {
            Self::RGBA32F => Some(16),
            Self::RGB32F => Some(12),
            Self::RGBA16 | Self::RGBA16F => Some(8),
            Self::RGB16 | Self::RGB16F => Some(6),
            Self::RGBA8
            | Self::SRGBA8
            | Self::BGRA8
            | Self::RG16
            | Self::LA16
            | Self::D24S8
            | Self::D32F
            | Self::R32F
            | Self::R32UI
            | Self::R11G11B10F
            | Self::RGB10A2 => Some(4),
            Self::RGB8 | Self::SRGB8 | Self::BGR8 => Some(3),
            Self::RG8 | Self::LA8 | Self::R16 | Self::L16 | Self::D16 | Self::R16F => Some(2),
            Self::R8 | Self::L8 | Self::R8UI => Some(1),
            Self::DXT1RGB
            | Self::DXT1RGBA
            | Self::DXT3RGBA
            | Self::DXT5RGBA
            | Self::R8RGTC
            | Self::RG8RGTC => None,
        }
    }
}

/// Number of 4-wide blocks needed to cover `x` texels along one axis: `x`
/// rounded up to a multiple of 4, divided by 4.
pub open spec fn spec_ceil_div_4(x: nat) -> nat {
    (x + 3) / 4
}

/// Storage in bytes of a `width` x `height` x `depth` image: the pixel count
/// times the pixel size, or, for a block-compressed encoding, the count of
/// 4x4x4 blocks that cover the image times the block size.
pub open spec fn spec_image_3d_size_bytes(
    pixel_kind: PixelKind,
    width: nat,
    height: nat,
    depth: nat,
) -> nat {
    if pixel_kind.spec_is_compressed() {
        spec_ceil_div_4(width) * spec_ceil_div_4(height) * spec_ceil_div_4(depth)
            * pixel_kind.spec_block_size()
    } else {
        pixel_kind.spec_bytes_per_pixel() * (width * height * depth)
    }
}

/// Storage in bytes of a `width` x `height` image.
pub open spec fn spec_image_2d_size_bytes(pixel_kind: PixelKind, width: nat, height: nat) -> nat {
    if pixel_kind.spec_is_compressed() {
        spec_ceil_div_4(width) * spec_ceil_div_4(height) * pixel_kind.spec_block_size()
    } else {
        pixel_kind.spec_bytes_per_pixel() * (width * height)
    }
}

/// Storage in bytes of a line of `length` pixels.
pub open spec fn spec_image_1d_size_bytes(pixel_kind: PixelKind, length: nat) -> nat {
    if pixel_kind.spec_is_compressed() {
        spec_ceil_div_4(length) * pixel_kind.spec_block_size()
    } else {
        pixel_kind.spec_bytes_per_pixel() * length
    }
}

/// Number of 4-wide blocks needed to cover `x` texels along one axis. No
/// `x` overflows: 0 texels take 0 blocks, `usize::MAX` texels take
/// `usize::MAX / 4 + 1`.
pub fn ceil_div_4(x: usize) -> (blocks: usize)
    ensures
        blocks == spec_ceil_div_4(x as nat),
{
    if x % 4 == 0 {
        x / 4
    } else {
        x / 4 + 1
    }
}

/// `a * b * c * unit`, or `None` where that does not fit in `usize`. A zero
/// factor makes the product 0 however large the others are.
fn checked_product(a: usize, b: usize, c: usize, unit: usize) -> (product: Option<usize>)
    ensures
        match product {
            Some(p) => p == a * b * c * unit,
            None => a * b * c * unit > usize::MAX,
        },
{
    if a == 0 || b == 0 || c == 0 || unit == 0 {
        assert(a * b * c * unit == 0) by (nonlinear_arith)
            requires
                a == 0 || b == 0 || c == 0 || unit == 0,
        ;
        return Some(0);
    }
    assert(a * b <= a * b * c <= a * b * c * unit) by (nonlinear_arith)
        requires
            a >= 1,
            b >= 1,
            c >= 1,
            unit >= 1,
    ;
    match a.checked_mul(b) {
        None => None,
        Some(ab) => match ab.checked_mul(c) {
            None => None,
            Some(abc) => abc.checked_mul(unit),
        },
    }
}

/// Storage in bytes of a `width` x `height` x `depth` image, or `None` where
/// the byte count does not fit in `usize`.
pub fn checked_image_3d_size_bytes(
    pixel_kind: PixelKind,
    width: usize,
    height: usize,
    depth: usize,
) -> (bytes: Option<usize>)
    ensures
        match bytes {
            Some(n) => n == spec_image_3d_size_bytes(
                pixel_kind,
                width as nat,
                height as nat,
                depth as nat,
            ),
            None => spec_image_3d_size_bytes(pixel_kind, width as nat, height as nat, depth as nat)
                > usize::MAX,
        },
{
    match pixel_kind.block_size() {
        Some(block) => checked_product(
            ceil_div_4(width),
            ceil_div_4(height),
            ceil_div_4(depth),
            block,
        ),
        None => {
            let pixel = pixel_kind.bytes_per_pixel().unwrap();
            assert(width * height * depth * pixel == pixel * (width * height * depth))
                by (nonlinear_arith);
            checked_product(width, height, depth, pixel)
        },
    }
}

/// Storage in bytes of a `width` x `height` image, or `None` where the byte
/// count does not fit in `usize`.
pub fn checked_image_2d_size_bytes(
    pixel_kind: PixelKind,
    width: usize,
    height: usize,
) -> (bytes: Option<usize>)
    ensures
        match bytes {
            Some(n) => n == spec_image_2d_size_bytes(pixel_kind, width as nat, height as nat),
            None => spec_image_2d_size_bytes(pixel_kind, width as nat, height as nat)
                > usize::MAX,
        },
{
    match pixel_kind.block_size() {
        Some(block) => {
            let across = ceil_div_4(width);
            let down = ceil_div_4(height);
            assert(across * down * 1 * block == across * down * block) by (nonlinear_arith);
            checked_product(across, down, 1, block)
        },
        None => {
            let pixel = pixel_kind.bytes_per_pixel().unwrap();
            assert(width * height * 1 * pixel == pixel * (width * height)) by (nonlinear_arith);
            checked_product(width, height, 1, pixel)
        },
    }
}

/// Storage in bytes of a line of `length` pixels, or `None` where the byte
/// count does not fit in `usize`.
pub fn checked_image_1d_size_bytes(pixel_kind: PixelKind, length: usize) -> (bytes: Option<usize>)
    ensures
        match bytes {
            Some(n) => n == spec_image_1d_size_bytes(pixel_kind, length as nat),
            None => spec_image_1d_size_bytes(pixel_kind, length as nat) > usize::MAX,
        },
{
    match pixel_kind.block_size() {
        Some(block) => {
            let across = ceil_div_4(length);
            assert(across * 1 * 1 * block == across * block) by (nonlinear_arith);
            checked_product(across, 1, 1, block)
        },
        None => {
            let pixel = pixel_kind.bytes_per_pixel().unwrap();
            assert(length * 1 * 1 * pixel == pixel * length) by (nonlinear_arith);
            checked_product(length, 1, 1, pixel)
        },
    }
}

/// Storage in bytes of a `width` x `height` x `depth` image. The byte count
/// has to fit in `usize`; a zero extent makes it 0.
pub fn image_3d_size_bytes(
    pixel_kind: PixelKind,
    width: usize,
    height: usize,
    depth: usize,
) -> (bytes: usize)
    requires
        spec_image_3d_size_bytes(pixel_kind, width as nat, height as nat, depth as nat)
            <= usize::MAX,
    ensures
        bytes == spec_image_3d_size_bytes(pixel_kind, width as nat, height as nat, depth as nat),
{
    checked_image_3d_size_bytes(pixel_kind, width, height, depth).unwrap()
}

/// Storage in bytes of a `width` x `height` image. The byte count has to fit
/// in `usize`; a zero extent makes it 0.
pub fn image_2d_size_bytes(pixel_kind: PixelKind, width: usize, height: usize) -> (bytes: usize)
    requires
        spec_image_2d_size_bytes(pixel_kind, width as nat, height as nat) <= usize::MAX,
    ensures
        bytes == spec_image_2d_size_bytes(pixel_kind, width as nat, height as nat),
{
    checked_image_2d_size_bytes(pixel_kind, width, height).unwrap()
}

/// Storage in bytes of a line of `length` pixels. The byte count has to fit
/// in `usize`.
pub fn image_1d_size_bytes(pixel_kind: PixelKind, length: usize) -> (bytes: usize)
    requires
        spec_image_1d_size_bytes(pixel_kind, length as nat) <= usize::MAX,
    ensures
        bytes == spec_image_1d_size_bytes(pixel_kind, length as nat),
{
    checked_image_1d_size_bytes(pixel_kind, length).unwrap()
}

/// Every encoding either has a row alignment of 1, 2 or 4 bytes or has none,
/// and it has none exactly when it is block-compressed.
pub proof fn lemma_alignment_or_compressed(pixel_kind: PixelKind)
    ensures
        pixel_kind.spec_unpack_alignment() is None <==> pixel_kind.spec_is_compressed(),
        pixel_kind.spec_unpack_alignment() matches Some(a) ==> a == 1 || a == 2 || a == 4,
        pixel_kind.spec_is_compressed() <==> pixel_kind.spec_block_size() > 0,
        pixel_kind.spec_is_compressed() <==> pixel_kind.spec_bytes_per_pixel() == 0,
{
}

/// An image one pixel high takes the storage of a line of its width. This
/// holds of the block-compressed encodings too: one row of pixels lies in one
/// row of blocks.
pub proof fn lemma_image_2d_of_height_1(pixel_kind: PixelKind, width: nat)
    ensures
        spec_image_2d_size_bytes(pixel_kind, width, 1) == spec_image_1d_size_bytes(
            pixel_kind,
            width,
        ),
{
    assert(spec_ceil_div_4(1) == 1);
    assert(width * 1 == width);
    assert(spec_ceil_div_4(width) * 1 == spec_ceil_div_4(width));
}

/// A block-compressed image with no columns takes no storage, whatever its
/// height, and a 4 x 4 image takes exactly one block.
pub proof fn lemma_compressed_image_2d_blocks(pixel_kind: PixelKind, height: nat)
    requires
        pixel_kind.spec_is_compressed(),
    ensures
        spec_image_2d_size_bytes(pixel_kind, 0, height) == 0,
        spec_image_2d_size_bytes(pixel_kind, 4, 4) == pixel_kind.spec_block_size(),
{
    assert(spec_ceil_div_4(0) == 0);
    assert(spec_ceil_div_4(4) == 1);
    assert(0 * spec_ceil_div_4(height) * pixel_kind.spec_block_size() == 0) by (nonlinear_arith);
}

/// A volume one layer deep takes the storage of a flat image of its width and
/// height, in every encoding.
pub proof fn lemma_image_3d_of_depth_1(pixel_kind: PixelKind, width: nat, height: nat)
    ensures
        spec_image_3d_size_bytes(pixel_kind, width, height, 1) == spec_image_2d_size_bytes(
            pixel_kind,
            width,
            height,
        ),
{
    assert(spec_ceil_div_4(1) == 1);
    assert(width * height * 1 == width * height);
    assert(spec_ceil_div_4(width) * spec_ceil_div_4(height) * 1 == spec_ceil_div_4(width)
        * spec_ceil_div_4(height));
}

} // verus!
