//! Texture shapes, their mip chains and the storage their images take.

use crate::pixel::{
    checked_image_1d_size_bytes, checked_image_2d_size_bytes, checked_image_3d_size_bytes,
    spec_image_1d_size_bytes, spec_image_2d_size_bytes, spec_image_3d_size_bytes, PixelKind,
};
use vstd::math::max;
use vstd::prelude::*;

verus! {

/// Shape of a texture. It is fixed when the texture is given its storage.
#[derive(Copy, Clone, Debug, PartialEq, Eq)]
pub enum GpuTextureKind {
    Line { length: usize },
    Rectangle { width: usize, height: usize },
    Cube { width: usize, height: usize },
    Volume { width: usize, height: usize, depth: usize },
}

/// A face of a cube texture.
#[derive(Copy, Clone, Eq, PartialEq, Debug)]
pub enum CubeMapFace {
    PositiveX,
    NegativeX,
    PositiveY,
    NegativeY,
    PositiveZ,
    NegativeZ,
}

/// Extent along one axis of mip level `level` of an image whose base extent
/// is `extent`: level 0 is the base, and each further level has half the
/// extent of the one before, rounded down, but never less than 1.
pub open spec fn spec_mip_extent(extent: nat, level: nat) -> nat
    decreases level,
{
    if level == 0 {
        extent
    } else {
        let half = spec_mip_extent(extent, (level - 1) as nat) / 2;
        if half == 0 {
            1
        } else {
            half
        }
    }
}

/// Number of mip levels an extent can be halved through: the levels count
/// down to the one whose extent is 1.
pub open spec fn spec_mip_levels(extent: nat) -> nat
    decreases extent,
{
    if extent <= 1 {
        1
    } else {
        1 + spec_mip_levels(extent / 2)
    }
}

/// No level is wider than the base, unless the base is empty: then every
/// further level is 1 wide.
pub proof fn lemma_mip_extent_bounds(extent: nat, level: nat)
    ensures
        level > 0 ==> 1 <= spec_mip_extent(extent, level),
        spec_mip_extent(extent, level) <= if extent == 0 {
            1
        } else {
            extent
        },
    decreases level,
{
    if level > 0 {
        lemma_mip_extent_bounds(extent, (level - 1) as nat);
    }
}

/// Once a level below the base is 1 wide, so is every level after it.
pub proof fn lemma_mip_extent_stays_1(extent: nat, level: nat, later: nat)
    requires
        0 < level <= later,
        spec_mip_extent(extent, level) == 1,
    ensures
        spec_mip_extent(extent, later) == 1,
    decreases later,
{
    if later > level {
        lemma_mip_extent_stays_1(extent, level, (later - 1) as nat);
    }
}

/// An extent has at least one level and no more levels than texels.
pub proof fn lemma_mip_levels_bounds(extent: nat)
    ensures
        1 <= spec_mip_levels(extent),
        spec_mip_levels(extent) <= if extent == 0 {
            1
        } else {
            extent
        },
    decreases extent,
{
    if extent > 1 {
        lemma_mip_levels_bounds(extent / 2);
    }
}

/// Halving an extent of 2 or more once and then `level` times more is halving
/// its half `level` times.
pub proof fn lemma_mip_extent_of_half(extent: nat, level: nat)
    requires
        extent >= 2,
    ensures
        spec_mip_extent(extent, level + 1) == spec_mip_extent(extent / 2, level),
    decreases level,
{
    if level > 0 {
        lemma_mip_extent_of_half(extent, (level - 1) as nat);
    } else {
        assert(spec_mip_extent(extent, 0) == extent);
    }
}

/// The levels of an extent end where halving has reached 1: the last level
/// is 1 wide and every level before it is wider.
pub proof fn lemma_mip_levels_reach_1(extent: nat, level: nat)
    requires
        extent >= 1,
    ensures
        spec_mip_extent(extent, (spec_mip_levels(extent) - 1) as nat) == 1,
        level + 1 < spec_mip_levels(extent) ==> spec_mip_extent(extent, level) > 1,
    decreases extent,
{
    if extent >= 2 {
        let rest = (spec_mip_levels(extent / 2) - 1) as nat;
        lemma_mip_extent_of_half(extent, rest);
        lemma_mip_levels_reach_1(extent / 2, rest);
        if level > 0 {
            lemma_mip_extent_of_half(extent, (level - 1) as nat);
            lemma_mip_levels_reach_1(extent / 2, (level - 1) as nat);
        }
    }
}

/// Extent along one axis of mip level `level` of an image whose base extent
/// is `extent`.
pub fn mip_extent(extent: usize, level: usize) -> (reduced: usize)
    ensures
        reduced == spec_mip_extent(extent as nat, level as nat),
{
    let mut reduced = extent;
    let mut done: usize = 0;
    while done < level && (done == 0 || reduced > 1)
        invariant
            done <= level,
            reduced == spec_mip_extent(extent as nat, done as nat),
        decreases level - done,
    {
        let half = reduced / 2;
        reduced = if half == 0 {
            1
        } else {
            half
        };
        done = done + 1;
    }
    proof {
        if done < level {
            lemma_mip_extent_bounds(extent as nat, done as nat);
            lemma_mip_extent_stays_1(extent as nat, done as nat, level as nat);
        }
    }
    reduced
}

/// Number of mip levels an extent can be halved through.
pub fn mip_levels(extent: usize) -> (levels: usize)
    ensures
        levels == spec_mip_levels(extent as nat),
{
    let mut rest = extent;
    let mut levels: usize = 1;
    while rest > 1
        invariant
            levels + spec_mip_levels(rest as nat) == 1 + spec_mip_levels(extent as nat),
            levels >= 1,
        decreases rest,
    {
        proof {
            lemma_mip_levels_bounds(extent as nat);
            lemma_mip_levels_bounds((rest / 2) as nat);
        }
        rest = rest / 2;
        levels = levels + 1;
    }
    levels
}

impl GpuTextureKind {
    /// The largest extent of the shape.
    pub open spec fn spec_largest_extent(self) -> nat {
        match self {
            GpuTextureKind::Line { length } => length as nat,
            GpuTextureKind::Rectangle { width, height } | GpuTextureKind::Cube { width, height } => {
                max(width as int, height as int) as nat
            },
            GpuTextureKind::Volume { width, height, depth } => {
                max(width as int, max(height as int, depth as int)) as nat
            },
        }
    }

    /// Number of mip levels the shape can address: as many as its largest
    /// extent can be halved through.
    pub open spec fn spec_max_mip_count(self) -> nat {
        spec_mip_levels(self.spec_largest_extent())
    }

    /// Shape of mip level `level`: the same kind of shape, each extent
    /// reduced to that level.
    pub open spec fn spec_mip_level(self, level: nat) -> GpuTextureKind {
        match self {
            GpuTextureKind::Line { length } => GpuTextureKind::Line {
                length: spec_mip_extent(length as nat, level) as usize,
            },
            GpuTextureKind::Rectangle { width, height } => GpuTextureKind::Rectangle {
                width: spec_mip_extent(width as nat, level) as usize,
                height: spec_mip_extent(height as nat, level) as usize,
            },
            GpuTextureKind::Cube { width, height } => GpuTextureKind::Cube {
                width: spec_mip_extent(width as nat, level) as usize,
                height: spec_mip_extent(height as nat, level) as usize,
            },
            GpuTextureKind::Volume { width, height, depth } => GpuTextureKind::Volume {
                width: spec_mip_extent(width as nat, level) as usize,
                height: spec_mip_extent(height as nat, level) as usize,
                depth: spec_mip_extent(depth as nat, level) as usize,
            },
        }
    }

    /// Storage in bytes of one image of this shape: a line, a flat image, the
    /// six faces of a cube, or a volume.
    pub open spec fn spec_size_bytes(self, pixel_kind: PixelKind) -> nat {
        match self {
            GpuTextureKind::Line { length } => spec_image_1d_size_bytes(pixel_kind, length as nat),
            GpuTextureKind::Rectangle { width, height } => spec_image_2d_size_bytes(
                pixel_kind,
                width as nat,
                height as nat,
            ),
            GpuTextureKind::Cube { width, height } => 6 * spec_image_2d_size_bytes(
                pixel_kind,
                width as nat,
                height as nat,
            ),
            GpuTextureKind::Volume { width, height, depth } => spec_image_3d_size_bytes(
                pixel_kind,
                width as nat,
                height as nat,
                depth as nat,
            ),
        }
    }

    /// Storage in bytes of mip level `level` of a texture of this shape.
    pub open spec fn spec_level_size_bytes(self, pixel_kind: PixelKind, level: nat) -> nat {
        self.spec_mip_level(level).spec_size_bytes(pixel_kind)
    }

    /// Level 0 is the base image: it has the shape, and so the storage, of
    /// the texture itself.
    pub proof fn lemma_level_0_is_base(self, pixel_kind: PixelKind)
        ensures
            self.spec_mip_level(0) == self,
            self.spec_level_size_bytes(pixel_kind, 0) == self.spec_size_bytes(pixel_kind),
    {
    }

    /// Number of mip levels the shape can address. A shape with an empty
    /// extent still has its base level.
    pub fn max_mip_count(self) -> (count: usize)
        ensures
            count == self.spec_max_mip_count(),
            count >= 1,
    {
        let largest = match self {
            GpuTextureKind::Line { length } => length,
            GpuTextureKind::Rectangle { width, height } | GpuTextureKind::Cube { width, height } => {
                if width >= height {
                    width
                } else {
                    height
                }
            },
            GpuTextureKind::Volume { width, height, depth } => {
                if width >= height && width >= depth {
                    width
                } else if height >= depth {
                    height
                } else {
                    depth
                }
            },
        };
        proof {
            lemma_mip_levels_bounds(largest as nat);
        }
        mip_levels(largest)
    }

    /// Shape of mip level `level`.
    pub fn mip_level(self, level: usize) -> (shape: GpuTextureKind)
        ensures
            shape == self.spec_mip_level(level as nat),
    {
        match self {
            GpuTextureKind::Line { length } => GpuTextureKind::Line {
                length: mip_extent(length, level),
            },
            GpuTextureKind::Rectangle { width, height } => GpuTextureKind::Rectangle {
                width: mip_extent(width, level),
                height: mip_extent(height, level),
            },
            GpuTextureKind::Cube { width, height } => GpuTextureKind::Cube {
                width: mip_extent(width, level),
                height: mip_extent(height, level),
            },
            GpuTextureKind::Volume { width, height, depth } => GpuTextureKind::Volume {
                width: mip_extent(width, level),
                height: mip_extent(height, level),
                depth: mip_extent(depth, level),
            },
        }
    }

    /// Storage in bytes of one image of this shape, or `None` where the byte
    /// count does not fit in `usize`.
    pub fn checked_size_bytes(self, pixel_kind: PixelKind) -> (bytes: Option<usize>)
        ensures
            match bytes {
                Some(n) => n == self.spec_size_bytes(pixel_kind),
                None => self.spec_size_bytes(pixel_kind) > usize::MAX,
            },
    {
        match self {
            GpuTextureKind::Line { length } => checked_image_1d_size_bytes(pixel_kind, length),
            GpuTextureKind::Rectangle { width, height } => checked_image_2d_size_bytes(
                pixel_kind,
                width,
                height,
            ),
            GpuTextureKind::Cube { width, height } => {
                match checked_image_2d_size_bytes(pixel_kind, width, height) {
                    Some(face) => face.checked_mul(6),
                    None => None,
                }
            },
            GpuTextureKind::Volume { width, height, depth } => checked_image_3d_size_bytes(
                pixel_kind,
                width,
                height,
                depth,
            ),
        }
    }

    /// Storage in bytes of mip level `level` of a texture of this shape, or
    /// `None` where the byte count does not fit in `usize`.
    pub fn checked_level_size_bytes(
        self,
        pixel_kind: PixelKind,
        level: usize,
    ) -> (bytes: Option<usize>)
        ensures
            match bytes {
                Some(n) => n == self.spec_level_size_bytes(pixel_kind, level as nat),
                None => self.spec_level_size_bytes(pixel_kind, level as nat) > usize::MAX,
            },
    {
        self.mip_level(level).checked_size_bytes(pixel_kind)
    }
}

} // verus!
