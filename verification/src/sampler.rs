//! Sampling state of a texture: filters, wrap modes per axis and border color.

use fyrox_core::color::Color;
use vstd::prelude::*;

verus! {

/// `fyrox_core::color::Color`, an RGBA color of four bytes. It is carried
/// through unread: nothing here depends on its channels.
#[verifier::external_type_specification]
#[verifier::external_body]
pub struct ExColor(Color);

/// Filter applied where a texel covers more than one pixel.
#[derive(Copy, Clone, PartialOrd, PartialEq, Eq, Hash, Debug)]
pub enum MagnificationFilter {
    Nearest,
    Linear,
}

/// Filter applied where a pixel covers more than one texel.
#[derive(Copy, Clone, PartialOrd, PartialEq, Eq, Hash, Debug)]
pub enum MinificationFilter {
    Nearest,
    NearestMipMapNearest,
    NearestMipMapLinear,
    Linear,
    LinearMipMapNearest,
    LinearMipMapLinear,
}

/// What sampling does with a coordinate outside the texture.
#[derive(Copy, Clone, Eq, PartialEq, Debug)]
pub enum WrapMode {
    Repeat,
    ClampToEdge,
    ClampToBorder,
    MirroredRepeat,
    MirrorClampToEdge,
}

/// A texture coordinate axis.
#[derive(Copy, Clone, Eq, PartialEq, Debug)]
pub enum Coordinate {
    S,
    T,
    R,
}

/// How a texture is sampled. Each part is set on its own and none depends on
/// the texture's images.
#[derive(Copy, Clone, Debug, PartialEq, Eq)]
pub struct SamplerState {
    pub minification_filter: MinificationFilter,
    pub magnification_filter: MagnificationFilter,
    pub s_wrap_mode: WrapMode,
    pub t_wrap_mode: WrapMode,
    pub r_wrap_mode: WrapMode,
    pub border_color: Color,
}

impl SamplerState {
    /// This state with the minification filter replaced.
    pub open spec fn with_minification_filter(self, min_filter: MinificationFilter) -> Self {
        SamplerState { minification_filter: min_filter, ..self }
    }

    /// This state with the magnification filter replaced.
    pub open spec fn with_magnification_filter(self, mag_filter: MagnificationFilter) -> Self {
        SamplerState { magnification_filter: mag_filter, ..self }
    }

    /// This state with the wrap mode of one axis replaced.
    pub open spec fn with_wrap(self, coordinate: Coordinate, wrap: WrapMode) -> Self {
        match coordinate {
            Coordinate::S => SamplerState { s_wrap_mode: wrap, ..self },
            Coordinate::T => SamplerState { t_wrap_mode: wrap, ..self },
            Coordinate::R => SamplerState { r_wrap_mode: wrap, ..self },
        }
    }

    /// This state with the border color replaced.
    pub open spec fn with_border_color(self, color: Color) -> Self {
        SamplerState { border_color: color, ..self }
    }

    /// The wrap mode of one axis.
    pub open spec fn wrap_mode(self, coordinate: Coordinate) -> WrapMode {
        match coordinate {
            Coordinate::S => self.s_wrap_mode,
            Coordinate::T => self.t_wrap_mode,
            Coordinate::R => self.r_wrap_mode,
        }
    }

    pub fn set_minification_filter(&mut self, min_filter: MinificationFilter)
        ensures
            *final(self) == old(self).with_minification_filter(min_filter),
    {
        self.minification_filter = min_filter;
    }

    pub fn set_magnification_filter(&mut self, mag_filter: MagnificationFilter)
        ensures
            *final(self) == old(self).with_magnification_filter(mag_filter),
    {
        self.magnification_filter = mag_filter;
    }

    /// Sets the wrap mode of `coordinate` and leaves the other two axes as
    /// they are.
    pub fn set_wrap(&mut self, coordinate: Coordinate, wrap: WrapMode)
        ensures
            *final(self) == old(self).with_wrap(coordinate, wrap),
    {
        match coordinate {
            Coordinate::S => {
                self.s_wrap_mode = wrap;
            },
            Coordinate::T => {
                self.t_wrap_mode = wrap;
            },
            Coordinate::R => {
                self.r_wrap_mode = wrap;
            },
        }
    }

    pub fn set_border_color(&mut self, color: Color)
        ensures
            *final(self) == old(self).with_border_color(color),
    {
        self.border_color = color;
    }

    pub fn minification_filter(&self) -> (min_filter: MinificationFilter)
        ensures
            min_filter == self.minification_filter,
    {
        self.minification_filter
    }

    pub fn magnification_filter(&self) -> (mag_filter: MagnificationFilter)
        ensures
            mag_filter == self.magnification_filter,
    {
        self.magnification_filter
    }

    pub fn s_wrap_mode(&self) -> (wrap: WrapMode)
        ensures
            wrap == self.wrap_mode(Coordinate::S),
    {
        self.s_wrap_mode
    }

    pub fn t_wrap_mode(&self) -> (wrap: WrapMode)
        ensures
            wrap == self.wrap_mode(Coordinate::T),
    {
        self.t_wrap_mode
    }
}

/// Each part of the sampling state reads back as it was last set, whatever
/// the state was before.
pub proof fn lemma_setter_then_getter(
    state: SamplerState,
    min_filter: MinificationFilter,
    mag_filter: MagnificationFilter,
    coordinate: Coordinate,
    wrap: WrapMode,
    color: Color,
)
    ensures
        state.with_minification_filter(min_filter).minification_filter == min_filter,
        state.with_magnification_filter(mag_filter).magnification_filter == mag_filter,
        state.with_wrap(coordinate, wrap).wrap_mode(coordinate) == wrap,
        state.with_border_color(color).border_color == color,
{
}

/// Setting one part of the sampling state leaves every other part as it was:
/// a filter or the border color does not touch the wrap modes or the other
/// filter, and the wrap mode of one axis touches neither the filters nor the
/// other axes.
pub proof fn lemma_setters_are_independent(
    state: SamplerState,
    min_filter: MinificationFilter,
    mag_filter: MagnificationFilter,
    coordinate: Coordinate,
    wrap: WrapMode,
    color: Color,
    other: Coordinate,
)
    ensures
        state.with_minification_filter(min_filter) == (SamplerState {
            minification_filter: min_filter,
            ..state
        }),
        state.with_magnification_filter(mag_filter) == (SamplerState {
            magnification_filter: mag_filter,
            ..state
        }),
        state.with_border_color(color) == (SamplerState { border_color: color, ..state }),
        state.with_minification_filter(min_filter).wrap_mode(other) == state.wrap_mode(other),
        state.with_magnification_filter(mag_filter).wrap_mode(other) == state.wrap_mode(other),
        state.with_border_color(color).wrap_mode(other) == state.wrap_mode(other),
        state.with_wrap(coordinate, wrap).minification_filter == state.minification_filter,
        state.with_wrap(coordinate, wrap).magnification_filter == state.magnification_filter,
        state.with_wrap(coordinate, wrap).border_color == state.border_color,
        other != coordinate ==> state.with_wrap(coordinate, wrap).wrap_mode(other)
            == state.wrap_mode(other),
{
}

} // verus!
