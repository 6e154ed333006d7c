//! The capability interface of a texture object: what any backend's texture
//! offers, stated over the state that the texture holds.

use crate::pixel::PixelKind;
use crate::sampler::{Coordinate, MagnificationFilter, MinificationFilter, SamplerState, WrapMode};
use crate::shape::GpuTextureKind;
use bytemuck::Pod;
use fyrox_core::color::Color;
use vstd::layout::size_of;
use vstd::prelude::*;
use vstd::slice::slice_subrange;

verus! {

/// Why a texture could not be given its storage.
#[derive(Copy, Clone, Debug, PartialEq, Eq)]
pub enum FrameworkError {
    /// The bytes handed over are not as many as the base image takes.
    SizeMismatch,
    /// More mip levels were asked for than the shape can address.
    InvalidMipCount,
    /// The backend could not allocate or fill the storage.
    BackendFailure,
}

/// Whether a request for storage is well-formed: first the byte count of the
/// initial data, where there is any, is held against the base image, then the
/// mip count against what the shape can address.
pub open spec fn spec_check_texture_data(
    kind: GpuTextureKind,
    pixel_kind: PixelKind,
    mip_count: nat,
    data_len: Option<nat>,
) -> Result<(), FrameworkError> {
    if data_len matches Some(len) && len != kind.spec_size_bytes(pixel_kind) {
        Err(FrameworkError::SizeMismatch)
    } else if mip_count > kind.spec_max_mip_count() {
        Err(FrameworkError::InvalidMipCount)
    } else {
        Ok(())
    }
}

/// Number of bytes in the initial data, if there is any.
pub open spec fn spec_data_len(data: Option<&[u8]>) -> Option<nat> {
    match data {
        Some(bytes) => Some(bytes@.len()),
        None => None,
    }
}

/// Checks a request for storage before any of it is allocated. A base image
/// too large to count in `usize` matches no data.
pub fn check_texture_data(
    kind: GpuTextureKind,
    pixel_kind: PixelKind,
    mip_count: usize,
    data: Option<&[u8]>,
) -> (checked: Result<(), FrameworkError>)
    ensures
        checked == spec_check_texture_data(
            kind,
            pixel_kind,
            mip_count as nat,
            spec_data_len(data),
        ),
{
    if let Some(bytes) = data {
        let actual = bytes.len();
        match kind.checked_size_bytes(pixel_kind) {
            Some(expected) => {
                if actual != expected {
                    return Err(FrameworkError::SizeMismatch);
                }
            },
            None => {
                return Err(FrameworkError::SizeMismatch);
            },
        }
    }
    if mip_count > kind.max_mip_count() {
        return Err(FrameworkError::InvalidMipCount);
    }
    Ok(())
}

/// What a texture object holds, as far as its interface shows it.
pub struct TextureState {
    /// How the texture is sampled.
    pub sampler: SamplerState,
    /// Whether the texture has been given storage.
    pub provisioned: bool,
    pub kind: GpuTextureKind,
    pub pixel_kind: PixelKind,
    pub mip_count: nat,
    /// The bytes of each mip level, the base image first.
    pub images: Seq<Seq<u8>>,
}

impl TextureState {
    /// This texture with its sampling state replaced and all else as it is.
    pub open spec fn with_sampler(self, sampler: SamplerState) -> Self {
        TextureState { sampler, ..self }
    }

    /// The texture has storage of the given shape and encoding: no more mip
    /// levels than the shape can address, one image per level, each of the
    /// size of its level, the base image holding the initial data where there
    /// was any.
    pub open spec fn stores(
        self,
        kind: GpuTextureKind,
        pixel_kind: PixelKind,
        mip_count: nat,
        data: Option<&[u8]>,
    ) -> bool {
        &&& self.provisioned
        &&& self.kind == kind
        &&& self.pixel_kind == pixel_kind
        &&& self.mip_count == mip_count
        &&& mip_count <= kind.spec_max_mip_count()
        &&& self.images.len() == mip_count
        &&& forall|level: int|
            0 <= level < mip_count ==> (#[trigger] self.images[level]).len()
                == kind.spec_level_size_bytes(pixel_kind, level as nat)
        &&& data matches Some(bytes) ==> mip_count > 0 ==> self.images[0] == bytes@
    }
}

/// The sampling state and the storage of a texture do not depend on each
/// other: replacing the sampling state leaves shape, encoding, mip levels and
/// images as they are, whether the texture has storage or not.
pub proof fn lemma_sampler_is_apart_from_storage(texture: TextureState, sampler: SamplerState)
    ensures
        texture.with_sampler(sampler).sampler == sampler,
        texture.with_sampler(sampler).provisioned == texture.provisioned,
        texture.with_sampler(sampler).kind == texture.kind,
        texture.with_sampler(sampler).pixel_kind == texture.pixel_kind,
        texture.with_sampler(sampler).mip_count == texture.mip_count,
        texture.with_sampler(sampler).images == texture.images,
{
}

/// A request for storage that passes the check can be met: there is a
/// texture that stores what was asked for, with the initial data as its base
/// image.
pub proof fn lemma_checked_request_can_be_stored(
    sampler: SamplerState,
    kind: GpuTextureKind,
    pixel_kind: PixelKind,
    mip_count: nat,
    data: Option<&[u8]>,
)
    requires
        spec_check_texture_data(kind, pixel_kind, mip_count, spec_data_len(data)) is Ok,
    ensures
        exists|texture: TextureState|
            texture.sampler == sampler && #[trigger] texture.stores(
                kind,
                pixel_kind,
                mip_count,
                data,
            ),
{
    let images = Seq::new(
        mip_count,
        |level: int|
            if level == 0 && data is Some {
                data->0@
            } else {
                Seq::new(kind.spec_level_size_bytes(pixel_kind, level as nat), |i: int| 0u8)
            },
    );
    let texture = TextureState { sampler, provisioned: true, kind, pixel_kind, mip_count, images };
    kind.lemma_level_0_is_base(pixel_kind);
    assert(texture.stores(kind, pixel_kind, mip_count, data));
}

/// Initial data that a texture stores has the size of the base image: a
/// request with data of another size cannot have succeeded.
pub proof fn lemma_stored_data_has_base_size(
    texture: TextureState,
    kind: GpuTextureKind,
    pixel_kind: PixelKind,
    mip_count: nat,
    data: Option<&[u8]>,
)
    requires
        texture.stores(kind, pixel_kind, mip_count, data),
        mip_count > 0,
    ensures
        spec_data_len(data) matches Some(len) ==> len == kind.spec_size_bytes(pixel_kind),
{
    kind.lemma_level_0_is_base(pixel_kind);
    assert(texture.images[0].len() == kind.spec_level_size_bytes(pixel_kind, 0));
}

/// A texture object of some backend. The sampling state can be set at any
/// time; `set_data` gives the texture its shape, encoding and storage, and
/// only then can images be read back.
///
/// The contracts are what an implementation owes to its callers. Callers are
/// verified against them; an implementation written outside this library is
/// held to them by its author alone.
pub trait GpuTexture {
    /// What the texture holds.
    spec fn view(&self) -> TextureState;

    /// Replaces the minification filter; the getter reads it from now on.
    fn set_minification_filter(&mut self, min_filter: MinificationFilter)
        ensures
            final(self).view() == old(self).view().with_sampler(
                old(self).view().sampler.with_minification_filter(min_filter),
            ),
    ;

    /// Replaces the magnification filter; the getter reads it from now on.
    fn set_magnification_filter(&mut self, mag_filter: MagnificationFilter)
        ensures
            final(self).view() == old(self).view().with_sampler(
                old(self).view().sampler.with_magnification_filter(mag_filter),
            ),
    ;

    /// Replaces the wrap mode of one axis.
    fn set_wrap(&mut self, coordinate: Coordinate, wrap: WrapMode)
        ensures
            final(self).view() == old(self).view().with_sampler(
                old(self).view().sampler.with_wrap(coordinate, wrap),
            ),
    ;

    /// Replaces the border color.
    fn set_border_color(&mut self, color: Color)
        ensures
            final(self).view() == old(self).view().with_sampler(
                old(self).view().sampler.with_border_color(color),
            ),
    ;

    /// Gives the texture storage for `mip_count` levels of the given shape
    /// and encoding, with `data` as the base image where there is any.
    ///
    /// A request that `check_texture_data` rejects fails, and a size or mip
    /// count error is reported only of a request that has that fault; a
    /// well-formed request can still fail in the backend. After a failure
    /// nothing is known of the storage. The sampling state stays as it is
    /// either way.
    fn set_data(
        &mut self,
        kind: GpuTextureKind,
        pixel_kind: PixelKind,
        mip_count: usize,
        data: Option<&[u8]>,
    ) -> (result: Result<(), FrameworkError>)
        ensures
            final(self).view().sampler == old(self).view().sampler,
            spec_check_texture_data(kind, pixel_kind, mip_count as nat, spec_data_len(data))
                is Err ==> result is Err,
            result == Err::<(), FrameworkError>(FrameworkError::SizeMismatch) ==> (spec_data_len(
                data,
            ) matches Some(len) && len != kind.spec_size_bytes(pixel_kind)),
            result == Err::<(), FrameworkError>(FrameworkError::InvalidMipCount) ==> mip_count
                > kind.spec_max_mip_count(),
            result is Ok ==> final(self).view().stores(kind, pixel_kind, mip_count as nat, data),
    ;

    /// The bytes of mip level `level`.
    fn get_image(&self, level: usize) -> (bytes: Vec<u8>)
        requires
            self.view().provisioned,
            level < self.view().mip_count,
        ensures
            bytes@ == self.view().images[level as int],
            bytes@.len() == self.view().kind.spec_level_size_bytes(
                self.view().pixel_kind,
                level as nat,
            ),
    ;

    /// Whether a read of the bound render target can hand back these bytes.
    /// Which target is bound is not part of the texture, so one texture can
    /// admit many reads; a backend that knows no more admits them all.
    spec fn may_read(&self, bytes: Seq<u8>) -> bool;

    /// The bytes of the render target that is bound when the call is made.
    /// Which target that is, and so what comes back, is the backend's affair:
    /// the bytes are one of the reads that the backend admits.
    fn read_pixels(&self) -> (bytes: Vec<u8>)
        ensures
            self.may_read(bytes@),
    ;

    fn kind(&self) -> (kind: GpuTextureKind)
        ensures
            kind == self.view().kind,
    ;

    fn minification_filter(&self) -> (min_filter: MinificationFilter)
        ensures
            min_filter == self.view().sampler.minification_filter,
    ;

    fn magnification_filter(&self) -> (mag_filter: MagnificationFilter)
        ensures
            mag_filter == self.view().sampler.magnification_filter,
    ;

    fn s_wrap_mode(&self) -> (wrap: WrapMode)
        ensures
            wrap == self.view().sampler.wrap_mode(Coordinate::S),
    ;

    fn t_wrap_mode(&self) -> (wrap: WrapMode)
        ensures
            wrap == self.view().sampler.wrap_mode(Coordinate::T),
    ;

    fn pixel_kind(&self) -> (pixel_kind: PixelKind)
        ensures
            pixel_kind == self.view().pixel_kind,
    ;
}

/// `bytemuck::pod_collect_to_vec`: copies the bytes into a new vector of `T`,
/// as many elements as hold them all, the last one filled up with zero bytes
/// where the byte count is no multiple of the size of `T`. It divides by that
/// size, so `T` must not be zero-sized. Which value each element has follows
/// from the machine's byte order and is not stated.
#[verifier::external_body]
fn collect_pod<T: Pod>(bytes: &[u8]) -> (typed: Vec<T>)
    requires
        size_of::<T>() > 0,
    ensures
        typed@.len() == bytes@.len() / size_of::<T>() + if bytes@.len() % size_of::<T>() == 0 {
            0nat
        } else {
            1nat
        },
{
    bytemuck::pod_collect_to_vec(bytes)
}

/// The bytes that make up whole samples of `sample_size` bytes each: the
/// longest prefix whose length is a multiple of `sample_size`. Bytes left
/// over at the end, fewer than one sample takes, are left out.
pub fn whole_samples(bytes: &[u8], sample_size: usize) -> (prefix: &[u8])
    requires
        sample_size > 0,
    ensures
        prefix@ == bytes@.subrange(0, (bytes@.len() / sample_size as nat) * sample_size),
        prefix@.len() % sample_size as nat == 0,
        prefix@.len() / sample_size as nat == bytes@.len() / sample_size as nat,
{
    let count = bytes.len() / sample_size;
    assert(count * sample_size <= bytes.len() && (count * sample_size) / sample_size as int
        == count && (count * sample_size) % sample_size as int == 0) by (nonlinear_arith)
        requires
            sample_size > 0,
            count == bytes.len() / sample_size,
    ;
    slice_subrange(bytes, 0, count * sample_size)
}

/// Reads raw image bytes as values of `T`, in the machine's byte order: as
/// many values as fit whole into the bytes. Bytes left over at the end are
/// dropped.
pub fn samples_of_type<T: Pod>(bytes: &[u8]) -> (typed: Vec<T>)
    requires
        size_of::<T>() > 0,
    ensures
        typed@.len() == bytes@.len() / size_of::<T>(),
{
    collect_pod::<T>(whole_samples(bytes, core::mem::size_of::<T>()))
}

impl<'a> dyn GpuTexture + 'a {
    /// Mip level `level` read as values of `T`.
    pub fn get_image_of_type<T: Pod>(&self, level: usize) -> (typed: Vec<T>)
        requires
            self.view().provisioned,
            level < self.view().mip_count,
            size_of::<T>() > 0,
        ensures
            typed@.len() == self.view().kind.spec_level_size_bytes(
                self.view().pixel_kind,
                level as nat,
            ) / size_of::<T>(),
            typed@.len() == self.view().images[level as int].len() / size_of::<T>(),
    {
        let bytes = self.get_image(level);
        samples_of_type::<T>(bytes.as_slice())
    }

    /// The bound render target read as values of `T`: the bytes of one read
    /// that the backend admits, as many values as fit whole into them.
    pub fn read_pixels_of_type<T>(&self) -> (typed: Vec<T>) where T: Pod
        requires
            size_of::<T>() > 0,
        ensures
            exists|bytes: Seq<u8>|
                #[trigger] self.may_read(bytes) && typed@.len() == bytes.len() / size_of::<T>(),
    {
        let bytes = self.read_pixels();
        let typed = samples_of_type::<T>(bytes.as_slice());
        assert(self.may_read(bytes@) && typed@.len() == bytes@.len() / size_of::<T>());
        typed
    }
}

} // verus!
