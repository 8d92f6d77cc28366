use vstd::prelude::*;
use crate::frame::{
    apply_update, frame_fits, FrameError, plane_len, PlaneContents,
};

verus! {

/// A graphics device able to allocate textures, samplers and pipelines.
/// Opaque to the library; handed in by the caller that acquired it.
#[verifier::external_type_specification]
#[verifier::external_body]
pub struct ExDevice(wgpu::Device);

/// The device's submission queue, through which texture writes travel.
#[verifier::external_type_specification]
#[verifier::external_body]
pub struct ExQueue(wgpu::Queue);

/// A GPU-resident image. The library treats it as a container of texels
/// whose extent is fixed at creation.
#[verifier::external_type_specification]
#[verifier::external_body]
pub struct ExTexture(wgpu::Texture);

/// A sampling view over a texture.
#[verifier::external_type_specification]
#[verifier::external_body]
pub struct ExTextureView(wgpu::TextureView);

/// A sampler configuration object.
#[verifier::external_type_specification]
#[verifier::external_body]
pub struct ExSampler(wgpu::Sampler);

/// The width, in texels, that a texture was created with.
pub uninterp spec fn texture_width(t: wgpu::Texture) -> nat;

/// The height, in texels, that a texture was created with.
pub uninterp spec fn texture_height(t: wgpu::Texture) -> nat;

/// The largest texture edge the device accepts; wgpu's default 2D texture
/// dimension limit, which the devices this library is used with request.
pub const MAX_TEXTURE_DIM: u32 = 8192;

/// Relies on wgpu's `Device::create_texture`: allocates a 2D texture of the
/// given extent in format `R8Unorm` (8-bit unsigned normalized, one channel),
/// one mip level, one sample, usable as a shader binding and as a copy
/// destination. The extent is fixed for the texture's lifetime. Dimensions
/// outside the device limit, or zero, fail wgpu's validation.
#[verifier::external_body]
fn create_r8_texture(device: &wgpu::Device, label: Option<&str>, width: u32, height: u32) -> (t:
    wgpu::Texture)
    requires
        0 < width <= MAX_TEXTURE_DIM,
        0 < height <= MAX_TEXTURE_DIM,
    ensures
        texture_width(t) == width as nat,
        texture_height(t) == height as nat,
{
    device.create_texture(&wgpu::TextureDescriptor {
        label,
        size: wgpu::Extent3d { width, height, depth_or_array_layers: 1 },
        mip_level_count: 1,
        sample_count: 1,
        dimension: wgpu::TextureDimension::D2,
        format: wgpu::TextureFormat::R8Unorm,
        usage: wgpu::TextureUsages::TEXTURE_BINDING | wgpu::TextureUsages::COPY_DST,
    })
}

/// Relies on wgpu's `Texture::create_view`: makes a view over the whole
/// texture with default settings, suitable for sampling it.
#[verifier::external_body]
fn create_full_view(texture: &wgpu::Texture) -> (v: wgpu::TextureView) {
    texture.create_view(&wgpu::TextureViewDescriptor::default())
}

/// Relies on wgpu's `Device::create_sampler`: makes a sampler that clamps
/// to the edge on all three axes, magnifies linearly, and minifies and
/// picks mip levels by nearest sample.
#[verifier::external_body]
fn create_video_sampler(device: &wgpu::Device) -> (s: wgpu::Sampler) {
    device.create_sampler(&wgpu::SamplerDescriptor {
        address_mode_u: wgpu::AddressMode::ClampToEdge,
        address_mode_v: wgpu::AddressMode::ClampToEdge,
        address_mode_w: wgpu::AddressMode::ClampToEdge,
        mag_filter: wgpu::FilterMode::Linear,
        min_filter: wgpu::FilterMode::Nearest,
        mipmap_filter: wgpu::FilterMode::Nearest,
        ..wgpu::SamplerDescriptor::default()
    })
}

/// Relies on wgpu's `Queue::write_texture`: replaces the full extent of the
/// texture with `width * height` bytes read from `data` starting at
/// `offset`, row stride `width`, `height` rows, no padding. The write
/// becomes GPU-visible with the queue's next submission. wgpu validates
/// that the texture's extent matches and that the data covers it.
#[verifier::external_body]
fn write_full_texture(
    queue: &wgpu::Queue,
    texture: &wgpu::Texture,
    width: u32,
    height: u32,
    data: &[u8],
    offset: u64,
)
    requires
        texture_width(*texture) == width as nat,
        texture_height(*texture) == height as nat,
        0 < width,
        0 < height,
        offset + (width as nat) * (height as nat) <= data@.len(),
{
    queue.write_texture(
        wgpu::ImageCopyTexture {
            aspect: wgpu::TextureAspect::All,
            texture,
            mip_level: 0,
            origin: wgpu::Origin3d::ZERO,
        },
        data,
        wgpu::ImageDataLayout {
            offset,
            bytes_per_row: std::num::NonZeroU32::new(width),
            rows_per_image: std::num::NonZeroU32::new(height),
        },
        wgpu::Extent3d { width, height, depth_or_array_layers: 1 },
    )
}

/// One GPU-resident single-channel 2D image: one color plane of the video,
/// with the view that the fragment stage samples it through.
pub struct ColorComponentTexture {
    pub texture: wgpu::Texture,
    pub view: wgpu::TextureView,
    pub width: u32,
    pub height: u32,
}

impl ColorComponentTexture {
    /// The recorded dimensions match the texture's real extent and lie
    /// within the device limit.
    pub open spec fn wf(&self) -> bool {
        &&& texture_width(self.texture) == self.width as nat
        &&& texture_height(self.texture) == self.height as nat
        &&& 0 < self.width <= MAX_TEXTURE_DIM
        &&& 0 < self.height <= MAX_TEXTURE_DIM
    }

    /// Allocates one single-channel 8-bit plane texture of exactly the
    /// given dimensions, with a full view over it.
    pub fn new(device: &wgpu::Device, label: Option<&str>, dimensions: (u32, u32)) -> (r: Self)
        requires
            0 < dimensions.0 <= MAX_TEXTURE_DIM,
            0 < dimensions.1 <= MAX_TEXTURE_DIM,
        ensures
            r.wf(),
            r.width == dimensions.0,
            r.height == dimensions.1,
    {
        let texture = create_r8_texture(device, label, dimensions.0, dimensions.1);
        let view = create_full_view(&texture);
        ColorComponentTexture { texture, view, width: dimensions.0, height: dimensions.1 }
    }
}

/// Three equally sized plane textures (Y, U, V) and the one sampler they
/// share, plus a model of the plane contents as last uploaded.
pub struct VideoYUV444Texture {
    pub component_y: ColorComponentTexture,
    pub component_u: ColorComponentTexture,
    pub component_v: ColorComponentTexture,
    pub sampler: wgpu::Sampler,
    pub width: u32,
    pub height: u32,
    /// GPU-visible contents of the three planes, insofar as the queue's
    /// writes carry the sliced buffer onto the device unchanged.
    pub planes: Ghost<PlaneContents>,
}

impl VideoYUV444Texture {
    /// All three components exist, are well formed, and share the
    /// aggregate's dimensions.
    pub open spec fn wf(&self) -> bool {
        &&& self.component_y.wf()
        &&& self.component_u.wf()
        &&& self.component_v.wf()
        &&& self.component_y.width == self.width
        &&& self.component_y.height == self.height
        &&& self.component_u.width == self.width
        &&& self.component_u.height == self.height
        &&& self.component_v.width == self.width
        &&& self.component_v.height == self.height
        &&& 0 < self.width <= MAX_TEXTURE_DIM
        &&& 0 < self.height <= MAX_TEXTURE_DIM
    }

    /// Builds the three plane textures, all exactly `dimensions` in size,
    /// and the shared clamp-to-edge sampler.
    pub fn new(device: &wgpu::Device, label: Option<&str>, dimensions: (u32, u32)) -> (r: Self)
        requires
            0 < dimensions.0 <= MAX_TEXTURE_DIM,
            0 < dimensions.1 <= MAX_TEXTURE_DIM,
        ensures
            r.wf(),
            r.width == dimensions.0,
            r.height == dimensions.1,
            r.component_y.width == dimensions.0 && r.component_y.height == dimensions.1,
            r.component_u.width == dimensions.0 && r.component_u.height == dimensions.1,
            r.component_v.width == dimensions.0 && r.component_v.height == dimensions.1,
    {
        let component_y = ColorComponentTexture::new(device, label, dimensions);
        let component_u = ColorComponentTexture::new(device, label, dimensions);
        let component_v = ColorComponentTexture::new(device, label, dimensions);
        let sampler = create_video_sampler(device);
        VideoYUV444Texture {
            component_y,
            component_u,
            component_v,
            sampler,
            width: dimensions.0,
            height: dimensions.1,
            planes: Ghost(
                PlaneContents { y: Seq::empty(), u: Seq::empty(), v: Seq::empty() },
            ),
        }
    }

    /// Slices `data` into its three plane segments and writes each over
    /// the full extent of its plane texture: Y from offset `0`, U from
    /// `width*height`, V from `2*width*height`, each with row stride
    /// `width` and `height` rows. Rejects a buffer shorter than
    /// `3*width*height` bytes without touching the GPU.
    pub fn update(&mut self, queue: &wgpu::Queue, data: &[u8]) -> (r: Result<(), FrameError>)
        requires
            old(self).wf(),
        ensures
            final(self).wf(),
            final(self).width == old(self).width,
            final(self).height == old(self).height,
            final(self).component_y == old(self).component_y,
            final(self).component_u == old(self).component_u,
            final(self).component_v == old(self).component_v,
            final(self).sampler == old(self).sampler,
            r is Ok <==> frame_fits(data@, old(self).width as nat, old(self).height as nat),
            r is Err ==> r == Err::<(), FrameError>(FrameError::TooShort)
                && final(self).planes == old(self).planes,
            r is Ok ==> final(self).planes@ == apply_update(
                old(self).planes@,
                data@,
                old(self).width as nat,
                old(self).height as nat,
            ),
    {
        proof {
            assert((self.width as int) * (self.height as int) <= 8192 * 8192)
                by (nonlinear_arith)
                requires 0 < self.width <= 8192, 0 < self.height <= 8192;
        }
        let wh: u32 = self.width * self.height;
        let need: u32 = 3 * wh;
        if data.len() < need as usize {
            return Err(FrameError::TooShort);
        }
        write_full_texture(queue, &self.component_y.texture, self.width, self.height, data, 0);
        write_full_texture(
            queue,
            &self.component_u.texture,
            self.width,
            self.height,
            data,
            wh as u64,
        );
        write_full_texture(
            queue,
            &self.component_v.texture,
            self.width,
            self.height,
            data,
            2 * (wh as u64),
        );
        self.planes = Ghost(
            apply_update(self.planes@, data@, self.width as nat, self.height as nat),
        );
        Ok(())
    }
}

} // verus!
