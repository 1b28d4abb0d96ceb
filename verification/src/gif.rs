use crate::gpu::GpuImage;
use crate::gpu::ImageCopyTexture;
use crate::gpu::Origin3d;
use crate::gpu::RenderDevice;
use crate::gpu::RenderQueue;
use crate::gpu::Size;
use crate::gpu::TextureAspect;
use crate::gpu::WriteTexture;
use crate::texture::data_layout;
use crate::texture::layout_computable;
use crate::texture::spec_data_layout;
use crate::texture::spec_layout_error;
use crate::texture::Extent3d;
use crate::texture::PrepareAssetError;
use crate::texture::TextureDescriptor;
use crate::texture::TextureDimension;
use crate::texture::TextureFormat;
use crate::texture::TEXTURE_USAGE_COPY_DST;
use crate::texture::TEXTURE_USAGE_TEXTURE_BINDING;
use vstd::prelude::*;

verus! {

/// One still image of an animation: its raw interleaved pixel bytes and its
/// display duration. The duration plays no part in preparing textures.
#[derive(Clone, Debug, PartialEq, Eq)]
pub struct Frame {
    /// Raw pixel bytes of this frame, rows interleaved without padding.
    pub buffer: Vec<u8>,
    /// Display duration of this frame, in milliseconds.
    pub delay_ms: u32,
}

/// A decoded animation: the texture descriptor shared by every frame, and
/// the frames in display order.
#[derive(Clone, Debug, PartialEq, Eq)]
pub struct GifAnimation {
    /// Notably holds the dimensions shared by every frame.
    pub texture_descriptor: TextureDescriptor,
    /// The data of each frame, in display order.
    pub frames: Vec<Frame>,
}

/// The descriptor every animation is constructed with: a two-dimensional,
/// single-layer, single-sample RGBA texture without extra mip levels, usable
/// as a binding target and as a copy destination.
pub open spec fn spec_default_descriptor(width: u32, height: u32) -> TextureDescriptor {
    TextureDescriptor {
        size: Extent3d { width, height, depth_or_array_layers: 1 },
        mip_level_count: 1,
        sample_count: 1,
        dimension: TextureDimension::D2,
        format: TextureFormat::Rgba8UnormSrgb,
        usage: TEXTURE_USAGE_TEXTURE_BINDING | TEXTURE_USAGE_COPY_DST,
    }
}

/// Two frames carry the same data.
pub open spec fn frame_eq(a: Frame, b: Frame) -> bool {
    &&& a.buffer@ == b.buffer@
    &&& a.delay_ms == b.delay_ms
}

/// The record prepared for one frame, given the descriptor and the first of
/// the three identities the device handed out for it: the texture carries
/// that identity and the descriptor, the view the next identity and the
/// texture's, the sampler the one after, and the record repeats the
/// descriptor's format and logical size.
pub open spec fn image_matches(img: GpuImage, desc: TextureDescriptor, base: int) -> bool {
    &&& img.texture.id == base
    &&& img.texture.descriptor == desc
    &&& img.texture_view.id == base + 1
    &&& img.texture_view.texture_id == base
    &&& img.sampler.id == base + 2
    &&& img.texture_format == desc.format
    &&& img.size == (Size { width: desc.size.width, height: desc.size.height })
}

/// The upload recorded for one frame: the frame's bytes, under the layout
/// the descriptor yields, into the frame's own texture at the default
/// origin, covering the descriptor's whole extent.
pub open spec fn upload_matches(
    cmd: WriteTexture,
    frame: Frame,
    desc: TextureDescriptor,
    texture_id: int,
) -> bool {
    &&& cmd.destination.texture_id == texture_id
    &&& cmd.destination.mip_level == 0
    &&& cmd.destination.origin == (Origin3d { x: 0, y: 0, z: 0 })
    &&& cmd.destination.aspect == TextureAspect::All
    &&& cmd.data@ == frame.buffer@
    &&& cmd.layout == spec_data_layout(desc)
    &&& cmd.extent == desc.size
}

/// What successfully preparing an animation leaves behind: one record per
/// frame in frame order, each over three fresh consecutive identities; one
/// upload per frame in frame order, appended after everything the queue
/// already held; and a device that has moved past every identity it handed
/// out.
pub open spec fn prepared_ok(
    animation: GifAnimation,
    dev0: RenderDevice,
    dev1: RenderDevice,
    q0: RenderQueue,
    q1: RenderQueue,
    images: Seq<GpuImage>,
) -> bool {
    let desc = animation.texture_descriptor;
    let n = animation.frames@.len() as int;
    let base = dev0.next_id as int;
    let issued = q0.commands@.len() as int;
    &&& images.len() == n
    &&& dev1.next_id == base + 3 * n
    &&& q1.commands@.len() == issued + n
    &&& q1.commands@.subrange(0, issued) == q0.commands@
    &&& forall|j: int|
        0 <= j < n ==> image_matches(#[trigger] images[j], desc, base + 3 * j)
    &&& forall|j: int|
        0 <= j < n ==> upload_matches(
            #[trigger] q1.commands@[issued + j],
            animation.frames@[j],
            desc,
            base + 3 * j,
        )
}

impl GifAnimation {
    /// Builds an animation over the given frames. `dimensions` is the width
    /// and the height shared by every frame.
    pub fn new(dimensions: (u32, u32), frames: Vec<Frame>) -> (r: Self)
        ensures
            r.texture_descriptor == spec_default_descriptor(dimensions.0, dimensions.1),
            r.frames == frames,
    {
        let texture_descriptor = TextureDescriptor {
            size: Extent3d {
                width: dimensions.0,
                height: dimensions.1,
                depth_or_array_layers: 1,
            },
            format: TextureFormat::Rgba8UnormSrgb,
            dimension: TextureDimension::D2,
            mip_level_count: 1,
            sample_count: 1,
            usage: TEXTURE_USAGE_TEXTURE_BINDING | TEXTURE_USAGE_COPY_DST,
        };
        GifAnimation { frames, texture_descriptor }
    }

    /// Snapshots the asset for out-of-band preparation: the copy carries the
    /// same descriptor, and frames equal to the originals in data order.
    pub fn extract_asset(&self) -> (r: Self)
        ensures
            r.texture_descriptor == self.texture_descriptor,
            r.frames@.len() == self.frames@.len(),
            forall|i: int|
                0 <= i < self.frames@.len() ==> frame_eq(#[trigger] r.frames@[i], self.frames@[i]),
    {
        let mut frames: Vec<Frame> = Vec::new();
        let n = self.frames.len();
        let mut i: usize = 0;
        while i < n
            invariant
                i <= n,
                n == self.frames@.len(),
                frames@.len() == i,
                forall|j: int|
                    0 <= j < i ==> frame_eq(#[trigger] frames@[j], self.frames@[j]),
            decreases n - i,
        {
            let src = &self.frames[i];
            let buffer = src.buffer.clone();
            proof {
                assert(buffer@ =~= src.buffer@);
            }
            frames.push(Frame { buffer, delay_ms: src.delay_ms });
            i = i + 1;
        }
        GifAnimation { texture_descriptor: self.texture_descriptor, frames }
    }

    /// Converts the animation into one GPU image record per frame.
    ///
    /// For each frame in order it allocates a texture under the shared
    /// descriptor, issues one upload of the frame's bytes under the computed
    /// layout, creates a view and a sampler, and bundles them with the
    /// format and the logical size. A descriptor whose row stride is zero or
    /// too wide for the layout is rejected up front, before any device or
    /// queue call.
    pub fn prepare_asset(
        animation: GifAnimation,
        render_device: &mut RenderDevice,
        render_queue: &mut RenderQueue,
    ) -> (r: Result<Vec<GpuImage>, PrepareAssetError>)
        requires
            old(render_device).next_id + 3 * animation.frames@.len() <= u64::MAX,
        ensures
            r is Ok <==> layout_computable(animation.texture_descriptor),
            r is Ok ==> prepared_ok(
                animation,
                *old(render_device),
                *final(render_device),
                *old(render_queue),
                *final(render_queue),
                r->Ok_0@,
            ),
            r is Err ==> r->Err_0 == spec_layout_error(animation.texture_descriptor),
            r is Err ==> *final(render_device) == *old(render_device),
            r is Err ==> *final(render_queue) == *old(render_queue),
    {
        let desc = animation.texture_descriptor;
        let layout = match data_layout(&desc) {
            Ok(l) => l,
            Err(e) => {
                return Err(e);
            },
        };
        let mut frames = animation.frames;
        let ghost frames0 = frames@;
        let ghost base = render_device.next_id as int;
        let ghost q0 = render_queue.commands@;
        let n = frames.len();
        let mut images: Vec<GpuImage> = Vec::new();
        let mut i: usize = 0;
        while i < n
            invariant
                i <= n,
                n == frames0.len(),
                frames@ == frames0.subrange(i as int, n as int),
                base + 3 * n <= u64::MAX,
                render_device.next_id == base + 3 * i,
                render_queue.commands@.len() == q0.len() + i,
                render_queue.commands@.subrange(0, q0.len() as int) == q0,
                images@.len() == i,
                layout == spec_data_layout(desc),
                forall|j: int|
                    0 <= j < i ==> image_matches(#[trigger] images@[j], desc, base + 3 * j),
                forall|j: int|
                    0 <= j < i ==> upload_matches(
                        #[trigger] render_queue.commands@[q0.len() + j],
                        frames0[j],
                        desc,
                        base + 3 * j,
                    ),
            decreases n - i,
        {
            let f = frames.remove(0);
            proof {
                assert(frames@ =~= frames0.subrange(i + 1 as int, n as int));
            }
            let texture = render_device.create_texture(&desc);
            render_queue.write_texture(
                ImageCopyTexture {
                    texture_id: texture.id,
                    mip_level: 0,
                    origin: Origin3d { x: 0, y: 0, z: 0 },
                    aspect: TextureAspect::All,
                },
                f.buffer,
                layout,
                desc.size,
            );
            proof {
                assert(render_queue.commands@.subrange(0, q0.len() as int) =~= q0);
            }
            let texture_view = render_device.create_texture_view(&texture);
            let sampler = render_device.create_sampler();
            let size = Size { width: desc.size.width, height: desc.size.height };
            images.push(GpuImage { texture, texture_view, texture_format: desc.format, sampler, size });
            i = i + 1;
        }
        Ok(images)
    }
}

/// Law: the records prepared for one animation alias nothing. Within one
/// record and across records, every texture, view and sampler identity
/// differs from every other.
pub proof fn lemma_prepared_identities_distinct(
    animation: GifAnimation,
    dev0: RenderDevice,
    dev1: RenderDevice,
    q0: RenderQueue,
    q1: RenderQueue,
    images: Seq<GpuImage>,
)
    requires
        prepared_ok(animation, dev0, dev1, q0, q1, images),
    ensures
        forall|j: int, k: int|
            0 <= j < images.len() && 0 <= k < images.len() && j != k ==> (#[trigger] images[j]).texture.id
                != (#[trigger] images[k]).texture.id && images[j].texture_view.id
                != images[k].texture_view.id && images[j].sampler.id != images[k].sampler.id,
        forall|j: int, k: int|
            0 <= j < images.len() && 0 <= k < images.len() ==> (#[trigger] images[j]).texture.id
                != (#[trigger] images[k]).texture_view.id && images[j].texture.id
                != images[k].sampler.id && images[j].texture_view.id != images[k].sampler.id,
{
    let desc = animation.texture_descriptor;
    let base = dev0.next_id as int;
    assert forall|j: int, k: int| 0 <= j < images.len() && 0 <= k < images.len() implies ({
        &&& (j != k ==> images[j].texture.id != images[k].texture.id
            && images[j].texture_view.id != images[k].texture_view.id
            && images[j].sampler.id != images[k].sampler.id)
        &&& images[j].texture.id != images[k].texture_view.id
        &&& images[j].texture.id != images[k].sampler.id
        &&& images[j].texture_view.id != images[k].sampler.id
    }) by {
        assert(image_matches(images[j], desc, base + 3 * j));
        assert(image_matches(images[k], desc, base + 3 * k));
    }
}

} // verus!
