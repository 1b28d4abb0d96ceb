use crate::texture::Extent3d;
use crate::texture::ImageDataLayout;
use crate::texture::TextureDescriptor;
use crate::texture::TextureFormat;
use vstd::prelude::*;

verus! {

/// A texture allocated on the device: its identity and the descriptor it was
/// created with.
#[derive(Clone, Copy, Debug, PartialEq, Eq, Structural)]
pub struct Texture {
    pub id: u64,
    pub descriptor: TextureDescriptor,
}

/// A view onto one texture, with an identity of its own.
#[derive(Clone, Copy, Debug, PartialEq, Eq, Structural)]
pub struct TextureView {
    pub id: u64,
    pub texture_id: u64,
}

/// A sampler, with an identity of its own.
#[derive(Clone, Copy, Debug, PartialEq, Eq, Structural)]
pub struct Sampler {
    pub id: u64,
}

/// Logical size of an image in pixels.
#[derive(Clone, Copy, Debug, PartialEq, Eq, Structural)]
pub struct Size {
    pub width: u32,
    pub height: u32,
}

/// The bundle of device-side resources, plus the logical size, needed to
/// sample one texture during rendering.
#[derive(Clone, Copy, Debug, PartialEq, Eq, Structural)]
pub struct GpuImage {
    pub texture: Texture,
    pub texture_view: TextureView,
    pub texture_format: TextureFormat,
    pub sampler: Sampler,
    pub size: Size,
}

/// A position within a texture.
#[derive(Clone, Copy, Debug, PartialEq, Eq, Structural)]
pub struct Origin3d {
    pub x: u32,
    pub y: u32,
    pub z: u32,
}

/// Which aspect of a texture a copy addresses.
#[derive(Clone, Copy, Debug, PartialEq, Eq, Structural)]
pub enum TextureAspect {
    All,
    StencilOnly,
    DepthOnly,
}

/// The destination of a texture write: a texture identity, a mip level, an
/// origin and an aspect.
#[derive(Clone, Copy, Debug, PartialEq, Eq, Structural)]
pub struct ImageCopyTexture {
    pub texture_id: u64,
    pub mip_level: u32,
    pub origin: Origin3d,
    pub aspect: TextureAspect,
}

/// One upload the queue was asked to perform: destination, pixel bytes,
/// their memory layout and the extent written.
#[derive(Clone, Debug, PartialEq, Eq)]
pub struct WriteTexture {
    pub destination: ImageCopyTexture,
    pub data: Vec<u8>,
    pub layout: ImageDataLayout,
    pub extent: Extent3d,
}

/// A device that allocates textures, views and samplers. Each resource gets
/// a fresh identity: `next_id` is the identity the next allocation will take,
/// so identities handed out so far are exactly those below it.
#[derive(Clone, Copy, Debug, PartialEq, Eq, Structural)]
pub struct RenderDevice {
    pub next_id: u64,
}

/// A queue that records the texture writes issued to it, in order.
#[derive(Debug)]
pub struct RenderQueue {
    pub commands: Vec<WriteTexture>,
}

impl RenderDevice {
    /// A fresh device that has allocated nothing yet.
    pub fn new() -> (r: Self)
        ensures
            r.next_id == 0,
    {
        RenderDevice { next_id: 0 }
    }

    /// Allocates a new texture under the given descriptor.
    pub fn create_texture(&mut self, descriptor: &TextureDescriptor) -> (t: Texture)
        requires
            old(self).next_id < u64::MAX,
        ensures
            t.id == old(self).next_id,
            t.descriptor == *descriptor,
            final(self).next_id == old(self).next_id + 1,
    {
        let id = self.next_id;
        self.next_id = self.next_id + 1;
        Texture { id, descriptor: *descriptor }
    }

    /// Creates a default-configured view onto the given texture.
    pub fn create_texture_view(&mut self, texture: &Texture) -> (v: TextureView)
        requires
            old(self).next_id < u64::MAX,
        ensures
            v.id == old(self).next_id,
            v.texture_id == texture.id,
            final(self).next_id == old(self).next_id + 1,
    {
        let id = self.next_id;
        self.next_id = self.next_id + 1;
        TextureView { id, texture_id: texture.id }
    }

    /// Creates a default-configured sampler.
    pub fn create_sampler(&mut self) -> (s: Sampler)
        requires
            old(self).next_id < u64::MAX,
        ensures
            s.id == old(self).next_id,
            final(self).next_id == old(self).next_id + 1,
    {
        let id = self.next_id;
        self.next_id = self.next_id + 1;
        Sampler { id }
    }
}

impl RenderQueue {
    /// A fresh queue with no write recorded.
    pub fn new() -> (r: Self)
        ensures
            r.commands@.len() == 0,
    {
        RenderQueue { commands: Vec::new() }
    }

    /// Issues one upload: the given bytes, under the given layout, into the
    /// given destination over the given extent. The queue records it after
    /// everything issued before.
    pub fn write_texture(
        &mut self,
        destination: ImageCopyTexture,
        data: Vec<u8>,
        layout: ImageDataLayout,
        extent: Extent3d,
    )
        ensures
            final(self).commands@ == old(self).commands@.push(
                (WriteTexture { destination, data, layout, extent }),
            ),
    {
        self.commands.push(WriteTexture { destination, data, layout, extent });
    }
}

} // verus!
