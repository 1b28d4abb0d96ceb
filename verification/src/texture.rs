use vstd::prelude::*;

verus! {

/// Pixel format of a texture. The animations this library prepares are
/// decoded upstream to 8-bit RGBA with the sRGB transfer function.
#[derive(Clone, Copy, Debug, PartialEq, Eq, Structural)]
pub enum TextureFormat {
    Rgba8UnormSrgb,
}

impl TextureFormat {
    /// Bytes occupied by one pixel of this format.
    pub open spec fn spec_pixel_size(self) -> nat {
        match self {
            TextureFormat::Rgba8UnormSrgb => 4,
        }
    }

    /// Bytes occupied by one pixel of this format.
    pub fn pixel_size(&self) -> (r: u32)
        ensures
            r == self.spec_pixel_size(),
    {
        match self {
            TextureFormat::Rgba8UnormSrgb => 4,
        }
    }
}

/// Dimensionality of a texture.
#[derive(Clone, Copy, Debug, PartialEq, Eq, Structural)]
pub enum TextureDimension {
    D1,
    D2,
    D3,
}

/// Usage flag: the texture can be bound for sampling in a shader.
pub const TEXTURE_USAGE_TEXTURE_BINDING: u32 = 4;

/// Usage flag: the texture can be the destination of a copy or write.
pub const TEXTURE_USAGE_COPY_DST: u32 = 2;

/// Width, height and depth (or array layer count) of a texture.
#[derive(Clone, Copy, Debug, PartialEq, Eq, Structural)]
pub struct Extent3d {
    pub width: u32,
    pub height: u32,
    pub depth_or_array_layers: u32,
}

/// Format-level metadata shared by every frame of one animation.
#[derive(Clone, Copy, Debug, PartialEq, Eq, Structural)]
pub struct TextureDescriptor {
    pub size: Extent3d,
    pub mip_level_count: u32,
    pub sample_count: u32,
    pub dimension: TextureDimension,
    pub format: TextureFormat,
    pub usage: u32,
}

/// Memory layout of one frame's pixel bytes inside an upload.
#[derive(Clone, Copy, Debug, PartialEq, Eq)]
pub struct ImageDataLayout {
    /// Byte offset into the source buffer at which the pixel data starts.
    pub offset: u64,
    /// Bytes occupied by one row of pixels; never `Some(0)` when computed here.
    pub bytes_per_row: Option<u32>,
    /// Rows per layer image, set only for layered textures.
    pub rows_per_image: Option<u32>,
}

/// Why a descriptor admits no upload layout.
#[derive(Clone, Copy, Debug, PartialEq, Eq, Structural)]
pub enum PrepareAssetError {
    /// The row stride is zero: the descriptor has a zero width
    /// (or a format of zero byte size), so no row of pixels exists.
    ZeroRowStride,
    /// The row stride does not fit the 32 bits the layout carries it in.
    RowStrideTooWide,
}

/// Bytes occupied by one row of pixels under this descriptor.
pub open spec fn spec_row_stride(desc: TextureDescriptor) -> nat {
    (desc.size.width as nat) * desc.format.spec_pixel_size()
}

/// A layout can be computed exactly when the row stride is positive and
/// representable.
pub open spec fn layout_computable(desc: TextureDescriptor) -> bool {
    0 < spec_row_stride(desc) <= u32::MAX
}

/// Row-count metadata: present exactly for layered textures.
pub open spec fn spec_rows_per_image(desc: TextureDescriptor) -> Option<u32> {
    if desc.size.depth_or_array_layers > 1 {
        Some(desc.size.height)
    } else {
        None
    }
}

/// The upload layout a computable descriptor yields.
pub open spec fn spec_data_layout(desc: TextureDescriptor) -> ImageDataLayout {
    ImageDataLayout {
        offset: 0,
        bytes_per_row: Some(spec_row_stride(desc) as u32),
        rows_per_image: spec_rows_per_image(desc),
    }
}

/// The error a non-computable descriptor yields.
pub open spec fn spec_layout_error(desc: TextureDescriptor) -> PrepareAssetError {
    if spec_row_stride(desc) == 0 {
        PrepareAssetError::ZeroRowStride
    } else {
        PrepareAssetError::RowStrideTooWide
    }
}

/// Computes the memory layout of one frame's upload: the data starts at
/// offset zero, a row occupies `width * pixel_size` bytes, and row-count
/// metadata is given only for layered textures. A degenerate descriptor is
/// rejected rather than crashed on.
pub fn data_layout(desc: &TextureDescriptor) -> (r: Result<ImageDataLayout, PrepareAssetError>)
    ensures
        r is Ok <==> layout_computable(*desc),
        r is Ok ==> r->Ok_0 == spec_data_layout(*desc),
        r is Err ==> r->Err_0 == spec_layout_error(*desc),
{
    let px: u32 = desc.format.pixel_size();
    let stride: u64 = (desc.size.width as u64) * (px as u64);
    if stride == 0 {
        Err(PrepareAssetError::ZeroRowStride)
    } else if stride > (u32::MAX as u64) {
        Err(PrepareAssetError::RowStrideTooWide)
    } else {
        let rows_per_image: Option<u32> = if desc.size.depth_or_array_layers > 1 {
            Some(desc.size.height)
        } else {
            None
        };
        Ok(ImageDataLayout { offset: 0, bytes_per_row: Some(stride as u32), rows_per_image })
    }
}

/// Law: the row stride equals width times the pixel format's byte size, and
/// is strictly positive whenever the width is.
pub proof fn lemma_row_stride(desc: TextureDescriptor)
    ensures
        spec_row_stride(desc) == desc.size.width * desc.format.spec_pixel_size(),
        desc.size.width > 0 ==> spec_row_stride(desc) > 0,
{
}

/// Law: row-count metadata is present in the computed layout if and only if
/// the descriptor's depth or array layer count exceeds one, and then it is
/// the descriptor's height.
pub proof fn lemma_rows_per_image_iff_layered(desc: TextureDescriptor)
    ensures
        spec_data_layout(desc).rows_per_image is Some <==> desc.size.depth_or_array_layers > 1,
        desc.size.depth_or_array_layers > 1 ==> spec_data_layout(desc).rows_per_image == Some(
            desc.size.height,
        ),
{
}

} // verus!
