use gif_animation::texture::data_layout;
use gif_animation::texture::Extent3d;
use gif_animation::texture::ImageDataLayout;
use gif_animation::texture::PrepareAssetError;
use gif_animation::texture::TextureDescriptor;
use gif_animation::texture::TextureDimension;
use gif_animation::texture::TextureFormat;
use gif_animation::texture::TEXTURE_USAGE_COPY_DST;
use gif_animation::texture::TEXTURE_USAGE_TEXTURE_BINDING;

fn descriptor(width: u32, height: u32, layers: u32) -> TextureDescriptor {
    TextureDescriptor {
        size: Extent3d { width, height, depth_or_array_layers: layers },
        mip_level_count: 1,
        sample_count: 1,
        dimension: TextureDimension::D2,
        format: TextureFormat::Rgba8UnormSrgb,
        usage: TEXTURE_USAGE_TEXTURE_BINDING | TEXTURE_USAGE_COPY_DST,
    }
}

#[test]
fn pixel_size_of_rgba_is_four() {
    assert_eq!(TextureFormat::Rgba8UnormSrgb.pixel_size(), 4);
}

#[test]
fn stride_is_width_times_pixel_size() {
    let layout = data_layout(&descriptor(2, 2, 1)).unwrap();
    assert_eq!(
        layout,
        ImageDataLayout { offset: 0, bytes_per_row: Some(8), rows_per_image: None }
    );

    let wide = data_layout(&descriptor(640, 480, 1)).unwrap();
    assert_eq!(wide.bytes_per_row, Some(2560));
    assert_eq!(wide.offset, 0);
}

#[test]
fn zero_width_yields_explicit_rejection() {
    assert_eq!(
        data_layout(&descriptor(0, 4, 1)),
        Err(PrepareAssetError::ZeroRowStride)
    );
}

#[test]
fn oversized_stride_yields_explicit_rejection() {
    // 2^30 pixels of 4 bytes each: the row stride no longer fits 32 bits.
    assert_eq!(
        data_layout(&descriptor(1 << 30, 1, 1)),
        Err(PrepareAssetError::RowStrideTooWide)
    );
}

#[test]
fn rows_per_image_present_only_for_layered_textures() {
    let flat = data_layout(&descriptor(2, 7, 1)).unwrap();
    assert_eq!(flat.rows_per_image, None);

    let layered = data_layout(&descriptor(2, 7, 2)).unwrap();
    assert_eq!(layered.rows_per_image, Some(7));

    let deep = data_layout(&descriptor(2, 9, 6)).unwrap();
    assert_eq!(deep.rows_per_image, Some(9));
}
