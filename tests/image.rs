use image_transfer::copy_image_buffer::required_len_for_format;
use image_transfer::format::Format;
use image_transfer::image::{
    Extent, ImageCreateFlags, ImageDimensions, ImageFormatProperties, ImageTiling, ImageType,
    MipmapsCount,
};
use image_transfer::vk;

#[test]
fn max_mipmaps() {
    let dims = ImageDimensions::Dim2d {
        width: 2,
        height: 1,
        array_layers: 1,
    };
    assert_eq!(dims.max_mipmaps(), 2);

    let dims = ImageDimensions::Dim2d {
        width: 2,
        height: 3,
        array_layers: 1,
    };
    assert_eq!(dims.max_mipmaps(), 2);

    let dims = ImageDimensions::Dim2d {
        width: 512,
        height: 512,
        array_layers: 1,
    };
    assert_eq!(dims.max_mipmaps(), 10);
}

#[test]
fn mipmap_dimensions() {
    let dims = ImageDimensions::Dim2d {
        width: 283,
        height: 175,
        array_layers: 1,
    };
    assert_eq!(dims.mipmap_dimensions(0), Some(dims));
    assert_eq!(
        dims.mipmap_dimensions(1),
        Some(ImageDimensions::Dim2d {
            width: 141,
            height: 87,
            array_layers: 1,
        })
    );
    assert_eq!(
        dims.mipmap_dimensions(2),
        Some(ImageDimensions::Dim2d {
            width: 70,
            height: 43,
            array_layers: 1,
        })
    );
    assert_eq!(
        dims.mipmap_dimensions(3),
        Some(ImageDimensions::Dim2d {
            width: 35,
            height: 21,
            array_layers: 1,
        })
    );
    assert_eq!(
        dims.mipmap_dimensions(4),
        Some(ImageDimensions::Dim2d {
            width: 17,
            height: 10,
            array_layers: 1,
        })
    );
    assert_eq!(
        dims.mipmap_dimensions(5),
        Some(ImageDimensions::Dim2d {
            width: 8,
            height: 5,
            array_layers: 1,
        })
    );
    assert_eq!(
        dims.mipmap_dimensions(6),
        Some(ImageDimensions::Dim2d {
            width: 4,
            height: 2,
            array_layers: 1,
        })
    );
    assert_eq!(
        dims.mipmap_dimensions(7),
        Some(ImageDimensions::Dim2d {
            width: 2,
            height: 1,
            array_layers: 1,
        })
    );
    assert_eq!(
        dims.mipmap_dimensions(8),
        Some(ImageDimensions::Dim2d {
            width: 1,
            height: 1,
            array_layers: 1,
        })
    );
    assert_eq!(dims.mipmap_dimensions(9), None);
}

#[test]
fn mipmap_working_immutable_image() {
    let dimensions = ImageDimensions::Dim2d {
        width: 512,
        height: 512,
        array_layers: 1,
    };
    let data = vec![0u8; 512 * 512];
    // The uploaded data covers exactly the base level.
    assert_eq!(
        required_len_for_format::<u8>(Format::R8Unorm, dimensions.width_height_depth(), 1),
        data.len()
    );
    // One mipmap: just the base level.
    assert_eq!(dimensions.mipmap_dimensions(0), Some(dimensions));
    // Log2: the whole chain down to 1×1.
    assert_eq!(dimensions.max_mipmaps(), 10);
    assert_eq!(
        dimensions.mipmap_dimensions(9),
        Some(ImageDimensions::Dim2d {
            width: 1,
            height: 1,
            array_layers: 1,
        })
    );
    assert_eq!(dimensions.mipmap_dimensions(10), None);
}

#[test]
fn max_mipmaps_of_each_shape() {
    assert_eq!(ImageDimensions::Dim1d { width: 1, array_layers: 6 }.max_mipmaps(), 1);
    assert_eq!(ImageDimensions::Dim1d { width: 1024, array_layers: 1 }.max_mipmaps(), 11);
    let dims = ImageDimensions::Dim3d { width: 4, height: 2, depth: 64 };
    assert_eq!(dims.max_mipmaps(), 7);
    let dims = ImageDimensions::Dim2d { width: 32, height: 50, array_layers: 1 };
    assert_eq!(dims.max_mipmaps(), 6);
    let dims = ImageDimensions::Dim2d { width: u32::MAX, height: 1, array_layers: 1 };
    assert_eq!(dims.max_mipmaps(), 32);
}

#[test]
fn mipmap_level_zero_is_identity() {
    let shapes = [
        ImageDimensions::Dim1d { width: 7, array_layers: 3 },
        ImageDimensions::Dim2d { width: 963, height: 256, array_layers: 2 },
        ImageDimensions::Dim3d { width: 5, height: 9, depth: 17 },
    ];
    for dims in shapes {
        assert_eq!(dims.mipmap_dimensions(0), Some(dims));
    }
}

#[test]
fn mipmap_levels_halve_and_keep_layers() {
    let dims = ImageDimensions::Dim1d { width: 100, array_layers: 6 };
    assert_eq!(
        dims.mipmap_dimensions(3),
        Some(ImageDimensions::Dim1d { width: 12, array_layers: 6 })
    );
    let dims = ImageDimensions::Dim3d { width: 64, height: 3, depth: 20 };
    assert_eq!(
        dims.mipmap_dimensions(2),
        Some(ImageDimensions::Dim3d { width: 16, height: 1, depth: 5 })
    );
    assert_eq!(
        dims.mipmap_dimensions(6),
        Some(ImageDimensions::Dim3d { width: 1, height: 1, depth: 1 })
    );
    let dims = ImageDimensions::Dim2d { width: 963, height: 256, array_layers: 4 };
    assert_eq!(
        dims.mipmap_dimensions(6),
        Some(ImageDimensions::Dim2d { width: 15, height: 4, array_layers: 4 })
    );
}

#[test]
fn mipmap_levels_past_the_end_are_none() {
    let dims = ImageDimensions::Dim2d { width: 963, height: 256, array_layers: 1 };
    assert_eq!(dims.max_mipmaps(), 10);
    assert_eq!(dims.mipmap_dimensions(10), None);
    assert_eq!(dims.mipmap_dimensions(11), None);
    assert_eq!(dims.mipmap_dimensions(u32::MAX), None);
    let dims = ImageDimensions::Dim1d { width: 1, array_layers: 1 };
    assert_eq!(dims.mipmap_dimensions(1), None);
}

#[test]
fn axis_queries() {
    let dims = ImageDimensions::Dim1d { width: 7, array_layers: 3 };
    assert_eq!(dims.width_height_depth(), [7, 1, 1]);
    assert_eq!(dims.array_layers(), 3);
    let dims = ImageDimensions::Dim2d { width: 8, height: 9, array_layers: 2 };
    assert_eq!(dims.width_height(), [8, 9]);
    assert_eq!(dims.depth(), 1);
    let dims = ImageDimensions::Dim3d { width: 4, height: 5, depth: 6 };
    assert_eq!(dims.width_height_depth(), [4, 5, 6]);
    assert_eq!(dims.array_layers(), 1);
}

#[test]
fn num_texels_does_not_wrap() {
    let dims = ImageDimensions::Dim2d { width: 8, height: 9, array_layers: 2 };
    assert_eq!(dims.num_texels(), 144);
    let dims = ImageDimensions::Dim3d { width: 65536, height: 65536, depth: 2 };
    assert_eq!(dims.num_texels(), 1u128 << 33);
    let dims = ImageDimensions::Dim2d {
        width: u32::MAX,
        height: u32::MAX,
        array_layers: u32::MAX,
    };
    let m = u32::MAX as u128;
    assert_eq!(dims.num_texels(), m * m * m);
}

#[test]
fn create_flags_bits() {
    assert_eq!(u32::from(ImageCreateFlags::all()), 0x3f);
    assert_eq!(u32::from(ImageCreateFlags::none()), 0);
    assert_eq!(ImageCreateFlags::none(), ImageCreateFlags::default());
    let flags = ImageCreateFlags {
        mutable_format: true,
        cube_compatible: true,
        ..ImageCreateFlags::none()
    };
    assert_eq!(u32::from(flags), 0x18);
    let flags = ImageCreateFlags {
        sparse_binding: true,
        array_2d_compatible: true,
        ..ImageCreateFlags::none()
    };
    assert_eq!(u32::from(flags), 0x21);
}

#[test]
fn image_type_and_tiling_values() {
    assert_eq!(u32::from(ImageType::Dim1d), 0);
    assert_eq!(u32::from(ImageType::Dim2d), 1);
    assert_eq!(u32::from(ImageType::Dim3d), 2);
    assert_eq!(u32::from(ImageTiling::Optimal), 0);
    assert_eq!(u32::from(ImageTiling::Linear), 1);
}

#[test]
fn mipmaps_count_from_number() {
    assert_eq!(MipmapsCount::from(5), MipmapsCount::Specific(5));
}

#[test]
fn extent_conversions() {
    let e = Extent::from(vk::Extent2D { width: 3, height: 4 });
    assert!(matches!(e, Extent::E2D([3, 4])));
    assert_eq!(
        vk::Extent2D::try_from(Extent::E2D([5, 6])),
        Ok(vk::Extent2D { width: 5, height: 6 })
    );
    assert_eq!(vk::Extent2D::try_from(Extent::E3D([5, 6, 7])), Err(()));
    assert_eq!(
        vk::Extent3D::try_from(Extent::from(vk::Extent3D { width: 1, height: 2, depth: 3 })),
        Ok(vk::Extent3D { width: 1, height: 2, depth: 3 })
    );
    assert_eq!(vk::Extent3D::try_from(Extent::E1D([9])), Err(()));
    let props = ImageFormatProperties::from(vk::ImageFormatProperties {
        max_extent: vk::Extent3D { width: 4096, height: 4096, depth: 1 },
        max_mip_levels: 13,
        max_array_layers: 2048,
        sample_counts: 0x7f,
        max_resource_size: 1 << 31,
    });
    assert!(matches!(props.max_extent, Extent::E3D([4096, 4096, 1])));
    assert_eq!(props.max_mip_levels, MipmapsCount::Specific(13));
    assert_eq!(props.max_array_layers, 2048);
    assert_eq!(props.sample_counts, 0x7f);
    assert_eq!(props.max_resource_size, 1 << 31);
}
