//! The Vulkan structures and values that image parameters are converted to and from.

use vstd::prelude::*;

verus! {

pub const IMAGE_CREATE_SPARSE_BINDING_BIT: u32 = 0x1;
pub const IMAGE_CREATE_SPARSE_RESIDENCY_BIT: u32 = 0x2;
pub const IMAGE_CREATE_SPARSE_ALIASED_BIT: u32 = 0x4;
pub const IMAGE_CREATE_MUTABLE_FORMAT_BIT: u32 = 0x8;
pub const IMAGE_CREATE_CUBE_COMPATIBLE_BIT: u32 = 0x10;
pub const IMAGE_CREATE_2D_ARRAY_COMPATIBLE_BIT: u32 = 0x20;

pub const IMAGE_TYPE_1D: u32 = 0;
pub const IMAGE_TYPE_2D: u32 = 1;
pub const IMAGE_TYPE_3D: u32 = 2;

pub const IMAGE_TILING_OPTIMAL: u32 = 0;
pub const IMAGE_TILING_LINEAR: u32 = 1;

/// `VkExtent2D`.
#[derive(Copy, Clone, Debug, PartialEq, Eq, Structural)]
pub struct Extent2D {
    pub width: u32,
    pub height: u32,
}

/// `VkExtent3D`.
#[derive(Copy, Clone, Debug, PartialEq, Eq, Structural)]
pub struct Extent3D {
    pub width: u32,
    pub height: u32,
    pub depth: u32,
}

/// `VkImageFormatProperties`.
#[derive(Copy, Clone, Debug, PartialEq, Eq, Structural)]
pub struct ImageFormatProperties {
    pub max_extent: Extent3D,
    pub max_mip_levels: u32,
    pub max_array_layers: u32,
    pub sample_counts: u32,
    pub max_resource_size: u64,
}

} // verus!
