//! Image shapes (1D, 2D, 3D, arrays), mipmap chains and image creation parameters.

use crate::vk;
use vstd::arithmetic::power2::{lemma2_to64, lemma_pow2_unfold, pow2};
use vstd::prelude::*;

verus! {

/// Specifies how many mipmaps must be allocated.
///
/// Note that at least one mipmap must be allocated, to store the main level of the image.
#[derive(Copy, Clone, Debug, PartialEq, Eq, Structural)]
pub enum MipmapsCount {
    /// Allocates the number of mipmaps required to store all the mipmaps of the image where
    /// each mipmap is half the dimensions of the previous level. Guaranteed to be always
    /// supported.
    Log2,
    /// Allocate one mipmap (ie. just the main level). Always supported.
    One,
    /// Allocate the given number of mipmaps. May result in an error if the value is out of
    /// range of what the implementation supports.
    Specific(u32),
}

impl From<u32> for MipmapsCount {
    fn from(num: u32) -> (r: MipmapsCount) {
        MipmapsCount::Specific(num)
    }
}

impl vstd::std_specs::convert::FromSpecImpl<u32> for MipmapsCount {
    open spec fn obeys_from_spec() -> bool {
        true
    }

    open spec fn from_spec(num: u32) -> MipmapsCount {
        MipmapsCount::Specific(num)
    }
}

/// Extent of an image of one, two or three dimensions.
pub enum Extent {
    E1D([u32; 1]),
    E2D([u32; 2]),
    E3D([u32; 3]),
}

impl From<vk::Extent2D> for Extent {
    fn from(extent: vk::Extent2D) -> (r: Self) {
        Extent::E2D([extent.width, extent.height])
    }
}

impl vstd::std_specs::convert::FromSpecImpl<vk::Extent2D> for Extent {
    open spec fn obeys_from_spec() -> bool {
        true
    }

    open spec fn from_spec(extent: vk::Extent2D) -> Extent {
        Extent::E2D([extent.width, extent.height])
    }
}

impl From<vk::Extent3D> for Extent {
    fn from(extent: vk::Extent3D) -> (r: Self) {
        Extent::E3D([extent.width, extent.height, extent.depth])
    }
}

impl vstd::std_specs::convert::FromSpecImpl<vk::Extent3D> for Extent {
    open spec fn obeys_from_spec() -> bool {
        true
    }

    open spec fn from_spec(extent: vk::Extent3D) -> Extent {
        Extent::E3D([extent.width, extent.height, extent.depth])
    }
}

/// The two-dimensional extent, if `extent` has two dimensions.
pub open spec fn extent_2d(extent: Extent) -> Result<vk::Extent2D, ()> {
    match extent {
        Extent::E2D(a) => Ok(vk::Extent2D { width: a[0], height: a[1] }),
        _ => Err(()),
    }
}

/// The three-dimensional extent, if `extent` has three dimensions.
pub open spec fn extent_3d(extent: Extent) -> Result<vk::Extent3D, ()> {
    match extent {
        Extent::E3D(a) => Ok(vk::Extent3D { width: a[0], height: a[1], depth: a[2] }),
        _ => Err(()),
    }
}

impl TryFrom<Extent> for vk::Extent2D {
    type Error = ();

    fn try_from(extent: Extent) -> (r: Result<Self, Self::Error>) {
        match extent {
            Extent::E2D(a) => Ok(vk::Extent2D { width: a[0], height: a[1] }),
            _ => Err(()),
        }
    }
}

impl vstd::std_specs::convert::TryFromSpecImpl<Extent> for vk::Extent2D {
    open spec fn obeys_try_from_spec() -> bool {
        true
    }

    open spec fn try_from_spec(extent: Extent) -> Result<Self, Self::Error> {
        extent_2d(extent)
    }
}

impl TryFrom<Extent> for vk::Extent3D {
    type Error = ();

    fn try_from(extent: Extent) -> (r: Result<Self, Self::Error>) {
        match extent {
            Extent::E3D(a) => Ok(vk::Extent3D { width: a[0], height: a[1], depth: a[2] }),
            _ => Err(()),
        }
    }
}

impl vstd::std_specs::convert::TryFromSpecImpl<Extent> for vk::Extent3D {
    open spec fn obeys_try_from_spec() -> bool {
        true
    }

    open spec fn try_from_spec(extent: Extent) -> Result<Self, Self::Error> {
        extent_3d(extent)
    }
}

/// What a device supports for images of a given format, type, tiling and usage.
pub struct ImageFormatProperties {
    pub max_extent: Extent,
    pub max_mip_levels: MipmapsCount,
    pub max_array_layers: u32,
    pub sample_counts: u32,
    pub max_resource_size: usize,
}

/// The properties that a device reports, with the maximum extent in three dimensions and the
/// maximum number of mipmap levels as a specific count.
pub open spec fn format_properties_of(props: vk::ImageFormatProperties) -> ImageFormatProperties {
    ImageFormatProperties {
        max_extent: Extent::E3D(
            [props.max_extent.width, props.max_extent.height, props.max_extent.depth],
        ),
        max_mip_levels: MipmapsCount::Specific(props.max_mip_levels),
        max_array_layers: props.max_array_layers,
        sample_counts: props.sample_counts,
        max_resource_size: props.max_resource_size as usize,
    }
}

impl From<vk::ImageFormatProperties> for ImageFormatProperties {
    fn from(props: vk::ImageFormatProperties) -> (r: Self) {
        Self {
            max_extent: Extent::from(props.max_extent),
            max_mip_levels: MipmapsCount::from(props.max_mip_levels),
            max_array_layers: props.max_array_layers,
            sample_counts: props.sample_counts,
            max_resource_size: props.max_resource_size as usize,
        }
    }
}

impl vstd::std_specs::convert::FromSpecImpl<vk::ImageFormatProperties> for ImageFormatProperties {
    open spec fn obeys_from_spec() -> bool {
        true
    }

    open spec fn from_spec(props: vk::ImageFormatProperties) -> ImageFormatProperties {
        format_properties_of(props)
    }
}

/// Flags given when an image is created.
#[derive(Copy, Clone, Debug, PartialEq, Eq, Structural)]
pub struct ImageCreateFlags {
    pub sparse_binding: bool,
    pub sparse_residency: bool,
    pub sparse_aliased: bool,
    pub mutable_format: bool,
    pub cube_compatible: bool,
    pub array_2d_compatible: bool,
}

/// `bit` where `set` holds, else no bit.
pub open spec fn flag_bit(set: bool, bit: u32) -> u32 {
    if set {
        bit
    } else {
        0
    }
}

fn flag(set: bool, bit: u32) -> (r: u32)
    ensures
        r == flag_bit(set, bit),
{
    if set {
        bit
    } else {
        0
    }
}

/// The Vulkan bit mask of a set of image creation flags: one bit for each flag that is set.
pub open spec fn create_flags_bits(flags: ImageCreateFlags) -> u32 {
    flag_bit(flags.sparse_binding, vk::IMAGE_CREATE_SPARSE_BINDING_BIT) | flag_bit(
        flags.sparse_residency,
        vk::IMAGE_CREATE_SPARSE_RESIDENCY_BIT,
    ) | flag_bit(flags.sparse_aliased, vk::IMAGE_CREATE_SPARSE_ALIASED_BIT) | flag_bit(
        flags.mutable_format,
        vk::IMAGE_CREATE_MUTABLE_FORMAT_BIT,
    ) | flag_bit(flags.cube_compatible, vk::IMAGE_CREATE_CUBE_COMPATIBLE_BIT) | flag_bit(
        flags.array_2d_compatible,
        vk::IMAGE_CREATE_2D_ARRAY_COMPATIBLE_BIT,
    )
}

impl ImageCreateFlags {
    /// Every flag set.
    pub fn all() -> (r: Self)
        ensures
            r.sparse_binding && r.sparse_residency && r.sparse_aliased,
            r.mutable_format && r.cube_compatible && r.array_2d_compatible,
    {
        Self {
            sparse_binding: true,
            sparse_residency: true,
            sparse_aliased: true,
            mutable_format: true,
            cube_compatible: true,
            array_2d_compatible: true,
        }
    }

    /// No flag set.
    pub fn none() -> (r: Self)
        ensures
            !r.sparse_binding && !r.sparse_residency && !r.sparse_aliased,
            !r.mutable_format && !r.cube_compatible && !r.array_2d_compatible,
    {
        Self::default()
    }
}

impl Default for ImageCreateFlags {
    fn default() -> (r: Self)
        ensures
            !r.sparse_binding && !r.sparse_residency && !r.sparse_aliased,
            !r.mutable_format && !r.cube_compatible && !r.array_2d_compatible,
    {
        Self {
            sparse_binding: false,
            sparse_residency: false,
            sparse_aliased: false,
            mutable_format: false,
            cube_compatible: false,
            array_2d_compatible: false,
        }
    }
}

impl From<ImageCreateFlags> for u32 {
    fn from(flags: ImageCreateFlags) -> (r: u32) {
        flag(flags.sparse_binding, vk::IMAGE_CREATE_SPARSE_BINDING_BIT) | flag(
            flags.sparse_residency,
            vk::IMAGE_CREATE_SPARSE_RESIDENCY_BIT,
        ) | flag(flags.sparse_aliased, vk::IMAGE_CREATE_SPARSE_ALIASED_BIT) | flag(
            flags.mutable_format,
            vk::IMAGE_CREATE_MUTABLE_FORMAT_BIT,
        ) | flag(flags.cube_compatible, vk::IMAGE_CREATE_CUBE_COMPATIBLE_BIT) | flag(
            flags.array_2d_compatible,
            vk::IMAGE_CREATE_2D_ARRAY_COMPATIBLE_BIT,
        )
    }
}

impl vstd::std_specs::convert::FromSpecImpl<ImageCreateFlags> for u32 {
    open spec fn obeys_from_spec() -> bool {
        true
    }

    open spec fn from_spec(flags: ImageCreateFlags) -> u32 {
        create_flags_bits(flags)
    }
}

/// Number of dimensions of an image.
#[derive(Copy, Clone, Debug, PartialEq, Eq, Structural)]
pub enum ImageType {
    Dim1d,
    Dim2d,
    Dim3d,
}

/// The Vulkan value of an image type.
pub open spec fn image_type_value(image_type: ImageType) -> u32 {
    match image_type {
        ImageType::Dim1d => vk::IMAGE_TYPE_1D,
        ImageType::Dim2d => vk::IMAGE_TYPE_2D,
        ImageType::Dim3d => vk::IMAGE_TYPE_3D,
    }
}

impl From<ImageType> for u32 {
    fn from(image_type: ImageType) -> (r: u32) {
        match image_type {
            ImageType::Dim1d => vk::IMAGE_TYPE_1D,
            ImageType::Dim2d => vk::IMAGE_TYPE_2D,
            ImageType::Dim3d => vk::IMAGE_TYPE_3D,
        }
    }
}

impl vstd::std_specs::convert::FromSpecImpl<ImageType> for u32 {
    open spec fn obeys_from_spec() -> bool {
        true
    }

    open spec fn from_spec(image_type: ImageType) -> u32 {
        image_type_value(image_type)
    }
}

/// How the texels of an image are laid out in memory.
#[derive(Copy, Clone, Debug, PartialEq, Eq, Structural)]
pub enum ImageTiling {
    Optimal,
    Linear,
}

/// The Vulkan value of an image tiling.
pub open spec fn image_tiling_value(image_tiling: ImageTiling) -> u32 {
    match image_tiling {
        ImageTiling::Optimal => vk::IMAGE_TILING_OPTIMAL,
        ImageTiling::Linear => vk::IMAGE_TILING_LINEAR,
    }
}

impl From<ImageTiling> for u32 {
    fn from(image_tiling: ImageTiling) -> (r: u32) {
        match image_tiling {
            ImageTiling::Optimal => vk::IMAGE_TILING_OPTIMAL,
            ImageTiling::Linear => vk::IMAGE_TILING_LINEAR,
        }
    }
}

impl vstd::std_specs::convert::FromSpecImpl<ImageTiling> for u32 {
    open spec fn obeys_from_spec() -> bool {
        true
    }

    open spec fn from_spec(image_tiling: ImageTiling) -> u32 {
        image_tiling_value(image_tiling)
    }
}

/// What an image may be used for.
#[derive(Copy, Clone, Debug, PartialEq, Eq, Structural)]
pub struct ImageUsage {
    pub transfer_source: bool,
    pub transfer_destination: bool,
    pub sampled: bool,
    pub storage: bool,
    pub color_attachment: bool,
    pub depth_stencil_attachment: bool,
    pub transient_attachment: bool,
    pub input_attachment: bool,
}

/// Number of binary digits of `n`: how many times `n` can be halved before it reaches 0.
pub open spec fn bit_length(n: nat) -> nat
    decreases n,
{
    if n == 0 {
        0
    } else {
        1 + bit_length(n / 2)
    }
}

/// The largest of three values.
pub open spec fn max3(a: u32, b: u32, c: u32) -> u32 {
    if a >= b && a >= c {
        a
    } else if b >= c {
        b
    } else {
        c
    }
}

/// Extent of one axis at a mipmap level: the base extent halved `level` times, never below 1.
pub open spec fn mip_extent(axis: u32, level: u32) -> u32 {
    if axis >> level == 0 {
        1
    } else {
        axis >> level
    }
}

proof fn lemma_bit_length_le(x: nat, k: nat)
    requires
        x < pow2(k),
    ensures
        bit_length(x) <= k,
    decreases k,
{
    if x > 0 {
        if k == 0 {
            lemma2_to64();
        } else {
            lemma_pow2_unfold(k);
            lemma_bit_length_le(x / 2, (k - 1) as nat);
        }
    }
}

fn mip_axis(axis: u32, level: u32) -> (r: u32)
    requires
        level < 32,
    ensures
        r == mip_extent(axis, level),
{
    let halved = axis >> level;
    if halved == 0 {
        1
    } else {
        halved
    }
}

/// The dimensions of an image.
#[derive(Copy, Clone, Debug, PartialEq, Eq, Structural)]
pub enum ImageDimensions {
    Dim1d { width: u32, array_layers: u32 },
    Dim2d { width: u32, height: u32, array_layers: u32 },
    Dim3d { width: u32, height: u32, depth: u32 },
}

impl ImageDimensions {
    pub open spec fn spec_width(&self) -> u32 {
        match *self {
            ImageDimensions::Dim1d { width, .. } => width,
            ImageDimensions::Dim2d { width, .. } => width,
            ImageDimensions::Dim3d { width, .. } => width,
        }
    }

    pub open spec fn spec_height(&self) -> u32 {
        match *self {
            ImageDimensions::Dim1d { .. } => 1,
            ImageDimensions::Dim2d { height, .. } => height,
            ImageDimensions::Dim3d { height, .. } => height,
        }
    }

    pub open spec fn spec_depth(&self) -> u32 {
        match *self {
            ImageDimensions::Dim1d { .. } => 1,
            ImageDimensions::Dim2d { .. } => 1,
            ImageDimensions::Dim3d { depth, .. } => depth,
        }
    }

    pub open spec fn spec_array_layers(&self) -> u32 {
        match *self {
            ImageDimensions::Dim1d { array_layers, .. } => array_layers,
            ImageDimensions::Dim2d { array_layers, .. } => array_layers,
            ImageDimensions::Dim3d { .. } => 1,
        }
    }

    /// Width in texels.
    #[verifier::when_used_as_spec(spec_width)]
    pub fn width(&self) -> (r: u32)
        ensures
            r == self.spec_width(),
    {
        match *self {
            ImageDimensions::Dim1d { width, .. } => width,
            ImageDimensions::Dim2d { width, .. } => width,
            ImageDimensions::Dim3d { width, .. } => width,
        }
    }

    /// Height in texels; 1 for a 1D image.
    #[verifier::when_used_as_spec(spec_height)]
    pub fn height(&self) -> (r: u32)
        ensures
            r == self.spec_height(),
    {
        match *self {
            ImageDimensions::Dim1d { .. } => 1,
            ImageDimensions::Dim2d { height, .. } => height,
            ImageDimensions::Dim3d { height, .. } => height,
        }
    }

    /// Width and height in texels.
    pub fn width_height(&self) -> (r: [u32; 2])
        ensures
            r@ == seq![self.width(), self.height()],
    {
        [self.width(), self.height()]
    }

    /// Depth in texels; 1 for 1D and 2D images.
    #[verifier::when_used_as_spec(spec_depth)]
    pub fn depth(&self) -> (r: u32)
        ensures
            r == self.spec_depth(),
    {
        match *self {
            ImageDimensions::Dim1d { .. } => 1,
            ImageDimensions::Dim2d { .. } => 1,
            ImageDimensions::Dim3d { depth, .. } => depth,
        }
    }

    /// Width, height and depth in texels.
    pub fn width_height_depth(&self) -> (r: [u32; 3])
        ensures
            r@ == seq![self.width(), self.height(), self.depth()],
    {
        [self.width(), self.height(), self.depth()]
    }

    /// Number of array layers; 1 for a 3D image.
    #[verifier::when_used_as_spec(spec_array_layers)]
    pub fn array_layers(&self) -> (r: u32)
        ensures
            r == self.spec_array_layers(),
    {
        match *self {
            ImageDimensions::Dim1d { array_layers, .. } => array_layers,
            ImageDimensions::Dim2d { array_layers, .. } => array_layers,
            ImageDimensions::Dim3d { .. } => 1,
        }
    }

    /// Extent along spatial axis `axis`: 0 is the width, 1 the height, 2 the depth.
    pub open spec fn spec_extent(&self, axis: int) -> u32 {
        if axis == 0 {
            self.width()
        } else if axis == 1 {
            self.height()
        } else {
            self.depth()
        }
    }

    /// Total number of texels: width × height × depth × array layers, computed without
    /// wrapping.
    pub open spec fn spec_num_texels(&self) -> int {
        self.width() * self.height() * self.depth() * self.array_layers()
    }

    pub open spec fn spec_max_mipmaps(&self) -> u32 {
        bit_length(max3(self.width(), self.height(), self.depth()) as nat) as u32
    }

    /// The mipmap level `level` of these dimensions: the dimensions themselves at level 0,
    /// none from `max_mipmaps()` on, and otherwise each spatial axis halved `level` times
    /// (never below 1), with the array layers kept.
    pub open spec fn spec_mipmap_dimensions(&self, level: u32) -> Option<ImageDimensions> {
        if level == 0 {
            Some(*self)
        } else if level >= self.spec_max_mipmaps() {
            None
        } else {
            Some(
                match *self {
                    ImageDimensions::Dim1d { width, array_layers } => ImageDimensions::Dim1d {
                        width: mip_extent(width, level),
                        array_layers,
                    },
                    ImageDimensions::Dim2d { width, height, array_layers } => ImageDimensions::Dim2d {
                        width: mip_extent(width, level),
                        height: mip_extent(height, level),
                        array_layers,
                    },
                    ImageDimensions::Dim3d { width, height, depth } => ImageDimensions::Dim3d {
                        width: mip_extent(width, level),
                        height: mip_extent(height, level),
                        depth: mip_extent(depth, level),
                    },
                },
            )
        }
    }

    /// Returns the total number of texels for an image of these dimensions.
    pub fn num_texels(&self) -> (r: u128)
        ensures
            r == self.spec_num_texels(),
    {
        let w = self.width() as u128;
        let h = self.height() as u128;
        let d = self.depth() as u128;
        let l = self.array_layers() as u128;
        proof {
            lemma_product4_fits(w, h, d, l);
        }
        w * h * d * l
    }

    /// Returns the maximum number of mipmaps for these image dimensions: the number of binary
    /// digits of the largest spatial axis. It is at least 1 when every axis is at least 1.
    #[verifier::when_used_as_spec(spec_max_mipmaps)]
    pub fn max_mipmaps(&self) -> (r: u32)
        ensures
            r == self.spec_max_mipmaps(),
            r as nat == bit_length(max3(self.width(), self.height(), self.depth()) as nat),
            r <= 32,
            max3(self.width(), self.height(), self.depth()) > 0 ==> r >= 1,
    {
        let w = self.width();
        let h = self.height();
        let d = self.depth();
        let largest: u32 = if w >= h && w >= d {
            w
        } else if h >= d {
            h
        } else {
            d
        };
        proof {
            lemma2_to64();
            lemma_bit_length_le(largest as nat, 32);
        }
        let mut rest: u32 = largest;
        let mut count: u32 = 0;
        while rest > 0
            invariant
                count + bit_length(rest as nat) == bit_length(largest as nat),
                bit_length(largest as nat) <= 32,
            decreases rest,
        {
            rest = rest / 2;
            count = count + 1;
        }
        count
    }

    /// Returns the dimensions of the `level`th mipmap level. If `level` is 0, then the
    /// dimensions are left unchanged. Returns `None` if `level` is greater than or equal to
    /// `max_mipmaps()`.
    ///
    /// An axis of extent 0 is no valid image; on such dimensions the result is still the one
    /// described above.
    #[verifier::when_used_as_spec(spec_mipmap_dimensions)]
    pub fn mipmap_dimensions(&self, level: u32) -> (r: Option<ImageDimensions>)
        ensures
            r == self.spec_mipmap_dimensions(level),
    {
        if level == 0 {
            return Some(*self);
        }
        if level >= self.max_mipmaps() {
            return None;
        }
        Some(
            match *self {
                ImageDimensions::Dim1d { width, array_layers } => ImageDimensions::Dim1d {
                    width: mip_axis(width, level),
                    array_layers,
                },
                ImageDimensions::Dim2d { width, height, array_layers } => ImageDimensions::Dim2d {
                    width: mip_axis(width, level),
                    height: mip_axis(height, level),
                    array_layers,
                },
                ImageDimensions::Dim3d { width, height, depth } => ImageDimensions::Dim3d {
                    width: mip_axis(width, level),
                    height: mip_axis(height, level),
                    depth: mip_axis(depth, level),
                },
            },
        )
    }
}

pub(crate) proof fn lemma_product4_fits(a: u128, b: u128, c: u128, d: u128)
    requires
        a <= u32::MAX,
        b <= u32::MAX,
        c <= u32::MAX,
        d <= u32::MAX,
    ensures
        a * b <= u64::MAX,
        a * b * c <= 0xffff_ffff_ffff_ffff_ffff_ffff,
        a * b * c * d <= u128::MAX,
{
    assert(a * b <= 0xffff_ffff * 0xffff_ffff) by (nonlinear_arith)
        requires
            a <= 0xffff_ffff,
            b <= 0xffff_ffff,
    ;
    assert(a * b * c <= (0xffff_ffff * 0xffff_ffff) * 0xffff_ffff) by (nonlinear_arith)
        requires
            a * b <= 0xffff_ffff * 0xffff_ffff,
            c <= 0xffff_ffff,
    ;
    assert(a * b * c * d <= ((0xffff_ffff * 0xffff_ffff) * 0xffff_ffff) * 0xffff_ffff)
        by (nonlinear_arith)
        requires
            a * b * c <= (0xffff_ffff * 0xffff_ffff) * 0xffff_ffff,
            d <= 0xffff_ffff,
    ;
}

/// Level 0 of the mipmap chain is the image itself.
pub proof fn lemma_mipmap_level_zero(dims: ImageDimensions)
    ensures
        dims.mipmap_dimensions(0) == Some(dims),
{
}

/// Below `max_mipmaps()`, every spatial axis of a mipmap level is the base axis shifted right
/// by the level, with a floor of 1; the shape and the array layers are those of the base.
pub proof fn lemma_mipmap_level_halves(dims: ImageDimensions, level: u32)
    requires
        1 <= level < dims.max_mipmaps(),
    ensures
        dims.mipmap_dimensions(level) matches Some(m) && {
            &&& m.width() == mip_extent(dims.width(), level)
            &&& m.height() == mip_extent(dims.height(), level)
            &&& m.depth() == mip_extent(dims.depth(), level)
            &&& m.array_layers() == dims.array_layers()
            &&& (m is Dim1d <==> dims is Dim1d)
            &&& (m is Dim2d <==> dims is Dim2d)
            &&& (m is Dim3d <==> dims is Dim3d)
        },
{
    assert(1u32 >> level == 0) by (bit_vector)
        requires
            1 <= level,
    ;
}

/// There is no mipmap level at or beyond `max_mipmaps()`. (Level 0 always exists, so the law
/// is stated for levels from 1 on; they cover every level when every axis is at least 1.)
pub proof fn lemma_mipmap_level_past_end(dims: ImageDimensions, level: u32)
    requires
        level >= dims.max_mipmaps(),
        level > 0,
    ensures
        dims.mipmap_dimensions(level) is None,
{
}

} // verus!
