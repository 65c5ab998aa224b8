//! Validation of copies between a buffer and an image, and the buffer length that such a copy
//! needs.

use crate::format::{Format, IncompatiblePixelsType};
use crate::image::{lemma_product4_fits, ImageDimensions, ImageUsage};
use vstd::prelude::*;

verus! {

/// Type of operation to check.
#[derive(Copy, Clone, Debug, PartialEq, Eq, Hash, Structural)]
pub enum CheckCopyBufferImageTy {
    BufferToImage,
    ImageToBuffer,
}

/// Error that can happen from `check_copy_buffer_image`.
#[derive(Copy, Clone, Debug, PartialEq, Eq, Structural)]
pub enum CheckCopyBufferImageError {
    /// The source buffer or image is missing the transfer source usage.
    SourceMissingTransferUsage,
    /// The destination buffer or image is missing the transfer destination usage.
    DestinationMissingTransferUsage,
    /// The source and destination are overlapping. Not produced yet: overlap between the
    /// memory of the buffer and of the image is not checked.
    OverlappingRanges,
    /// The image must not be multisampled.
    UnexpectedMultisampled,
    /// The image coordinates are out of range.
    ImageCoordinatesOutOfRange,
    /// The type of pixels in the buffer isn't compatible with the image format.
    WrongPixelType(IncompatiblePixelsType),
    /// The buffer is too small for the copy operation.
    BufferTooSmall {
        /// Required number of elements in the buffer (`usize::MAX` where it exceeds that).
        required_len: usize,
        /// Actual number of elements in the buffer.
        actual_len: usize,
    },
}

/// Text that describes an error.
pub open spec fn error_message(err: CheckCopyBufferImageError) -> Seq<char> {
    match err {
        CheckCopyBufferImageError::SourceMissingTransferUsage => {
            "the source buffer is missing the transfer source usage"@
        },
        CheckCopyBufferImageError::DestinationMissingTransferUsage => {
            "the destination buffer is missing the transfer destination usage"@
        },
        CheckCopyBufferImageError::OverlappingRanges => {
            "the source and destination are overlapping"@
        },
        CheckCopyBufferImageError::UnexpectedMultisampled => {
            "the image must not be multisampled"@
        },
        CheckCopyBufferImageError::ImageCoordinatesOutOfRange => {
            "the image coordinates are out of range"@
        },
        CheckCopyBufferImageError::WrongPixelType(_) => {
            "the type of pixels in the buffer isn't compatible with the image format"@
        },
        CheckCopyBufferImageError::BufferTooSmall { .. } => {
            "the buffer is too small for the copy operation"@
        },
    }
}

impl CheckCopyBufferImageError {
    /// The error that caused this one, if any.
    pub fn source(&self) -> (r: Option<IncompatiblePixelsType>)
        ensures
            r is Some <==> *self is WrongPixelType,
    {
        match *self {
            CheckCopyBufferImageError::WrongPixelType(err) => Some(err),
            _ => None,
        }
    }

    /// Describes the error.
    pub fn message(&self) -> (r: &'static str)
        ensures
            r@ == error_message(*self),
    {
        match *self {
            CheckCopyBufferImageError::SourceMissingTransferUsage => {
                "the source buffer is missing the transfer source usage"
            },
            CheckCopyBufferImageError::DestinationMissingTransferUsage => {
                "the destination buffer is missing the transfer destination usage"
            },
            CheckCopyBufferImageError::OverlappingRanges => {
                "the source and destination are overlapping"
            },
            CheckCopyBufferImageError::UnexpectedMultisampled => {
                "the image must not be multisampled"
            },
            CheckCopyBufferImageError::ImageCoordinatesOutOfRange => {
                "the image coordinates are out of range"
            },
            CheckCopyBufferImageError::WrongPixelType(_) => {
                "the type of pixels in the buffer isn't compatible with the image format"
            },
            CheckCopyBufferImageError::BufferTooSmall { .. } => {
                "the buffer is too small for the copy operation"
            },
        }
    }
}

impl From<IncompatiblePixelsType> for CheckCopyBufferImageError {
    fn from(err: IncompatiblePixelsType) -> (r: CheckCopyBufferImageError) {
        CheckCopyBufferImageError::WrongPixelType(err)
    }
}

impl vstd::std_specs::convert::FromSpecImpl<IncompatiblePixelsType> for CheckCopyBufferImageError {
    open spec fn obeys_from_spec() -> bool {
        true
    }

    open spec fn from_spec(err: IncompatiblePixelsType) -> CheckCopyBufferImageError {
        CheckCopyBufferImageError::WrongPixelType(err)
    }
}

/// What the check reads of a buffer whose elements are of the copy's pixel type.
#[derive(Copy, Clone, Debug, PartialEq, Eq, Structural)]
pub struct BufferInfo {
    /// Length in elements.
    pub len: usize,
    pub usage_transfer_source: bool,
    pub usage_transfer_destination: bool,
    /// Identity of the device that the buffer was created with.
    pub device: u64,
}

/// What the check reads of an image.
#[derive(Copy, Clone, Debug, PartialEq, Eq, Structural)]
pub struct ImageInfo {
    pub dimensions: ImageDimensions,
    pub format: Format,
    pub samples: u32,
    pub usage: ImageUsage,
    /// Identity of the device that the image was created with.
    pub device: u64,
}

/// Number of blocks of `block` texels needed to cover `extent` texels: the ceiling of the
/// quotient.
pub open spec fn blocks_along(extent: u32, block: u32) -> int {
    (extent + block - 1) / (block as int)
}

/// Minimum number of `P` elements that a buffer needs to hold a region of `image_size`
/// texels in `image_num_layers` layers of `format`: only width and height are divided into
/// blocks, and each block takes the format's rate in elements.
pub open spec fn required_len<P>(format: Format, image_size: [u32; 3], image_num_layers: u32) -> int {
    blocks_along(image_size[0], format.block_dimensions().0) * blocks_along(
        image_size[1],
        format.block_dimensions().1,
    ) * image_size[2] * image_num_layers * format.spec_rate::<P>()
}

/// The usage error of a copy, if the source lacks transfer source usage or the destination
/// lacks transfer destination usage (the source is checked first).
pub open spec fn usage_error(buffer: BufferInfo, image: ImageInfo, ty: CheckCopyBufferImageTy) -> Option<
    CheckCopyBufferImageError,
> {
    let (source_ok, destination_ok) = match ty {
        CheckCopyBufferImageTy::BufferToImage => (
            buffer.usage_transfer_source,
            image.usage.transfer_destination,
        ),
        CheckCopyBufferImageTy::ImageToBuffer => (
            image.usage.transfer_source,
            buffer.usage_transfer_destination,
        ),
    };
    if !source_ok {
        Some(CheckCopyBufferImageError::SourceMissingTransferUsage)
    } else if !destination_ok {
        Some(CheckCopyBufferImageError::DestinationMissingTransferUsage)
    } else {
        None
    }
}

/// Whether the mipmap level exists and the layers and the region lie within it.
pub open spec fn region_in_range(
    dimensions: ImageDimensions,
    image_offset: [u32; 3],
    image_size: [u32; 3],
    image_first_layer: u32,
    image_num_layers: u32,
    image_mipmap: u32,
) -> bool {
    dimensions.mipmap_dimensions(image_mipmap) matches Some(level) && {
        &&& image_first_layer + image_num_layers <= level.array_layers()
        &&& image_offset[0] + image_size[0] <= level.width()
        &&& image_offset[1] + image_size[1] <= level.height()
        &&& image_offset[2] + image_size[2] <= level.depth()
    }
}

/// The outcome of checking a copy: the first check that fails, in the order usage,
/// multisampling, coordinates, pixel type, buffer length, gives the error.
pub open spec fn copy_outcome<P>(
    buffer: BufferInfo,
    image: ImageInfo,
    ty: CheckCopyBufferImageTy,
    image_offset: [u32; 3],
    image_size: [u32; 3],
    image_first_layer: u32,
    image_num_layers: u32,
    image_mipmap: u32,
) -> Result<(), CheckCopyBufferImageError> {
    if usage_error(buffer, image, ty) is Some {
        Err(usage_error(buffer, image, ty).unwrap())
    } else if image.samples != 1 {
        Err(CheckCopyBufferImageError::UnexpectedMultisampled)
    } else if !region_in_range(
        image.dimensions,
        image_offset,
        image_size,
        image_first_layer,
        image_num_layers,
        image_mipmap,
    ) {
        Err(CheckCopyBufferImageError::ImageCoordinatesOutOfRange)
    } else if !image.format.accepts::<P>() {
        Err(CheckCopyBufferImageError::WrongPixelType(IncompatiblePixelsType))
    } else if required_len::<P>(image.format, image_size, image_num_layers) > buffer.len {
        let required = required_len::<P>(image.format, image_size, image_num_layers);
        Err(
            CheckCopyBufferImageError::BufferTooSmall {
                required_len: if required <= usize::MAX {
                    required as usize
                } else {
                    usize::MAX
                },
                actual_len: buffer.len,
            },
        )
    } else {
        Ok(())
    }
}

proof fn lemma_blocks_along_le(extent: u32, block: u32)
    requires
        block >= 1,
    ensures
        0 <= blocks_along(extent, block) <= extent,
{
    let n = extent + block - 1;
    let q = n / (block as int);
    assert(0 <= q * block <= n) by (nonlinear_arith)
        requires
            q == n / (block as int),
            block >= 1,
            n >= 0,
    ;
    assert(0 <= q <= extent) by (nonlinear_arith)
        requires
            0 <= q * block <= extent + block - 1,
            block >= 1,
            extent >= 0,
    ;
}

/// The required length, where it fits in `usize`.
fn checked_required_len<P>(format: Format, image_size: [u32; 3], image_num_layers: u32) -> (r:
    Option<usize>)
    requires
        format.spec_size() is Some,
        vstd::layout::size_of::<P>() > 0,
    ensures
        r matches Some(len) ==> len == required_len::<P>(format, image_size, image_num_layers),
        r is None ==> required_len::<P>(format, image_size, image_num_layers) > usize::MAX,
{
    let (block_width, block_height) = format.block_dimensions();
    let blocks_x = (image_size[0] as u64 + block_width as u64 - 1) / (block_width as u64);
    let blocks_y = (image_size[1] as u64 + block_height as u64 - 1) / (block_height as u64);
    proof {
        lemma_blocks_along_le(image_size[0], block_width);
        lemma_blocks_along_le(image_size[1], block_height);
        lemma_product4_fits(blocks_x as u128, blocks_y as u128, image_size[2] as u128, image_num_layers as u128);
    }
    let num_blocks = blocks_x as u128 * blocks_y as u128 * image_size[2] as u128 * image_num_layers as u128;
    let rate = format.rate::<P>();
    match num_blocks.checked_mul(rate as u128) {
        Some(len) => {
            if len <= usize::MAX as u128 {
                Some(len as usize)
            } else {
                None
            }
        },
        None => None,
    }
}

/// Checks whether a copy buffer-image command is valid. Can check both buffer-to-image copies
/// and image-to-buffer copies. The buffer holds elements of type `P`.
///
/// The buffer and the image must have been created with `device`.
pub fn check_copy_buffer_image<P>(
    device: u64,
    buffer: &BufferInfo,
    image: &ImageInfo,
    ty: CheckCopyBufferImageTy,
    image_offset: [u32; 3],
    image_size: [u32; 3],
    image_first_layer: u32,
    image_num_layers: u32,
    image_mipmap: u32,
) -> (r: Result<(), CheckCopyBufferImageError>)
    requires
        buffer.device == device,
        image.device == device,
    ensures
        r == copy_outcome::<P>(
            *buffer,
            *image,
            ty,
            image_offset,
            image_size,
            image_first_layer,
            image_num_layers,
            image_mipmap,
        ),
{
    match ty {
        CheckCopyBufferImageTy::BufferToImage => {
            if !buffer.usage_transfer_source {
                return Err(CheckCopyBufferImageError::SourceMissingTransferUsage);
            }
            if !image.usage.transfer_destination {
                return Err(CheckCopyBufferImageError::DestinationMissingTransferUsage);
            }
        },
        CheckCopyBufferImageTy::ImageToBuffer => {
            if !image.usage.transfer_source {
                return Err(CheckCopyBufferImageError::SourceMissingTransferUsage);
            }
            if !buffer.usage_transfer_destination {
                return Err(CheckCopyBufferImageError::DestinationMissingTransferUsage);
            }
        },
    }

    if image.samples != 1 {
        return Err(CheckCopyBufferImageError::UnexpectedMultisampled);
    }

    let image_dimensions = match image.dimensions.mipmap_dimensions(image_mipmap) {
        Some(d) => d,
        None => return Err(CheckCopyBufferImageError::ImageCoordinatesOutOfRange),
    };

    if image_first_layer as u64 + image_num_layers as u64 > image_dimensions.array_layers() as u64 {
        return Err(CheckCopyBufferImageError::ImageCoordinatesOutOfRange);
    }
    if image_offset[0] as u64 + image_size[0] as u64 > image_dimensions.width() as u64 {
        return Err(CheckCopyBufferImageError::ImageCoordinatesOutOfRange);
    }
    if image_offset[1] as u64 + image_size[1] as u64 > image_dimensions.height() as u64 {
        return Err(CheckCopyBufferImageError::ImageCoordinatesOutOfRange);
    }
    if image_offset[2] as u64 + image_size[2] as u64 > image_dimensions.depth() as u64 {
        return Err(CheckCopyBufferImageError::ImageCoordinatesOutOfRange);
    }

    match image.format.ensure_accepts::<P>() {
        Ok(()) => {},
        Err(err) => return Err(CheckCopyBufferImageError::WrongPixelType(err)),
    }

    match checked_required_len::<P>(image.format, image_size, image_num_layers) {
        Some(required_len) => {
            if required_len > buffer.len {
                return Err(
                    CheckCopyBufferImageError::BufferTooSmall { required_len, actual_len: buffer.len },
                );
            }
        },
        None => {
            return Err(
                CheckCopyBufferImageError::BufferTooSmall {
                    required_len: usize::MAX,
                    actual_len: buffer.len,
                },
            );
        },
    }
    // TODO: check for overlap between the memory of the buffer and of the image.

    Ok(())
}

/// Computes the minimum required len in elements for buffer with image data in specified
/// format of specified size.
pub fn required_len_for_format<P>(format: Format, image_size: [u32; 3], image_num_layers: u32) -> (r:
    usize)
    requires
        format.spec_size() is Some,
        vstd::layout::size_of::<P>() > 0,
        required_len::<P>(format, image_size, image_num_layers) <= usize::MAX,
    ensures
        r == required_len::<P>(format, image_size, image_num_layers),
{
    checked_required_len::<P>(format, image_size, image_num_layers).unwrap()
}

/// For a format with 1×1 blocks, the required length is width × height × depth × layers ×
/// rate: no rounding up takes place.
pub proof fn lemma_required_len_uncompressed<P>(
    format: Format,
    image_size: [u32; 3],
    image_num_layers: u32,
)
    requires
        format.block_dimensions() == (1u32, 1u32),
    ensures
        required_len::<P>(format, image_size, image_num_layers) == image_size[0] * image_size[1]
            * image_size[2] * image_num_layers * format.spec_rate::<P>(),
{
}

/// Once every earlier check passes, a buffer of exactly the required length is accepted, and
/// a buffer one element shorter is rejected as too small.
pub proof fn lemma_exact_buffer_len_accepted<P>(
    buffer: BufferInfo,
    image: ImageInfo,
    ty: CheckCopyBufferImageTy,
    image_offset: [u32; 3],
    image_size: [u32; 3],
    image_first_layer: u32,
    image_num_layers: u32,
    image_mipmap: u32,
)
    requires
        usage_error(buffer, image, ty) is None,
        image.samples == 1,
        region_in_range(
            image.dimensions,
            image_offset,
            image_size,
            image_first_layer,
            image_num_layers,
            image_mipmap,
        ),
        image.format.accepts::<P>(),
        buffer.len == required_len::<P>(image.format, image_size, image_num_layers),
    ensures
        copy_outcome::<P>(
            buffer,
            image,
            ty,
            image_offset,
            image_size,
            image_first_layer,
            image_num_layers,
            image_mipmap,
        ) == Ok::<(), CheckCopyBufferImageError>(()),
        buffer.len > 0 ==> copy_outcome::<P>(
            BufferInfo { len: (buffer.len - 1) as usize, ..buffer },
            image,
            ty,
            image_offset,
            image_size,
            image_first_layer,
            image_num_layers,
            image_mipmap,
        ) == Err::<(), CheckCopyBufferImageError>(
            CheckCopyBufferImageError::BufferTooSmall {
                required_len: buffer.len,
                actual_len: (buffer.len - 1) as usize,
            },
        ),
{
}

/// Once the usage and multisampling checks pass, a region that runs past the mipmap level's
/// extent along any one axis is out of range, whatever the other two axes are.
pub proof fn lemma_axis_overrun_out_of_range<P>(
    buffer: BufferInfo,
    image: ImageInfo,
    ty: CheckCopyBufferImageTy,
    image_offset: [u32; 3],
    image_size: [u32; 3],
    image_first_layer: u32,
    image_num_layers: u32,
    image_mipmap: u32,
    axis: int,
)
    requires
        usage_error(buffer, image, ty) is None,
        image.samples == 1,
        0 <= axis < 3,
        image.dimensions.mipmap_dimensions(image_mipmap) matches Some(level) && image_offset[axis]
            + image_size[axis] > level.spec_extent(axis),
    ensures
        copy_outcome::<P>(
            buffer,
            image,
            ty,
            image_offset,
            image_size,
            image_first_layer,
            image_num_layers,
            image_mipmap,
        ) == Err::<(), CheckCopyBufferImageError>(
            CheckCopyBufferImageError::ImageCoordinatesOutOfRange,
        ),
{
}

/// A copy from a buffer with transfer source usage to an image without transfer destination
/// usage is refused for that reason, whatever the region, the layers and the buffer length.
pub proof fn lemma_destination_usage_required<P>(
    buffer: BufferInfo,
    image: ImageInfo,
    image_offset: [u32; 3],
    image_size: [u32; 3],
    image_first_layer: u32,
    image_num_layers: u32,
    image_mipmap: u32,
)
    requires
        buffer.usage_transfer_source,
        !image.usage.transfer_destination,
    ensures
        copy_outcome::<P>(
            buffer,
            image,
            CheckCopyBufferImageTy::BufferToImage,
            image_offset,
            image_size,
            image_first_layer,
            image_num_layers,
            image_mipmap,
        ) == Err::<(), CheckCopyBufferImageError>(
            CheckCopyBufferImageError::DestinationMissingTransferUsage,
        ),
{
}

} // verus!
