//! Texel formats: block dimensions, block size in bytes, and which buffer element types can
//! hold their data.

use vstd::prelude::*;

verus! {

/// A texel format. Uncompressed formats have 1×1 blocks; a block-compressed format encodes a
/// block of texels into one fixed-size payload.
#[allow(non_camel_case_types)]
#[derive(Copy, Clone, Debug, PartialEq, Eq, Structural)]
pub enum Format {
    R4G4UnormPack8,
    R8Unorm,
    R8G8B8Uscaled,
    R8G8B8A8Unorm,
    B8G8R8A8Unorm,
    R32Uint,
    R32G32Uint,
    R32G32B32A32Uint,
    D24Unorm_S8Uint,
    BC1_RGBUnormBlock,
    BC3UnormBlock,
    ASTC_4x4UnormBlock,
    ASTC_8x8UnormBlock,
    ASTC_12x12SrgbBlock,
}

/// The buffer's element type cannot hold the data of the image's format.
#[derive(Copy, Clone, Debug, PartialEq, Eq, Structural)]
pub struct IncompatiblePixelsType;

impl Format {
    pub open spec fn spec_block_dimensions(&self) -> (u32, u32) {
        match *self {
            Format::BC1_RGBUnormBlock => (4, 4),
            Format::BC3UnormBlock => (4, 4),
            Format::ASTC_4x4UnormBlock => (4, 4),
            Format::ASTC_8x8UnormBlock => (8, 8),
            Format::ASTC_12x12SrgbBlock => (12, 12),
            _ => (1, 1),
        }
    }

    pub open spec fn spec_size(&self) -> Option<u32> {
        match *self {
            Format::R4G4UnormPack8 => Some(1),
            Format::R8Unorm => Some(1),
            Format::R8G8B8Uscaled => Some(3),
            Format::R8G8B8A8Unorm => Some(4),
            Format::B8G8R8A8Unorm => Some(4),
            Format::R32Uint => Some(4),
            Format::R32G32Uint => Some(8),
            Format::R32G32B32A32Uint => Some(16),
            Format::D24Unorm_S8Uint => None,
            Format::BC1_RGBUnormBlock => Some(8),
            Format::BC3UnormBlock => Some(16),
            Format::ASTC_4x4UnormBlock => Some(16),
            Format::ASTC_8x8UnormBlock => Some(16),
            Format::ASTC_12x12SrgbBlock => Some(16),
        }
    }

    /// Whether a buffer of `P` elements can hold data of this format: the format has a
    /// defined block size and it is a whole number of `P` elements.
    pub open spec fn accepts<P>(&self) -> bool {
        &&& self.spec_size() is Some
        &&& vstd::layout::size_of::<P>() > 0
        &&& self.spec_size().unwrap() as nat % vstd::layout::size_of::<P>() == 0
    }

    /// Number of `P` elements that one block (one texel, for uncompressed formats) takes.
    pub open spec fn spec_rate<P>(&self) -> nat {
        self.spec_size().unwrap() as nat / vstd::layout::size_of::<P>()
    }

    /// Width and height of one block, in texels.
    #[verifier::when_used_as_spec(spec_block_dimensions)]
    pub fn block_dimensions(&self) -> (r: (u32, u32))
        ensures
            r == self.spec_block_dimensions(),
            r.0 >= 1,
            r.1 >= 1,
    {
        match *self {
            Format::BC1_RGBUnormBlock => (4, 4),
            Format::BC3UnormBlock => (4, 4),
            Format::ASTC_4x4UnormBlock => (4, 4),
            Format::ASTC_8x8UnormBlock => (8, 8),
            Format::ASTC_12x12SrgbBlock => (12, 12),
            _ => (1, 1),
        }
    }

    /// Size of one block in bytes, if the format has one.
    #[verifier::when_used_as_spec(spec_size)]
    pub fn size(&self) -> (r: Option<u32>)
        ensures
            r == self.spec_size(),
    {
        match *self {
            Format::R4G4UnormPack8 => Some(1),
            Format::R8Unorm => Some(1),
            Format::R8G8B8Uscaled => Some(3),
            Format::R8G8B8A8Unorm => Some(4),
            Format::B8G8R8A8Unorm => Some(4),
            Format::R32Uint => Some(4),
            Format::R32G32Uint => Some(8),
            Format::R32G32B32A32Uint => Some(16),
            Format::D24Unorm_S8Uint => None,
            Format::BC1_RGBUnormBlock => Some(8),
            Format::BC3UnormBlock => Some(16),
            Format::ASTC_4x4UnormBlock => Some(16),
            Format::ASTC_8x8UnormBlock => Some(16),
            Format::ASTC_12x12SrgbBlock => Some(16),
        }
    }

    /// Checks that a buffer of `P` elements can hold data of this format.
    pub fn ensure_accepts<P>(&self) -> (r: Result<(), IncompatiblePixelsType>)
        ensures
            r is Ok <==> self.accepts::<P>(),
    {
        let pixel_size = core::mem::size_of::<P>();
        match self.size() {
            Some(size) => {
                if pixel_size > 0 && (size as usize) % pixel_size == 0 {
                    Ok(())
                } else {
                    Err(IncompatiblePixelsType)
                }
            },
            None => Err(IncompatiblePixelsType),
        }
    }

    /// Number of `P` elements that one block of this format takes.
    pub fn rate<P>(&self) -> (r: u32)
        requires
            self.spec_size() is Some,
            vstd::layout::size_of::<P>() > 0,
        ensures
            r == self.spec_rate::<P>(),
    {
        let size = self.size().unwrap();
        ((size as usize) / core::mem::size_of::<P>()) as u32
    }
}

} // verus!
