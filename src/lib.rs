//! Image shape arithmetic and validation of copies between buffers and images.

pub mod image;
pub mod format;
pub mod copy_image_buffer;
pub mod vk;
