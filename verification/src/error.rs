//! The errors of a render and of the command-line front end.

use vstd::prelude::*;

verus! {

#[verifier::external_type_specification]
#[verifier::external_body]
pub struct ExRequestDeviceError(wgpu::RequestDeviceError);

#[verifier::external_type_specification]
#[verifier::external_body]
pub struct ExImageError(image::ImageError);

#[verifier::external_type_specification]
#[verifier::external_body]
pub struct ExIoError(std::io::Error);

/// Everything that can stop a render or the command-line tool.
#[derive(Debug)]
pub enum TiedyeError {
    /// No GPU adapter could be found.
    NoAdapter,
    /// The GPU adapter refused to hand out a device.
    DeviceError(wgpu::RequestDeviceError),
    /// An image could not be decoded or encoded.
    ImageError(image::ImageError),
    /// Reading, writing, or the read-back of the rendered image failed.
    IoError(std::io::Error),
    /// The shader file, named by its path, could not be read.
    ShaderNotFound(String),
}

/// `std::io::Error::new` with `std::io::ErrorKind::InvalidData` and the given
/// message. Nothing is claimed of the error value, which stays opaque here.
#[verifier::external_body]
pub(crate) fn invalid_data_error(message: &str) -> std::io::Error {
    std::io::Error::new(std::io::ErrorKind::InvalidData, message)
}

} // verus!
