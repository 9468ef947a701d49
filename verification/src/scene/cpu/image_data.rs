//! Raw image payloads of the CPU scene.

use vstd::prelude::*;
use crate::gfx::HalaFormat;
use crate::bytes::{spec_u32_seq_bytes, append_u32_seq_bytes};

verus! {

/// The payload of an image: bytes for the 8-bit formats, IEEE-754 encodings
/// for the floating-point format.
pub enum HalaImageDataType {
    ByteData(Vec<u8>),
    FloatData(Vec<u32>),
}

/// The byte length of a payload: float words take four bytes each.
pub open spec fn spec_image_payload_len(d: &HalaImageDataType) -> nat {
    match d {
        HalaImageDataType::ByteData(data) => data@.len(),
        HalaImageDataType::FloatData(data) => data@.len() * 4,
    }
}

/// The payload as the bytes that reach the device: byte data as it is,
/// float data as consecutive little-endian words.
pub open spec fn spec_image_payload_bytes(d: &HalaImageDataType) -> Seq<u8> {
    match d {
        HalaImageDataType::ByteData(data) => data@,
        HalaImageDataType::FloatData(data) => spec_u32_seq_bytes(data@),
    }
}

/// One decoded image: its device format, dimensions, payload, and the
/// payload's byte size.
pub struct HalaImageData {
    pub format: HalaFormat,
    pub width: u32,
    pub height: u32,
    pub data_type: HalaImageDataType,
    pub num_of_bytes: usize,
}

impl HalaImageData {
    /// `num_of_bytes` is exactly the payload's byte length.
    pub open spec fn well_formed(&self) -> bool {
        self.num_of_bytes == spec_image_payload_len(&self.data_type)
    }

    /// Build an image record from a decoded payload; the byte count is
    /// derived from the payload.
    pub fn new(format: HalaFormat, width: u32, height: u32, data_type: HalaImageDataType) -> (r:
        Self)
        requires
            spec_image_payload_len(&data_type) <= usize::MAX,
        ensures
            r.format == format,
            r.width == width,
            r.height == height,
            r.data_type == data_type,
            r.well_formed(),
    {
        let num_of_bytes: usize = match &data_type {
            HalaImageDataType::ByteData(data) => data.len(),
            HalaImageDataType::FloatData(data) => data.len() * 4,
        };
        Self { format, width, height, data_type, num_of_bytes }
    }

    /// The payload as the bytes that reach the device.
    pub fn payload_bytes(&self) -> (r: Vec<u8>)
        ensures
            r@ == spec_image_payload_bytes(&self.data_type),
            r@.len() == spec_image_payload_len(&self.data_type),
    {
        match &self.data_type {
            HalaImageDataType::ByteData(data) => data.clone(),
            HalaImageDataType::FloatData(data) => {
                let mut out: Vec<u8> = Vec::new();
                append_u32_seq_bytes(&mut out, data);
                out
            },
        }
    }
}

} // verus!
