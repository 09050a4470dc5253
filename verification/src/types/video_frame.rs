use vstd::prelude::*;

verus! {

/// A captured frame handed in by the capture source. It either carries raw
/// pixel bytes in `data` or references a GPU-resident buffer through
/// `dmabuf_fd`/`offset`/`stride`. The descriptor is owned by the capture
/// source; the core borrows it only for the duration of one `process` call
/// and converts it into a context-scoped hardware frame before returning.
pub struct RawVideoFrame {
    /// Raw pixel bytes, when the frame is not GPU-resident.
    pub data: Vec<u8>,
    /// File descriptor of an externally-owned GPU buffer, if any.
    pub dmabuf_fd: Option<i32>,
    /// Byte offset of the plane inside the GPU buffer.
    pub offset: u32,
    /// Row stride of the plane in bytes.
    pub stride: u32,
    /// Presentation timestamp of the capture.
    pub timestamp: i64,
}

/// One compressed frame produced by the encoder. Owns its payload; ownership
/// transfers to the output channel and from there to the consumer.
pub struct EncodedVideoFrame {
    /// The compressed payload.
    pub data: Vec<u8>,
    /// Whether this frame is a key (fully self-contained) frame.
    pub is_keyframe: bool,
    /// Presentation timestamp.
    pub pts: i64,
    /// Decode timestamp.
    pub dts: i64,
}

} // verus!
