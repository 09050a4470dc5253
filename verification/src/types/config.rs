use vstd::prelude::*;

verus! {

/// Which concrete hardware video-encoding backend to instantiate.
///
/// The NVENC variant is selectable only when the running build reports NVENC
/// support; otherwise selection falls back to the general-purpose VAAPI
/// backend (see `encoders::dynamic_encoder::select_backend`).
#[derive(Debug, Clone, Copy, PartialEq, Eq, Structural)]
pub enum VideoEncoder {
    H264Nvenc,
    H264Vaapi,
}

/// Which audio encoding backend a capture session uses. The audio path is a
/// collaborator of this core and is not modeled beyond its identity.
#[derive(Debug, Clone, Copy, PartialEq, Eq, Structural)]
pub enum AudioEncoder {
    Opus,
}

/// Requested trade-off between output quality and bitrate. Closed
/// enumeration: every preset maps to a fixed quantization parameter per
/// backend and unknown presets are not representable.
#[derive(Debug, Clone, Copy, PartialEq, Eq, Structural)]
pub enum QualityPreset {
    Low,
    Medium,
    High,
    Ultra,
}

/// Vendor of the GPU backing the default display, as classified by a
/// transient capability probe. Derived anew for each decision that needs it,
/// never persisted.
#[derive(Debug, Clone, Copy, PartialEq, Eq, Structural)]
pub enum GpuVendor {
    Nvidia,
    Amd,
    Intel,
    Unknown,
}

} // verus!
