use vstd::prelude::*;

verus! {

/// The named stages of the format-conversion filter pipeline, in link order:
/// `source -> hwmap -> scale -> sink`.
#[derive(Debug, Clone, Copy, PartialEq, Eq, Structural)]
pub enum FilterStage {
    Source,
    HwMap,
    Scale,
    Sink,
}

/// Why constructing (or reconstructing) a hardware encoder failed. All of
/// these are unrecoverable for that construction attempt: retrying with the
/// same parameters on the same host fails identically.
#[derive(Debug, Clone, Copy, PartialEq, Eq, Structural)]
pub enum InitFailure {
    /// The capability probe could not create its throwaway rendering context.
    ProbeFailure,
    /// The probe classified the GPU vendor as unknown, so no backend can be
    /// assumed safe.
    UnknownVendor,
    /// The selected backend is not compiled into the running build.
    BackendUnavailable,
    /// The codec library has no encoder of the requested name.
    EncoderNotFound,
    /// Opening the hardware acceleration device failed (platform or driver
    /// lacks the acceleration API).
    DeviceCreation,
    /// Allocating the hardware frame-pool context failed.
    FrameContextAlloc,
    /// Initializing the hardware frame pool failed; carries the negative
    /// status code the codec library returned.
    FrameContextInit(i32),
    /// Installing the codec parameters on the encoder context failed.
    ParameterSetup,
    /// Opening the configured encoder failed.
    EncoderOpen,
    /// A named filter of the conversion pipeline could not be found or added.
    FilterNotFound(FilterStage),
    /// The linked filter graph did not validate.
    GraphValidation,
}

/// Error type of the encoding core.
#[derive(Debug, Clone, Copy, PartialEq, Eq, Structural)]
pub enum WaycapError {
    /// A construction-time failure; propagates to whoever built the encoder.
    Init(InitFailure),
    /// A steady-state encode call failed; carries the negative status code.
    Encode(i32),
}

} // verus!
