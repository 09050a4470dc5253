use crate::encoders::vaapi_encoder::{
    drain_post, drop_processor_post, process_post, reset_post, spec_create_encoder_error,
    spec_create_graph_error, spec_encoder_handle, spec_filter_graph, spec_vaapi_format_description,
    DrainEvent, EncoderHandle, GraphInitEvent, HwInitEvent, ProcessEvent, ProcessReport,
    VaapiEncoder, graph_init_ok, hw_init_ok,
};
use crate::encoders::video::{DeviceContext, HwDeviceKind, VideoFormatDescription};
use crate::types::config::{GpuVendor, QualityPreset, VideoEncoder};
use crate::types::error::{InitFailure, WaycapError};
use crate::types::video_frame::{EncodedVideoFrame, RawVideoFrame};
use vstd::prelude::*;

verus! {

/// The backend the selector settles on: a requested backend is honored
/// unconditionally; otherwise the probed vendor decides, with NVIDIA falling
/// back to the general-purpose VAAPI backend when the running build lacks
/// NVENC support, and an unknown vendor refused outright.
pub open spec fn spec_select_backend(
    requested: Option<VideoEncoder>,
    vendor: GpuVendor,
    nvenc_supported: bool,
) -> Result<VideoEncoder, WaycapError> {
    match requested {
        Some(backend) => Ok(backend),
        None => match vendor {
            GpuVendor::Nvidia => if nvenc_supported {
                Ok(VideoEncoder::H264Nvenc)
            } else {
                Ok(VideoEncoder::H264Vaapi)
            },
            GpuVendor::Amd => Ok(VideoEncoder::H264Vaapi),
            GpuVendor::Intel => Ok(VideoEncoder::H264Vaapi),
            GpuVendor::Unknown => Err(WaycapError::Init(InitFailure::UnknownVendor)),
        },
    }
}

/// Decides which concrete encoder implementation to instantiate. The same
/// decision governs capability negotiation, so that the capture source is
/// told parameters compatible with the encoder that will actually run.
pub fn select_backend(
    requested: Option<VideoEncoder>,
    vendor: GpuVendor,
    nvenc_supported: bool,
) -> (r: Result<VideoEncoder, WaycapError>)
    ensures
        r == spec_select_backend(requested, vendor, nvenc_supported),
{
    match requested {
        Some(backend) => Ok(backend),
        None => match vendor {
            GpuVendor::Nvidia => {
                if nvenc_supported {
                    Ok(VideoEncoder::H264Nvenc)
                } else {
                    Ok(VideoEncoder::H264Vaapi)
                }
            },
            GpuVendor::Amd => Ok(VideoEncoder::H264Vaapi),
            GpuVendor::Intel => Ok(VideoEncoder::H264Vaapi),
            GpuVendor::Unknown => Err(WaycapError::Init(InitFailure::UnknownVendor)),
        },
    }
}

/// With no caller override, an AMD or INTEL GPU always receives the
/// general-purpose VAAPI backend, never a vendor-specific one.
pub proof fn lemma_amd_intel_select_vaapi(vendor: GpuVendor, nvenc_supported: bool)
    requires
        vendor == GpuVendor::Amd || vendor == GpuVendor::Intel,
    ensures
        spec_select_backend(None, vendor, nvenc_supported) == Result::<
            VideoEncoder,
            WaycapError,
        >::Ok(VideoEncoder::H264Vaapi),
{
}

/// The backend the facade resolves construction to: a requested backend is
/// honored; otherwise the probe's answer decides, a failed probe (`None`)
/// being an initialization error of its own.
pub open spec fn spec_resolved_backend(
    requested: Option<VideoEncoder>,
    probed: Option<GpuVendor>,
    nvenc_supported: bool,
) -> Result<VideoEncoder, WaycapError> {
    match requested {
        Some(backend) => Ok(backend),
        None => match probed {
            None => Err(WaycapError::Init(InitFailure::ProbeFailure)),
            Some(vendor) => spec_select_backend(None, vendor, nvenc_supported),
        },
    }
}

/// With no override and an unknown GPU vendor, construction is refused
/// before any hardware resource is requested.
pub proof fn lemma_unknown_vendor_refused(nvenc_supported: bool)
    ensures
        spec_resolved_backend(None, Some(GpuVendor::Unknown), nvenc_supported) == Result::<
            VideoEncoder,
            WaycapError,
        >::Err(WaycapError::Init(InitFailure::UnknownVendor)),
{
}

/// The tagged union over the concrete encoder cores, exposing one uniform
/// interface. The backend is chosen once at construction and is immutable
/// for the life of the facade; every operation dispatches to the active
/// variant with no added logic. In a build without NVENC support the VAAPI
/// core is the only variant; selecting the NVENC backend takes the graceful
/// absent-variant path and fails construction.
pub enum DynamicEncoder {
    Vaapi(VaapiEncoder),
}

impl DynamicEncoder {
    /// The wrapped concrete core.
    pub open spec fn as_vaapi(self) -> VaapiEncoder {
        match self {
            DynamicEncoder::Vaapi(enc) => enc,
        }
    }

    pub open spec fn wf(self) -> bool {
        self.as_vaapi().wf()
    }

    /// Resolves the backend -- honoring `encoder_type`, else selecting from
    /// the probed vendor -- and constructs the concrete encoder core for it.
    /// `probed` carries the vendor the transient capability probe reported,
    /// or `None` if the probe could not create its context; it is consulted
    /// only when no backend was requested. On any resolution failure no
    /// hardware construction is attempted.
    pub fn new(
        encoder_type: Option<VideoEncoder>,
        probed: Option<GpuVendor>,
        nvenc_supported: bool,
        width: u32,
        height: u32,
        quality_preset: QualityPreset,
        hw: HwInitEvent,
        graph_ev: GraphInitEvent,
    ) -> (r: Result<DynamicEncoder, WaycapError>)
        requires
            width > 0,
            height > 0,
        ensures
            r is Ok <==> (spec_resolved_backend(encoder_type, probed, nvenc_supported)
                == Result::<VideoEncoder, WaycapError>::Ok(VideoEncoder::H264Vaapi)
                && hw_init_ok(hw) && graph_init_ok(graph_ev)),
            r matches Ok(enc) ==> {
                &&& enc.wf()
                &&& enc.as_vaapi().is_ready()
                &&& enc.as_vaapi().width == width
                &&& enc.as_vaapi().height == height
                &&& enc.as_vaapi().quality == quality_preset
                &&& enc.as_vaapi().encoder == Some(
                    spec_encoder_handle(width, height, quality_preset),
                )
                &&& enc.as_vaapi().filter_graph == Some(
                    spec_filter_graph(
                        width,
                        height,
                        (DeviceContext { kind: HwDeviceKind::Vaapi }),
                    ),
                )
                &&& enc.as_vaapi().encoded_frame_recv is Some
                &&& enc.as_vaapi().live_context_pairs() == 1
            },
            spec_resolved_backend(encoder_type, probed, nvenc_supported) matches Err(e) ==> r
                == Result::<DynamicEncoder, WaycapError>::Err(e),
            spec_resolved_backend(encoder_type, probed, nvenc_supported) == Result::<
                VideoEncoder,
                WaycapError,
            >::Ok(VideoEncoder::H264Nvenc) ==> r == Result::<DynamicEncoder, WaycapError>::Err(
                WaycapError::Init(InitFailure::BackendUnavailable),
            ),
            spec_resolved_backend(encoder_type, probed, nvenc_supported) == Result::<
                VideoEncoder,
                WaycapError,
            >::Ok(VideoEncoder::H264Vaapi) ==> {
                &&& (!hw_init_ok(hw) ==> r == Result::<DynamicEncoder, WaycapError>::Err(
                    spec_create_encoder_error(hw),
                ))
                &&& (hw_init_ok(hw) && !graph_init_ok(graph_ev) ==> r == Result::<
                    DynamicEncoder,
                    WaycapError,
                >::Err(spec_create_graph_error(graph_ev)))
            },
    {
        let resolved = match encoder_type {
            Some(backend) => backend,
            None => match probed {
                None => {
                    return Err(WaycapError::Init(InitFailure::ProbeFailure));
                },
                Some(vendor) => match select_backend(None, vendor, nvenc_supported) {
                    Ok(backend) => backend,
                    Err(e) => {
                        return Err(e);
                    },
                },
            },
        };
        match resolved {
            VideoEncoder::H264Vaapi => {
                match VaapiEncoder::new(width, height, quality_preset, hw, graph_ev) {
                    Ok(enc) => Ok(DynamicEncoder::Vaapi(enc)),
                    Err(e) => Err(e),
                }
            },
            VideoEncoder::H264Nvenc => Err(WaycapError::Init(InitFailure::BackendUnavailable)),
        }
    }

    /// Dispatches `process` to the active variant, adding no behavior.
    pub fn process(&mut self, frame: RawVideoFrame, ev: ProcessEvent) -> (r: Result<
        ProcessReport,
        WaycapError,
    >)
        requires
            old(self).wf(),
        ensures
            final(self).wf(),
            process_post(old(self).as_vaapi(), final(self).as_vaapi(), frame, ev, r),
    {
        match self {
            DynamicEncoder::Vaapi(enc) => enc.process(frame, ev),
        }
    }

    /// Dispatches `reset` to the active variant, adding no behavior.
    pub fn reset(&mut self, hw: HwInitEvent, graph_ev: GraphInitEvent) -> (r: Result<
        (),
        WaycapError,
    >)
        requires
            old(self).wf(),
        ensures
            final(self).wf(),
            reset_post(old(self).as_vaapi(), final(self).as_vaapi(), hw, graph_ev, r),
    {
        match self {
            DynamicEncoder::Vaapi(enc) => enc.reset(hw, graph_ev),
        }
    }

    /// Dispatches `drain` to the active variant, adding no behavior.
    pub fn drain(&mut self, ev: DrainEvent) -> (r: Result<(), WaycapError>)
        requires
            old(self).wf(),
        ensures
            final(self).wf(),
            drain_post(old(self).as_vaapi(), final(self).as_vaapi(), ev, r),
    {
        match self {
            DynamicEncoder::Vaapi(enc) => enc.drain(ev),
        }
    }

    /// Dispatches `drop_processor` to the active variant, adding no
    /// behavior.
    pub fn drop_processor(&mut self)
        ensures
            drop_processor_post(old(self).as_vaapi(), final(self).as_vaapi()),
            final(self).as_vaapi().is_stopped(),
            final(self).as_vaapi().live_context_pairs() == 0,
            old(self).wf() ==> final(self).wf(),
    {
        match self {
            DynamicEncoder::Vaapi(enc) => enc.drop_processor(),
        }
    }

    /// Dispatches `output` to the active variant, adding no behavior.
    pub fn output(&mut self) -> (r: Option<crossbeam::channel::Receiver<EncodedVideoFrame>>)
        ensures
            *final(self) == *old(self),
            r is Some <==> old(self).as_vaapi().encoded_frame_recv is Some,
    {
        match self {
            DynamicEncoder::Vaapi(enc) => enc.output(),
        }
    }

    /// Dispatches `get_encoder` to the active variant, adding no behavior.
    pub fn get_encoder(&self) -> (r: &Option<EncoderHandle>)
        ensures
            *r == self.as_vaapi().encoder,
    {
        match self {
            DynamicEncoder::Vaapi(enc) => enc.get_encoder(),
        }
    }

    /// Dispatches `thread_setup` to the active variant, adding no behavior.
    pub fn thread_setup(&mut self) -> (r: Result<(), WaycapError>)
        ensures
            *final(self) == *old(self),
            r is Ok,
    {
        match self {
            DynamicEncoder::Vaapi(enc) => enc.thread_setup(),
        }
    }

    /// Dispatches `thread_teardown` to the active variant, adding no
    /// behavior.
    pub fn thread_teardown(&mut self) -> (r: Result<(), WaycapError>)
        ensures
            *final(self) == *old(self),
            r is Ok,
    {
        match self {
            DynamicEncoder::Vaapi(enc) => enc.thread_teardown(),
        }
    }

    /// Routes the capability-negotiation query through the same vendor
    /// probe and selection logic as construction: an unknown vendor or a
    /// failed probe is refused, every supported vendor receives the format
    /// description of the backend that would run for it.
    pub fn get_spa_definition(probed: Option<GpuVendor>) -> (r: Result<
        VideoFormatDescription,
        WaycapError,
    >)
        ensures
            probed is None ==> r == Result::<VideoFormatDescription, WaycapError>::Err(
                WaycapError::Init(InitFailure::ProbeFailure),
            ),
            probed == Some(GpuVendor::Unknown) ==> r == Result::<
                VideoFormatDescription,
                WaycapError,
            >::Err(WaycapError::Init(InitFailure::UnknownVendor)),
            probed matches Some(vendor) && vendor != GpuVendor::Unknown ==> (r matches Ok(d)
                && spec_vaapi_format_description(d)),
    {
        match probed {
            None => Err(WaycapError::Init(InitFailure::ProbeFailure)),
            Some(GpuVendor::Unknown) => Err(WaycapError::Init(InitFailure::UnknownVendor)),
            Some(_) => VaapiEncoder::get_spa_definition(),
        }
    }
}

} // verus!
