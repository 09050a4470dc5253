use crate::encoders::video::{
    clone_encoded_frame_receiver, create_frame_pool, create_hw_device, new_encoded_frame_channel,
    spec_frame_pool, try_send_encoded_frame, DeviceContext, Fraction, FramePoolContext,
    HwDeviceKind, MediaSubtype, MediaType, PixelFormat, Rectangle, SendOutcome,
    VideoFormatDescription, GOP_SIZE, OUTPUT_CHANNEL_SIZE, TIME_UNIT_NS,
};
use crate::types::config::QualityPreset;
use crate::types::error::{FilterStage, InitFailure, WaycapError};
use crate::types::video_frame::{EncodedVideoFrame, RawVideoFrame};
use vstd::prelude::*;

verus! {

/// The options handed to the codec library when the VAAPI encoder is opened:
/// variable frame rate, variable bitrate, and a quantization parameter drawn
/// from the quality preset.
#[derive(Debug, Clone, Copy, PartialEq, Eq, Structural)]
pub struct EncoderOpts {
    /// Frame timing follows the incoming timestamps (vsync = vfr).
    pub vsync_vfr: bool,
    /// Rate control is variable bitrate (rc = VBR).
    pub rc_vbr: bool,
    /// Quantization parameter; lower means higher quality.
    pub qp: u32,
}

/// The quantization parameter each quality preset maps to on this backend.
pub open spec fn spec_qp(quality: QualityPreset) -> u32 {
    match quality {
        QualityPreset::Low => 30,
        QualityPreset::Medium => 25,
        QualityPreset::High => 20,
        QualityPreset::Ultra => 15,
    }
}

/// The full option set for a preset.
pub open spec fn spec_encoder_opts(quality: QualityPreset) -> EncoderOpts {
    EncoderOpts { vsync_vfr: true, rc_vbr: true, qp: spec_qp(quality) }
}

/// The preset-to-parameter mapping is injective: distinct presets receive
/// distinct quantization parameters.
pub proof fn lemma_qp_mapping_injective(a: QualityPreset, b: QualityPreset)
    ensures
        spec_qp(a) == spec_qp(b) ==> a == b,
{
}

/// An opened hardware encoder: the configuration installed on the codec
/// library's encoder handle, together with the device and frame-pool contexts
/// bound to it. Exactly one device/frame-pool pair lives inside each handle.
#[derive(Debug, Clone, Copy, PartialEq, Eq, Structural)]
pub struct EncoderHandle {
    pub width: u32,
    pub height: u32,
    /// The surface format the encoder consumes.
    pub format: PixelFormat,
    /// Denominator of the encoder time base (the numerator is 1).
    pub time_base_den: i64,
    /// Forced key-frame interval.
    pub gop: u32,
    pub opts: EncoderOpts,
    /// The hardware device context bound onto the encoder.
    pub device: DeviceContext,
    /// The hardware frame pool bound onto the encoder.
    pub frames: FramePoolContext,
}

/// Arguments of the `source` stage: accepts BGRA frames of the capture
/// geometry, timestamped in microseconds.
#[derive(Debug, Clone, Copy, PartialEq, Eq, Structural)]
pub struct SourceArgs {
    pub width: u32,
    pub height: u32,
    pub pix_fmt: PixelFormat,
    pub time_base_den: u32,
}

/// Arguments of the `hwmap` stage: maps the hardware buffer for read and
/// write access, deriving its device from the device context it shares with
/// the encoder.
#[derive(Debug, Clone, Copy, PartialEq, Eq, Structural)]
pub struct HwMapArgs {
    pub read_write: bool,
    pub derive_device: HwDeviceKind,
    /// The shared device context: a reference-counted borrow of the
    /// encoder's device, never a second independent context.
    pub device: DeviceContext,
}

/// Arguments of the `scale` stage: converts to the hardware's native format
/// at unchanged resolution and normalizes full to limited color range.
#[derive(Debug, Clone, Copy, PartialEq, Eq, Structural)]
pub struct ScaleArgs {
    pub width: u32,
    pub height: u32,
    pub format: PixelFormat,
    pub out_range_limited: bool,
}

/// The validated conversion pipeline, a linear graph of four named stages in
/// fixed link order: `source -> hwmap -> scale -> sink`.
#[derive(Debug, Clone, Copy, PartialEq, Eq, Structural)]
pub struct FilterGraph {
    pub source: SourceArgs,
    pub hwmap: HwMapArgs,
    pub scale: ScaleArgs,
    /// The linked topology passed validation.
    pub validated: bool,
}

/// Outcomes of the hardware calls made while constructing an encoder, in the
/// order the calls happen. Each field reports what the codec library or the
/// driver answered; the construction logic decides from them alone.
#[derive(Debug, Clone, Copy, PartialEq, Eq, Structural)]
pub struct HwInitEvent {
    /// An encoder of the requested name exists in the codec library.
    pub codec_found: bool,
    /// The hardware acceleration device could be opened.
    pub device_created: bool,
    /// The hardware frame-pool context could be allocated.
    pub frame_ctx_created: bool,
    /// Status code of the eager frame-pool initialization; negative is
    /// failure.
    pub frame_ctx_init_status: i32,
    /// The codec parameters could be installed.
    pub params_ok: bool,
    /// The configured encoder opened.
    pub open_ok: bool,
}

/// Outcomes of locating, adding and validating the filter-graph stages.
#[derive(Debug, Clone, Copy, PartialEq, Eq, Structural)]
pub struct GraphInitEvent {
    /// The `buffer` source filter was found and added.
    pub source_ok: bool,
    /// The `hwmap` filter was found and added.
    pub hwmap_ok: bool,
    /// The `scale_vaapi` filter was found and added.
    pub scale_ok: bool,
    /// The `buffersink` filter was found and added.
    pub sink_ok: bool,
    /// The linked graph validated.
    pub validate_ok: bool,
}

/// Every hardware step of encoder construction succeeded.
pub open spec fn hw_init_ok(ev: HwInitEvent) -> bool {
    &&& ev.codec_found
    &&& ev.device_created
    &&& ev.frame_ctx_created
    &&& ev.frame_ctx_init_status >= 0
    &&& ev.params_ok
    &&& ev.open_ok
}

/// Every stage of the filter graph was found, linked and validated.
pub open spec fn graph_init_ok(ev: GraphInitEvent) -> bool {
    &&& ev.source_ok
    &&& ev.hwmap_ok
    &&& ev.scale_ok
    &&& ev.sink_ok
    &&& ev.validate_ok
}

/// The encoder handle that a successful construction with these parameters
/// installs.
pub open spec fn spec_encoder_handle(width: u32, height: u32, quality: QualityPreset) -> EncoderHandle {
    EncoderHandle {
        width,
        height,
        format: PixelFormat::Vaapi,
        time_base_den: TIME_UNIT_NS,
        gop: GOP_SIZE,
        opts: spec_encoder_opts(quality),
        device: DeviceContext { kind: HwDeviceKind::Vaapi },
        frames: spec_frame_pool(width, height, PixelFormat::Nv12, PixelFormat::Vaapi),
    }
}

/// The error a failed construction reports, decided by the first hardware
/// step that failed.
pub open spec fn spec_create_encoder_error(ev: HwInitEvent) -> WaycapError {
    if !ev.codec_found {
        WaycapError::Init(InitFailure::EncoderNotFound)
    } else if !ev.device_created {
        WaycapError::Init(InitFailure::DeviceCreation)
    } else if !ev.frame_ctx_created {
        WaycapError::Init(InitFailure::FrameContextAlloc)
    } else if ev.frame_ctx_init_status < 0 {
        WaycapError::Init(InitFailure::FrameContextInit(ev.frame_ctx_init_status))
    } else if !ev.params_ok {
        WaycapError::Init(InitFailure::ParameterSetup)
    } else {
        WaycapError::Init(InitFailure::EncoderOpen)
    }
}

/// The filter graph a successful construction builds for an encoder.
pub open spec fn spec_filter_graph(width: u32, height: u32, device: DeviceContext) -> FilterGraph {
    FilterGraph {
        source: SourceArgs {
            width,
            height,
            pix_fmt: PixelFormat::Bgra,
            time_base_den: 1000000,
        },
        hwmap: HwMapArgs { read_write: true, derive_device: HwDeviceKind::Vaapi, device },
        scale: ScaleArgs {
            width,
            height,
            format: PixelFormat::Nv12,
            out_range_limited: true,
        },
        validated: true,
    }
}

/// The error a failed graph construction reports, decided by the first stage
/// that could not be found or the failed validation.
pub open spec fn spec_create_graph_error(ev: GraphInitEvent) -> WaycapError {
    if !ev.source_ok {
        WaycapError::Init(InitFailure::FilterNotFound(FilterStage::Source))
    } else if !ev.hwmap_ok {
        WaycapError::Init(InitFailure::FilterNotFound(FilterStage::HwMap))
    } else if !ev.scale_ok {
        WaycapError::Init(InitFailure::FilterNotFound(FilterStage::Scale))
    } else if !ev.sink_ok {
        WaycapError::Init(InitFailure::FilterNotFound(FilterStage::Sink))
    } else {
        WaycapError::Init(InitFailure::GraphValidation)
    }
}

/// Fourcc code of the 32-bit ARGB little-endian layout, the format tag
/// written into every DRM PRIME layer this core builds.
pub const DRM_FOURCC_ARGB8888: u32 = 875713089;

/// Relies on drm_fourcc::DrmFourcc::Argb8888: the ARGB8888 fourcc code.
#[verifier::external_body]
fn argb8888_fourcc() -> (r: u32)
    ensures
        r == DRM_FOURCC_ARGB8888,
{
    drm_fourcc::DrmFourcc::Argb8888 as u32
}

/// A DRM PRIME frame descriptor wrapping one externally-owned DMA buffer:
/// exactly one buffer object, one layer and one plane. The file descriptor
/// stays owned by the capture source; this descriptor borrows it only for
/// the `process` call that builds it.
#[derive(Debug, Clone, Copy, PartialEq, Eq, Structural)]
pub struct DrmFrameDescriptor {
    pub nb_objects: u32,
    /// The borrowed DMA buffer file descriptor.
    pub object_fd: i32,
    pub object_size: u32,
    pub format_modifier: u64,
    pub nb_layers: u32,
    /// Fourcc of the layer's pixel layout.
    pub layer_format: u32,
    pub nb_planes: u32,
    pub plane_object_index: u32,
    /// Byte offset of the plane inside the buffer.
    pub plane_offset: u32,
    /// Row stride of the plane in bytes.
    pub plane_pitch: u32,
}

/// A transient hardware frame that points into an externally-owned GPU
/// buffer. Scoped to one `process` call: it is converted into a
/// context-scoped hardware frame before that call returns.
#[derive(Debug, Clone, Copy, PartialEq, Eq, Structural)]
pub struct DrmFrame {
    pub width: u32,
    pub height: u32,
    pub format: PixelFormat,
    pub descriptor: DrmFrameDescriptor,
    pub pts: i64,
}

/// The one-object, one-layer, one-plane descriptor for a DMA buffer.
pub open spec fn spec_drm_descriptor(fd: i32, offset: u32, stride: u32) -> DrmFrameDescriptor {
    DrmFrameDescriptor {
        nb_objects: 1,
        object_fd: fd,
        object_size: 0,
        format_modifier: 0,
        nb_layers: 1,
        layer_format: DRM_FOURCC_ARGB8888,
        nb_planes: 1,
        plane_object_index: 0,
        plane_offset: offset,
        plane_pitch: stride,
    }
}

/// The transient frame `process` builds around a DMA buffer descriptor.
pub open spec fn spec_drm_frame(
    fd: i32,
    offset: u32,
    stride: u32,
    width: u32,
    height: u32,
    timestamp: i64,
) -> DrmFrame {
    DrmFrame {
        width,
        height,
        format: PixelFormat::DrmPrime,
        descriptor: spec_drm_descriptor(fd, offset, stride),
        pts: timestamp,
    }
}

/// Wraps an externally-owned DMA buffer into a transient DRM PRIME frame
/// with no copy: the descriptor records the borrowed file descriptor, offset
/// and stride, and the frame is stamped with the capture timestamp.
pub fn wrap_dmabuf(
    fd: i32,
    offset: u32,
    stride: u32,
    width: u32,
    height: u32,
    timestamp: i64,
) -> (f: DrmFrame)
    ensures
        f == spec_drm_frame(fd, offset, stride, width, height, timestamp),
{
    let descriptor = DrmFrameDescriptor {
        nb_objects: 1,
        object_fd: fd,
        object_size: 0,
        format_modifier: 0,
        nb_layers: 1,
        layer_format: argb8888_fourcc(),
        nb_planes: 1,
        plane_object_index: 0,
        plane_offset: offset,
        plane_pitch: stride,
    };
    DrmFrame { width, height, format: PixelFormat::DrmPrime, descriptor, pts: timestamp }
}

/// One compressed packet as the codec library hands it back.
pub struct PacketData {
    pub data: Vec<u8>,
    pub is_key: bool,
    pub pts: Option<i64>,
    pub dts: Option<i64>,
}

/// A timestamp defaulted to zero where the codec library left it unset.
pub open spec fn spec_ts_or_zero(ts: Option<i64>) -> i64 {
    match ts {
        Some(v) => v,
        None => 0,
    }
}

/// Copies a packet into an owned encoded frame, defaulting missing
/// timestamps to zero.
pub fn packet_to_encoded_frame(packet: PacketData) -> (frame: EncodedVideoFrame)
    ensures
        frame.data@ == packet.data@,
        frame.is_keyframe == packet.is_key,
        frame.pts == spec_ts_or_zero(packet.pts),
        frame.dts == spec_ts_or_zero(packet.dts),
{
    let pts: i64 = match packet.pts {
        Some(v) => v,
        None => 0,
    };
    let dts: i64 = match packet.dts {
        Some(v) => v,
        None => 0,
    };
    EncodedVideoFrame { data: packet.data, is_keyframe: packet.is_key, pts, dts }
}

/// A converted frame pulled from the filter pipeline's sink, ready for the
/// encoder.
#[derive(Debug, Clone, Copy, PartialEq, Eq, Structural)]
pub struct FilteredFrame {
    pub pts: i64,
}

/// What the hardware answered during one `process` call, in call order.
pub struct ProcessEvent {
    /// The frame the filter sink yielded, or `None` for the normal
    /// "not ready yet" state.
    pub sink_frame: Option<FilteredFrame>,
    /// Status of submitting the filtered frame to the encoder; negative is
    /// failure. Read only when a filtered frame was pulled.
    pub submit_status: i32,
    /// The packet the encoder had ready, or `None` for "try again next
    /// call". Carries only packets with a payload.
    pub packet: Option<PacketData>,
}

/// What one `process` call did, as observable by the caller.
#[derive(Debug, Clone, Copy, PartialEq, Eq, Structural)]
pub struct ProcessReport {
    /// The transient zero-copy frame pushed into the filter source, if the
    /// incoming frame carried a DMA buffer descriptor.
    pub ingested: Option<DrmFrame>,
    /// Whether a filtered frame was submitted to the encoder.
    pub submitted: bool,
    /// Outcome of forwarding an encoded packet to the output channel, if
    /// one was ready.
    pub send: Option<SendOutcome>,
}

/// What the hardware answered during one `drain` call.
#[derive(Debug, Clone, Copy, PartialEq, Eq, Structural)]
pub struct DrainEvent {
    /// How many frames the filter sink still yielded.
    pub pending: u32,
    /// Status of re-submitting those frames; negative is failure. Read only
    /// when `pending > 0`.
    pub submit_status: i32,
    /// Status of signalling end-of-stream; negative is failure.
    pub eof_status: i32,
    /// How many trailing packets the encoder produced after end-of-stream;
    /// all of them are discarded.
    pub trailing_packets: u32,
}

/// Encoder which encodes frames using VAAPI.
///
/// Lifecycle: construction leaves the instance Ready (encoder handle,
/// hardware contexts and filter pipeline all live); `drain` keeps it Ready;
/// `drop_processor` moves it to Stopped (both absent); only `reset` rebuilds
/// it from the parameters captured at first construction.
pub struct VaapiEncoder {
    /// The live encoder handle, owning the only device/frame-pool pair.
    pub encoder: Option<EncoderHandle>,
    pub width: u32,
    pub height: u32,
    pub quality: QualityPreset,
    /// Consumer side of the output channel; present from successful
    /// construction on.
    pub encoded_frame_recv: Option<crossbeam::channel::Receiver<EncodedVideoFrame>>,
    /// Producer side of the output channel, used only by `process`.
    pub encoded_frame_sender: crossbeam::channel::Sender<EncodedVideoFrame>,
    /// The validated conversion pipeline; live exactly when the encoder is.
    pub filter_graph: Option<FilterGraph>,
}

impl VaapiEncoder {
    /// How many hardware device/frame-pool pairs this instance holds live.
    /// Each encoder handle owns exactly one pair, so this is never above 1.
    pub open spec fn live_context_pairs(self) -> nat {
        if self.encoder is Some {
            1
        } else {
            0
        }
    }

    /// The instance is Ready: encoder and filter pipeline both live.
    pub open spec fn is_ready(self) -> bool {
        self.encoder is Some
    }

    /// The instance is Stopped: encoder and filter pipeline both absent.
    pub open spec fn is_stopped(self) -> bool {
        self.encoder is None
    }

    /// Well-formedness: the geometry is positive, encoder and filter graph
    /// are live together or absent together, and whatever is live matches
    /// the construction parameters, with the graph's mapping stage sharing
    /// the encoder's device context.
    pub open spec fn wf(self) -> bool {
        &&& self.width > 0
        &&& self.height > 0
        &&& (self.encoder is Some <==> self.filter_graph is Some)
        &&& (self.encoder matches Some(h) ==> h == spec_encoder_handle(
            self.width,
            self.height,
            self.quality,
        ))
        &&& (self.filter_graph matches Some(g) ==> g == spec_filter_graph(
            self.width,
            self.height,
            (DeviceContext { kind: HwDeviceKind::Vaapi }),
        ))
    }
}

/// `process` fails only when a filtered frame was pulled from the sink and
/// the encoder refused it; everything else, including a stopped instance and
/// a full or disconnected output channel, is not an error.
pub open spec fn spec_process_ok(pre: VaapiEncoder, frame: RawVideoFrame, ev: ProcessEvent) -> bool {
    !(pre.encoder is Some && frame.dmabuf_fd is Some && ev.sink_frame is Some
        && ev.submit_status < 0)
}

/// Relation between the state before and after `process`, the incoming frame
/// and hardware answers, and the result. The state itself never changes:
/// `process` only moves frames through the live hardware pipeline.
pub open spec fn process_post(
    pre: VaapiEncoder,
    post: VaapiEncoder,
    frame: RawVideoFrame,
    ev: ProcessEvent,
    r: Result<ProcessReport, WaycapError>,
) -> bool {
    &&& post == pre
    &&& (r is Ok <==> spec_process_ok(pre, frame, ev))
    &&& (r matches Err(e) ==> e == WaycapError::Encode(ev.submit_status))
    &&& (r matches Ok(rep) ==> {
        &&& (rep.ingested is Some <==> pre.encoder is Some && frame.dmabuf_fd is Some)
        &&& (pre.encoder matches Some(h) ==> (frame.dmabuf_fd matches Some(fd)
            ==> rep.ingested == Some(
            spec_drm_frame(fd, frame.offset, frame.stride, h.width, h.height, frame.timestamp),
        )))
        &&& (rep.submitted <==> pre.encoder is Some && frame.dmabuf_fd is Some
            && ev.sink_frame is Some)
        &&& (rep.send is Some <==> pre.encoder is Some && ev.packet is Some)
    })
}

/// `drain` succeeds unless re-submitting a pending frame or signalling
/// end-of-stream failed; on a stopped instance it is a no-op.
pub open spec fn spec_drain_ok(pre: VaapiEncoder, ev: DrainEvent) -> bool {
    pre.encoder is None || ((ev.pending == 0 || ev.submit_status >= 0) && ev.eof_status >= 0)
}

/// The error a failed `drain` reports: the submit failure if one happened,
/// else the end-of-stream failure.
pub open spec fn spec_drain_error(ev: DrainEvent) -> WaycapError {
    if ev.pending > 0 && ev.submit_status < 0 {
        WaycapError::Encode(ev.submit_status)
    } else {
        WaycapError::Encode(ev.eof_status)
    }
}

/// Relation between the state around `drain` and its result. Draining keeps
/// the instance Ready: trailing packets are discarded, nothing is released.
pub open spec fn drain_post(
    pre: VaapiEncoder,
    post: VaapiEncoder,
    ev: DrainEvent,
    r: Result<(), WaycapError>,
) -> bool {
    &&& post == pre
    &&& (r is Ok <==> spec_drain_ok(pre, ev))
    &&& (r matches Err(e) ==> e == spec_drain_error(ev))
}

/// Relation between the state around `drop_processor`: the encoder handle
/// and the filter pipeline are released, everything else is kept. Calling it
/// again changes nothing.
pub open spec fn drop_processor_post(pre: VaapiEncoder, post: VaapiEncoder) -> bool {
    post == (VaapiEncoder { encoder: None, filter_graph: None, ..pre })
}

/// How many device/frame-pool pairs are live after a `reset` with these
/// hardware answers: one on success, zero on failure, whatever was live
/// before.
pub open spec fn spec_reset_live(hw: HwInitEvent, graph_ev: GraphInitEvent) -> nat {
    if hw_init_ok(hw) && graph_init_ok(graph_ev) {
        1
    } else {
        0
    }
}

/// Relation between the state around `reset` and its result: the old
/// encoder and pipeline are torn down first, then both are recreated from
/// the width, height and quality captured at first construction. On failure
/// nothing stays live, so no hardware is leaked and never do two pairs
/// coexist.
pub open spec fn reset_post(
    pre: VaapiEncoder,
    post: VaapiEncoder,
    hw: HwInitEvent,
    graph_ev: GraphInitEvent,
    r: Result<(), WaycapError>,
) -> bool {
    &&& post.width == pre.width
    &&& post.height == pre.height
    &&& post.quality == pre.quality
    &&& post.encoded_frame_sender == pre.encoded_frame_sender
    &&& post.encoded_frame_recv == pre.encoded_frame_recv
    &&& (r is Ok <==> hw_init_ok(hw) && graph_init_ok(graph_ev))
    &&& (r is Ok ==> post.encoder == Some(
        spec_encoder_handle(pre.width, pre.height, pre.quality),
    ) && post.filter_graph == Some(
        spec_filter_graph(pre.width, pre.height, (DeviceContext { kind: HwDeviceKind::Vaapi })),
    ))
    &&& (r is Err ==> post.encoder is None && post.filter_graph is None)
    &&& (!hw_init_ok(hw) ==> r == Result::<(), WaycapError>::Err(spec_create_encoder_error(hw)))
    &&& (hw_init_ok(hw) && !graph_init_ok(graph_ev) ==> r == Result::<(), WaycapError>::Err(
        spec_create_graph_error(graph_ev),
    ))
    &&& post.live_context_pairs() == spec_reset_live(hw, graph_ev)
}

impl VaapiEncoder {
    /// Maps a quality preset to the options the encoder is opened with:
    /// variable frame rate, VBR rate control, and the preset's quantization
    /// parameter. Total and deterministic, one branch per preset.
    pub fn get_encoder_params(quality: &QualityPreset) -> (opts: EncoderOpts)
        ensures
            opts == spec_encoder_opts(*quality),
    {
        let qp: u32 = match quality {
            QualityPreset::Low => 30,
            QualityPreset::Medium => 25,
            QualityPreset::High => 20,
            QualityPreset::Ultra => 15,
        };
        EncoderOpts { vsync_vfr: true, rc_vbr: true, qp }
    }

    /// Builds an opened VAAPI encoder from the hardware's answers: finds the
    /// codec, opens the acceleration device, allocates and eagerly
    /// initializes the NV12 frame pool, installs parameters and opens the
    /// encoder. The first failing step decides the error.
    pub fn create_encoder(
        width: u32,
        height: u32,
        quality: &QualityPreset,
        hw: HwInitEvent,
    ) -> (r: Result<EncoderHandle, WaycapError>)
        ensures
            r is Ok <==> hw_init_ok(hw),
            hw_init_ok(hw) ==> r == Result::<EncoderHandle, WaycapError>::Ok(
                spec_encoder_handle(width, height, *quality),
            ),
            !hw_init_ok(hw) ==> r == Result::<EncoderHandle, WaycapError>::Err(
                spec_create_encoder_error(hw),
            ),
    {
        if !hw.codec_found {
            return Err(WaycapError::Init(InitFailure::EncoderNotFound));
        }
        let device = match create_hw_device(HwDeviceKind::Vaapi, hw.device_created) {
            Ok(d) => d,
            Err(e) => {
                return Err(e);
            },
        };
        let frames = match create_frame_pool(
            &device,
            width,
            height,
            PixelFormat::Nv12,
            PixelFormat::Vaapi,
            hw.frame_ctx_created,
            hw.frame_ctx_init_status,
        ) {
            Ok(f) => f,
            Err(e) => {
                return Err(e);
            },
        };
        if !hw.params_ok {
            return Err(WaycapError::Init(InitFailure::ParameterSetup));
        }
        if !hw.open_ok {
            return Err(WaycapError::Init(InitFailure::EncoderOpen));
        }
        let opts = Self::get_encoder_params(quality);
        Ok(
            EncoderHandle {
                width,
                height,
                format: PixelFormat::Vaapi,
                time_base_den: TIME_UNIT_NS,
                gop: GOP_SIZE,
                opts,
                device,
                frames,
            },
        )
    }

    /// Builds the four-stage conversion pipeline for an opened encoder:
    /// `source` accepting BGRA capture frames, `hwmap` mapping the hardware
    /// buffer read+write on the encoder's own device context, `scale`
    /// converting to NV12 with limited color range, and `sink`. The first
    /// stage that cannot be found, or a failed validation, decides the
    /// error.
    pub fn create_filter_graph(
        encoder: &EncoderHandle,
        width: u32,
        height: u32,
        ev: GraphInitEvent,
    ) -> (r: Result<FilterGraph, WaycapError>)
        ensures
            r is Ok <==> graph_init_ok(ev),
            graph_init_ok(ev) ==> r == Result::<FilterGraph, WaycapError>::Ok(
                spec_filter_graph(width, height, encoder.device),
            ),
            !graph_init_ok(ev) ==> r == Result::<FilterGraph, WaycapError>::Err(
                spec_create_graph_error(ev),
            ),
    {
        if !ev.source_ok {
            return Err(WaycapError::Init(InitFailure::FilterNotFound(FilterStage::Source)));
        }
        if !ev.hwmap_ok {
            return Err(WaycapError::Init(InitFailure::FilterNotFound(FilterStage::HwMap)));
        }
        if !ev.scale_ok {
            return Err(WaycapError::Init(InitFailure::FilterNotFound(FilterStage::Scale)));
        }
        if !ev.sink_ok {
            return Err(WaycapError::Init(InitFailure::FilterNotFound(FilterStage::Sink)));
        }
        if !ev.validate_ok {
            return Err(WaycapError::Init(InitFailure::GraphValidation));
        }
        Ok(
            FilterGraph {
                source: SourceArgs {
                    width,
                    height,
                    pix_fmt: PixelFormat::Bgra,
                    time_base_den: 1000000,
                },
                hwmap: HwMapArgs {
                    read_write: true,
                    derive_device: HwDeviceKind::Vaapi,
                    device: encoder.device,
                },
                scale: ScaleArgs {
                    width,
                    height,
                    format: PixelFormat::Nv12,
                    out_range_limited: true,
                },
                validated: true,
            },
        )
    }

    /// Constructs a Ready VAAPI encoder: encoder handle, hardware contexts,
    /// bounded output channel and filter pipeline all live. Initialization
    /// is eager; the first failing hardware step aborts construction with
    /// its error and nothing stays allocated.
    pub fn new(
        width: u32,
        height: u32,
        quality: QualityPreset,
        hw: HwInitEvent,
        graph_ev: GraphInitEvent,
    ) -> (r: Result<VaapiEncoder, WaycapError>)
        requires
            width > 0,
            height > 0,
        ensures
            r is Ok <==> hw_init_ok(hw) && graph_init_ok(graph_ev),
            r matches Ok(enc) ==> {
                &&& enc.wf()
                &&& enc.is_ready()
                &&& enc.width == width
                &&& enc.height == height
                &&& enc.quality == quality
                &&& enc.encoder == Some(spec_encoder_handle(width, height, quality))
                &&& enc.filter_graph == Some(
                    spec_filter_graph(
                        width,
                        height,
                        (DeviceContext { kind: HwDeviceKind::Vaapi }),
                    ),
                )
                &&& enc.encoded_frame_recv is Some
                &&& enc.live_context_pairs() == 1
            },
            !hw_init_ok(hw) ==> r == Result::<VaapiEncoder, WaycapError>::Err(
                spec_create_encoder_error(hw),
            ),
            hw_init_ok(hw) && !graph_init_ok(graph_ev) ==> r == Result::<
                VaapiEncoder,
                WaycapError,
            >::Err(spec_create_graph_error(graph_ev)),
    {
        let encoder = match Self::create_encoder(width, height, &quality, hw) {
            Ok(e) => e,
            Err(e) => {
                return Err(e);
            },
        };
        let (frame_tx, frame_rx) = new_encoded_frame_channel(OUTPUT_CHANNEL_SIZE);
        let filter_graph = match Self::create_filter_graph(&encoder, width, height, graph_ev) {
            Ok(g) => g,
            Err(e) => {
                return Err(e);
            },
        };
        Ok(
            VaapiEncoder {
                encoder: Some(encoder),
                width,
                height,
                quality,
                encoded_frame_recv: Some(frame_rx),
                encoded_frame_sender: frame_tx,
                filter_graph: Some(filter_graph),
            },
        )
    }

    /// Valid in every state; on a Stopped instance it is a safe no-op. With
    /// a live encoder: a frame carrying a DMA buffer descriptor is wrapped
    /// zero-copy, stamped with its timestamp and pushed into the pipeline;
    /// a converted frame, if the sink had one ready, is submitted to the
    /// encoder; and regardless, one ready packet, if any, is copied out and
    /// sent non-blocking to the output channel, dropped with a report when
    /// the channel is full or its consumers are gone.
    pub fn process(&mut self, frame: RawVideoFrame, ev: ProcessEvent) -> (r: Result<
        ProcessReport,
        WaycapError,
    >)
        requires
            old(self).wf(),
        ensures
            final(self).wf(),
            process_post(*old(self), *final(self), frame, ev, r),
    {
        match &self.encoder {
            None => Ok(ProcessReport { ingested: None, submitted: false, send: None }),
            Some(encoder_handle) => {
                let mut ingested: Option<DrmFrame> = None;
                let mut submitted = false;
                let mut send: Option<SendOutcome> = None;
                if let Some(fd) = frame.dmabuf_fd {
                    let drm_frame = wrap_dmabuf(
                        fd,
                        frame.offset,
                        frame.stride,
                        encoder_handle.width,
                        encoder_handle.height,
                        frame.timestamp,
                    );
                    ingested = Some(drm_frame);
                    if ev.sink_frame.is_some() {
                        if ev.submit_status < 0 {
                            return Err(WaycapError::Encode(ev.submit_status));
                        }
                        submitted = true;
                    }
                }
                if let Some(packet) = ev.packet {
                    let encoded = packet_to_encoded_frame(packet);
                    send = Some(try_send_encoded_frame(&self.encoded_frame_sender, encoded));
                }
                Ok(ProcessReport { ingested, submitted, send })
            },
        }
    }

    /// Pulls whatever the filter pipeline still buffers and submits it,
    /// then signals end-of-stream and discards every packet produced after
    /// it: drain exists for graceful resource release, not final-output
    /// correctness, so the trailing packets are dropped on purpose. The
    /// instance stays Ready and drain may be called again.
    pub fn drain(&mut self, ev: DrainEvent) -> (r: Result<(), WaycapError>)
        requires
            old(self).wf(),
        ensures
            final(self).wf(),
            drain_post(*old(self), *final(self), ev, r),
    {
        if self.encoder.is_some() {
            if ev.pending > 0 && ev.submit_status < 0 {
                return Err(WaycapError::Encode(ev.submit_status));
            }
            if ev.eof_status < 0 {
                return Err(WaycapError::Encode(ev.eof_status));
            }
        }
        Ok(())
    }

    /// Unconditionally releases the encoder handle (and with it the only
    /// device/frame-pool pair) and the filter pipeline. Idempotent.
    pub fn drop_processor(&mut self)
        ensures
            drop_processor_post(*old(self), *final(self)),
            final(self).is_stopped(),
            final(self).live_context_pairs() == 0,
            old(self).wf() ==> final(self).wf(),
    {
        self.encoder = None;
        self.filter_graph = None;
    }

    /// Tears down all hardware state, then recreates the encoder handle,
    /// contexts and filter pipeline from the width, height and quality
    /// captured at first construction. The old pair is destroyed before the
    /// new one is installed, so at no point do two pairs coexist.
    pub fn reset(&mut self, hw: HwInitEvent, graph_ev: GraphInitEvent) -> (r: Result<
        (),
        WaycapError,
    >)
        requires
            old(self).wf(),
        ensures
            final(self).wf(),
            reset_post(*old(self), *final(self), hw, graph_ev, r),
    {
        self.drop_processor();
        let new_encoder = match Self::create_encoder(self.width, self.height, &self.quality, hw) {
            Ok(e) => e,
            Err(e) => {
                return Err(e);
            },
        };
        let new_filter_graph = match Self::create_filter_graph(
            &new_encoder,
            self.width,
            self.height,
            graph_ev,
        ) {
            Ok(g) => g,
            Err(e) => {
                return Err(e);
            },
        };
        self.encoder = Some(new_encoder);
        self.filter_graph = Some(new_filter_graph);
        Ok(())
    }

    /// Hands out another receiver handle onto the output channel, or `None`
    /// if the instance was never constructed with one.
    pub fn output(&mut self) -> (r: Option<crossbeam::channel::Receiver<EncodedVideoFrame>>)
        ensures
            *final(self) == *old(self),
            r is Some <==> old(self).encoded_frame_recv is Some,
    {
        match &self.encoded_frame_recv {
            Some(receiver) => Some(clone_encoded_frame_receiver(receiver)),
            None => None,
        }
    }

    /// The live encoder handle, if any.
    pub fn get_encoder(&self) -> (r: &Option<EncoderHandle>)
        ensures
            *r == self.encoder,
    {
        &self.encoder
    }

    /// Runs once on the processing thread before the first `process` call;
    /// this backend needs no per-thread setup.
    pub fn thread_setup(&mut self) -> (r: Result<(), WaycapError>)
        ensures
            *final(self) == *old(self),
            r is Ok,
    {
        Ok(())
    }

    /// Runs once on the processing thread after the last `process` call;
    /// this backend needs no per-thread teardown.
    pub fn thread_teardown(&mut self) -> (r: Result<(), WaycapError>)
        ensures
            *final(self) == *old(self),
            r is Ok,
    {
        Ok(())
    }

    /// The capture parameters this backend advertises: raw video in NV12,
    /// I420, BGRA or BGRx, resolutions from 1x1 to 4096x4096 defaulting to
    /// 2560x1440, and framerates from 0 to 244 defaulting to 240.
    pub fn get_spa_definition() -> (r: Result<VideoFormatDescription, WaycapError>)
        ensures
            r matches Ok(d) && spec_vaapi_format_description(d),
    {
        let mut formats: Vec<PixelFormat> = Vec::new();
        formats.push(PixelFormat::Nv12);
        formats.push(PixelFormat::I420);
        formats.push(PixelFormat::Bgra);
        formats.push(PixelFormat::Bgrx);
        proof {
            assert(formats@ =~= seq![
                PixelFormat::Nv12,
                PixelFormat::I420,
                PixelFormat::Bgra,
                PixelFormat::Bgrx,
            ]);
        }
        Ok(
            VideoFormatDescription {
                media_type: MediaType::Video,
                media_subtype: MediaSubtype::Raw,
                modifier: 0,
                formats,
                size_default: Rectangle { width: 2560, height: 1440 },
                size_min: Rectangle { width: 1, height: 1 },
                size_max: Rectangle { width: 4096, height: 4096 },
                framerate_default: Fraction { num: 240, denom: 1 },
                framerate_min: Fraction { num: 0, denom: 1 },
                framerate_max: Fraction { num: 244, denom: 1 },
            },
        )
    }
}

/// The exact format description the VAAPI backend advertises.
pub open spec fn spec_vaapi_format_description(d: VideoFormatDescription) -> bool {
    &&& d.media_type == MediaType::Video
    &&& d.media_subtype == MediaSubtype::Raw
    &&& d.modifier == 0
    &&& d.formats@ == seq![
        PixelFormat::Nv12,
        PixelFormat::I420,
        PixelFormat::Bgra,
        PixelFormat::Bgrx,
    ]
    &&& d.size_default == (Rectangle { width: 2560, height: 1440 })
    &&& d.size_min == (Rectangle { width: 1, height: 1 })
    &&& d.size_max == (Rectangle { width: 4096, height: 4096 })
    &&& d.framerate_default == (Fraction { num: 240, denom: 1 })
    &&& d.framerate_min == (Fraction { num: 0, denom: 1 })
    &&& d.framerate_max == (Fraction { num: 244, denom: 1 })
}

/// How many device/frame-pool pairs are live after running a whole sequence
/// of resets from a state with `start` pairs live.
pub open spec fn live_pairs_after_resets(
    start: nat,
    events: Seq<(HwInitEvent, GraphInitEvent)>,
) -> nat
    decreases events.len(),
{
    if events.len() == 0 {
        start
    } else {
        live_pairs_after_resets(spec_reset_live(events[0].0, events[0].1), events.drop_first())
    }
}

/// Draining and then dropping the processor leaves the instance Stopped --
/// encoder and filter pipeline both absent -- and a `process` call on that
/// instance is a safe no-op: it succeeds, changes nothing and touches
/// neither the hardware pipeline nor the output channel. The three
/// hypotheses are exactly what `drain`, `drop_processor` and `process`
/// ensure of the states they connect.
pub proof fn lemma_drain_drop_then_process_noop(
    s0: VaapiEncoder,
    s1: VaapiEncoder,
    s2: VaapiEncoder,
    s3: VaapiEncoder,
    drain_ev: DrainEvent,
    drain_r: Result<(), WaycapError>,
    frame: RawVideoFrame,
    process_ev: ProcessEvent,
    process_r: Result<ProcessReport, WaycapError>,
)
    requires
        drain_post(s0, s1, drain_ev, drain_r),
        drop_processor_post(s1, s2),
        process_post(s2, s3, frame, process_ev, process_r),
    ensures
        s2.encoder is None,
        s2.filter_graph is None,
        s2.is_stopped(),
        s3 == s2,
        process_r matches Ok(rep) && rep.ingested is None && !rep.submitted && rep.send is None,
{
}

/// Resetting is idempotent-safe: after any positive number of resets whose
/// hardware steps all succeed, exactly one device/frame-pool pair is live --
/// never one pair per reset, never zero -- whatever was live at the start.
/// Each step of the sequence is what `reset` ensures of
/// `live_context_pairs` via `spec_reset_live`.
pub proof fn lemma_repeated_reset_one_pair(start: nat, events: Seq<(HwInitEvent, GraphInitEvent)>)
    requires
        events.len() > 0,
        forall|i: int|
            0 <= i < events.len() ==> #[trigger] hw_init_ok(events[i].0) && graph_init_ok(
                events[i].1,
            ),
    ensures
        live_pairs_after_resets(start, events) == 1,
    decreases events.len(),
{
    assert(hw_init_ok(events[0].0) && graph_init_ok(events[0].1));
    if events.len() == 1 {
        assert(events.drop_first().len() == 0);
        assert(live_pairs_after_resets(spec_reset_live(events[0].0, events[0].1), events.drop_first())
            == spec_reset_live(events[0].0, events[0].1));
    } else {
        let rest = events.drop_first();
        assert forall|i: int|
            0 <= i < rest.len() implies #[trigger] hw_init_ok(rest[i].0) && graph_init_ok(
            rest[i].1,
        ) by {
            assert(rest[i] == events[i + 1]);
            assert(hw_init_ok(events[i + 1].0) && graph_init_ok(events[i + 1].1));
        }
        lemma_repeated_reset_one_pair(spec_reset_live(events[0].0, events[0].1), rest);
    }
}

} // verus!
