use crate::types::error::{InitFailure, WaycapError};
use crate::types::video_frame::EncodedVideoFrame;
use vstd::prelude::*;

verus! {

/// Group-of-pictures size shared by every backend: the interval between
/// forced key frames. Kept small so that popping frames from the front of a
/// downstream ring buffer can lose at most this much unflushed history.
pub const GOP_SIZE: u32 = 30;

/// Timestamps are carried in nanoseconds; the encoder time base is
/// `1 / TIME_UNIT_NS`.
pub const TIME_UNIT_NS: i64 = 1000000000;

/// Number of GPU frames pre-allocated in a hardware frame pool. Deliberately
/// minimal to bound the GPU memory reserved per encoder instance.
pub const HW_FRAME_POOL_SIZE: u32 = 2;

/// Capacity of the bounded output channel between the encoding thread and
/// its consumer. When the channel is full, the newest encoded frames are
/// dropped rather than stalling capture.
pub const OUTPUT_CHANNEL_SIZE: usize = 10;

/// The pixel formats and layouts this core speaks about.
#[derive(Debug, Clone, Copy, PartialEq, Eq, Structural)]
pub enum PixelFormat {
    /// A frame whose payload is a DRM PRIME buffer descriptor.
    DrmPrime,
    /// A frame living in a VAAPI hardware surface.
    Vaapi,
    Nv12,
    I420,
    Bgra,
    Bgrx,
}

/// Which hardware acceleration API a device context is opened against.
#[derive(Debug, Clone, Copy, PartialEq, Eq, Structural)]
pub enum HwDeviceKind {
    Vaapi,
    Cuda,
}

/// A handle to an open GPU acceleration session. Exclusively owned by one
/// encoder core; the filter pipeline's mapping stage holds a reference-counted
/// borrow of the same underlying device, never a second context.
#[derive(Debug, Clone, Copy, PartialEq, Eq, Structural)]
pub struct DeviceContext {
    pub kind: HwDeviceKind,
}

/// A pre-allocated pool of GPU-resident frame buffers bound to a device
/// context.
#[derive(Debug, Clone, Copy, PartialEq, Eq, Structural)]
pub struct FramePoolContext {
    pub width: u32,
    pub height: u32,
    /// The software-visible layout of the pooled frames.
    pub sw_format: PixelFormat,
    /// The hardware surface format of the pooled frames.
    pub format: PixelFormat,
    /// How many frames the pool eagerly allocates.
    pub initial_pool_size: u32,
}

/// Opens a hardware acceleration device of the requested kind. The opening
/// itself happens on the GPU: `created` reports whether the platform provided
/// the device.
pub fn create_hw_device(kind: HwDeviceKind, created: bool) -> (r: Result<
    DeviceContext,
    WaycapError,
>)
    ensures
        created ==> r == Result::<DeviceContext, WaycapError>::Ok(DeviceContext { kind }),
        !created ==> r == Result::<DeviceContext, WaycapError>::Err(
            WaycapError::Init(InitFailure::DeviceCreation),
        ),
{
    if created {
        Ok(DeviceContext { kind })
    } else {
        Err(WaycapError::Init(InitFailure::DeviceCreation))
    }
}

/// The frame pool a device of the given geometry must expose to the encoder.
pub open spec fn spec_frame_pool(width: u32, height: u32, sw_format: PixelFormat, format: PixelFormat) -> FramePoolContext {
    FramePoolContext {
        width,
        height,
        sw_format,
        format,
        initial_pool_size: HW_FRAME_POOL_SIZE,
    }
}

/// Allocates and eagerly initializes a hardware frame pool on `device`.
/// `alloc_ok` reports whether the pool context could be allocated at all and
/// `init_status` is the status code of its initialization; a negative status
/// fails construction loudly, carrying the code.
pub fn create_frame_pool(
    device: &DeviceContext,
    width: u32,
    height: u32,
    sw_format: PixelFormat,
    format: PixelFormat,
    alloc_ok: bool,
    init_status: i32,
) -> (r: Result<FramePoolContext, WaycapError>)
    ensures
        !alloc_ok ==> r == Result::<FramePoolContext, WaycapError>::Err(
            WaycapError::Init(InitFailure::FrameContextAlloc),
        ),
        alloc_ok && init_status < 0 ==> r == Result::<FramePoolContext, WaycapError>::Err(
            WaycapError::Init(InitFailure::FrameContextInit(init_status)),
        ),
        alloc_ok && init_status >= 0 ==> r == Result::<FramePoolContext, WaycapError>::Ok(
            spec_frame_pool(width, height, sw_format, format),
        ),
{
    if !alloc_ok {
        return Err(WaycapError::Init(InitFailure::FrameContextAlloc));
    }
    if init_status < 0 {
        return Err(WaycapError::Init(InitFailure::FrameContextInit(init_status)));
    }
    Ok(FramePoolContext {
        width,
        height,
        sw_format,
        format,
        initial_pool_size: HW_FRAME_POOL_SIZE,
    })
}

#[verifier::external_type_specification]
#[verifier::external_body]
#[verifier::reject_recursive_types(T)]
pub struct ExSender<T>(crossbeam::channel::Sender<T>);

#[verifier::external_type_specification]
#[verifier::external_body]
#[verifier::reject_recursive_types(T)]
pub struct ExReceiver<T>(crossbeam::channel::Receiver<T>);

/// Outcome of a non-blocking send on the output channel.
#[derive(Debug, Clone, Copy, PartialEq, Eq, Structural)]
pub enum SendOutcome {
    /// The frame was placed in the channel.
    Sent,
    /// The channel was full; the frame was dropped.
    Full,
    /// Every consumer had disconnected; the frame was dropped.
    Disconnected,
}

/// A width and height in pixels.
#[derive(Debug, Clone, Copy, PartialEq, Eq, Structural)]
pub struct Rectangle {
    pub width: u32,
    pub height: u32,
}

/// A frame rate as a rational number of frames per second.
#[derive(Debug, Clone, Copy, PartialEq, Eq, Structural)]
pub struct Fraction {
    pub num: u32,
    pub denom: u32,
}

/// The media class a format description advertises.
#[derive(Debug, Clone, Copy, PartialEq, Eq, Structural)]
pub enum MediaType {
    Video,
}

/// The media subtype a format description advertises.
#[derive(Debug, Clone, Copy, PartialEq, Eq, Structural)]
pub enum MediaSubtype {
    Raw,
}

/// What a backend advertises to the capture source: the pixel formats it
/// accepts and the resolution and framerate ranges it negotiates. Produced
/// per backend and routed through the same vendor probe as construction, so
/// the capture source is configured for the encoder that will actually run.
pub struct VideoFormatDescription {
    pub media_type: MediaType,
    pub media_subtype: MediaSubtype,
    /// The buffer modifier advertised for GPU-resident buffers.
    pub modifier: i64,
    /// Accepted pixel formats, preferred first.
    pub formats: Vec<PixelFormat>,
    pub size_default: Rectangle,
    pub size_min: Rectangle,
    pub size_max: Rectangle,
    pub framerate_default: Fraction,
    pub framerate_min: Fraction,
    pub framerate_max: Fraction,
}

/// Relies on crossbeam_channel::bounded: a channel that can hold at most
/// `capacity` messages, returned as its sole initial sender/receiver pair.
#[verifier::external_body]
pub fn new_encoded_frame_channel(capacity: usize) -> (crossbeam::channel::Sender<
    EncodedVideoFrame,
>, crossbeam::channel::Receiver<EncodedVideoFrame>) {
    crossbeam::channel::bounded(capacity)
}

/// Relies on crossbeam_channel::Sender::try_send: non-blocking; the message
/// is either enqueued immediately or given back inside `Full` (channel at
/// capacity) or `Disconnected` (no receiver left). Which outcome occurs
/// depends on consumers on other threads, so nothing more is stated.
#[verifier::external_body]
pub fn try_send_encoded_frame(
    sender: &crossbeam::channel::Sender<EncodedVideoFrame>,
    frame: EncodedVideoFrame,
) -> SendOutcome {
    match sender.try_send(frame) {
        Ok(()) => SendOutcome::Sent,
        Err(crossbeam::channel::TrySendError::Full(_)) => SendOutcome::Full,
        Err(crossbeam::channel::TrySendError::Disconnected(_)) => SendOutcome::Disconnected,
    }
}

/// Relies on crossbeam_channel::Receiver::clone: another handle onto the same
/// channel.
#[verifier::external_body]
pub fn clone_encoded_frame_receiver(
    receiver: &crossbeam::channel::Receiver<EncodedVideoFrame>,
) -> crossbeam::channel::Receiver<EncodedVideoFrame> {
    receiver.clone()
}

} // verus!
