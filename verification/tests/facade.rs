use waycap_venc::encoders::dynamic_encoder::DynamicEncoder;
use waycap_venc::encoders::vaapi_encoder::{
    DrainEvent, FilteredFrame, GraphInitEvent, HwInitEvent, PacketData, ProcessEvent,
};
use waycap_venc::encoders::video::SendOutcome;
use waycap_venc::types::config::{GpuVendor, QualityPreset, VideoEncoder};
use waycap_venc::types::video_frame::RawVideoFrame;

fn ok_hw() -> HwInitEvent {
    HwInitEvent {
        codec_found: true,
        device_created: true,
        frame_ctx_created: true,
        frame_ctx_init_status: 0,
        params_ok: true,
        open_ok: true,
    }
}

fn ok_graph() -> GraphInitEvent {
    GraphInitEvent {
        source_ok: true,
        hwmap_ok: true,
        scale_ok: true,
        sink_ok: true,
        validate_ok: true,
    }
}

fn facade() -> DynamicEncoder {
    DynamicEncoder::new(
        Some(VideoEncoder::H264Vaapi),
        None,
        false,
        1920,
        1080,
        QualityPreset::Medium,
        ok_hw(),
        ok_graph(),
    )
    .unwrap()
}

#[test]
fn facade_construction_selects_and_builds_vaapi() {
    let mut enc = DynamicEncoder::new(
        None,
        Some(GpuVendor::Amd),
        false,
        1920,
        1080,
        QualityPreset::Medium,
        ok_hw(),
        ok_graph(),
    )
    .unwrap();
    assert!(enc.get_encoder().is_some());
    assert!(enc.output().is_some());
}

#[test]
fn facade_forwards_the_whole_lifecycle() {
    let mut enc = facade();
    enc.thread_setup().unwrap();

    let frame = RawVideoFrame {
        data: Vec::new(),
        dmabuf_fd: Some(11),
        offset: 0,
        stride: 1920 * 4,
        timestamp: 99,
    };
    let ev = ProcessEvent {
        sink_frame: Some(FilteredFrame { pts: 99 }),
        submit_status: 0,
        packet: Some(PacketData {
            data: vec![5],
            is_key: false,
            pts: Some(99),
            dts: Some(99),
        }),
    };
    let receiver = enc.output().unwrap();
    let report = enc.process(frame, ev).unwrap();
    assert!(report.submitted);
    assert_eq!(report.send, Some(SendOutcome::Sent));
    assert_eq!(receiver.try_recv().unwrap().pts, 99);

    enc.reset(ok_hw(), ok_graph()).unwrap();
    assert!(enc.get_encoder().is_some());

    enc.drain(DrainEvent {
        pending: 0,
        submit_status: 0,
        eof_status: 0,
        trailing_packets: 1,
    })
    .unwrap();
    enc.thread_teardown().unwrap();
    enc.drop_processor();
    assert!(enc.get_encoder().is_none());
}
