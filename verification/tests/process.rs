use waycap_venc::encoders::vaapi_encoder::{
    packet_to_encoded_frame, wrap_dmabuf, GraphInitEvent, HwInitEvent, PacketData, ProcessEvent,
    VaapiEncoder, DRM_FOURCC_ARGB8888,
};
use waycap_venc::encoders::video::SendOutcome;
use waycap_venc::types::config::QualityPreset;
use waycap_venc::types::error::WaycapError;
use waycap_venc::types::video_frame::RawVideoFrame;

fn ok_hw() -> HwInitEvent {
    HwInitEvent {
        codec_found: true,
        device_created: true,
        frame_ctx_created: true,
        frame_ctx_init_status: 0,
        params_ok: true,
        open_ok: true,
    }
}

fn ok_graph() -> GraphInitEvent {
    GraphInitEvent {
        source_ok: true,
        hwmap_ok: true,
        scale_ok: true,
        sink_ok: true,
        validate_ok: true,
    }
}

fn dmabuf_frame(fd: i32, stride: u32, timestamp: i64) -> RawVideoFrame {
    RawVideoFrame {
        data: Vec::new(),
        dmabuf_fd: Some(fd),
        offset: 0,
        stride,
        timestamp,
    }
}

#[test]
fn zero_copy_frame_reaches_output_with_its_timestamp() {
    let width: u32 = 640;
    let mut enc = VaapiEncoder::new(width, 480, QualityPreset::Medium, ok_hw(), ok_graph()).unwrap();
    let receiver = enc.output().unwrap();

    let frame = dmabuf_frame(42, width * 4, 777);
    let ev = ProcessEvent {
        sink_frame: Some(waycap_venc::encoders::vaapi_encoder::FilteredFrame { pts: 777 }),
        submit_status: 0,
        packet: Some(PacketData {
            data: vec![1, 2, 3, 4],
            is_key: true,
            pts: Some(777),
            dts: Some(777),
        }),
    };
    let report = enc.process(frame, ev).unwrap();

    // Exactly one submission into the encoder path...
    assert!(report.submitted);
    let ingested = report.ingested.unwrap();
    assert_eq!(ingested.pts, 777);
    assert_eq!(ingested.descriptor.object_fd, 42);
    assert_eq!(ingested.descriptor.plane_offset, 0);
    assert_eq!(ingested.descriptor.plane_pitch, width * 4);
    assert_eq!(report.send, Some(SendOutcome::Sent));

    // ...and exactly one encoded frame on the output channel, stamped with
    // the submitted frame's timestamp.
    let out = receiver.try_recv().unwrap();
    assert_eq!(out.pts, 777);
    assert_eq!(out.dts, 777);
    assert!(out.is_keyframe);
    assert_eq!(out.data, vec![1, 2, 3, 4]);
    assert!(receiver.try_recv().is_err());
}

#[test]
fn overfilling_the_output_channel_drops_the_newest_frame() {
    let mut enc = VaapiEncoder::new(320, 240, QualityPreset::Low, ok_hw(), ok_graph()).unwrap();
    let receiver = enc.output().unwrap();

    // Eleven packets into a ten-slot channel with nobody draining: the
    // first ten are retained, the eleventh is dropped and reported.
    for i in 0..11i64 {
        let frame = RawVideoFrame {
            data: Vec::new(),
            dmabuf_fd: None,
            offset: 0,
            stride: 0,
            timestamp: i,
        };
        let ev = ProcessEvent {
            sink_frame: None,
            submit_status: 0,
            packet: Some(PacketData {
                data: vec![i as u8],
                is_key: false,
                pts: Some(i),
                dts: Some(i),
            }),
        };
        let report = enc.process(frame, ev).unwrap();
        if i < 10 {
            assert_eq!(report.send, Some(SendOutcome::Sent));
        } else {
            assert_eq!(report.send, Some(SendOutcome::Full));
        }
    }

    for i in 0..10i64 {
        let out = receiver.try_recv().unwrap();
        assert_eq!(out.pts, i);
    }
    assert!(receiver.try_recv().is_err());
}

#[test]
fn no_ready_packet_sends_nothing() {
    let mut enc = VaapiEncoder::new(320, 240, QualityPreset::Low, ok_hw(), ok_graph()).unwrap();
    let receiver = enc.output().unwrap();
    let ev = ProcessEvent {
        sink_frame: None,
        submit_status: 0,
        packet: None,
    };
    let report = enc.process(dmabuf_frame(3, 1280, 5), ev).unwrap();
    assert!(report.ingested.is_some());
    assert!(!report.submitted);
    assert!(report.send.is_none());
    assert!(receiver.try_recv().is_err());
}

#[test]
fn encoder_submit_failure_propagates() {
    let mut enc = VaapiEncoder::new(320, 240, QualityPreset::Low, ok_hw(), ok_graph()).unwrap();
    let ev = ProcessEvent {
        sink_frame: Some(waycap_venc::encoders::vaapi_encoder::FilteredFrame { pts: 5 }),
        submit_status: -9,
        packet: None,
    };
    let r = enc.process(dmabuf_frame(3, 1280, 5), ev);
    assert!(matches!(r, Err(WaycapError::Encode(-9))));
}

#[test]
fn packet_timestamps_default_to_zero() {
    let frame = packet_to_encoded_frame(PacketData {
        data: vec![9, 9],
        is_key: false,
        pts: None,
        dts: None,
    });
    assert_eq!(frame.pts, 0);
    assert_eq!(frame.dts, 0);
    assert!(!frame.is_keyframe);
    assert_eq!(frame.data, vec![9, 9]);
}

#[test]
fn dmabuf_wrap_builds_one_argb_layer() {
    let f = wrap_dmabuf(7, 128, 2560, 640, 480, 31);
    assert_eq!(f.descriptor.nb_objects, 1);
    assert_eq!(f.descriptor.nb_layers, 1);
    assert_eq!(f.descriptor.nb_planes, 1);
    assert_eq!(f.descriptor.object_fd, 7);
    assert_eq!(f.descriptor.object_size, 0);
    assert_eq!(f.descriptor.format_modifier, 0);
    assert_eq!(f.descriptor.plane_object_index, 0);
    assert_eq!(f.descriptor.plane_offset, 128);
    assert_eq!(f.descriptor.plane_pitch, 2560);
    // The layer format is the value drm_fourcc gives for ARGB8888.
    assert_eq!(f.descriptor.layer_format, DRM_FOURCC_ARGB8888);
    assert_eq!(f.descriptor.layer_format, drm_fourcc::DrmFourcc::Argb8888 as u32);
    assert_eq!(f.pts, 31);
}
