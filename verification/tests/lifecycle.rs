use waycap_venc::encoders::vaapi_encoder::{
    DrainEvent, GraphInitEvent, HwInitEvent, ProcessEvent, VaapiEncoder,
};
use waycap_venc::types::config::QualityPreset;
use waycap_venc::types::error::{FilterStage, InitFailure, WaycapError};
use waycap_venc::types::video_frame::RawVideoFrame;

fn ok_hw() -> HwInitEvent {
    HwInitEvent {
        codec_found: true,
        device_created: true,
        frame_ctx_created: true,
        frame_ctx_init_status: 0,
        params_ok: true,
        open_ok: true,
    }
}

fn ok_graph() -> GraphInitEvent {
    GraphInitEvent {
        source_ok: true,
        hwmap_ok: true,
        scale_ok: true,
        sink_ok: true,
        validate_ok: true,
    }
}

fn quiet_drain() -> DrainEvent {
    DrainEvent {
        pending: 0,
        submit_status: 0,
        eof_status: 0,
        trailing_packets: 0,
    }
}

fn no_dmabuf_frame() -> RawVideoFrame {
    RawVideoFrame {
        data: Vec::new(),
        dmabuf_fd: None,
        offset: 0,
        stride: 0,
        timestamp: 0,
    }
}

#[test]
fn construction_leaves_instance_ready() {
    let mut enc = VaapiEncoder::new(1920, 1080, QualityPreset::High, ok_hw(), ok_graph()).unwrap();
    let handle = enc.get_encoder().as_ref().unwrap();
    assert_eq!(handle.width, 1920);
    assert_eq!(handle.height, 1080);
    assert_eq!(handle.opts.qp, 20);
    assert_eq!(handle.frames.initial_pool_size, 2);
    assert_eq!(handle.time_base_den, 1_000_000_000);
    assert!(enc.output().is_some());
}

#[test]
fn missing_codec_fails_construction() {
    let hw = HwInitEvent {
        codec_found: false,
        ..ok_hw()
    };
    let r = VaapiEncoder::new(1920, 1080, QualityPreset::Low, hw, ok_graph());
    assert!(matches!(r, Err(WaycapError::Init(InitFailure::EncoderNotFound))));
}

#[test]
fn missing_device_fails_construction() {
    let hw = HwInitEvent {
        device_created: false,
        ..ok_hw()
    };
    let r = VaapiEncoder::new(1920, 1080, QualityPreset::Low, hw, ok_graph());
    assert!(matches!(r, Err(WaycapError::Init(InitFailure::DeviceCreation))));
}

#[test]
fn frame_pool_alloc_failure_fails_construction() {
    let hw = HwInitEvent {
        frame_ctx_created: false,
        ..ok_hw()
    };
    let r = VaapiEncoder::new(1920, 1080, QualityPreset::Low, hw, ok_graph());
    assert!(matches!(r, Err(WaycapError::Init(InitFailure::FrameContextAlloc))));
}

#[test]
fn frame_pool_init_failure_carries_status() {
    let hw = HwInitEvent {
        frame_ctx_init_status: -38,
        ..ok_hw()
    };
    let r = VaapiEncoder::new(1920, 1080, QualityPreset::Low, hw, ok_graph());
    assert!(matches!(
        r,
        Err(WaycapError::Init(InitFailure::FrameContextInit(-38)))
    ));
}

#[test]
fn parameter_setup_failure_fails_construction() {
    let hw = HwInitEvent {
        params_ok: false,
        ..ok_hw()
    };
    let r = VaapiEncoder::new(1920, 1080, QualityPreset::Low, hw, ok_graph());
    assert!(matches!(r, Err(WaycapError::Init(InitFailure::ParameterSetup))));
}

#[test]
fn encoder_open_failure_fails_construction() {
    let hw = HwInitEvent {
        open_ok: false,
        ..ok_hw()
    };
    let r = VaapiEncoder::new(1920, 1080, QualityPreset::Low, hw, ok_graph());
    assert!(matches!(r, Err(WaycapError::Init(InitFailure::EncoderOpen))));
}

#[test]
fn missing_filters_fail_construction_in_stage_order() {
    let cases = [
        (
            GraphInitEvent {
                source_ok: false,
                ..ok_graph()
            },
            FilterStage::Source,
        ),
        (
            GraphInitEvent {
                hwmap_ok: false,
                ..ok_graph()
            },
            FilterStage::HwMap,
        ),
        (
            GraphInitEvent {
                scale_ok: false,
                ..ok_graph()
            },
            FilterStage::Scale,
        ),
        (
            GraphInitEvent {
                sink_ok: false,
                ..ok_graph()
            },
            FilterStage::Sink,
        ),
    ];
    for (graph_ev, stage) in cases {
        let r = VaapiEncoder::new(1280, 720, QualityPreset::Low, ok_hw(), graph_ev);
        match r {
            Err(WaycapError::Init(InitFailure::FilterNotFound(s))) => assert_eq!(s, stage),
            _ => panic!("expected a filter-not-found error"),
        }
    }
}

#[test]
fn graph_validation_failure_fails_construction() {
    let graph_ev = GraphInitEvent {
        validate_ok: false,
        ..ok_graph()
    };
    let r = VaapiEncoder::new(1280, 720, QualityPreset::Low, ok_hw(), graph_ev);
    assert!(matches!(r, Err(WaycapError::Init(InitFailure::GraphValidation))));
}

#[test]
fn repeated_resets_keep_exactly_one_context_pair() {
    let mut enc = VaapiEncoder::new(1280, 720, QualityPreset::Ultra, ok_hw(), ok_graph()).unwrap();
    for _ in 0..5 {
        enc.reset(ok_hw(), ok_graph()).unwrap();
        // The encoder handle owns the only device/frame-pool pair, so a
        // present handle means exactly one live pair, and never more.
        let handle = enc.get_encoder().as_ref().unwrap();
        assert_eq!(handle.width, 1280);
        assert_eq!(handle.height, 720);
        assert_eq!(handle.opts.qp, 15);
    }
}

#[test]
fn failed_reset_leaves_nothing_live() {
    let mut enc = VaapiEncoder::new(1280, 720, QualityPreset::Low, ok_hw(), ok_graph()).unwrap();
    let bad_hw = HwInitEvent {
        device_created: false,
        ..ok_hw()
    };
    let r = enc.reset(bad_hw, ok_graph());
    assert!(matches!(r, Err(WaycapError::Init(InitFailure::DeviceCreation))));
    assert!(enc.get_encoder().is_none());
    // A later reset with a healthy device recovers the instance.
    enc.reset(ok_hw(), ok_graph()).unwrap();
    assert!(enc.get_encoder().is_some());
}

#[test]
fn drain_then_drop_leaves_stopped_and_process_is_noop() {
    let mut enc = VaapiEncoder::new(1920, 1080, QualityPreset::Medium, ok_hw(), ok_graph()).unwrap();
    enc.drain(quiet_drain()).unwrap();
    enc.drop_processor();
    assert!(enc.get_encoder().is_none());
    let frame = RawVideoFrame {
        data: Vec::new(),
        dmabuf_fd: Some(9),
        offset: 0,
        stride: 1920 * 4,
        timestamp: 1,
    };
    let ev = ProcessEvent {
        sink_frame: None,
        submit_status: 0,
        packet: None,
    };
    let report = enc.process(frame, ev).unwrap();
    assert!(report.ingested.is_none());
    assert!(!report.submitted);
    assert!(report.send.is_none());
}

#[test]
fn drop_processor_is_idempotent() {
    let mut enc = VaapiEncoder::new(1920, 1080, QualityPreset::Medium, ok_hw(), ok_graph()).unwrap();
    enc.drop_processor();
    enc.drop_processor();
    assert!(enc.get_encoder().is_none());
    // The output channel survives teardown; only reset rebuilds hardware.
    assert!(enc.output().is_some());
}

#[test]
fn drain_is_reentrant_and_reports_failures() {
    let mut enc = VaapiEncoder::new(1920, 1080, QualityPreset::Medium, ok_hw(), ok_graph()).unwrap();
    enc.drain(quiet_drain()).unwrap();
    enc.drain(quiet_drain()).unwrap();
    assert!(enc.get_encoder().is_some());

    let submit_failure = DrainEvent {
        pending: 3,
        submit_status: -22,
        eof_status: 0,
        trailing_packets: 0,
    };
    assert!(matches!(
        enc.drain(submit_failure),
        Err(WaycapError::Encode(-22))
    ));

    let eof_failure = DrainEvent {
        pending: 0,
        submit_status: 0,
        eof_status: -5,
        trailing_packets: 2,
    };
    assert!(matches!(enc.drain(eof_failure), Err(WaycapError::Encode(-5))));

    // A stopped instance drains as a no-op even with failing statuses.
    enc.drop_processor();
    enc.drain(eof_failure).unwrap();
}

#[test]
fn thread_setup_and_teardown_succeed() {
    let mut enc = VaapiEncoder::new(640, 480, QualityPreset::Low, ok_hw(), ok_graph()).unwrap();
    enc.thread_setup().unwrap();
    let frame = no_dmabuf_frame();
    let ev = ProcessEvent {
        sink_frame: None,
        submit_status: 0,
        packet: None,
    };
    enc.process(frame, ev).unwrap();
    enc.thread_teardown().unwrap();
}
