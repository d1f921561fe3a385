use airplay_rs::backend::{Platform, VideoBackend};
use airplay_rs::capture::CapturePacketKind;
use airplay_rs::codec::Codec;
use airplay_rs::core_media::{check_sample_payload, cm_time, cm_time_invalid, core_media_check, sample_timing};
use airplay_rs::error::VideoError;
use airplay_rs::events::{loop_actions, LoopActions, LoopEvent, WindowInput};
use airplay_rs::pipeline::{
    capture_kind_for_packet, command_for_packet, init_gstreamer, packet_kind_for_capture, pipeline_description,
    plan_command, required_gstreamer_elements, CommandPlan, PacketKind, VideoCommand, VideoPipeline,
};
use airplay_rs::receiver::{advertised_features, receiver_features, receiver_video, Pairing, RAIRPLAY_DEFAULT_FEATURES};
use airplay_rs::AppEvent;

const LINUX: Platform = Platform { macos: false, macos_gstreamer: false };
const MACOS: Platform = Platform { macos: true, macos_gstreamer: false };
const MACOS_GST: Platform = Platform { macos: true, macos_gstreamer: true };

#[test]
fn pipeline_descriptions() {
    assert_eq!(
        pipeline_description(Codec::H264, LINUX),
        "appsrc name=airplay_src is-live=true format=time do-timestamp=true block=true ! h264parse disable-passthrough=true ! vtdec_hw ! video/x-raw(memory:GLMemory),format=NV12,texture-target=rectangle ! glcolorconvert ! glimagesink name=video_sink sync=false force-aspect-ratio=true"
    );
    assert_eq!(
        pipeline_description(Codec::H265, MACOS_GST),
        "appsrc name=airplay_src is-live=true format=time do-timestamp=true block=true ! h265parse disable-passthrough=true ! avdec_h265 ! videoconvert ! glimagesink name=video_sink sync=false force-aspect-ratio=true"
    );
}

#[test]
fn required_elements() {
    assert_eq!(
        required_gstreamer_elements(Codec::H265, LINUX),
        vec!["appsrc", "h264parse", "h265parse", "capsfilter", "glcolorconvert", "glimagesink", "vtdec_hw"]
    );
    assert_eq!(
        required_gstreamer_elements(Codec::H265, MACOS_GST),
        vec!["appsrc", "h264parse", "h265parse", "capsfilter", "glcolorconvert", "glimagesink", "avdec_h265", "videoconvert"]
    );
}

#[test]
fn gstreamer_readiness() {
    assert!(init_gstreamer(Codec::H264, LINUX, Ok(()), &vec![true; 7]).is_ok());
    let mut found = vec![true; 7];
    found[3] = false;
    found[5] = false;
    assert_eq!(
        init_gstreamer(Codec::H264, LINUX, Ok(()), &found).unwrap_err().message(),
        "required GStreamer element 'capsfilter' is missing"
    );
    assert_eq!(
        init_gstreamer(Codec::H264, LINUX, Err(VideoError::new("no gst")), &found).unwrap_err().message(),
        "no gst"
    );
}

#[test]
fn pipelines_follow_the_backend() {
    assert_eq!(VideoPipeline::start(VideoBackend::Auto, LINUX).unwrap(), VideoPipeline::GStreamer);
    assert_eq!(VideoPipeline::start(VideoBackend::Auto, MACOS).unwrap(), VideoPipeline::Native);
    assert_eq!(VideoPipeline::start(VideoBackend::SideBySide, MACOS_GST).unwrap(), VideoPipeline::SideBySide);
    assert_eq!(
        VideoPipeline::start(VideoBackend::Native, LINUX).unwrap_err().message(),
        "native video backend is only available on macOS"
    );
    assert!(VideoPipeline::start(VideoBackend::GStreamer, MACOS).is_err());
}

#[test]
fn packets_become_commands() {
    match command_for_packet(PacketKind::AvcC, vec![1, 2]) {
        Some(VideoCommand::Configure { codec, codec_data }) => {
            assert_eq!(codec, Codec::H264);
            assert_eq!(codec_data, vec![1, 2]);
        }
        other => panic!("unexpected {other:?}"),
    }
    assert!(matches!(
        command_for_packet(PacketKind::HvcC, vec![3]),
        Some(VideoCommand::Configure { codec: Codec::H265, .. })
    ));
    assert!(matches!(command_for_packet(PacketKind::Payload, vec![4]), Some(VideoCommand::Payload(p)) if p == vec![4]));
    assert!(command_for_packet(PacketKind::Plist, vec![5]).is_none());
    assert!(command_for_packet(PacketKind::Other(7), vec![5]).is_none());
}

#[test]
fn recorded_kinds_replay_as_received() {
    for kind in [PacketKind::AvcC, PacketKind::HvcC, PacketKind::Payload] {
        let recorded = capture_kind_for_packet(kind).unwrap();
        assert_eq!(packet_kind_for_capture(recorded), kind);
    }
    assert_eq!(capture_kind_for_packet(PacketKind::Plist), None);
    assert_eq!(packet_kind_for_capture(CapturePacketKind::HvcC), PacketKind::HvcC);
}

#[test]
fn commands_are_planned() {
    let configure = VideoCommand::Configure { codec: Codec::H264, codec_data: vec![] };
    assert_eq!(plan_command(&configure, true), CommandPlan::StartPipeline { stop_existing: true });
    assert_eq!(plan_command(&configure, false), CommandPlan::StartPipeline { stop_existing: false });
    let payload = VideoCommand::Payload(vec![1]);
    assert_eq!(plan_command(&payload, true), CommandPlan::PushPayload);
    assert_eq!(plan_command(&payload, false), CommandPlan::DropPayload);
}

#[test]
fn core_media_statuses() {
    assert!(core_media_check(0, "create CMBlockBuffer").is_ok());
    assert_eq!(
        core_media_check(-12710, "create CMBlockBuffer").unwrap_err().message(),
        "create CMBlockBuffer failed with OSStatus -12710"
    );
    assert_eq!(
        core_media_check(i32::MIN, "x").unwrap_err().message(),
        "x failed with OSStatus -2147483648"
    );
    assert_eq!(core_media_check(7, "y").unwrap_err().message(), "y failed with OSStatus 7");
    assert_eq!(check_sample_payload(&[]).unwrap_err().message(), "empty video payload");
    assert!(check_sample_payload(&[1]).is_ok());
}

#[test]
fn sample_times() {
    let t = cm_time(5, 60);
    assert_eq!((t.value, t.timescale, t.flags, t.epoch), (5, 60, 1, 0));
    let i = cm_time_invalid();
    assert_eq!((i.value, i.timescale, i.flags, i.epoch), (0, 0, 0, 0));
    let timing = sample_timing(42);
    assert_eq!(timing.duration, cm_time(1, 60));
    assert_eq!(timing.presentation_time_stamp, cm_time(42, 60));
    assert_eq!(timing.decode_time_stamp, cm_time_invalid());
}

#[test]
fn receiver_feature_bits() {
    let legacy: u64 = 1 << 27;
    let multi: u64 = 1 << 42;
    let homekit: u64 = 1 << 46;
    let defaults: u64 = 0b1 | legacy | (1 << 9);
    let features = receiver_features(defaults, Pairing::HomeKit);
    assert_eq!(features, 0b1 | (1 << 9) | multi | homekit);
    let features = receiver_features(defaults | homekit, Pairing::Legacy);
    assert_eq!(features, 0b1 | (1 << 9) | multi | legacy);
    let video = receiver_video();
    assert_eq!((video.width, video.height, video.fps, video.buf_size), (3840, 2160, 60, 1024 * 1024));
}

#[test]
fn advertised_features_start_from_the_crate_defaults() {
    assert_eq!(advertised_features(Pairing::HomeKit), 0x6700_401f_c2d3);
    assert_eq!(advertised_features(Pairing::Legacy), 0x2700_481f_c2d3);
    assert_eq!(
        advertised_features(Pairing::HomeKit),
        receiver_features(RAIRPLAY_DEFAULT_FEATURES, Pairing::HomeKit)
    );
}

#[test]
fn event_loop_actions() {
    let none = LoopActions { exit: false, drain_commands: false, request_redraw: false };
    assert_eq!(
        loop_actions(LoopEvent::Window(WindowInput::CloseRequested)),
        LoopActions { exit: true, ..none }
    );
    assert_eq!(
        loop_actions(LoopEvent::Window(WindowInput::Resized { width: 800, height: 600 })),
        LoopActions { drain_commands: true, request_redraw: true, ..none }
    );
    assert_eq!(loop_actions(LoopEvent::Window(WindowInput::Resized { width: 0, height: 600 })), none);
    assert_eq!(
        loop_actions(LoopEvent::Window(WindowInput::RedrawRequested)),
        LoopActions { drain_commands: true, ..none }
    );
    assert_eq!(loop_actions(LoopEvent::Window(WindowInput::Other)), none);
    assert_eq!(
        loop_actions(LoopEvent::User(AppEvent::VideoCommandQueued)),
        LoopActions { drain_commands: true, request_redraw: true, ..none }
    );
    assert_eq!(loop_actions(LoopEvent::AboutToWait), LoopActions { drain_commands: true, ..none });
}
