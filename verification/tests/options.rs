use airplay_rs::backend::{default_video_backend, invalid_input, EnvVar, Platform, VideoBackend};
use airplay_rs::pipeline::VideoPipeline;
use airplay_rs::options::{env_input_mode, set_capture_path, set_replay_path, Environment, RunOptions, VideoInput};

const LINUX: Platform = Platform { macos: false, macos_gstreamer: false };
const MACOS: Platform = Platform { macos: true, macos_gstreamer: false };
const MACOS_GST: Platform = Platform { macos: true, macos_gstreamer: true };

fn args(list: &[&str]) -> Vec<String> {
    list.iter().map(|s| s.to_string()).collect()
}

fn no_env() -> Environment {
    Environment { video_backend: EnvVar::Unset, capture_path: EnvVar::Unset, replay_path: EnvVar::Unset }
}

fn message<T: std::fmt::Debug>(r: Result<T, airplay_rs::backend::InputError>) -> String {
    r.unwrap_err().message
}

#[test]
fn names_select_backends() {
    assert_eq!(VideoBackend::parse_name("auto").unwrap(), VideoBackend::Auto);
    for name in ["native", "macos", "avfoundation"] {
        assert_eq!(VideoBackend::parse_name(name).unwrap(), VideoBackend::Native);
    }
    for name in ["gstreamer", "gst"] {
        assert_eq!(VideoBackend::parse_name(name).unwrap(), VideoBackend::GStreamer);
    }
    assert_eq!(
        message(VideoBackend::parse_name("vulkan")),
        "unknown video backend 'vulkan'. Expected auto, native, or gstreamer"
    );
    assert_eq!(VideoBackend::default(), VideoBackend::Auto);
    assert_eq!(invalid_input("bad").message, "bad");
}

#[test]
fn auto_resolves_per_platform() {
    assert_eq!(default_video_backend(LINUX), VideoBackend::GStreamer);
    assert_eq!(default_video_backend(MACOS), VideoBackend::Native);
    assert_eq!(VideoBackend::Auto.resolved(LINUX), VideoBackend::GStreamer);
    assert_eq!(VideoBackend::Auto.resolved(MACOS), VideoBackend::Native);
    assert_eq!(VideoBackend::SideBySide.resolved(LINUX), VideoBackend::SideBySide);
}

#[test]
fn availability_follows_the_build() {
    assert!(VideoBackend::Auto.ensure_available(LINUX).is_ok());
    assert!(VideoBackend::Auto.ensure_available(MACOS).is_ok());
    assert_eq!(
        message(VideoBackend::Native.ensure_available(LINUX)),
        "native video backend is only available on macOS"
    );
    assert_eq!(
        message(VideoBackend::GStreamer.ensure_available(MACOS)),
        "GStreamer backend requested, but this binary was built without the 'macos-gstreamer' feature"
    );
    assert!(VideoBackend::GStreamer.ensure_available(MACOS_GST).is_ok());
    assert!(VideoBackend::SideBySide.ensure_available(MACOS_GST).is_ok());
    assert!(VideoBackend::SideBySide.ensure_available(LINUX).is_err());
}

#[test]
fn backend_from_env_and_args() {
    let env = EnvVar::Value("gst".to_string());
    assert_eq!(VideoBackend::from_env_and_args(&env, &args(&[]), LINUX).unwrap(), VideoBackend::GStreamer);
    assert_eq!(
        VideoBackend::from_env_and_args(&EnvVar::Unset, &args(&["--video-backend", "native", "--gstreamer-video"]), LINUX).unwrap(),
        VideoBackend::GStreamer
    );
    assert_eq!(
        VideoBackend::from_env_and_args(&EnvVar::Unset, &args(&["--video-backend=macos"]), MACOS).unwrap(),
        VideoBackend::Native
    );
    assert_eq!(
        message(VideoBackend::from_env_and_args(&EnvVar::Unset, &args(&["--video-backend"]), LINUX)),
        "--video-backend requires a value"
    );
    assert_eq!(
        message(VideoBackend::from_env_and_args(&EnvVar::Unset, &args(&["--fast"]), LINUX)),
        "unknown argument '--fast'. Use --video-backend auto|native|gstreamer"
    );
    assert_eq!(
        message(VideoBackend::from_env_and_args(&EnvVar::Unset, &args(&["--native-video"]), LINUX)),
        "native video backend is only available on macOS"
    );
    assert_eq!(
        message(VideoBackend::from_env_and_args(&EnvVar::Invalid("not unicode".to_string()), &args(&[]), LINUX)),
        "not unicode"
    );
}

#[test]
fn environment_selects_the_input() {
    let live = env_input_mode(&EnvVar::Unset, &EnvVar::Unset).unwrap();
    assert!(matches!(live, VideoInput::Live { capture_path: None }));
    let capture = env_input_mode(&EnvVar::Value("cap.bin".into()), &EnvVar::Unset).unwrap();
    assert_eq!(capture.capture_path(), Some("cap.bin"));
    let replay = env_input_mode(&EnvVar::Unset, &EnvVar::Value("old.bin".into())).unwrap();
    assert_eq!(replay.replay_path(), Some("old.bin"));
    assert_eq!(replay.capture_path(), None);
    assert_eq!(
        message(env_input_mode(&EnvVar::Value("a".into()), &EnvVar::Value("b".into()))),
        "AIRPLAY_RS_CAPTURE_PATH and AIRPLAY_RS_REPLAY_PATH cannot both be set"
    );
}

#[test]
fn capture_and_replay_exclude_each_other() {
    let mut options = RunOptions::default();
    set_capture_path(&mut options, "cap.bin".into()).unwrap();
    assert_eq!(
        message(set_replay_path(&mut options, "old.bin".into())),
        "--capture-video and --replay-video cannot be used together"
    );
    assert_eq!(options.input.capture_path(), Some("cap.bin"));
    let mut options = RunOptions::default();
    set_replay_path(&mut options, "old.bin".into()).unwrap();
    assert!(set_capture_path(&mut options, "cap.bin".into()).is_err());
    assert_eq!(options.input.replay_path(), Some("old.bin"));
}

#[test]
fn run_options_from_arguments() {
    let options = RunOptions::from_env_and_args(&no_env(), &args(&["--capture-video", "x.cap", "--dual-video"]), MACOS_GST).unwrap();
    assert_eq!(options.video_backend, VideoBackend::SideBySide);
    assert_eq!(options.input.capture_path(), Some("x.cap"));
    let options = RunOptions::from_env_and_args(&no_env(), &args(&["--replay=y.cap", "--native-video"]), MACOS).unwrap();
    assert_eq!(options.video_backend, VideoBackend::Native);
    assert_eq!(options.input.replay_path(), Some("y.cap"));
    let options = RunOptions::from_env_and_args(&no_env(), &args(&[]), LINUX).unwrap();
    assert_eq!(options.video_backend, VideoBackend::Auto);
    assert!(matches!(options.input, VideoInput::Live { capture_path: None }));
}

#[test]
fn last_backend_flag_wins() {
    let options = RunOptions::from_env_and_args(
        &no_env(),
        &args(&["--native-video", "--video-backend=auto", "--gstreamer-video"]),
        LINUX,
    )
    .unwrap();
    assert_eq!(options.video_backend, VideoBackend::GStreamer);
}

#[test]
fn run_options_refusals() {
    assert_eq!(
        message(RunOptions::from_env_and_args(&no_env(), &args(&["--capture=a", "--replay-video", "b"]), LINUX)),
        "--capture-video and --replay-video cannot be used together"
    );
    assert_eq!(
        message(RunOptions::from_env_and_args(&no_env(), &args(&["--replay"]), LINUX)),
        "--replay-video requires a path"
    );
    assert_eq!(
        message(RunOptions::from_env_and_args(&no_env(), &args(&["--capture"]), LINUX)),
        "--capture-video requires a path"
    );
    assert_eq!(
        message(RunOptions::from_env_and_args(&no_env(), &args(&["-x"]), LINUX)),
        "unknown argument '-x'. Use --video-backend auto|native|gstreamer|side-by-side, --capture-video PATH, or --replay-video PATH"
    );
    let env = Environment {
        video_backend: EnvVar::Value("dx".into()),
        capture_path: EnvVar::Unset,
        replay_path: EnvVar::Unset,
    };
    assert_eq!(
        message(RunOptions::from_env_and_args(&env, &args(&[]), LINUX)),
        "unknown video backend 'dx'. Expected auto, native, or gstreamer"
    );
    assert_eq!(
        message(RunOptions::from_env_and_args(&no_env(), &args(&["--side-by-side-video"]), LINUX)),
        "side-by-side video backend requires macOS and the 'macos-gstreamer' feature"
    );
}

#[test]
fn accepted_options_start_a_pipeline() {
    for (list, platform) in [
        (vec![], LINUX),
        (vec!["--native-video"], MACOS),
        (vec!["--dual-video"], MACOS_GST),
        (vec!["--video-backend", "gst"], MACOS_GST),
    ] {
        let options = RunOptions::from_env_and_args(&no_env(), &args(&list), platform).unwrap();
        assert!(VideoPipeline::start(options.video_backend, platform).is_ok());
    }
}
