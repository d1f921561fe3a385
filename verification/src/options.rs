use vstd::prelude::*;

use crate::backend::{
    invalid_input, next_arg, spec_backend_from_env, spec_parse_name, spec_unavailable, EnvVar, EnvVarView,
    InputError, Platform, VideoBackend,
};
use crate::text::{spec_strip_prefix, str_eq, strip_prefix};

verus! {

/// Where the video comes from: a live AirPlay sender, whose packets may also
/// be written to a capture file, or the replay of a capture file.
#[derive(Debug, Clone)]
pub enum VideoInput {
    Live { capture_path: Option<String> },
    Replay { path: String },
}

/// The input as plain values.
pub enum VideoInputView {
    Live { capture_path: Option<Seq<char>> },
    Replay { path: Seq<char> },
}

impl View for VideoInput {
    type V = VideoInputView;

    open spec fn view(&self) -> VideoInputView {
        match self {
            VideoInput::Live { capture_path } => VideoInputView::Live {
                capture_path: match capture_path {
                    Some(p) => Some(p@),
                    None => None,
                },
            },
            VideoInput::Replay { path } => VideoInputView::Replay { path: path@ },
        }
    }
}

impl VideoInput {
    /// The file that live packets are recorded to, if any (never for a
    /// replay).
    pub fn capture_path(&self) -> (p: Option<&str>)
        ensures
            match self@ {
                VideoInputView::Live { capture_path: Some(c) } => p matches Some(r) && r@ == c,
                _ => p is None,
            },
    {
        match self {
            VideoInput::Live { capture_path: Some(c) } => Some(c.as_str()),
            _ => None,
        }
    }

    /// The capture file to replay, when the input is a replay; otherwise the
    /// video comes from a live AirPlay sender.
    pub fn replay_path(&self) -> (p: Option<&str>)
        ensures
            match self@ {
                VideoInputView::Replay { path } => p matches Some(r) && r@ == path,
                _ => p is None,
            },
    {
        match self {
            VideoInput::Replay { path } => Some(path.as_str()),
            _ => None,
        }
    }
}

/// How the program runs: the video backend and the video input.
#[derive(Debug, Clone)]
pub struct RunOptions {
    pub video_backend: VideoBackend,
    pub input: VideoInput,
}

/// The options as plain values.
pub struct RunOptionsView {
    pub video_backend: VideoBackend,
    pub input: VideoInputView,
}

impl View for RunOptions {
    type V = RunOptionsView;

    open spec fn view(&self) -> RunOptionsView {
        RunOptionsView { video_backend: self.video_backend, input: self.input@ }
    }
}

impl Default for RunOptions {
    fn default() -> (o: RunOptions)
        ensures
            o.video_backend == VideoBackend::Auto,
            o.input@ == (VideoInputView::Live { capture_path: None }),
    {
        RunOptions { video_backend: VideoBackend::Auto, input: VideoInput::Live { capture_path: None } }
    }
}

/// The environment variables that the options read:
/// `AIRPLAY_RS_VIDEO_BACKEND`, `AIRPLAY_RS_CAPTURE_PATH` and
/// `AIRPLAY_RS_REPLAY_PATH`.
#[derive(Debug)]
pub struct Environment {
    pub video_backend: EnvVar,
    pub capture_path: EnvVar,
    pub replay_path: EnvVar,
}

/// The message refusing a capture together with a replay.
pub open spec fn capture_and_replay_message() -> Seq<char> {
    "--capture-video and --replay-video cannot be used together"@
}

/// A path read from the environment, if set.
pub open spec fn spec_optional_env_path(var: EnvVarView) -> Result<Option<Seq<char>>, Seq<char>> {
    match var {
        EnvVarView::Unset => Ok(None),
        EnvVarView::Value(v) => Ok(Some(v)),
        EnvVarView::Invalid(msg) => Err(msg),
    }
}

/// The input that the capture and replay variables select.
pub open spec fn spec_env_input_mode(capture: EnvVarView, replay: EnvVarView) -> Result<VideoInputView, Seq<char>> {
    match spec_optional_env_path(capture) {
        Err(msg) => Err(msg),
        Ok(capture_path) => match spec_optional_env_path(replay) {
            Err(msg) => Err(msg),
            Ok(replay_path) => match (capture_path, replay_path) {
                (Some(_), Some(_)) => Err(
                    "AIRPLAY_RS_CAPTURE_PATH and AIRPLAY_RS_REPLAY_PATH cannot both be set"@,
                ),
                (Some(c), None) => Ok(VideoInputView::Live { capture_path: Some(c) }),
                (None, Some(p)) => Ok(VideoInputView::Replay { path: p }),
                (None, None) => Ok(VideoInputView::Live { capture_path: None }),
            },
        },
    }
}

/// The options after asking to capture to `path`.
pub open spec fn spec_set_capture(options: RunOptionsView, path: Seq<char>) -> Result<RunOptionsView, Seq<char>> {
    match options.input {
        VideoInputView::Replay { .. } => Err(capture_and_replay_message()),
        _ => Ok(RunOptionsView { input: VideoInputView::Live { capture_path: Some(path) }, ..options }),
    }
}

/// The options after asking to replay `path`.
pub open spec fn spec_set_replay(options: RunOptionsView, path: Seq<char>) -> Result<RunOptionsView, Seq<char>> {
    match options.input {
        VideoInputView::Live { capture_path: Some(_) } => Err(capture_and_replay_message()),
        _ => Ok(RunOptionsView { input: VideoInputView::Replay { path }, ..options }),
    }
}

/// A capture and a replay exclude each other, in either order.
pub proof fn law_capture_and_replay_exclusive(options: RunOptionsView, capture: Seq<char>, replay: Seq<char>)
    ensures
        spec_set_capture(options, capture) matches Ok(o) ==> spec_set_replay(o, replay) is Err,
        spec_set_replay(options, replay) matches Ok(o) ==> spec_set_capture(o, capture) is Err,
{
}

/// The options with another backend.
pub open spec fn with_backend(options: RunOptionsView, backend: VideoBackend) -> RunOptionsView {
    RunOptionsView { video_backend: backend, ..options }
}

/// The message for an argument the options do not know.
pub open spec fn unknown_option_message(arg: Seq<char>) -> Seq<char> {
    "unknown argument '"@ + arg
        + "'. Use --video-backend auto|native|gstreamer|side-by-side, --capture-video PATH, or --replay-video PATH"@
}

/// The path given inline to a capture flag, if `arg` is one.
pub open spec fn inline_capture(arg: Seq<char>) -> Option<Seq<char>> {
    match spec_strip_prefix(arg, "--capture-video="@) {
        Some(v) => Some(v),
        None => spec_strip_prefix(arg, "--capture="@),
    }
}

/// The path given inline to a replay flag, if `arg` is one.
pub open spec fn inline_replay(arg: Seq<char>) -> Option<Seq<char>> {
    match spec_strip_prefix(arg, "--replay-video="@) {
        Some(v) => Some(v),
        None => spec_strip_prefix(arg, "--replay="@),
    }
}

/// What one argument does to the options: it fails, or it leaves new options
/// after using itself alone, or itself and the next argument.
pub enum ArgStep {
    Fail(Seq<char>),
    Apply { options: RunOptionsView, takes_value: bool },
}

/// The options after a flag that needs no value.
pub open spec fn apply(options: RunOptionsView) -> ArgStep {
    ArgStep::Apply { options, takes_value: false }
}

/// The outcome of a step that may fail.
pub open spec fn apply_result(res: Result<RunOptionsView, Seq<char>>, takes_value: bool) -> ArgStep {
    match res {
        Ok(options) => ArgStep::Apply { options, takes_value },
        Err(msg) => ArgStep::Fail(msg),
    }
}

/// The options after setting the backend to the one `name` stands for.
pub open spec fn set_backend_by_name(options: RunOptionsView, name: Seq<char>) -> Result<RunOptionsView, Seq<char>> {
    match spec_parse_name(name) {
        Ok(b) => Ok(with_backend(options, b)),
        Err(msg) => Err(msg),
    }
}

/// What the argument `arg`, followed by `next` if there is one, does to
/// `options`.
pub open spec fn spec_option_step(arg: Seq<char>, next: Option<Seq<char>>, options: RunOptionsView) -> ArgStep {
    if let Some(value) = spec_strip_prefix(arg, "--video-backend="@) {
        apply_result(set_backend_by_name(options, value), false)
    } else if arg == "--video-backend"@ {
        match next {
            None => ArgStep::Fail("--video-backend requires a value"@),
            Some(value) => apply_result(set_backend_by_name(options, value), true),
        }
    } else if arg == "--native-video"@ {
        apply(with_backend(options, VideoBackend::Native))
    } else if arg == "--gstreamer-video"@ {
        apply(with_backend(options, VideoBackend::GStreamer))
    } else if arg == "--side-by-side-video"@ || arg == "--dual-video"@ {
        apply(with_backend(options, VideoBackend::SideBySide))
    } else if let Some(path) = inline_capture(arg) {
        apply_result(spec_set_capture(options, path), false)
    } else if arg == "--capture-video"@ || arg == "--capture"@ {
        match next {
            None => ArgStep::Fail("--capture-video requires a path"@),
            Some(path) => apply_result(spec_set_capture(options, path), true),
        }
    } else if let Some(path) = inline_replay(arg) {
        apply_result(spec_set_replay(options, path), false)
    } else if arg == "--replay-video"@ || arg == "--replay"@ {
        match next {
            None => ArgStep::Fail("--replay-video requires a path"@),
            Some(path) => apply_result(spec_set_replay(options, path), true),
        }
    } else {
        ArgStep::Fail(unknown_option_message(arg))
    }
}

/// The options that the arguments from `i` on give, starting from `options`.
pub open spec fn spec_option_args(args: Seq<Seq<char>>, i: int, options: RunOptionsView) -> Result<RunOptionsView, Seq<char>>
    decreases args.len() - i,
{
    if i < 0 || i >= args.len() {
        Ok(options)
    } else {
        match spec_option_step(args[i], next_arg(args, i), options) {
            ArgStep::Fail(msg) => Err(msg),
            ArgStep::Apply { options: o, takes_value } => spec_option_args(
                args,
                i + if takes_value { 2int } else { 1int },
                o,
            ),
        }
    }
}

/// The options that the environment and the arguments give, once the backend
/// is checked against what the build offers.
pub open spec fn spec_run_options(env_backend: EnvVarView, env_capture: EnvVarView, env_replay: EnvVarView, args: Seq<Seq<char>>, platform: Platform) -> Result<RunOptionsView, Seq<char>> {
    match spec_backend_from_env(env_backend) {
        Err(msg) => Err(msg),
        Ok(backend) => match spec_env_input_mode(env_capture, env_replay) {
            Err(msg) => Err(msg),
            Ok(input) => match spec_option_args(args, 0, RunOptionsView { video_backend: backend, input }) {
                Err(msg) => Err(msg),
                Ok(options) => match spec_unavailable(options.video_backend, platform) {
                    Some(msg) => Err(msg),
                    None => Ok(options),
                },
            },
        },
    }
}

/// Options that were accepted name a backend that the build offers, so
/// `VideoPipeline::start` chooses a pipeline for them instead of failing.
pub proof fn law_accepted_options_have_an_available_backend(env_backend: EnvVarView, env_capture: EnvVarView, env_replay: EnvVarView, args: Seq<Seq<char>>, platform: Platform)
    ensures
        spec_run_options(env_backend, env_capture, env_replay, args, platform) matches Ok(o)
            ==> spec_unavailable(o.video_backend, platform) is None,
{
}

/// Without arguments, the input is what the environment selects:
/// `AIRPLAY_RS_CAPTURE_PATH` alone receives live and records to that path,
/// `AIRPLAY_RS_REPLAY_PATH` alone replays that path, neither receives live
/// without recording, and both together are refused; an unset backend
/// variable leaves the backend on `Auto`, which every build offers.
pub proof fn law_environment_selects_input(path: Seq<char>, platform: Platform)
    ensures
        spec_run_options(EnvVarView::Unset, EnvVarView::Value(path), EnvVarView::Unset, Seq::empty(), platform)
            == Ok::<RunOptionsView, Seq<char>>(RunOptionsView {
                video_backend: VideoBackend::Auto,
                input: VideoInputView::Live { capture_path: Some(path) },
            }),
        spec_run_options(EnvVarView::Unset, EnvVarView::Unset, EnvVarView::Value(path), Seq::empty(), platform)
            == Ok::<RunOptionsView, Seq<char>>(RunOptionsView {
                video_backend: VideoBackend::Auto,
                input: VideoInputView::Replay { path },
            }),
        spec_run_options(EnvVarView::Unset, EnvVarView::Unset, EnvVarView::Unset, Seq::empty(), platform)
            == Ok::<RunOptionsView, Seq<char>>(RunOptionsView {
                video_backend: VideoBackend::Auto,
                input: VideoInputView::Live { capture_path: None },
            }),
        spec_run_options(EnvVarView::Unset, EnvVarView::Value(path), EnvVarView::Value(path), Seq::empty(), platform) is Err,
{
}

/// Arguments override the environment in the run options too: a trailing
/// `--gstreamer-video` selects GStreamer whatever `AIRPLAY_RS_VIDEO_BACKEND`
/// and the earlier arguments said, and keeps the input they selected, when
/// the build offers GStreamer and the rest is accepted.
pub proof fn law_run_options_trailing_gstreamer_flag_wins(env_backend: EnvVarView, env_capture: EnvVarView, env_replay: EnvVarView, args: Seq<Seq<char>>, platform: Platform)
    requires
        spec_run_options(env_backend, env_capture, env_replay, args, platform) is Ok,
        !platform.macos || platform.macos_gstreamer,
    ensures
        spec_run_options(env_backend, env_capture, env_replay, args.push("--gstreamer-video"@), platform) matches Ok(o)
            && o.video_backend == VideoBackend::GStreamer
            && o.input == spec_run_options(env_backend, env_capture, env_replay, args, platform)->Ok_0.input,
{
    let start = RunOptionsView {
        video_backend: spec_backend_from_env(env_backend)->Ok_0,
        input: spec_env_input_mode(env_capture, env_replay)->Ok_0,
    };
    law_last_backend_flag_wins(args, start);
}

/// Without arguments, accepted options carry exactly the input that the
/// capture and replay variables select.
pub proof fn law_no_arguments_keep_environment_input(env_backend: EnvVarView, env_capture: EnvVarView, env_replay: EnvVarView, platform: Platform)
    ensures
        spec_run_options(env_backend, env_capture, env_replay, Seq::empty(), platform) matches Ok(o)
            ==> spec_env_input_mode(env_capture, env_replay) == Ok::<VideoInputView, Seq<char>>(o.input),
{
}

/// A path read from an environment variable, if it is set.
pub fn optional_env_path(var: &EnvVar) -> (res: Result<Option<String>, InputError>)
    ensures
        match spec_optional_env_path(var@) {
            Ok(Some(p)) => res matches Ok(Some(r)) && r@ == p,
            Ok(None) => res matches Ok(None),
            Err(msg) => res matches Err(e) && e.message@ == msg,
        },
{
    match var {
        EnvVar::Unset => Ok(None),
        EnvVar::Value(v) => Ok(Some(v.clone())),
        EnvVar::Invalid(message) => Err(InputError { message: message.clone() }),
    }
}

/// The input that `AIRPLAY_RS_CAPTURE_PATH` and `AIRPLAY_RS_REPLAY_PATH`
/// select; they cannot both be set.
pub fn env_input_mode(capture: &EnvVar, replay: &EnvVar) -> (res: Result<VideoInput, InputError>)
    ensures
        match spec_env_input_mode(capture@, replay@) {
            Ok(input) => res matches Ok(r) && r@ == input,
            Err(msg) => res matches Err(e) && e.message@ == msg,
        },
{
    let capture_path = match optional_env_path(capture) {
        Ok(p) => p,
        Err(e) => return Err(e),
    };
    let replay_path = match optional_env_path(replay) {
        Ok(p) => p,
        Err(e) => return Err(e),
    };
    match (capture_path, replay_path) {
        (Some(_), Some(_)) => Err(
            invalid_input("AIRPLAY_RS_CAPTURE_PATH and AIRPLAY_RS_REPLAY_PATH cannot both be set"),
        ),
        (Some(capture_path), None) => Ok(VideoInput::Live { capture_path: Some(capture_path) }),
        (None, Some(path)) => Ok(VideoInput::Replay { path }),
        (None, None) => Ok(VideoInput::Live { capture_path: None }),
    }
}

/// Asks to capture the live video to `path`; refused when a replay was asked.
pub fn set_capture_path(options: &mut RunOptions, path: String) -> (res: Result<(), InputError>)
    ensures
        match spec_set_capture(old(options)@, path@) {
            Ok(o) => res is Ok && final(options)@ == o,
            Err(msg) => res matches Err(e) && e.message@ == msg && final(options)@ == old(options)@,
        },
{
    if let VideoInput::Replay { .. } = options.input {
        return Err(invalid_input("--capture-video and --replay-video cannot be used together"));
    }
    options.input = VideoInput::Live { capture_path: Some(path) };
    Ok(())
}

/// Asks to replay `path`; refused when a capture was asked.
pub fn set_replay_path(options: &mut RunOptions, path: String) -> (res: Result<(), InputError>)
    ensures
        match spec_set_replay(old(options)@, path@) {
            Ok(o) => res is Ok && final(options)@ == o,
            Err(msg) => res matches Err(e) && e.message@ == msg && final(options)@ == old(options)@,
        },
{
    if let VideoInput::Live { capture_path: Some(_) } = options.input {
        return Err(invalid_input("--capture-video and --replay-video cannot be used together"));
    }
    options.input = VideoInput::Replay { path };
    Ok(())
}

/// The inline capture path of `arg` (`--capture-video=PATH` or
/// `--capture=PATH`).
fn strip_capture<'a>(arg: &'a str) -> (res: Option<&'a str>)
    ensures
        match inline_capture(arg@) {
            Some(p) => res matches Some(r) && r@ == p,
            None => res is None,
        },
{
    match strip_prefix(arg, "--capture-video=") {
        Some(v) => Some(v),
        None => strip_prefix(arg, "--capture="),
    }
}

/// The inline replay path of `arg` (`--replay-video=PATH` or
/// `--replay=PATH`).
fn strip_replay<'a>(arg: &'a str) -> (res: Option<&'a str>)
    ensures
        match inline_replay(arg@) {
            Some(p) => res matches Some(r) && r@ == p,
            None => res is None,
        },
{
    match strip_prefix(arg, "--replay-video=") {
        Some(v) => Some(v),
        None => strip_prefix(arg, "--replay="),
    }
}

/// Reading arguments that sit after `prefix` is reading them on their own.
proof fn lemma_option_args_shift(prefix: Seq<Seq<char>>, rest: Seq<Seq<char>>, j: int, options: RunOptionsView)
    requires
        0 <= j <= rest.len(),
    ensures
        spec_option_args(prefix + rest, prefix.len() + j, options) == spec_option_args(rest, j, options),
    decreases rest.len() - j,
{
    let all = prefix + rest;
    let i = prefix.len() + j;
    if j < rest.len() {
        assert(all[i] == rest[j]);
        if j + 1 < rest.len() {
            assert(all[i + 1] == rest[j + 1]);
        }
        assert(next_arg(all, i) == next_arg(rest, j));
        match spec_option_step(rest[j], next_arg(rest, j), options) {
            ArgStep::Fail(_) => {},
            ArgStep::Apply { options: o, takes_value } => {
                let k = if takes_value { 2int } else { 1int };
                if j + k <= rest.len() {
                    lemma_option_args_shift(prefix, rest, j + k, o);
                }
            },
        }
    }
}

/// A flag that takes no value does the same whatever follows it.
proof fn lemma_step_ignores_next(arg: Seq<char>, next: Option<Seq<char>>, other: Option<Seq<char>>, options: RunOptionsView)
    requires
        spec_option_step(arg, next, options) matches ArgStep::Apply { takes_value, .. } && !takes_value,
    ensures
        spec_option_step(arg, other, options) == spec_option_step(arg, next, options),
{
}

/// Reading `first + rest` from `i` within `first`, when `first` reads
/// without error, is reading `rest` from what `first` gave.
proof fn lemma_option_args_append(first: Seq<Seq<char>>, rest: Seq<Seq<char>>, i: int, options: RunOptionsView)
    requires
        0 <= i <= first.len(),
        spec_option_args(first, i, options) is Ok,
    ensures
        spec_option_args(first + rest, i, options) == spec_option_args(rest, 0, spec_option_args(first, i, options)->Ok_0),
    decreases first.len() - i,
{
    let all = first + rest;
    if i == first.len() {
        lemma_option_args_shift(first, rest, 0, options);
    } else {
        assert(all[i] == first[i]);
        if i + 1 < first.len() {
            assert(all[i + 1] == first[i + 1]);
        }
        match spec_option_step(first[i], next_arg(first, i), options) {
            ArgStep::Fail(_) => {},
            ArgStep::Apply { options: o, takes_value } => {
                if takes_value {
                    assert(next_arg(first, i) is Some);
                    assert(next_arg(all, i) == next_arg(first, i));
                } else {
                    lemma_step_ignores_next(first[i], next_arg(first, i), next_arg(all, i), options);
                }
                let k = if takes_value { 2int } else { 1int };
                lemma_option_args_append(first, rest, i + k, o);
            },
        }
    }
}

/// Arguments are read from left to right: when the first part of a command
/// line reads without error, the whole command line reads as its second part
/// applied to the options the first part gave.
pub proof fn law_option_args_compose(first: Seq<Seq<char>>, rest: Seq<Seq<char>>, options: RunOptionsView)
    requires
        spec_option_args(first, 0, options) is Ok,
    ensures
        spec_option_args(first + rest, 0, options) == spec_option_args(rest, 0, spec_option_args(first, 0, options)->Ok_0),
{
    lemma_option_args_append(first, rest, 0, options);
}

/// The last backend flag wins: a command line that reads without error,
/// followed by `--gstreamer-video`, selects GStreamer and keeps the input.
pub proof fn law_last_backend_flag_wins(args: Seq<Seq<char>>, options: RunOptionsView)
    requires
        spec_option_args(args, 0, options) is Ok,
    ensures
        spec_option_args(args.push("--gstreamer-video"@), 0, options) == Ok::<RunOptionsView, Seq<char>>(
            with_backend(spec_option_args(args, 0, options)->Ok_0, VideoBackend::GStreamer),
        ),
{
    let flag = "--gstreamer-video"@;
    let tail = seq![flag];
    assert(args.push(flag) =~= args + tail);
    law_option_args_compose(args, tail, options);
    let o = spec_option_args(args, 0, options)->Ok_0;
    reveal_strlit("--gstreamer-video");
    reveal_strlit("--video-backend=");
    reveal_strlit("--video-backend");
    reveal_strlit("--native-video");
    assert(flag.subrange(0, 16) != "--video-backend="@) by {
        assert(flag.subrange(0, 16)[2] != "--video-backend="@[2]);
    }
    assert(flag != "--video-backend"@) by {
        assert(flag.len() != "--video-backend"@.len());
    }
    assert(flag != "--native-video"@) by {
        assert(flag.len() != "--native-video"@.len());
    }
    assert(tail[0] == flag);
    assert(spec_option_args(tail, 1, with_backend(o, VideoBackend::GStreamer)) == Ok::<RunOptionsView, Seq<char>>(
        with_backend(o, VideoBackend::GStreamer),
    ));
}

impl RunOptions {
    /// Reads the options from the environment variables and the command line
    /// arguments: `--video-backend NAME` (or `=NAME`), `--native-video`,
    /// `--gstreamer-video`, `--side-by-side-video` (or `--dual-video`),
    /// `--capture-video PATH` (or `--capture`, or `=PATH`) and
    /// `--replay-video PATH` (or `--replay`, or `=PATH`); later arguments
    /// win, a capture and a replay exclude each other, and the backend must
    /// be one that the build offers.
    pub fn from_env_and_args(env: &Environment, args: &Vec<String>, platform: Platform) -> (res: Result<RunOptions, InputError>)
        ensures
            match spec_run_options(env.video_backend@, env.capture_path@, env.replay_path@, args.deep_view(), platform) {
                Ok(o) => res matches Ok(r) && r@ == o,
                Err(msg) => res matches Err(e) && e.message@ == msg,
            },
    {
        let video_backend = match &env.video_backend {
            EnvVar::Unset => VideoBackend::Auto,
            EnvVar::Value(value) => match VideoBackend::parse_name(value.as_str()) {
                Ok(b) => b,
                Err(e) => return Err(e),
            },
            EnvVar::Invalid(message) => return Err(InputError { message: message.clone() }),
        };
        let input = match env_input_mode(&env.capture_path, &env.replay_path) {
            Ok(input) => input,
            Err(e) => return Err(e),
        };
        let mut options = RunOptions { video_backend, input };
        let ghost start = options@;
        let ghost all = args.deep_view();
        let n = args.len();
        let mut i: usize = 0;
        while i < n
            invariant
                n == args@.len(),
                all == args.deep_view(),
                i <= n,
                spec_run_options(env.video_backend@, env.capture_path@, env.replay_path@, all, platform)
                    == match spec_option_args(all, 0, start) {
                        Err(msg) => Err(msg),
                        Ok(o) => match spec_unavailable(o.video_backend, platform) {
                            Some(msg) => Err(msg),
                            None => Ok(o),
                        },
                    },
                spec_option_args(all, 0, start) == spec_option_args(all, i as int, options@),
            decreases n - i,
        {
            let arg = args[i].as_str();
            assert(arg@ == all[i as int]);
            if let Some(value) = strip_prefix(arg, "--video-backend=") {
                options.video_backend = match VideoBackend::parse_name(value) {
                    Ok(b) => b,
                    Err(e) => return Err(e),
                };
                i = i + 1;
            } else if str_eq(arg, "--video-backend") {
                if i + 1 >= n {
                    return Err(invalid_input("--video-backend requires a value"));
                }
                let value = args[i + 1].as_str();
                assert(value@ == all[i + 1]);
                options.video_backend = match VideoBackend::parse_name(value) {
                    Ok(b) => b,
                    Err(e) => return Err(e),
                };
                i = i + 2;
            } else if str_eq(arg, "--native-video") {
                options.video_backend = VideoBackend::Native;
                i = i + 1;
            } else if str_eq(arg, "--gstreamer-video") {
                options.video_backend = VideoBackend::GStreamer;
                i = i + 1;
            } else if str_eq(arg, "--side-by-side-video") || str_eq(arg, "--dual-video") {
                options.video_backend = VideoBackend::SideBySide;
                i = i + 1;
            } else if let Some(value) = strip_capture(arg) {
                match set_capture_path(&mut options, String::from_str(value)) {
                    Ok(()) => {},
                    Err(e) => return Err(e),
                }
                i = i + 1;
            } else if str_eq(arg, "--capture-video") || str_eq(arg, "--capture") {
                if i + 1 >= n {
                    return Err(invalid_input("--capture-video requires a path"));
                }
                let value = args[i + 1].as_str();
                assert(value@ == all[i + 1]);
                match set_capture_path(&mut options, String::from_str(value)) {
                    Ok(()) => {},
                    Err(e) => return Err(e),
                }
                i = i + 2;
            } else if let Some(value) = strip_replay(arg) {
                match set_replay_path(&mut options, String::from_str(value)) {
                    Ok(()) => {},
                    Err(e) => return Err(e),
                }
                i = i + 1;
            } else if str_eq(arg, "--replay-video") || str_eq(arg, "--replay") {
                if i + 1 >= n {
                    return Err(invalid_input("--replay-video requires a path"));
                }
                let value = args[i + 1].as_str();
                assert(value@ == all[i + 1]);
                match set_replay_path(&mut options, String::from_str(value)) {
                    Ok(()) => {},
                    Err(e) => return Err(e),
                }
                i = i + 2;
            } else {
                let mut message = String::from_str("unknown argument '");
                message.append(arg);
                message.append(
                    "'. Use --video-backend auto|native|gstreamer|side-by-side, --capture-video PATH, or --replay-video PATH",
                );
                return Err(InputError { message });
            }
        }
        match options.video_backend.ensure_available(platform) {
            Ok(()) => Ok(options),
            Err(e) => Err(e),
        }
    }
}

} // verus!
