use vstd::prelude::*;

use crate::text::{spec_strip_prefix, str_eq, strip_prefix};

verus! {

/// The facts about the build that decide which video backends exist: whether
/// it targets macOS, and whether it was built with GStreamer support there.
#[derive(Debug, Clone, Copy, PartialEq, Eq, Structural)]
pub struct Platform {
    pub macos: bool,
    pub macos_gstreamer: bool,
}

/// The video backend that decodes and shows the mirrored stream.
#[derive(Debug, Clone, Copy, PartialEq, Eq, Structural)]
pub enum VideoBackend {
    Auto,
    Native,
    GStreamer,
    SideBySide,
}

impl Default for VideoBackend {
    fn default() -> (b: VideoBackend)
        ensures
            b == VideoBackend::Auto,
    {
        VideoBackend::Auto
    }
}

/// A refused option, environment value or argument, with its message.
#[derive(Debug)]
pub struct InputError {
    pub message: String,
}

/// Builds the error for an invalid input.
pub fn invalid_input(message: &str) -> (e: InputError)
    ensures
        e.message@ == message@,
{
    InputError { message: String::from_str(message) }
}

/// The state of an environment variable as the program found it.
#[derive(Debug)]
pub enum EnvVar {
    Unset,
    Value(String),
    /// Set, but unreadable; holds the message of the failure.
    Invalid(String),
}

/// An environment variable's state as plain values.
pub enum EnvVarView {
    Unset,
    Value(Seq<char>),
    Invalid(Seq<char>),
}

impl View for EnvVar {
    type V = EnvVarView;

    open spec fn view(&self) -> EnvVarView {
        match self {
            EnvVar::Unset => EnvVarView::Unset,
            EnvVar::Value(s) => EnvVarView::Value(s@),
            EnvVar::Invalid(s) => EnvVarView::Invalid(s@),
        }
    }
}

/// The backend used when none is requested.
pub open spec fn spec_default_video_backend(platform: Platform) -> VideoBackend {
    if platform.macos {
        VideoBackend::Native
    } else {
        VideoBackend::GStreamer
    }
}

/// The backend used when none is requested: the native one on macOS,
/// GStreamer elsewhere.
pub fn default_video_backend(platform: Platform) -> (b: VideoBackend)
    ensures
        b == spec_default_video_backend(platform),
{
    if platform.macos {
        VideoBackend::Native
    } else {
        VideoBackend::GStreamer
    }
}

/// The message refusing a backend name.
pub open spec fn unknown_backend_message(value: Seq<char>) -> Seq<char> {
    "unknown video backend '"@ + value + "'. Expected auto, native, or gstreamer"@
}

/// What a backend name stands for.
pub open spec fn spec_parse_name(value: Seq<char>) -> Result<VideoBackend, Seq<char>> {
    if value == "auto"@ {
        Ok(VideoBackend::Auto)
    } else if value == "native"@ || value == "macos"@ || value == "avfoundation"@ {
        Ok(VideoBackend::Native)
    } else if value == "gstreamer"@ || value == "gst"@ {
        Ok(VideoBackend::GStreamer)
    } else {
        Err(unknown_backend_message(value))
    }
}

/// The message of a backend that this build does not have, if it lacks it.
pub open spec fn spec_unavailable(backend: VideoBackend, platform: Platform) -> Option<Seq<char>> {
    match backend.spec_resolved(platform) {
        VideoBackend::Native => if platform.macos {
            None
        } else {
            Some("native video backend is only available on macOS"@)
        },
        VideoBackend::GStreamer => if !platform.macos || platform.macos_gstreamer {
            None
        } else {
            Some(
                "GStreamer backend requested, but this binary was built without the 'macos-gstreamer' feature"@,
            )
        },
        VideoBackend::SideBySide => if platform.macos && platform.macos_gstreamer {
            None
        } else {
            Some(
                "side-by-side video backend requires macOS and the 'macos-gstreamer' feature"@,
            )
        },
        VideoBackend::Auto => None,
    }
}

/// The backend a name, read from the environment, sets.
pub open spec fn spec_backend_from_env(env: EnvVarView) -> Result<VideoBackend, Seq<char>> {
    match env {
        EnvVarView::Unset => Ok(VideoBackend::Auto),
        EnvVarView::Value(value) => spec_parse_name(value),
        EnvVarView::Invalid(msg) => Err(msg),
    }
}

/// The message for an argument that the backend selection does not know.
pub open spec fn unknown_backend_argument_message(arg: Seq<char>) -> Seq<char> {
    "unknown argument '"@ + arg + "'. Use --video-backend auto|native|gstreamer"@
}

/// What one backend argument does: it fails, or it selects a backend after
/// using itself alone, or itself and the next argument.
pub enum BackendStep {
    Fail(Seq<char>),
    Select { backend: VideoBackend, takes_value: bool },
}

/// The step that selects the backend a name stands for.
pub open spec fn select_by_name(name: Seq<char>, takes_value: bool) -> BackendStep {
    match spec_parse_name(name) {
        Ok(b) => BackendStep::Select { backend: b, takes_value },
        Err(msg) => BackendStep::Fail(msg),
    }
}

/// What the argument `arg`, followed by `next` if there is one, does to the
/// selected backend.
pub open spec fn spec_backend_step(arg: Seq<char>, next: Option<Seq<char>>) -> BackendStep {
    if let Some(value) = spec_strip_prefix(arg, "--video-backend="@) {
        select_by_name(value, false)
    } else if arg == "--video-backend"@ {
        match next {
            None => BackendStep::Fail("--video-backend requires a value"@),
            Some(value) => select_by_name(value, true),
        }
    } else if arg == "--native-video"@ {
        BackendStep::Select { backend: VideoBackend::Native, takes_value: false }
    } else if arg == "--gstreamer-video"@ {
        BackendStep::Select { backend: VideoBackend::GStreamer, takes_value: false }
    } else {
        BackendStep::Fail(unknown_backend_argument_message(arg))
    }
}

/// The argument after the one at `i`, if any.
pub open spec fn next_arg(args: Seq<Seq<char>>, i: int) -> Option<Seq<char>> {
    if i + 1 < args.len() {
        Some(args[i + 1])
    } else {
        None
    }
}

/// The backend that the arguments from `i` on select, starting from
/// `backend`.
pub open spec fn spec_backend_args(args: Seq<Seq<char>>, i: int, backend: VideoBackend) -> Result<VideoBackend, Seq<char>>
    decreases args.len() - i,
{
    if i < 0 || i >= args.len() {
        Ok(backend)
    } else {
        match spec_backend_step(args[i], next_arg(args, i)) {
            BackendStep::Fail(msg) => Err(msg),
            BackendStep::Select { backend: b, takes_value } => spec_backend_args(
                args,
                i + if takes_value { 2int } else { 1int },
                b,
            ),
        }
    }
}

/// The backend that the environment and the arguments select, once checked
/// against what the build offers.
pub open spec fn spec_backend_from_env_and_args(env: EnvVarView, args: Seq<Seq<char>>, platform: Platform) -> Result<VideoBackend, Seq<char>> {
    match spec_backend_from_env(env) {
        Err(msg) => Err(msg),
        Ok(b) => match spec_backend_args(args, 0, b) {
            Err(msg) => Err(msg),
            Ok(selected) => match spec_unavailable(selected, platform) {
                Some(msg) => Err(msg),
                None => Ok(selected),
            },
        },
    }
}

/// Reading backend arguments that sit after `prefix` is reading them on
/// their own.
proof fn lemma_backend_args_shift(prefix: Seq<Seq<char>>, rest: Seq<Seq<char>>, j: int, backend: VideoBackend)
    requires
        0 <= j <= rest.len(),
    ensures
        spec_backend_args(prefix + rest, prefix.len() + j, backend) == spec_backend_args(rest, j, backend),
    decreases rest.len() - j,
{
    let all = prefix + rest;
    let i = prefix.len() + j;
    if j < rest.len() {
        assert(all[i] == rest[j]);
        if j + 1 < rest.len() {
            assert(all[i + 1] == rest[j + 1]);
        }
        assert(next_arg(all, i) == next_arg(rest, j));
        match spec_backend_step(rest[j], next_arg(rest, j)) {
            BackendStep::Fail(_) => {},
            BackendStep::Select { backend: b, takes_value } => {
                let k = if takes_value { 2int } else { 1int };
                if j + k <= rest.len() {
                    lemma_backend_args_shift(prefix, rest, j + k, b);
                }
            },
        }
    }
}

/// An argument that takes no value does the same whatever follows it.
proof fn lemma_backend_step_ignores_next(arg: Seq<char>, next: Option<Seq<char>>, other: Option<Seq<char>>)
    requires
        spec_backend_step(arg, next) matches BackendStep::Select { takes_value, .. } && !takes_value,
    ensures
        spec_backend_step(arg, other) == spec_backend_step(arg, next),
{
}

/// Reading `first + rest` from `i` within `first`, when `first` reads
/// without error, is reading `rest` from the backend `first` selected.
proof fn lemma_backend_args_append(first: Seq<Seq<char>>, rest: Seq<Seq<char>>, i: int, backend: VideoBackend)
    requires
        0 <= i <= first.len(),
        spec_backend_args(first, i, backend) is Ok,
    ensures
        spec_backend_args(first + rest, i, backend) == spec_backend_args(rest, 0, spec_backend_args(first, i, backend)->Ok_0),
    decreases first.len() - i,
{
    let all = first + rest;
    if i == first.len() {
        lemma_backend_args_shift(first, rest, 0, backend);
    } else {
        assert(all[i] == first[i]);
        if i + 1 < first.len() {
            assert(all[i + 1] == first[i + 1]);
        }
        match spec_backend_step(first[i], next_arg(first, i)) {
            BackendStep::Fail(_) => {},
            BackendStep::Select { backend: b, takes_value } => {
                if takes_value {
                    assert(next_arg(first, i) is Some);
                    assert(next_arg(all, i) == next_arg(first, i));
                } else {
                    lemma_backend_step_ignores_next(first[i], next_arg(first, i), next_arg(all, i));
                }
                let k = if takes_value { 2int } else { 1int };
                lemma_backend_args_append(first, rest, i + k, b);
            },
        }
    }
}

/// Arguments override the environment: when the arguments select backend `b`
/// whatever backend they start from, a readable and valid
/// `AIRPLAY_RS_VIDEO_BACKEND` does not change the outcome, which is `b` if
/// the build offers it.
pub proof fn law_arguments_override_environment(env: EnvVarView, args: Seq<Seq<char>>, b: VideoBackend, platform: Platform)
    requires
        forall|s: VideoBackend| #[trigger] spec_backend_args(args, 0, s) == Ok::<VideoBackend, Seq<char>>(b),
        spec_backend_from_env(env) is Ok,
    ensures
        spec_backend_from_env_and_args(env, args, platform) == match spec_unavailable(b, platform) {
            None => Ok::<VideoBackend, Seq<char>>(b),
            Some(msg) => Err(msg),
        },
{
    assert(spec_backend_args(args, 0, spec_backend_from_env(env)->Ok_0) == Ok::<VideoBackend, Seq<char>>(b));
}

/// A trailing `--gstreamer-video` selects GStreamer, whatever the variable
/// and the earlier arguments selected, when the build offers GStreamer and
/// the rest reads without error.
pub proof fn law_trailing_gstreamer_flag_wins(env: EnvVarView, args: Seq<Seq<char>>, platform: Platform)
    requires
        spec_backend_from_env(env) is Ok,
        spec_backend_args(args, 0, spec_backend_from_env(env)->Ok_0) is Ok,
        !platform.macos || platform.macos_gstreamer,
    ensures
        spec_backend_from_env_and_args(env, args.push("--gstreamer-video"@), platform) == Ok::<VideoBackend, Seq<char>>(
            VideoBackend::GStreamer,
        ),
{
    let flag = "--gstreamer-video"@;
    let tail = seq![flag];
    let start = spec_backend_from_env(env)->Ok_0;
    assert(args.push(flag) =~= args + tail);
    lemma_backend_args_append(args, tail, 0, start);
    let mid = spec_backend_args(args, 0, start)->Ok_0;
    reveal_strlit("--gstreamer-video");
    reveal_strlit("--video-backend=");
    reveal_strlit("--video-backend");
    reveal_strlit("--native-video");
    assert(flag.subrange(0, 16) != "--video-backend="@) by {
        assert(flag.subrange(0, 16)[2] != "--video-backend="@[2]);
    }
    assert(flag != "--video-backend"@) by {
        assert(flag.len() != "--video-backend"@.len());
    }
    assert(flag != "--native-video"@) by {
        assert(flag.len() != "--native-video"@.len());
    }
    assert(tail[0] == flag);
    assert(spec_backend_step(flag, next_arg(tail, 0)) == (BackendStep::Select { backend: VideoBackend::GStreamer, takes_value: false }));
    assert(tail.len() == 1);
    assert(spec_backend_args(tail, 1, VideoBackend::GStreamer) == Ok::<VideoBackend, Seq<char>>(VideoBackend::GStreamer));
    assert(spec_backend_args(tail, 0, mid) == Ok::<VideoBackend, Seq<char>>(VideoBackend::GStreamer));
}

impl VideoBackend {
    /// The backend itself, or for `Auto` the platform's default one.
    pub open spec fn spec_resolved(self, platform: Platform) -> VideoBackend {
        match self {
            VideoBackend::Auto => spec_default_video_backend(platform),
            other => other,
        }
    }

    /// The backend itself, or for `Auto` the platform's default one.
    pub fn resolved(self, platform: Platform) -> (b: VideoBackend)
        ensures
            b == self.spec_resolved(platform),
    {
        match self {
            VideoBackend::Auto => default_video_backend(platform),
            other => other,
        }
    }

    /// The backend a name stands for: `auto`; `native`, `macos` or
    /// `avfoundation`; `gstreamer` or `gst`.
    pub fn parse_name(value: &str) -> (res: Result<VideoBackend, InputError>)
        ensures
            match spec_parse_name(value@) {
                Ok(b) => res matches Ok(r) && r == b,
                Err(msg) => res matches Err(e) && e.message@ == msg,
            },
    {
        if str_eq(value, "auto") {
            Ok(VideoBackend::Auto)
        } else if str_eq(value, "native") || str_eq(value, "macos") || str_eq(value, "avfoundation") {
            Ok(VideoBackend::Native)
        } else if str_eq(value, "gstreamer") || str_eq(value, "gst") {
            Ok(VideoBackend::GStreamer)
        } else {
            let mut message = String::from_str("unknown video backend '");
            message.append(value);
            message.append("'. Expected auto, native, or gstreamer");
            Err(InputError { message })
        }
    }

    /// Checks that this build offers the (resolved) backend.
    pub fn ensure_available(self, platform: Platform) -> (res: Result<(), InputError>)
        ensures
            match spec_unavailable(self, platform) {
                None => res is Ok,
                Some(msg) => res matches Err(e) && e.message@ == msg,
            },
    {
        match self.resolved(platform) {
            VideoBackend::Native => if platform.macos {
                Ok(())
            } else {
                Err(invalid_input("native video backend is only available on macOS"))
            },
            VideoBackend::GStreamer => if !platform.macos || platform.macos_gstreamer {
                Ok(())
            } else {
                Err(
                    invalid_input(
                        "GStreamer backend requested, but this binary was built without the 'macos-gstreamer' feature",
                    ),
                )
            },
            VideoBackend::SideBySide => if platform.macos && platform.macos_gstreamer {
                Ok(())
            } else {
                Err(
                    invalid_input(
                        "side-by-side video backend requires macOS and the 'macos-gstreamer' feature",
                    ),
                )
            },
            VideoBackend::Auto => Ok(()),
        }
    }

    /// Selects the backend from the `AIRPLAY_RS_VIDEO_BACKEND` variable and the
    /// command line arguments (`--video-backend NAME`, `--video-backend=NAME`,
    /// `--native-video`, `--gstreamer-video`), later ones winning, and checks
    /// that the build offers it.
    pub fn from_env_and_args(env_backend: &EnvVar, args: &Vec<String>, platform: Platform) -> (res: Result<VideoBackend, InputError>)
        ensures
            match spec_backend_from_env_and_args(env_backend@, args.deep_view(), platform) {
                Ok(b) => res matches Ok(r) && r == b,
                Err(msg) => res matches Err(e) && e.message@ == msg,
            },
    {
        let mut backend = match env_backend {
            EnvVar::Unset => VideoBackend::Auto,
            EnvVar::Value(value) => match VideoBackend::parse_name(value.as_str()) {
                Ok(b) => b,
                Err(e) => return Err(e),
            },
            EnvVar::Invalid(message) => return Err(InputError { message: message.clone() }),
        };
        let ghost start = backend;
        let n = args.len();
        let mut i: usize = 0;
        while i < n
            invariant
                n == args@.len(),
                i <= n,
                spec_backend_from_env(env_backend@) == Ok::<VideoBackend, Seq<char>>(start),
                spec_backend_args(args.deep_view(), 0, start) == spec_backend_args(args.deep_view(), i as int, backend),
            decreases n - i,
        {
            let arg = args[i].as_str();
            assert(arg@ == args.deep_view()[i as int]);
            match strip_prefix(arg, "--video-backend=") {
                Some(value) => {
                    backend = match VideoBackend::parse_name(value) {
                        Ok(b) => b,
                        Err(e) => return Err(e),
                    };
                    i = i + 1;
                },
                None => if str_eq(arg, "--video-backend") {
                    if i + 1 >= n {
                        return Err(invalid_input("--video-backend requires a value"));
                    }
                    let value = args[i + 1].as_str();
                    assert(value@ == args.deep_view()[i + 1]);
                    backend = match VideoBackend::parse_name(value) {
                        Ok(b) => b,
                        Err(e) => return Err(e),
                    };
                    i = i + 2;
                } else if str_eq(arg, "--native-video") {
                    backend = VideoBackend::Native;
                    i = i + 1;
                } else if str_eq(arg, "--gstreamer-video") {
                    backend = VideoBackend::GStreamer;
                    i = i + 1;
                } else {
                    let mut message = String::from_str("unknown argument '");
                    message.append(arg);
                    message.append("'. Use --video-backend auto|native|gstreamer");
                    return Err(InputError { message });
                },
            }
        }
        match backend.ensure_available(platform) {
            Ok(()) => Ok(backend),
            Err(e) => Err(e),
        }
    }
}

} // verus!
