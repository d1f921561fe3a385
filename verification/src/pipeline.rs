use vstd::prelude::*;

use crate::backend::{spec_unavailable, Platform, VideoBackend};
use crate::capture::CapturePacketKind;
use crate::codec::Codec;
use crate::error::VideoError;

verus! {

/// The pipeline that shows the video: the platform's native decoder, a
/// GStreamer pipeline, or both next to each other.
#[derive(Debug, Clone, Copy, PartialEq, Eq, Structural)]
pub enum VideoPipeline {
    Native,
    GStreamer,
    SideBySide,
}

/// The pipeline that stands for a resolved backend.
pub open spec fn pipeline_of(backend: VideoBackend) -> VideoPipeline {
    match backend {
        VideoBackend::Native => VideoPipeline::Native,
        VideoBackend::SideBySide => VideoPipeline::SideBySide,
        _ => VideoPipeline::GStreamer,
    }
}

/// A resolved backend is never `Auto`.
pub proof fn law_resolved_backend_is_concrete(backend: VideoBackend, platform: Platform)
    ensures
        backend.spec_resolved(platform) != VideoBackend::Auto,
        backend != VideoBackend::Auto ==> backend.spec_resolved(platform) == backend,
{
}

/// Each backend gets its own pipeline: native for `Native`, GStreamer for
/// `GStreamer`, both side by side for `SideBySide`, and for `Auto` the native
/// pipeline on macOS and GStreamer elsewhere.
pub proof fn law_pipeline_follows_backend(platform: Platform)
    ensures
        pipeline_of(VideoBackend::Native.spec_resolved(platform)) == VideoPipeline::Native,
        pipeline_of(VideoBackend::GStreamer.spec_resolved(platform)) == VideoPipeline::GStreamer,
        pipeline_of(VideoBackend::SideBySide.spec_resolved(platform)) == VideoPipeline::SideBySide,
        platform.macos ==> pipeline_of(VideoBackend::Auto.spec_resolved(platform)) == VideoPipeline::Native,
        !platform.macos ==> pipeline_of(VideoBackend::Auto.spec_resolved(platform)) == VideoPipeline::GStreamer,
        spec_unavailable(VideoBackend::Auto, platform) is None,
{
}

impl VideoPipeline {
    /// Chooses the pipeline for `backend` (resolving `Auto` for the
    /// platform); a backend that this build lacks is refused.
    pub fn start(backend: VideoBackend, platform: Platform) -> (res: Result<VideoPipeline, VideoError>)
        ensures
            match spec_unavailable(backend, platform) {
                None => res == Ok::<VideoPipeline, VideoError>(pipeline_of(backend.spec_resolved(platform))),
                Some(msg) => res matches Err(e) && e.message@ == msg,
            },
    {
        match backend.resolved(platform) {
            VideoBackend::Native => if platform.macos {
                Ok(VideoPipeline::Native)
            } else {
                Err(VideoError::new("native video backend is only available on macOS"))
            },
            VideoBackend::GStreamer => if !platform.macos || platform.macos_gstreamer {
                Ok(VideoPipeline::GStreamer)
            } else {
                Err(
                    VideoError::new(
                        "GStreamer backend requested, but this binary was built without the 'macos-gstreamer' feature",
                    ),
                )
            },
            VideoBackend::SideBySide => if platform.macos && platform.macos_gstreamer {
                Ok(VideoPipeline::SideBySide)
            } else {
                Err(
                    VideoError::new(
                        "side-by-side video backend requires macOS and the 'macos-gstreamer' feature",
                    ),
                )
            },
            VideoBackend::Auto => Ok(VideoPipeline::GStreamer),
        }
    }
}

/// Whether H.265 is decoded in software on this platform (macOS has no
/// usable hardware path for it in GStreamer).
pub open spec fn software_h265(codec: Codec, platform: Platform) -> bool {
    platform.macos && codec == Codec::H265
}

/// The head of every GStreamer pipeline description: the source that
/// receives the stream.
pub open spec fn pipeline_head() -> Seq<char> {
    "appsrc name=airplay_src is-live=true format=time do-timestamp=true block=true ! "@
}

/// The decoder elements of the pipeline for `codec` on `platform`: the
/// software H.265 decoder on macOS, VideoToolbox hardware decoding into GL
/// memory otherwise.
pub open spec fn decoder_chain(codec: Codec, platform: Platform) -> Seq<char> {
    if software_h265(codec, platform) {
        "avdec_h265"@ + " ! videoconvert"@
    } else {
        "vtdec_hw"@ + " ! video/x-raw(memory:GLMemory),format=NV12,texture-target=rectangle ! glcolorconvert"@
    }
}

/// The parser element for `codec`.
pub open spec fn parser_of(codec: Codec) -> Seq<char> {
    match codec {
        Codec::H264 => "h264parse"@,
        Codec::H265 => "h265parse"@,
    }
}

/// The part of a description between the parser and the decoder chain.
pub open spec fn after_parser() -> Seq<char> {
    " disable-passthrough=true ! "@
}

/// The sink that ends every description.
pub open spec fn pipeline_tail() -> Seq<char> {
    " ! glimagesink name=video_sink sync=false force-aspect-ratio=true"@
}

/// The GStreamer pipeline description for `codec` on `platform`.
pub open spec fn spec_pipeline_description(codec: Codec, platform: Platform) -> Seq<char> {
    pipeline_head() + parser_of(codec) + after_parser() + decoder_chain(codec, platform) + pipeline_tail()
}

/// The GStreamer pipeline description for `codec` on `platform`.
pub fn pipeline_description(codec: Codec, platform: Platform) -> (d: String)
    ensures
        d@ == spec_pipeline_description(codec, platform),
{
    let parser = codec.parser_name();
    let mut description = String::from_str(
        "appsrc name=airplay_src is-live=true format=time do-timestamp=true block=true ! ",
    );
    description.append(parser);
    description.append(" disable-passthrough=true ! ");
    if platform.macos && codec == Codec::H265 {
        description.append("avdec_h265");
        description.append(" ! videoconvert");
    } else {
        description.append("vtdec_hw");
        description.append(" ! video/x-raw(memory:GLMemory),format=NV12,texture-target=rectangle ! glcolorconvert");
    }
    description.append(" ! glimagesink name=video_sink sync=false force-aspect-ratio=true");
    description
}

/// Whether `part` occurs somewhere in `text`.
pub open spec fn mentions(text: Seq<char>, part: Seq<char>) -> bool {
    exists|i: int| 0 <= i && i + part.len() <= text.len() && #[trigger] text.subrange(i, i + part.len()) == part
}

/// `decoder` occurs in the description right after the parser part.
proof fn lemma_description_mentions_decoder(codec: Codec, platform: Platform, decoder: Seq<char>, rest: Seq<char>)
    requires
        decoder_chain(codec, platform) == decoder + rest,
    ensures
        mentions(spec_pipeline_description(codec, platform), decoder),
{
    let pre = pipeline_head() + parser_of(codec) + after_parser();
    let d = spec_pipeline_description(codec, platform);
    assert(d =~= pre + decoder + (rest + pipeline_tail()));
    let i = pre.len() as int;
    assert(d.subrange(i, i + decoder.len()) =~= decoder);
}

/// Only H.265 on macOS is decoded in software: an H.264 description is the
/// same on every platform and decodes with VideoToolbox (`vtdec_hw`); an
/// H.265 description decodes with `avdec_h265` on macOS and with `vtdec_hw`
/// elsewhere, so the macOS and other H.265 descriptions differ.
pub proof fn law_pipeline_decoder_choice(p: Platform, q: Platform)
    ensures
        spec_pipeline_description(Codec::H264, p) == spec_pipeline_description(Codec::H264, q),
        mentions(spec_pipeline_description(Codec::H264, p), "vtdec_hw"@),
        p.macos == q.macos ==> spec_pipeline_description(Codec::H265, p) == spec_pipeline_description(Codec::H265, q),
        p.macos ==> mentions(spec_pipeline_description(Codec::H265, p), "avdec_h265"@),
        !p.macos ==> mentions(spec_pipeline_description(Codec::H265, p), "vtdec_hw"@),
        p.macos != q.macos ==> spec_pipeline_description(Codec::H265, p) != spec_pipeline_description(Codec::H265, q),
{
    let hw_rest = " ! video/x-raw(memory:GLMemory),format=NV12,texture-target=rectangle ! glcolorconvert"@;
    let sw_rest = " ! videoconvert"@;
    lemma_description_mentions_decoder(Codec::H264, p, "vtdec_hw"@, hw_rest);
    if p.macos {
        lemma_description_mentions_decoder(Codec::H265, p, "avdec_h265"@, sw_rest);
    } else {
        lemma_description_mentions_decoder(Codec::H265, p, "vtdec_hw"@, hw_rest);
    }
    if p.macos != q.macos {
        reveal_strlit("avdec_h265");
        reveal_strlit(" ! videoconvert");
        reveal_strlit("vtdec_hw");
        reveal_strlit(" ! video/x-raw(memory:GLMemory),format=NV12,texture-target=rectangle ! glcolorconvert");
        assert(decoder_chain(Codec::H265, p).len() != decoder_chain(Codec::H265, q).len());
        assert(spec_pipeline_description(Codec::H265, p).len() != spec_pipeline_description(Codec::H265, q).len());
    }
}

/// The GStreamer elements that the pipeline for `codec` on `platform` needs,
/// in the order they are looked up.
pub open spec fn spec_required_elements(codec: Codec, platform: Platform) -> Seq<Seq<char>> {
    let common = seq![
        "appsrc"@,
        "h264parse"@,
        "h265parse"@,
        "capsfilter"@,
        "glcolorconvert"@,
        "glimagesink"@,
    ];
    if software_h265(codec, platform) {
        common + seq!["avdec_h265"@, "videoconvert"@]
    } else {
        common + seq!["vtdec_hw"@]
    }
}

/// The elements looked up follow the decoder choice: H.264 needs
/// `vtdec_hw` on every platform (the same list everywhere); H.265 needs
/// `avdec_h265` and `videoconvert` on macOS and `vtdec_hw` elsewhere.
pub proof fn law_required_elements_follow_decoder(p: Platform, q: Platform)
    ensures
        spec_required_elements(Codec::H264, p) == spec_required_elements(Codec::H264, q),
        spec_required_elements(Codec::H264, p).contains("vtdec_hw"@),
        p.macos ==> spec_required_elements(Codec::H265, p).contains("avdec_h265"@)
            && spec_required_elements(Codec::H265, p).contains("videoconvert"@),
        !p.macos ==> spec_required_elements(Codec::H265, p).contains("vtdec_hw"@),
{
    assert(spec_required_elements(Codec::H264, p)[6] == "vtdec_hw"@);
    if p.macos {
        assert(spec_required_elements(Codec::H265, p)[6] == "avdec_h265"@);
        assert(spec_required_elements(Codec::H265, p)[7] == "videoconvert"@);
    } else {
        assert(spec_required_elements(Codec::H265, p)[6] == "vtdec_hw"@);
    }
}

/// The GStreamer elements that the pipeline for `codec` on `platform` needs.
pub fn required_gstreamer_elements(codec: Codec, platform: Platform) -> (names: Vec<&'static str>)
    ensures
        names@.len() == spec_required_elements(codec, platform).len(),
        forall|i: int| 0 <= i < names@.len() ==> #[trigger] names@[i]@ == spec_required_elements(codec, platform)[i],
{
    let mut names: Vec<&'static str> = Vec::new();
    names.push("appsrc");
    names.push("h264parse");
    names.push("h265parse");
    names.push("capsfilter");
    names.push("glcolorconvert");
    names.push("glimagesink");
    if platform.macos && codec == Codec::H265 {
        names.push("avdec_h265");
        names.push("videoconvert");
    } else {
        names.push("vtdec_hw");
    }
    names
}

/// The message for a missing GStreamer element.
pub open spec fn missing_element_message(name: Seq<char>) -> Seq<char> {
    "required GStreamer element '"@ + name + "' is missing"@
}

/// Decides whether GStreamer is ready for `codec`: the outcome of
/// initialising it, then whether each required element (in the order of
/// `required_gstreamer_elements`) was found. The first failure is reported.
pub fn init_gstreamer(codec: Codec, platform: Platform, init: Result<(), VideoError>, found: &Vec<bool>) -> (res: Result<(), VideoError>)
    requires
        found@.len() == spec_required_elements(codec, platform).len(),
    ensures
        init matches Err(e0) ==> (res matches Err(e) && e.message@ == e0.message@),
        init is Ok && (forall|i: int| 0 <= i < found@.len() ==> found@[i]) ==> res is Ok,
        init is Ok ==> forall|i: int|
            0 <= i < found@.len() && !#[trigger] found@[i] && (forall|j: int| 0 <= j < i ==> found@[j])
                ==> (res matches Err(e) && e.message@ == missing_element_message(spec_required_elements(codec, platform)[i])),
{
    match init {
        Err(e) => return Err(e),
        Ok(()) => {},
    }
    let names = required_gstreamer_elements(codec, platform);
    let mut i: usize = 0;
    while i < names.len()
        invariant
            init is Ok,
            names@.len() == found@.len(),
            found@.len() == spec_required_elements(codec, platform).len(),
            forall|k: int| 0 <= k < names@.len() ==> #[trigger] names@[k]@ == spec_required_elements(codec, platform)[k],
            i <= names@.len(),
            forall|j: int| 0 <= j < i ==> found@[j],
        decreases names@.len() - i,
    {
        if !found[i] {
            let mut message = String::from_str("required GStreamer element '");
            message.append(names[i]);
            message.append("' is missing");
            assert(names@[i as int]@ == spec_required_elements(codec, platform)[i as int]);
            return Err(VideoError::from_message(message));
        }
        i = i + 1;
    }
    Ok(())
}

/// A packet kind as the AirPlay receiver delivers it.
#[derive(Debug, Clone, Copy, PartialEq, Eq, Structural)]
pub enum PacketKind {
    AvcC,
    HvcC,
    Payload,
    Plist,
    Other(u16),
}

/// Work for the video thread: reconfigure the decoder, or decode a payload.
#[derive(Debug)]
pub enum VideoCommand {
    Configure { codec: Codec, codec_data: Vec<u8> },
    Payload(Vec<u8>),
}

/// A video command as plain values.
pub enum VideoCommandView {
    Configure { codec: Codec, codec_data: Seq<u8> },
    Payload(Seq<u8>),
}

impl View for VideoCommand {
    type V = VideoCommandView;

    open spec fn view(&self) -> VideoCommandView {
        match self {
            VideoCommand::Configure { codec, codec_data } => VideoCommandView::Configure {
                codec: *codec,
                codec_data: codec_data@,
            },
            VideoCommand::Payload(p) => VideoCommandView::Payload(p@),
        }
    }
}

/// The command that a received packet asks for.
pub open spec fn spec_command_for_packet(kind: PacketKind, payload: Seq<u8>) -> Option<VideoCommandView> {
    match kind {
        PacketKind::AvcC => Some(VideoCommandView::Configure { codec: Codec::H264, codec_data: payload }),
        PacketKind::HvcC => Some(VideoCommandView::Configure { codec: Codec::H265, codec_data: payload }),
        PacketKind::Payload => Some(VideoCommandView::Payload(payload)),
        _ => None,
    }
}

/// The bytes that a command carries.
pub open spec fn command_payload(command: VideoCommandView) -> Seq<u8> {
    match command {
        VideoCommandView::Configure { codec_data, .. } => codec_data,
        VideoCommandView::Payload(p) => p,
    }
}

/// Packets pass their bytes on unchanged: every command made from a packet
/// carries exactly the packet's payload. Configuration records (avcC, hvcC)
/// configure the decoder for H.264 and H.265 respectively, encoded payloads
/// are decoded, and only plist and unknown packets give no command.
pub proof fn law_commands_carry_the_packet(kind: PacketKind, payload: Seq<u8>)
    ensures
        spec_command_for_packet(kind, payload) matches Some(c) ==> command_payload(c) == payload,
        spec_command_for_packet(kind, payload) is None <==> (kind is Plist || kind is Other),
        kind is AvcC ==> (spec_command_for_packet(kind, payload) matches Some(VideoCommandView::Configure { codec, .. }) && codec == Codec::H264),
        kind is HvcC ==> (spec_command_for_packet(kind, payload) matches Some(VideoCommandView::Configure { codec, .. }) && codec == Codec::H265),
        kind is Payload ==> (spec_command_for_packet(kind, payload) matches Some(VideoCommandView::Payload(_))),
{
}

/// The command that a received packet asks for: an avcC record configures
/// H.264, an hvcC record configures H.265, a payload is decoded, and plist
/// or unknown packets are ignored.
pub fn command_for_packet(kind: PacketKind, payload: Vec<u8>) -> (cmd: Option<VideoCommand>)
    ensures
        match spec_command_for_packet(kind, payload@) {
            Some(c) => cmd matches Some(r) && r@ == c,
            None => cmd is None,
        },
{
    match kind {
        PacketKind::AvcC => Some(VideoCommand::Configure { codec: Codec::H264, codec_data: payload }),
        PacketKind::HvcC => Some(VideoCommand::Configure { codec: Codec::H265, codec_data: payload }),
        PacketKind::Payload => Some(VideoCommand::Payload(payload)),
        PacketKind::Plist | PacketKind::Other(_) => None,
    }
}

/// The capture kind under which a received packet is recorded, if it is
/// one that the video path uses.
pub fn capture_kind_for_packet(kind: PacketKind) -> (res: Option<CapturePacketKind>)
    ensures
        res == (match kind {
            PacketKind::AvcC => Some(CapturePacketKind::AvcC),
            PacketKind::HvcC => Some(CapturePacketKind::HvcC),
            PacketKind::Payload => Some(CapturePacketKind::Payload),
            _ => None::<CapturePacketKind>,
        }),
{
    match kind {
        PacketKind::AvcC => Some(CapturePacketKind::AvcC),
        PacketKind::HvcC => Some(CapturePacketKind::HvcC),
        PacketKind::Payload => Some(CapturePacketKind::Payload),
        PacketKind::Plist | PacketKind::Other(_) => None,
    }
}

/// The receiver packet kind that a recorded kind stands for.
pub fn packet_kind_for_capture(kind: CapturePacketKind) -> (res: PacketKind)
    ensures
        res == (match kind {
            CapturePacketKind::AvcC => PacketKind::AvcC,
            CapturePacketKind::HvcC => PacketKind::HvcC,
            CapturePacketKind::Payload => PacketKind::Payload,
        }),
{
    match kind {
        CapturePacketKind::AvcC => PacketKind::AvcC,
        CapturePacketKind::HvcC => PacketKind::HvcC,
        CapturePacketKind::Payload => PacketKind::Payload,
    }
}

/// Replaying a recorded packet asks for the same command as receiving it
/// did.
pub proof fn law_replay_matches_live(kind: PacketKind, payload: Seq<u8>)
    ensures
        match kind {
            PacketKind::AvcC | PacketKind::HvcC | PacketKind::Payload => {
                let recorded = match kind {
                    PacketKind::AvcC => CapturePacketKind::AvcC,
                    PacketKind::HvcC => CapturePacketKind::HvcC,
                    _ => CapturePacketKind::Payload,
                };
                let replayed = match recorded {
                    CapturePacketKind::AvcC => PacketKind::AvcC,
                    CapturePacketKind::HvcC => PacketKind::HvcC,
                    CapturePacketKind::Payload => PacketKind::Payload,
                };
                spec_command_for_packet(replayed, payload) == spec_command_for_packet(kind, payload)
            },
            _ => spec_command_for_packet(kind, payload) is None,
        },
{
}

/// What the video thread does with a command.
#[derive(Debug, Clone, Copy, PartialEq, Eq, Structural)]
pub enum CommandPlan {
    /// Build a new pipeline, after stopping the running one if any.
    StartPipeline { stop_existing: bool },
    /// Hand the payload to the running pipeline.
    PushPayload,
    /// Drop a payload that arrived before any configuration.
    DropPayload,
}

/// What the video thread does with `command` when a pipeline is, or is not,
/// running.
pub fn plan_command(command: &VideoCommand, has_pipeline: bool) -> (plan: CommandPlan)
    ensures
        plan == (match command@ {
            VideoCommandView::Configure { .. } => CommandPlan::StartPipeline { stop_existing: has_pipeline },
            VideoCommandView::Payload(_) => if has_pipeline {
                CommandPlan::PushPayload
            } else {
                CommandPlan::DropPayload
            },
        }),
{
    match command {
        VideoCommand::Configure { .. } => CommandPlan::StartPipeline { stop_existing: has_pipeline },
        VideoCommand::Payload(_) => if has_pipeline {
            CommandPlan::PushPayload
        } else {
            CommandPlan::DropPayload
        },
    }
}

} // verus!
