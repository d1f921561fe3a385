use vstd::prelude::*;
use vstd::slice::slice_subrange;

use crate::bytes::{be_u32_at, read_be_u32};
use crate::error::VideoError;
use crate::parameter_sets::{spec_from_avcc, spec_from_hvcc, ParameterSets};

verus! {

/// The video codecs an AirPlay sender may announce.
#[derive(Debug, Clone, Copy, PartialEq, Eq, Structural)]
pub enum Codec {
    H264,
    H265,
}

/// The four type bytes of the MP4 box that holds an HEVC configuration
/// record (`hvcC`).
pub const HVCC_BOX_TYPE: [u8; 4] = [0x68u8, 0x76u8, 0x63u8, 0x43u8];

/// A box of type `box_type` starts at `offset` of `payload`, declares a size
/// of at least its 8-byte header, and ends within the payload.
pub open spec fn is_box_at(payload: Seq<u8>, box_type: Seq<u8>, offset: int) -> bool {
    &&& 0 <= offset
    &&& offset + 8 <= payload.len()
    &&& payload.subrange(offset + 4, offset + 8) == box_type
    &&& be_u32_at(payload, offset) >= 8
    &&& offset + be_u32_at(payload, offset) <= payload.len()
}

/// The box header at `offset` names `box_type` and a size of at least 8,
/// but the box would end beyond what an index can address.
pub open spec fn box_end_overflows(payload: Seq<u8>, box_type: Seq<u8>, offset: int) -> bool {
    &&& payload.subrange(offset + 4, offset + 8) == box_type
    &&& be_u32_at(payload, offset) >= 8
    &&& offset + be_u32_at(payload, offset) > usize::MAX
}

/// Scans `payload` from `offset` on for the first well-formed box of type
/// `box_type` and gives its content (what follows the 8-byte header).
pub open spec fn spec_box_search(payload: Seq<u8>, box_type: Seq<u8>, offset: int) -> Option<Seq<u8>>
    decreases payload.len() - offset,
{
    if offset < 0 || offset + 8 > payload.len() {
        None
    } else if box_end_overflows(payload, box_type, offset) {
        None
    } else if is_box_at(payload, box_type, offset) {
        Some(payload.subrange(offset + 8, offset + be_u32_at(payload, offset)))
    } else {
        spec_box_search(payload, box_type, offset + 1)
    }
}

/// The content of the first well-formed box of type `box_type` in `payload`.
pub open spec fn spec_find_mp4_box_payload(payload: Seq<u8>, box_type: Seq<u8>) -> Option<Seq<u8>> {
    if payload.len() < 8 {
        None
    } else {
        spec_box_search(payload, box_type, 0)
    }
}

/// Finds the first box of type `box_type` in `payload` whose declared size
/// covers its header and fits in the payload, and returns its content.
pub fn find_mp4_box_payload<'a>(payload: &'a [u8], box_type: &[u8; 4]) -> (res: Option<&'a [u8]>)
    ensures
        match spec_find_mp4_box_payload(payload@, box_type@) {
            Some(content) => res matches Some(r) && r@ == content,
            None => res is None,
        },
{
    if payload.len() < 8 {
        return None;
    }
    let last = payload.len() - 8;
    let mut offset: usize = 0;
    while offset <= last
        invariant
            last + 8 == payload@.len(),
                last + 8 == payload.len(),
            offset <= last + 1,
            spec_find_mp4_box_payload(payload@, box_type@) == spec_box_search(payload@, box_type@, offset as int),
        decreases last + 1 - offset,
    {
        let mut same_type = true;
        let mut k: usize = 0;
        while k < 4
            invariant
                k <= 4,
                offset <= last,
                last + 8 == payload@.len(),
                last + 8 == payload.len(),
                spec_find_mp4_box_payload(payload@, box_type@) == spec_box_search(payload@, box_type@, offset as int),
                same_type == (forall|j: int| 0 <= j < k ==> payload@[offset + 4 + j] == box_type@[j]),
            decreases 4 - k,
        {
            if payload[offset + 4 + k] != box_type[k] {
                same_type = false;
            }
            k = k + 1;
        }
        assert(same_type == (payload@.subrange(offset + 4, offset + 8 as int) == box_type@)) by {
            if same_type {
                assert(payload@.subrange(offset + 4, offset + 8 as int) =~= box_type@);
            } else {
                if payload@.subrange(offset + 4, offset + 8 as int) == box_type@ {
                    assert forall|j: int| 0 <= j < 4 implies payload@[offset + 4 + j] == box_type@[j] by {
                        assert(payload@.subrange(offset + 4, offset + 8 as int)[j] == payload@[offset + 4 + j]);
                    }
                }
            }
        }
        if same_type {
            let size = read_be_u32(payload, offset) as usize;
            if size >= 8 {
                let box_end = match offset.checked_add(size) {
                    Some(end) => end,
                    None => return None,
                };
                if box_end <= payload.len() {
                    return Some(slice_subrange(payload, offset + 8, box_end));
                }
            }
        }
        offset = offset + 1;
    }
    None
}

/// The content of the box at `offset`, after its 8-byte header.
pub open spec fn box_content(payload: Seq<u8>, offset: int) -> Seq<u8> {
    payload.subrange(offset + 8, offset + be_u32_at(payload, offset))
}

/// The box search from `offset` finds the content of the first well-formed
/// box at or after `offset`, and finds nothing only when there is none.
proof fn lemma_box_search(payload: Seq<u8>, box_type: Seq<u8>, offset: int)
    requires
        0 <= offset,
        payload.len() + 0xffff_ffff <= usize::MAX,
    ensures
        spec_box_search(payload, box_type, offset) matches Some(content) ==> exists|b: int|
            offset <= b && #[trigger] is_box_at(payload, box_type, b) && content == box_content(payload, b)
                && forall|e: int| offset <= e < b ==> !is_box_at(payload, box_type, e),
        spec_box_search(payload, box_type, offset) is None ==> forall|e: int|
            offset <= e ==> !#[trigger] is_box_at(payload, box_type, e),
    decreases payload.len() - offset,
{
    if offset + 8 > payload.len() {
    } else {
        let s = payload;
        assert(be_u32_at(s, offset) <= 0xffff_ffff) by {
            let (a, b, c, d) = (s[offset] as int, s[offset + 1] as int, s[offset + 2] as int, s[offset + 3] as int);
            assert(((a * 256 + b) * 256 + c) * 256 + d <= 0xffff_ffff);
        }
        if is_box_at(payload, box_type, offset) {
            assert(is_box_at(payload, box_type, offset) && spec_box_search(payload, box_type, offset)->Some_0 == box_content(payload, offset));
        } else {
            lemma_box_search(payload, box_type, offset + 1);
            if let Some(content) = spec_box_search(payload, box_type, offset + 1) {
                let b = choose|b: int|
                    offset + 1 <= b && #[trigger] is_box_at(payload, box_type, b) && content == box_content(payload, b)
                        && forall|e: int| offset + 1 <= e < b ==> !is_box_at(payload, box_type, e);
                assert(offset <= b && is_box_at(payload, box_type, b) && content == box_content(payload, b));
            }
        }
    }
}

/// Searching for a box yields the content of the first well-formed box of
/// the requested type, and yields nothing only when no such box exists (for
/// payloads short enough that no box end can overflow an index).
pub proof fn law_box_search_finds_first_box(payload: Seq<u8>, box_type: Seq<u8>)
    requires
        payload.len() + 0xffff_ffff <= usize::MAX,
    ensures
        spec_find_mp4_box_payload(payload, box_type) matches Some(content) ==> exists|b: int|
            #[trigger] is_box_at(payload, box_type, b) && content == box_content(payload, b)
                && forall|e: int| 0 <= e < b ==> !is_box_at(payload, box_type, e),
        spec_find_mp4_box_payload(payload, box_type) is None ==> forall|e: int|
            !#[trigger] is_box_at(payload, box_type, e),
{
    lemma_box_search(payload, box_type, 0);
}

impl Codec {
    /// The GStreamer parser element for this codec.
    pub fn parser_name(self) -> (name: &'static str)
        ensures
            name@ == (match self {
                Codec::H264 => "h264parse"@,
                Codec::H265 => "h265parse"@,
            }),
    {
        match self {
            Codec::H264 => "h264parse",
            Codec::H265 => "h265parse",
        }
    }

    /// The configuration record that a decoder expects: H.264 data is used
    /// as it is; H.265 data is the content of its `hvcC` box when it holds
    /// one, and as it is otherwise.
    pub fn normalize_codec_data<'a>(self, codec_data: &'a [u8]) -> (res: &'a [u8])
        ensures
            res@ == spec_normalize_codec_data(self, codec_data@),
    {
        match self {
            Codec::H264 => codec_data,
            Codec::H265 => match find_mp4_box_payload(codec_data, &HVCC_BOX_TYPE) {
                Some(content) => content,
                None => codec_data,
            },
        }
    }

    /// The media description a decoder source announces for this codec.
    pub fn encoded_caps<'a>(self, codec_data: &'a [u8]) -> (caps: EncodedCaps<'a>)
        ensures
            caps.media_type@ == (match self {
                Codec::H264 => "video/x-h264"@,
                Codec::H265 => "video/x-h265"@,
            }),
            caps.stream_format@ == (match self {
                Codec::H264 => "avc"@,
                Codec::H265 => "hvc1"@,
            }),
            caps.alignment@ == "au"@,
            caps.codec_data@ == spec_normalize_codec_data(self, codec_data@),
    {
        let normalized = self.normalize_codec_data(codec_data);
        match self {
            Codec::H264 => EncodedCaps {
                media_type: "video/x-h264",
                stream_format: "avc",
                alignment: "au",
                codec_data: normalized,
            },
            Codec::H265 => EncodedCaps {
                media_type: "video/x-h265",
                stream_format: "hvc1",
                alignment: "au",
                codec_data: normalized,
            },
        }
    }

    /// Parses the parameter sets out of this codec's configuration record,
    /// after normalizing it.
    pub fn parameter_sets(self, codec_data: &[u8]) -> (res: Result<ParameterSets, VideoError>)
        ensures
            match spec_parameter_sets(self, codec_data@) {
                Ok(parts) => res matches Ok(p) && p.spec_parts() == parts,
                Err(msg) => res matches Err(e) && e.message@ == msg,
            },
    {
        let normalized = self.normalize_codec_data(codec_data);
        match self {
            Codec::H264 => ParameterSets::from_avcc(normalized),
            Codec::H265 => ParameterSets::from_hvcc(normalized),
        }
    }
}

/// The configuration record a decoder expects for `codec`.
pub open spec fn spec_normalize_codec_data(codec: Codec, codec_data: Seq<u8>) -> Seq<u8> {
    match codec {
        Codec::H264 => codec_data,
        Codec::H265 => match spec_find_mp4_box_payload(codec_data, HVCC_BOX_TYPE@) {
            Some(content) => content,
            None => codec_data,
        },
    }
}

/// What parsing the parameter sets of `codec_data` gives for `codec`.
pub open spec fn spec_parameter_sets(codec: Codec, codec_data: Seq<u8>) -> Result<(u8, Seq<Seq<u8>>), Seq<char>> {
    match codec {
        Codec::H264 => spec_from_avcc(spec_normalize_codec_data(codec, codec_data)),
        Codec::H265 => spec_from_hvcc(spec_normalize_codec_data(codec, codec_data)),
    }
}

/// The media description of an encoded stream: media type, stream format,
/// alignment and the decoder configuration record.
pub struct EncodedCaps<'a> {
    pub media_type: &'static str,
    pub stream_format: &'static str,
    pub alignment: &'static str,
    pub codec_data: &'a [u8],
}

} // verus!
