use airplay_rs::codec::{find_mp4_box_payload, Codec, HVCC_BOX_TYPE};
use airplay_rs::parameter_sets::{read_length_prefixed_parameter_set, ParameterSets};

fn avcc_record() -> Vec<u8> {
    vec![
        0x01, 0x64, 0x00, 0x1f, 0xff, 0xe1, 0x00, 0x04, 0x67, 0x64, 0x00, 0x1f, 0x01, 0x00, 0x02, 0x68,
        0xee,
    ]
}

fn hvcc_record(with_pps: bool) -> Vec<u8> {
    let mut data = vec![0u8; 21];
    data.push(0x0f); // byte 21: NAL length size - 1 = 3
    let arrays: Vec<(u8, Vec<u8>)> = if with_pps {
        vec![(0x20, vec![0x40, 0x01]), (0x21, vec![0x42, 0x01, 0x01]), (0x22, vec![0x44, 0x01])]
    } else {
        vec![(0x20, vec![0x40, 0x01]), (0x21, vec![0x42, 0x01, 0x01])]
    };
    data.push(arrays.len() as u8);
    for (kind, set) in arrays {
        data.push(0x80 | kind);
        data.extend_from_slice(&[0x00, 0x01]);
        data.extend_from_slice(&(set.len() as u16).to_be_bytes());
        data.extend_from_slice(&set);
    }
    data
}

fn mp4_box(kind: &[u8; 4], content: &[u8]) -> Vec<u8> {
    let mut b = ((content.len() + 8) as u32).to_be_bytes().to_vec();
    b.extend_from_slice(kind);
    b.extend_from_slice(content);
    b
}

#[test]
fn reads_one_length_prefixed_set() {
    let data = [0x00, 0x03, 0xaa, 0xbb, 0xcc, 0xdd];
    let mut offset = 0usize;
    let set = read_length_prefixed_parameter_set(&data, &mut offset).unwrap();
    assert_eq!(set, vec![0xaa, 0xbb, 0xcc]);
    assert_eq!(offset, 5);
}

#[test]
fn refuses_a_cut_length_or_set() {
    let mut offset = 5usize;
    let err = read_length_prefixed_parameter_set(&[0, 1, 2, 3, 4, 5], &mut offset).unwrap_err();
    assert_eq!(err.message(), "truncated codec parameter set length");
    assert_eq!(offset, 5);
    let mut offset = 0usize;
    let err = read_length_prefixed_parameter_set(&[0x00, 0x05, 0x01], &mut offset).unwrap_err();
    assert_eq!(err.message(), "truncated codec parameter set");
    assert_eq!(offset, 2);
}

#[test]
fn parses_an_avcc_record() {
    let sets = ParameterSets::from_avcc(&avcc_record()).unwrap();
    assert_eq!(sets.nal_unit_header_length, 4);
    assert_eq!(sets.sets, vec![vec![0x67, 0x64, 0x00, 0x1f], vec![0x68, 0xee]]);
    assert_eq!(sets.parameter_set_sizes(), vec![4, 2]);
}

#[test]
fn refuses_bad_avcc_records() {
    let err = ParameterSets::from_avcc(&[1, 2, 3]).unwrap_err();
    assert_eq!(err.message(), "invalid avcC codec data");
    let mut no_pps = avcc_record();
    no_pps.truncate(12);
    let err = ParameterSets::from_avcc(&no_pps).unwrap_err();
    assert_eq!(err.message(), "avcC codec data is missing PPS entries");
    let mut zero_pps = avcc_record();
    zero_pps.truncate(12);
    zero_pps.push(0);
    let err = ParameterSets::from_avcc(&zero_pps).unwrap_err();
    assert_eq!(err.message(), "avcC codec data must include SPS and PPS");
    let mut cut = avcc_record();
    cut.truncate(10);
    let err = ParameterSets::from_avcc(&cut).unwrap_err();
    assert_eq!(err.message(), "truncated codec parameter set");
}

#[test]
fn parses_an_hvcc_record() {
    let sets = ParameterSets::from_hvcc(&hvcc_record(true)).unwrap();
    assert_eq!(sets.nal_unit_header_length, 4);
    assert_eq!(sets.sets, vec![vec![0x40, 0x01], vec![0x42, 0x01, 0x01], vec![0x44, 0x01]]);
    assert!(sets.sets.len() >= 3);
}

#[test]
fn refuses_bad_hvcc_records() {
    let err = ParameterSets::from_hvcc(&[0u8; 22]).unwrap_err();
    assert_eq!(err.message(), "invalid hvcC codec data");
    let err = ParameterSets::from_hvcc(&hvcc_record(false)).unwrap_err();
    assert_eq!(err.message(), "hvcC codec data must include VPS, SPS and PPS");
    let mut truncated = vec![0u8; 22];
    truncated.push(1);
    truncated.push(0x20);
    let err = ParameterSets::from_hvcc(&truncated).unwrap_err();
    assert_eq!(err.message(), "truncated hvcC parameter array");
}

#[test]
fn finds_the_first_well_formed_box() {
    let mut payload = vec![0x00, 0x00, 0x00, 0x04, b'h', b'v', b'c', b'C'];
    payload.extend(mp4_box(b"free", &[1, 2]));
    payload.extend(mp4_box(b"hvcC", &[9, 8, 7]));
    payload.extend(mp4_box(b"hvcC", &[6]));
    assert_eq!(find_mp4_box_payload(&payload, b"hvcC"), Some(&[9u8, 8, 7][..]));
}

#[test]
fn skips_boxes_that_run_past_the_end() {
    let payload = [0x00, 0x00, 0x00, 0x20, b'h', b'v', b'c', b'C', 1, 2];
    assert_eq!(find_mp4_box_payload(&payload, b"hvcC"), None);
    assert_eq!(find_mp4_box_payload(&[0, 0, 0, 8, b'h', b'v', b'c'], b"hvcC"), None);
    assert_eq!(find_mp4_box_payload(&[0, 0, 0, 8, b'h', b'v', b'c', b'C'], b"hvcC"), Some(&[][..]));
}

#[test]
fn normalizes_wrapped_hevc_configuration() {
    let record = hvcc_record(true);
    let wrapped = mp4_box(&HVCC_BOX_TYPE, &record);
    assert_eq!(Codec::H265.normalize_codec_data(&wrapped), &record[..]);
    assert_eq!(Codec::H265.normalize_codec_data(&record), &record[..]);
    assert_eq!(Codec::H264.normalize_codec_data(&wrapped), &wrapped[..]);
    let sets = Codec::H265.parameter_sets(&wrapped).unwrap();
    assert_eq!(sets.sets.len(), 3);
    let sets = Codec::H264.parameter_sets(&avcc_record()).unwrap();
    assert_eq!(sets.sets.len(), 2);
}

#[test]
fn describes_encoded_streams() {
    let record = avcc_record();
    let caps = Codec::H264.encoded_caps(&record);
    assert_eq!(caps.media_type, "video/x-h264");
    assert_eq!(caps.stream_format, "avc");
    assert_eq!(caps.alignment, "au");
    assert_eq!(caps.codec_data, &record[..]);
    let inner = hvcc_record(true);
    let wrapped = mp4_box(b"hvcC", &inner);
    let caps = Codec::H265.encoded_caps(&wrapped);
    assert_eq!(caps.media_type, "video/x-h265");
    assert_eq!(caps.stream_format, "hvc1");
    assert_eq!(caps.codec_data, &inner[..]);
    assert_eq!(Codec::H264.parser_name(), "h264parse");
    assert_eq!(Codec::H265.parser_name(), "h265parse");
}
