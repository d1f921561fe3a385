use vstd::prelude::*;
use vstd::slice::slice_subrange;
use vstd::slice::slice_to_vec;

use crate::bytes::{
    le_u32_at, le_u32_bytes, le_u64_at, le_u64_bytes, lemma_le_u32_roundtrip,
    lemma_le_u64_roundtrip, push_le_u32, push_le_u64, read_le_u32, read_le_u64,
};
use crate::error::VideoError;

verus! {

/// The eight bytes that open every video capture file (`ARVCAP1\0`).
pub const CAPTURE_MAGIC: [u8; 8] = [0x41u8, 0x52u8, 0x56u8, 0x43u8, 0x41u8, 0x50u8, 0x31u8, 0x00u8];

/// The kind of a recorded video packet.
#[derive(Debug, Clone, Copy, PartialEq, Eq, Structural)]
pub enum CapturePacketKind {
    AvcC,
    HvcC,
    Payload,
}

/// The byte that stands for `kind` in a capture file.
pub open spec fn kind_byte(kind: CapturePacketKind) -> u8 {
    match kind {
        CapturePacketKind::AvcC => 1,
        CapturePacketKind::HvcC => 2,
        CapturePacketKind::Payload => 3,
    }
}

/// The kind that `value` stands for in a capture file, if any.
pub open spec fn kind_of_byte(value: u8) -> Option<CapturePacketKind> {
    if value == 1 {
        Some(CapturePacketKind::AvcC)
    } else if value == 2 {
        Some(CapturePacketKind::HvcC)
    } else if value == 3 {
        Some(CapturePacketKind::Payload)
    } else {
        None
    }
}

impl CapturePacketKind {
    /// The byte that stands for this kind in a capture file.
    pub fn to_byte(self) -> (b: u8)
        ensures
            b == kind_byte(self),
    {
        match self {
            CapturePacketKind::AvcC => 1,
            CapturePacketKind::HvcC => 2,
            CapturePacketKind::Payload => 3,
        }
    }

    /// The kind that `value` stands for; any byte but 1, 2 and 3 is refused.
    pub fn from_byte(value: u8) -> (res: Result<CapturePacketKind, VideoError>)
        ensures
            match kind_of_byte(value) {
                Some(kind) => res == Ok::<CapturePacketKind, VideoError>(kind),
                None => res matches Err(e) && e.message@ == "invalid video capture packet kind"@,
            },
    {
        match value {
            1 => Ok(CapturePacketKind::AvcC),
            2 => Ok(CapturePacketKind::HvcC),
            3 => Ok(CapturePacketKind::Payload),
            _ => Err(VideoError::new("invalid video capture packet kind")),
        }
    }
}

/// Every kind's byte decodes back to that kind.
pub proof fn law_kind_byte_roundtrip(kind: CapturePacketKind)
    ensures
        kind_of_byte(kind_byte(kind)) == Some(kind),
{
}

/// A packet read back from a capture file.
#[derive(Debug)]
pub struct CapturedPacket {
    pub elapsed_nanos: u64,
    pub kind: CapturePacketKind,
    pub payload: Vec<u8>,
}

/// A captured packet as plain values.
pub struct CapturedPacketView {
    pub elapsed_nanos: u64,
    pub kind: CapturePacketKind,
    pub payload: Seq<u8>,
}

impl View for CapturedPacket {
    type V = CapturedPacketView;

    open spec fn view(&self) -> CapturedPacketView {
        CapturedPacketView { elapsed_nanos: self.elapsed_nanos, kind: self.kind, payload: self.payload@ }
    }
}

/// The plain values of a sequence of captured packets.
pub open spec fn packets_view(packets: Seq<CapturedPacket>) -> Seq<CapturedPacketView> {
    Seq::new(packets.len(), |i: int| packets[i]@)
}

/// The message of a read that runs past the end of the capture.
pub open spec fn eof_message() -> Seq<char> {
    "failed to fill whole buffer"@
}

/// The bytes one record takes in a capture file.
pub open spec fn spec_encode_record(packet: CapturedPacketView) -> Seq<u8> {
    le_u64_bytes(packet.elapsed_nanos) + seq![kind_byte(packet.kind)] + le_u32_bytes(
        packet.payload.len() as u32,
    ) + packet.payload
}

/// The bytes a sequence of records takes, in order.
pub open spec fn spec_encode_records(packets: Seq<CapturedPacketView>) -> Seq<u8>
    decreases packets.len(),
{
    if packets.len() == 0 {
        Seq::empty()
    } else {
        spec_encode_record(packets[0]) + spec_encode_records(packets.drop_first())
    }
}

/// What reading the records from `pos` to the end of `bytes` gives. Fewer
/// than eight bytes left end the capture; a record cut short, or one with
/// an unknown kind, is an error.
pub open spec fn spec_capture_records(bytes: Seq<u8>, pos: int) -> Result<Seq<CapturedPacketView>, Seq<char>>
    decreases bytes.len() - pos,
{
    if pos < 0 || bytes.len() - pos < 8 {
        Ok(Seq::empty())
    } else if bytes.len() - pos < 13 {
        Err(eof_message())
    } else {
        let len = le_u32_at(bytes, pos + 9) as int;
        if bytes.len() - (pos + 13) < len {
            Err(eof_message())
        } else {
            match kind_of_byte(bytes[pos + 8]) {
                None => Err("invalid video capture packet kind"@),
                Some(kind) => {
                    let packet = CapturedPacketView {
                        elapsed_nanos: le_u64_at(bytes, pos),
                        kind,
                        payload: bytes.subrange(pos + 13, pos + 13 + len),
                    };
                    match spec_capture_records(bytes, pos + 13 + len) {
                        Ok(rest) => Ok(seq![packet] + rest),
                        Err(msg) => Err(msg),
                    }
                },
            }
        }
    }
}

/// What reading a whole capture file gives.
pub open spec fn spec_parse_capture(bytes: Seq<u8>) -> Result<Seq<CapturedPacketView>, Seq<char>> {
    if bytes.len() < 8 {
        Err(eof_message())
    } else if bytes.subrange(0, 8) != CAPTURE_MAGIC@ {
        Err("invalid video capture file header"@)
    } else {
        spec_capture_records(bytes, 8)
    }
}

/// Prefixes the packets of a successful read with `done`.
pub open spec fn after(done: Seq<CapturedPacketView>, rest: Result<Seq<CapturedPacketView>, Seq<char>>) -> Result<Seq<CapturedPacketView>, Seq<char>> {
    match rest {
        Ok(packets) => Ok(done + packets),
        Err(msg) => Err(msg),
    }
}

/// The header that opens a capture file.
pub fn capture_file_header() -> (header: Vec<u8>)
    ensures
        header@ == CAPTURE_MAGIC@,
{
    let mut header: Vec<u8> = Vec::new();
    let mut i: usize = 0;
    while i < 8
        invariant
            i <= 8,
            header@ == CAPTURE_MAGIC@.subrange(0, i as int),
        decreases 8 - i,
    {
        header.push(CAPTURE_MAGIC[i]);
        i = i + 1;
        assert(header@ =~= CAPTURE_MAGIC@.subrange(0, i as int));
    }
    assert(CAPTURE_MAGIC@.subrange(0, 8) =~= CAPTURE_MAGIC@);
    header
}

/// Encodes one capture record; a payload longer than `u32::MAX` bytes cannot
/// be recorded.
pub fn encode_capture_record(elapsed_nanos: u64, kind: CapturePacketKind, payload: &[u8]) -> (res: Result<Vec<u8>, VideoError>)
    ensures
        payload@.len() <= u32::MAX ==> (res matches Ok(bytes) && bytes@ == spec_encode_record(
            CapturedPacketView { elapsed_nanos, kind, payload: payload@ },
        )),
        payload@.len() > u32::MAX ==> (res matches Err(e) && e.message@
            == "video capture payload is too large"@),
{
    if payload.len() > 0xffff_ffffusize {
        return Err(VideoError::new("video capture payload is too large"));
    }
    let payload_len = payload.len() as u32;
    let mut out: Vec<u8> = Vec::new();
    push_le_u64(&mut out, elapsed_nanos);
    out.push(kind.to_byte());
    push_le_u32(&mut out, payload_len);
    let mut body = slice_to_vec(payload);
    out.append(&mut body);
    assert(out@ =~= spec_encode_record(CapturedPacketView { elapsed_nanos, kind, payload: payload@ }));
    Ok(out)
}

/// Reads the packets of a capture file from its bytes.
pub fn parse_capture(bytes: &[u8]) -> (res: Result<Vec<CapturedPacket>, VideoError>)
    ensures
        match spec_parse_capture(bytes@) {
            Ok(packets) => res matches Ok(v) && packets_view(v@) == packets,
            Err(msg) => res matches Err(e) && e.message@ == msg,
        },
{
    if bytes.len() < 8 {
        return Err(VideoError::new("failed to fill whole buffer"));
    }
    let mut k: usize = 0;
    while k < 8
        invariant
            k <= 8,
            8 <= bytes@.len(),
            forall|j: int| 0 <= j < k ==> bytes@[j] == CAPTURE_MAGIC@[j],
        decreases 8 - k,
    {
        if bytes[k] != CAPTURE_MAGIC[k] {
            assert(bytes@.subrange(0, 8)[k as int] != CAPTURE_MAGIC@[k as int]);
            return Err(VideoError::new("invalid video capture file header"));
        }
        k = k + 1;
    }
    assert(bytes@.subrange(0, 8) =~= CAPTURE_MAGIC@);
    let mut packets: Vec<CapturedPacket> = Vec::new();
    let mut pos: usize = 8;
    assert(packets_view(packets@) =~= Seq::<CapturedPacketView>::empty());
    while bytes.len() - pos >= 8
        invariant
            8 <= pos <= bytes@.len(),
            spec_parse_capture(bytes@) == after(packets_view(packets@), spec_capture_records(bytes@, pos as int)),
        decreases bytes@.len() - pos,
    {
        if bytes.len() - pos < 13 {
            return Err(VideoError::new("failed to fill whole buffer"));
        }
        let elapsed_nanos = read_le_u64(bytes, pos);
        let kind_byte = bytes[pos + 8];
        let payload_len = read_le_u32(bytes, pos + 9) as usize;
        if bytes.len() - (pos + 13) < payload_len {
            return Err(VideoError::new("failed to fill whole buffer"));
        }
        let start = pos + 13;
        let payload = slice_to_vec(slice_subrange(bytes, start, start + payload_len));
        let kind = match CapturePacketKind::from_byte(kind_byte) {
            Ok(kind) => kind,
            Err(e) => return Err(e),
        };
        let ghost done = packets_view(packets@);
        let packet = CapturedPacket { elapsed_nanos, kind, payload };
        let ghost pv = packet@;
        packets.push(packet);
        pos = start + payload_len;
        proof {
            assert(packets_view(packets@) =~= done.push(pv));
            match spec_capture_records(bytes@, pos as int) {
                Ok(rest) => {
                    assert(done + (seq![pv] + rest) =~= done.push(pv) + rest);
                },
                Err(_) => {},
            }
        }
    }
    Ok(packets)
}

/// The fields of a record read back from where its encoding sits.
proof fn lemma_record_fields(bytes: Seq<u8>, pos: int, p: CapturedPacketView)
    requires
        0 <= pos,
        p.payload.len() <= u32::MAX,
        pos + spec_encode_record(p).len() <= bytes.len(),
        bytes.subrange(pos, pos + spec_encode_record(p).len()) == spec_encode_record(p),
    ensures
        spec_encode_record(p).len() == 13 + p.payload.len(),
        le_u64_at(bytes, pos) == p.elapsed_nanos,
        bytes[pos + 8] == kind_byte(p.kind),
        le_u32_at(bytes, pos + 9) as int == p.payload.len(),
        bytes.subrange(pos + 13, pos + 13 + p.payload.len()) == p.payload,
{
    let record = spec_encode_record(p);
    let len = p.payload.len();
    assert(record.len() == 13 + len);
    assert forall|k: int| 0 <= k < record.len() implies bytes[pos + k] == #[trigger] record[k] by {
        assert(bytes.subrange(pos, pos + record.len())[k] == bytes[pos + k]);
    }
    let hv = le_u64_bytes(p.elapsed_nanos);
    let lv = le_u32_bytes(len as u32);
    assert(record[0] == hv[0] && record[1] == hv[1] && record[2] == hv[2] && record[3] == hv[3]
        && record[4] == hv[4] && record[5] == hv[5] && record[6] == hv[6] && record[7] == hv[7]);
    assert(record[8] == kind_byte(p.kind));
    assert(record[9] == lv[0] && record[10] == lv[1] && record[11] == lv[2] && record[12] == lv[3]);
    assert(bytes[pos] == record[0] && bytes[pos + 1] == record[1] && bytes[pos + 2] == record[2] && bytes[pos + 3] == record[3]
        && bytes[pos + 4] == record[4] && bytes[pos + 5] == record[5] && bytes[pos + 6] == record[6] && bytes[pos + 7] == record[7]);
    assert(bytes[pos + 8] == record[8]);
    assert(bytes[pos + 9] == record[9] && bytes[pos + 10] == record[10] && bytes[pos + 11] == record[11] && bytes[pos + 12] == record[12]);
    lemma_le_u64_roundtrip(p.elapsed_nanos);
    lemma_le_u32_roundtrip(len as u32);
    assert forall|k: int| 0 <= k < len implies #[trigger] bytes.subrange(pos + 13, pos + 13 + len)[k] == p.payload[k] by {
        assert(record[13 + k] == p.payload[k]);
        assert(bytes[pos + 13 + k] == record[13 + k]);
    }
    assert(bytes.subrange(pos + 13, pos + 13 + len) =~= p.payload);
}

/// One step of reading: a record whose fields sit at `pos` is read, and
/// reading goes on after it.
proof fn lemma_records_step(bytes: Seq<u8>, pos: int, p: CapturedPacketView)
    requires
        0 <= pos,
        pos + 13 + p.payload.len() <= bytes.len(),
        le_u64_at(bytes, pos) == p.elapsed_nanos,
        bytes[pos + 8] == kind_byte(p.kind),
        le_u32_at(bytes, pos + 9) as int == p.payload.len(),
        bytes.subrange(pos + 13, pos + 13 + p.payload.len()) == p.payload,
    ensures
        spec_capture_records(bytes, pos) == after(seq![p], spec_capture_records(bytes, pos + 13 + p.payload.len())),
{
    let len = p.payload.len();
    assert(kind_of_byte(bytes[pos + 8]) == Some(p.kind));
    let packet = CapturedPacketView {
        elapsed_nanos: le_u64_at(bytes, pos),
        kind: p.kind,
        payload: bytes.subrange(pos + 13, pos + 13 + len),
    };
    assert(packet == p);
}

/// Reading the encoding of records that sits after any `prefix` gives the
/// records back.
#[verifier::spinoff_prover]
#[verifier::rlimit(40)]
proof fn lemma_records_roundtrip(prefix: Seq<u8>, packets: Seq<CapturedPacketView>)
    requires
        forall|i: int| 0 <= i < packets.len() ==> #[trigger] packets[i].payload.len() <= u32::MAX,
    ensures
        spec_capture_records(prefix + spec_encode_records(packets), prefix.len() as int) == Ok::<
            Seq<CapturedPacketView>,
            Seq<char>,
        >(packets),
    decreases packets.len(),
{
    let bytes = prefix + spec_encode_records(packets);
    let pos = prefix.len() as int;
    if packets.len() == 0 {
        assert(bytes =~= prefix);
        assert(packets =~= Seq::<CapturedPacketView>::empty());
    } else {
        let p = packets[0];
        let rest = packets.drop_first();
        let record = spec_encode_record(p);
        let len = p.payload.len();
        assert forall|i: int| 0 <= i < rest.len() implies #[trigger] rest[i].payload.len() <= u32::MAX by {
            assert(rest[i] == packets[i + 1]);
        }
        lemma_records_roundtrip(prefix + record, rest);
        assert(bytes =~= (prefix + record) + spec_encode_records(rest));
        assert(bytes.subrange(pos, pos + record.len()) =~= record);
        lemma_record_fields(bytes, pos, p);
        lemma_records_step(bytes, pos, p);
        assert((prefix + record).len() == pos + 13 + len);
        assert(spec_capture_records(bytes, pos + 13 + len) == Ok::<Seq<CapturedPacketView>, Seq<char>>(rest));
        assert(seq![p] + rest =~= packets);
    }
}

/// A capture file made of the header and the encoding of some records reads
/// back as exactly those records, in order.
pub proof fn law_capture_roundtrip(packets: Seq<CapturedPacketView>)
    requires
        forall|i: int| 0 <= i < packets.len() ==> #[trigger] packets[i].payload.len() <= u32::MAX,
    ensures
        spec_parse_capture(CAPTURE_MAGIC@ + spec_encode_records(packets)) == Ok::<
            Seq<CapturedPacketView>,
            Seq<char>,
        >(packets),
{
    lemma_records_roundtrip(CAPTURE_MAGIC@, packets);
    let bytes = CAPTURE_MAGIC@ + spec_encode_records(packets);
    assert(bytes.subrange(0, 8) =~= CAPTURE_MAGIC@);
}

} // verus!
