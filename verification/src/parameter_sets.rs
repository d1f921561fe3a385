use vstd::prelude::*;
use vstd::slice::slice_subrange;
use vstd::slice::slice_to_vec;

use crate::bytes::{be_u16, read_be_u16};
use crate::error::VideoError;

verus! {

/// What reading one length-prefixed parameter set at `offset` gives: the set
/// and the offset just past it, or the message of the failure.
pub open spec fn spec_read_parameter_set(data: Seq<u8>, offset: int) -> Result<(Seq<u8>, int), Seq<char>> {
    if offset + 2 > data.len() {
        Err("truncated codec parameter set length"@)
    } else {
        let length = be_u16(data[offset], data[offset + 1]);
        let start = offset + 2;
        if start + length > usize::MAX {
            Err("codec parameter set length overflow"@)
        } else if start + length > data.len() {
            Err("truncated codec parameter set"@)
        } else {
            Ok((data.subrange(start, start + length), start + length))
        }
    }
}

/// Reads a parameter set prefixed by its big-endian 16-bit length at
/// `*offset`, and moves `*offset` past it.
pub fn read_length_prefixed_parameter_set(data: &[u8], offset: &mut usize) -> (res: Result<Vec<u8>, VideoError>)
    ensures
        match spec_read_parameter_set(data@, *old(offset) as int) {
            Ok((set, end)) => res matches Ok(v) && v@ == set && *final(offset) == end,
            Err(msg) => res matches Err(e) && e.message@ == msg,
        },
        res is Err && *old(offset) as int + 2 <= data@.len() ==> *final(offset) == *old(offset) + 2,
        res is Err && *old(offset) as int + 2 > data@.len() ==> *final(offset) == *old(offset),
{
    if *offset > data.len() || data.len() - *offset < 2 {
        return Err(VideoError::new("truncated codec parameter set length"));
    }
    let length = read_be_u16(data[*offset], data[*offset + 1]) as usize;
    *offset = *offset + 2;
    let end = match offset.checked_add(length) {
        Some(end) => end,
        None => return Err(VideoError::new("codec parameter set length overflow")),
    };
    if end > data.len() {
        return Err(VideoError::new("truncated codec parameter set"));
    }
    let parameter_set = slice_to_vec(slice_subrange(data, *offset, end));
    *offset = end;
    Ok(parameter_set)
}


/// What reading `count` consecutive parameter sets from `offset` gives: the
/// sets in order and the offset past the last one, or the first failure.
pub open spec fn spec_read_parameter_sets(data: Seq<u8>, offset: int, count: nat) -> Result<(Seq<Seq<u8>>, int), Seq<char>>
    decreases count,
{
    if count == 0 {
        Ok((Seq::empty(), offset))
    } else {
        match spec_read_parameter_sets(data, offset, (count - 1) as nat) {
            Ok((sets, next)) => match spec_read_parameter_set(data, next) {
                Ok((set, end)) => Ok((sets.push(set), end)),
                Err(msg) => Err(msg),
            },
            Err(msg) => Err(msg),
        }
    }
}

/// Reading parameter sets only ever moves forward: the offset reached is at
/// least the starting one, and at most the length of the data.
pub proof fn lemma_read_parameter_sets_bounds(data: Seq<u8>, offset: int, count: nat)
    requires
        0 <= offset <= data.len(),
    ensures
        spec_read_parameter_sets(data, offset, count) matches Ok((sets, end)) ==> offset <= end <= data.len() && sets.len() == count,
    decreases count,
{
    if count > 0 {
        lemma_read_parameter_sets_bounds(data, offset, (count - 1) as nat);
    }
}

/// Reads `count` length-prefixed parameter sets starting at `*offset`,
/// appending them to `sets`.
fn read_parameter_sets(data: &[u8], offset: &mut usize, count: usize, sets: &mut Vec<Vec<u8>>) -> (res: Result<(), VideoError>)
    ensures
        match spec_read_parameter_sets(data@, *old(offset) as int, count as nat) {
            Ok((read, end)) => res is Ok && final(sets).deep_view() == old(sets).deep_view() + read && *final(offset) == end,
            Err(msg) => res matches Err(e) && e.message@ == msg,
        },
{
    let ghost start = *offset as int;
    let mut i: usize = 0;
    while i < count
        invariant
            i <= count,
            start == *old(offset) as int,
            spec_read_parameter_sets(data@, start, i as nat) matches Ok((read, end))
                && sets.deep_view() == old(sets).deep_view() + read && *offset == end,
        decreases count - i,
    {
        let ghost before = sets.deep_view();
        let set = read_length_prefixed_parameter_set(data, offset);
        match set {
            Ok(set) => {
                let ghost bytes = set@;
                proof {
                    lemma_bytes_deep_view(set);
                }
                sets.push(set);
                proof {
                    let read = spec_read_parameter_sets(data@, start, i as nat)->Ok_0.0;
                    assert(sets.deep_view() =~= before.push(bytes));
                    assert(before.push(bytes) =~= old(sets).deep_view() + read.push(bytes));
                }
                i = i + 1;
            },
            Err(e) => {
                proof {
                    assert(spec_read_parameter_sets(data@, start, (i + 1) as nat) is Err);
                    lemma_read_parameter_sets_error_persists(data@, start, (i + 1) as nat, count as nat);
                }
                return Err(e);
            },
        }
    }
    Ok(())
}

/// The deep view of a byte vector is its view.
pub proof fn lemma_bytes_deep_view(v: Vec<u8>)
    ensures
        v.deep_view() == v@,
{
    assert(v.deep_view() =~= v@);
}

/// Once reading the first `k` parameter sets fails, reading more of them
/// fails with the same message.
pub proof fn lemma_read_parameter_sets_error_persists(data: Seq<u8>, offset: int, k: nat, n: nat)
    requires
        k <= n,
        spec_read_parameter_sets(data, offset, k) is Err,
    ensures
        spec_read_parameter_sets(data, offset, n) == spec_read_parameter_sets(data, offset, k),
    decreases n - k,
{
    if k < n {
        lemma_read_parameter_sets_error_persists(data, offset, k, (n - 1) as nat);
    }
}


/// The parameter sets of an H.264 (avcC) or H.265 (hvcC) decoder
/// configuration record, with the size of the NAL unit length prefix.
#[derive(Debug)]
pub struct ParameterSets {
    pub nal_unit_header_length: u8,
    pub sets: Vec<Vec<u8>>,
}

/// The length of the NAL unit length field that a configuration byte encodes
/// in its two low bits (one to four bytes).
pub open spec fn nal_length_from(byte: u8) -> u8 {
    ((byte & 0x03u8) + 1) as u8
}

/// What parsing an avcC record gives: the NAL unit length size and the SPS
/// followed by the PPS parameter sets, or the message of the failure.
pub open spec fn spec_from_avcc(data: Seq<u8>) -> Result<(u8, Seq<Seq<u8>>), Seq<char>> {
    if data.len() < 7 {
        Err("invalid avcC codec data"@)
    } else {
        let sps_count = data[5] & 0x1fu8;
        match spec_read_parameter_sets(data, 6, sps_count as nat) {
            Err(msg) => Err(msg),
            Ok((sps, next)) => if next >= data.len() {
                Err("avcC codec data is missing PPS entries"@)
            } else {
                let pps_count = data[next];
                match spec_read_parameter_sets(data, next + 1, pps_count as nat) {
                    Err(msg) => Err(msg),
                    Ok((pps, _)) => if sps_count == 0 || pps_count == 0 {
                        Err("avcC codec data must include SPS and PPS"@)
                    } else {
                        Ok((nal_length_from(data[4]), sps + pps))
                    },
                }
            },
        }
    }
}

/// State after scanning the first parameter arrays of an hvcC record: the
/// sets read so far, the offset reached, and whether a VPS, an SPS and a PPS
/// were seen.
pub type HvccScan = (Seq<Seq<u8>>, int, bool, bool, bool);

/// What scanning the first `count` parameter arrays of an hvcC record gives.
pub open spec fn spec_hvcc_arrays(data: Seq<u8>, count: nat) -> Result<HvccScan, Seq<char>>
    decreases count,
{
    if count == 0 {
        Ok((Seq::empty(), 23, false, false, false))
    } else {
        match spec_hvcc_arrays(data, (count - 1) as nat) {
            Err(msg) => Err(msg),
            Ok((sets, offset, vps, sps, pps)) => if offset + 3 > data.len() {
                Err("truncated hvcC parameter array"@)
            } else {
                let nal_unit_type = data[offset] & 0x3fu8;
                let nal_count = be_u16(data[offset + 1], data[offset + 2]);
                match spec_read_parameter_sets(data, offset + 3, nal_count as nat) {
                    Err(msg) => Err(msg),
                    Ok((read, end)) => Ok((
                        sets + read,
                        end,
                        vps || (nal_count > 0 && nal_unit_type == 32),
                        sps || (nal_count > 0 && nal_unit_type == 33),
                        pps || (nal_count > 0 && nal_unit_type == 34),
                    )),
                }
            },
        }
    }
}

/// What parsing an hvcC record gives: the NAL unit length size and every
/// parameter set of every array in order, or the message of the failure.
pub open spec fn spec_from_hvcc(data: Seq<u8>) -> Result<(u8, Seq<Seq<u8>>), Seq<char>> {
    if data.len() < 23 {
        Err("invalid hvcC codec data"@)
    } else {
        match spec_hvcc_arrays(data, data[22] as nat) {
            Err(msg) => Err(msg),
            Ok((sets, _, vps, sps, pps)) => if !vps || !sps || !pps {
                Err("hvcC codec data must include VPS, SPS and PPS"@)
            } else {
                Ok((nal_length_from(data[21]), sets))
            },
        }
    }
}

/// Scanning hvcC arrays only moves forward within the data.
pub proof fn lemma_hvcc_arrays_bounds(data: Seq<u8>, count: nat)
    requires
        23 <= data.len(),
    ensures
        spec_hvcc_arrays(data, count) matches Ok((_, offset, _, _, _)) ==> 23 <= offset <= data.len(),
    decreases count,
{
    if count > 0 {
        lemma_hvcc_arrays_bounds(data, (count - 1) as nat);
        if let Ok((_, offset, _, _, _)) = spec_hvcc_arrays(data, (count - 1) as nat) {
            if offset + 3 <= data.len() {
                let n = be_u16(data[offset + 1], data[offset + 2]);
                lemma_read_parameter_sets_bounds(data, offset + 3, n as nat);
            }
        }
    }
}

/// Once scanning the first `k` hvcC arrays fails, scanning more of them fails
/// with the same message.
pub proof fn lemma_hvcc_arrays_error_persists(data: Seq<u8>, k: nat, n: nat)
    requires
        k <= n,
        spec_hvcc_arrays(data, k) is Err,
    ensures
        spec_hvcc_arrays(data, n) == spec_hvcc_arrays(data, k),
    decreases n - k,
{
    if k < n {
        lemma_hvcc_arrays_error_persists(data, k, (n - 1) as nat);
    }
}

/// The NAL unit length field is one to four bytes long.
pub proof fn lemma_nal_length_range(byte: u8)
    ensures
        1 <= nal_length_from(byte) <= 4,
{
    assert(byte & 0x03u8 <= 3) by (bit_vector);
}

/// A parsed avcC record holds at least one SPS and one PPS (so two sets or
/// more), and a NAL unit length of one to four bytes.
pub proof fn law_avcc_has_sps_and_pps(data: Seq<u8>)
    ensures
        spec_from_avcc(data) matches Ok((nal, sets)) ==> 1 <= nal <= 4 && sets.len() >= 2,
{
    if data.len() >= 7 {
        lemma_nal_length_range(data[4]);
        let sps_count = data[5] & 0x1fu8;
        lemma_read_parameter_sets_bounds(data, 6, sps_count as nat);
        if let Ok((sps, next)) = spec_read_parameter_sets(data, 6, sps_count as nat) {
            if next < data.len() {
                lemma_read_parameter_sets_bounds(data, next + 1, data[next] as nat);
            }
        }
    }
}

/// After scanning hvcC arrays, each kind of parameter set that was seen
/// accounts for at least one set read.
proof fn lemma_hvcc_flags_count(data: Seq<u8>, count: nat)
    requires
        23 <= data.len(),
    ensures
        spec_hvcc_arrays(data, count) matches Ok((sets, _, vps, sps, pps)) ==> sets.len() >= (if vps { 1int } else { 0 }) + (if sps { 1int } else { 0 }) + (if pps { 1int } else { 0 }),
    decreases count,
{
    if count > 0 {
        lemma_hvcc_flags_count(data, (count - 1) as nat);
        lemma_hvcc_arrays_bounds(data, (count - 1) as nat);
        if let Ok((sets, offset, vps, sps, pps)) = spec_hvcc_arrays(data, (count - 1) as nat) {
            if offset + 3 <= data.len() {
                let n = be_u16(data[offset + 1], data[offset + 2]);
                lemma_read_parameter_sets_bounds(data, offset + 3, n as nat);
            }
        }
    }
}

/// A parsed hvcC record holds at least a VPS, an SPS and a PPS (so three
/// sets or more), and a NAL unit length of one to four bytes.
pub proof fn law_hvcc_has_vps_sps_pps(data: Seq<u8>)
    ensures
        spec_from_hvcc(data) matches Ok((nal, sets)) ==> 1 <= nal <= 4 && sets.len() >= 3,
{
    if data.len() >= 23 {
        lemma_nal_length_range(data[21]);
        lemma_hvcc_flags_count(data, data[22] as nat);
    }
}

/// Reading a parameter set that lies within `data` reads the same set
/// whatever bytes follow `data`.
proof fn lemma_read_parameter_set_extend(data: Seq<u8>, suffix: Seq<u8>, offset: int)
    requires
        0 <= offset,
        spec_read_parameter_set(data, offset) is Ok,
    ensures
        spec_read_parameter_set(data + suffix, offset) == spec_read_parameter_set(data, offset),
{
    let all = data + suffix;
    assert(all[offset] == data[offset]);
    assert(all[offset + 1] == data[offset + 1]);
    let (set, end) = spec_read_parameter_set(data, offset)->Ok_0;
    assert(all.subrange(offset + 2, end) =~= data.subrange(offset + 2, end));
}

/// Reading parameter sets that lie within `data` reads the same sets
/// whatever bytes follow `data`.
proof fn lemma_read_parameter_sets_extend(data: Seq<u8>, suffix: Seq<u8>, offset: int, count: nat)
    requires
        0 <= offset <= data.len(),
        spec_read_parameter_sets(data, offset, count) is Ok,
    ensures
        spec_read_parameter_sets(data + suffix, offset, count) == spec_read_parameter_sets(data, offset, count),
    decreases count,
{
    if count > 0 {
        lemma_read_parameter_sets_extend(data, suffix, offset, (count - 1) as nat);
        lemma_read_parameter_sets_bounds(data, offset, (count - 1) as nat);
        let next = spec_read_parameter_sets(data, offset, (count - 1) as nat)->Ok_0.1;
        lemma_read_parameter_set_extend(data, suffix, next);
    }
}

/// Bytes after the last PPS of an avcC record (such as the extension bytes
/// of High profile records) do not change what it parses to.
pub proof fn law_avcc_ignores_trailing_bytes(data: Seq<u8>, suffix: Seq<u8>)
    ensures
        spec_from_avcc(data) is Ok ==> spec_from_avcc(data + suffix) == spec_from_avcc(data),
{
    if spec_from_avcc(data) is Ok {
        let all = data + suffix;
        assert(all[4] == data[4] && all[5] == data[5]);
        let sps_count = data[5] & 0x1fu8;
        lemma_read_parameter_sets_extend(data, suffix, 6, sps_count as nat);
        lemma_read_parameter_sets_bounds(data, 6, sps_count as nat);
        let next = spec_read_parameter_sets(data, 6, sps_count as nat)->Ok_0.1;
        assert(all[next] == data[next]);
        lemma_read_parameter_sets_extend(data, suffix, next + 1, data[next] as nat);
    }
}

/// Scanning hvcC arrays that lie within `data` scans the same whatever
/// bytes follow `data`.
proof fn lemma_hvcc_arrays_extend(data: Seq<u8>, suffix: Seq<u8>, count: nat)
    requires
        23 <= data.len(),
        spec_hvcc_arrays(data, count) is Ok,
    ensures
        spec_hvcc_arrays(data + suffix, count) == spec_hvcc_arrays(data, count),
    decreases count,
{
    if count > 0 {
        lemma_hvcc_arrays_extend(data, suffix, (count - 1) as nat);
        lemma_hvcc_arrays_bounds(data, (count - 1) as nat);
        let offset = spec_hvcc_arrays(data, (count - 1) as nat)->Ok_0.1;
        let all = data + suffix;
        assert(all[offset] == data[offset] && all[offset + 1] == data[offset + 1] && all[offset + 2] == data[offset + 2]);
        let n = be_u16(data[offset + 1], data[offset + 2]);
        lemma_read_parameter_sets_extend(data, suffix, offset + 3, n as nat);
    }
}

/// Bytes after the last parameter array of an hvcC record do not change what
/// it parses to.
pub proof fn law_hvcc_ignores_trailing_bytes(data: Seq<u8>, suffix: Seq<u8>)
    ensures
        spec_from_hvcc(data) is Ok ==> spec_from_hvcc(data + suffix) == spec_from_hvcc(data),
{
    if spec_from_hvcc(data) is Ok {
        let all = data + suffix;
        assert(all[21] == data[21] && all[22] == data[22]);
        lemma_hvcc_arrays_extend(data, suffix, data[22] as nat);
    }
}

impl ParameterSets {
    /// The NAL unit length size and the parameter sets, as plain values.
    pub open spec fn spec_parts(&self) -> (u8, Seq<Seq<u8>>) {
        (self.nal_unit_header_length, self.sets.deep_view())
    }

    /// Parses an avcC decoder configuration record.
    pub fn from_avcc(data: &[u8]) -> (res: Result<ParameterSets, VideoError>)
        ensures
            match spec_from_avcc(data@) {
                Ok(parts) => res matches Ok(p) && p.spec_parts() == parts,
                Err(msg) => res matches Err(e) && e.message@ == msg,
            },
    {
        if data.len() < 7 {
            return Err(VideoError::new("invalid avcC codec data"));
        }
        let b4 = data[4];
        assert(b4 & 0x03u8 <= 3) by (bit_vector);
        let nal_unit_header_length = (b4 & 0x03) + 1;
        let mut offset: usize = 6;
        let mut sets: Vec<Vec<u8>> = Vec::new();
        let sps_count = data[5] & 0x1f;
        assert(sets.deep_view() =~= Seq::<Seq<u8>>::empty());
        match read_parameter_sets(data, &mut offset, sps_count as usize, &mut sets) {
            Ok(()) => {},
            Err(e) => return Err(e),
        }
        proof {
            lemma_read_parameter_sets_bounds(data@, 6, sps_count as nat);
        }
        if offset >= data.len() {
            return Err(VideoError::new("avcC codec data is missing PPS entries"));
        }
        let pps_count = data[offset];
        offset = offset + 1;
        match read_parameter_sets(data, &mut offset, pps_count as usize, &mut sets) {
            Ok(()) => {},
            Err(e) => return Err(e),
        }
        if sps_count == 0 || pps_count == 0 {
            return Err(VideoError::new("avcC codec data must include SPS and PPS"));
        }
        Ok(ParameterSets { nal_unit_header_length, sets })
    }

    /// Parses an hvcC decoder configuration record; it must hold at least one
    /// VPS, one SPS and one PPS.
    pub fn from_hvcc(data: &[u8]) -> (res: Result<ParameterSets, VideoError>)
        ensures
            match spec_from_hvcc(data@) {
                Ok(parts) => res matches Ok(p) && p.spec_parts() == parts,
                Err(msg) => res matches Err(e) && e.message@ == msg,
            },
    {
        if data.len() < 23 {
            return Err(VideoError::new("invalid hvcC codec data"));
        }
        let b21 = data[21];
        assert(b21 & 0x03u8 <= 3) by (bit_vector);
        let nal_unit_header_length = (b21 & 0x03) + 1;
        let array_count = data[22];
        let mut offset: usize = 23;
        let mut sets: Vec<Vec<u8>> = Vec::new();
        let mut has_vps = false;
        let mut has_sps = false;
        let mut has_pps = false;
        assert(sets.deep_view() =~= Seq::<Seq<u8>>::empty());
        let mut i: u8 = 0;
        while i < array_count
            invariant
                23 <= data@.len(),
                array_count == data@[22],
                i <= array_count,
                spec_hvcc_arrays(data@, i as nat) matches Ok((s, o, v, sp, p))
                    && sets.deep_view() == s && offset == o && has_vps == v && has_sps == sp && has_pps == p,
            decreases array_count - i,
        {
            proof {
                lemma_hvcc_arrays_bounds(data@, i as nat);
            }
            if offset > data.len() || data.len() - offset < 3 {
                proof {
                    lemma_hvcc_arrays_error_persists(data@, (i + 1) as nat, array_count as nat);
                }
                return Err(VideoError::new("truncated hvcC parameter array"));
            }
            let nal_unit_type = data[offset] & 0x3f;
            offset = offset + 1;
            let nal_count = read_be_u16(data[offset], data[offset + 1]);
            offset = offset + 2;
            let ghost before = sets.deep_view();
            match read_parameter_sets(data, &mut offset, nal_count as usize, &mut sets) {
                Ok(()) => {},
                Err(e) => {
                    proof {
                        lemma_hvcc_arrays_error_persists(data@, (i + 1) as nat, array_count as nat);
                    }
                    return Err(e);
                },
            }
            if nal_count > 0 {
                match nal_unit_type {
                    32 => has_vps = true,
                    33 => has_sps = true,
                    34 => has_pps = true,
                    _ => {},
                }
            }
            i = i + 1;
        }
        if !has_vps || !has_sps || !has_pps {
            return Err(VideoError::new("hvcC codec data must include VPS, SPS and PPS"));
        }
        Ok(ParameterSets { nal_unit_header_length, sets })
    }

    /// The byte length of each parameter set, in order.
    pub fn parameter_set_sizes(&self) -> (sizes: Vec<usize>)
        ensures
            sizes@.len() == self.sets@.len(),
            forall|i: int| 0 <= i < sizes@.len() ==> sizes@[i] == self.sets@[i]@.len(),
    {
        let mut sizes: Vec<usize> = Vec::new();
        let mut i: usize = 0;
        while i < self.sets.len()
            invariant
                i <= self.sets@.len(),
                sizes@.len() == i,
                forall|j: int| 0 <= j < i ==> sizes@[j] == self.sets@[j]@.len(),
            decreases self.sets@.len() - i,
        {
            sizes.push(self.sets[i].len());
            i = i + 1;
        }
        sizes
    }
}

} // verus!
