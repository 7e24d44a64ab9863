//! Structural checks on H.264 Annex-B NAL units: the start code and the
//! unit type. No entropy decoding happens here.
use vstd::prelude::*;

verus! {

/// Sequence parameter set.
pub const NAL_TYPE_SPS: u8 = 7;

/// Picture parameter set.
pub const NAL_TYPE_PPS: u8 = 8;

/// Slice of an IDR (key) picture.
pub const NAL_TYPE_IDR: u8 = 5;

/// Slice of a non-IDR (delta) picture.
pub const NAL_TYPE_NON_IDR: u8 = 1;

/// Length of the Annex-B start code that begins `b`: 4 for `00 00 00 01`,
/// 3 for `00 00 01`, and 0 when there is none.
pub open spec fn start_code_len(b: Seq<u8>) -> int {
    if b.len() >= 4 && b[0] == 0 && b[1] == 0 && b[2] == 0 && b[3] == 1 {
        4
    } else if b.len() >= 3 && b[0] == 0 && b[1] == 0 && b[2] == 1 {
        3
    } else {
        0
    }
}

/// A NAL unit is at least five bytes long and begins with a start code.
pub open spec fn nal_valid(b: Seq<u8>) -> bool {
    b.len() >= 5 && start_code_len(b) > 0
}

/// The five-bit type of a valid unit, read from the byte after its start
/// code.
pub open spec fn nal_type(b: Seq<u8>) -> Option<u8> {
    if nal_valid(b) {
        Some((b[start_code_len(b)] % 32) as u8)
    } else {
        None
    }
}

/// Whether a start code begins at position `p` of `b`.
pub open spec fn start_code_at(b: Seq<u8>, p: int) -> bool {
    0 <= p <= b.len() && start_code_len(b.subrange(p, b.len() as int)) > 0
}

/// Where the second unit of `b` begins: the first start code after the
/// header byte of the first unit, if `b` begins with a start code.
pub open spec fn is_second_unit_start(b: Seq<u8>, p: int) -> bool {
    &&& start_code_len(b) > 0
    &&& start_code_len(b) < p < b.len()
    &&& start_code_at(b, p)
    &&& forall|q: int| start_code_len(b) < q < p ==> !start_code_at(b, q)
}

fn start_code_len_of(data: &[u8], p: usize) -> (r: usize)
    requires
        p <= data@.len(),
    ensures
        r as int == start_code_len(data@.subrange(p as int, data@.len() as int)),
{
    let ghost b = data@.subrange(p as int, data@.len() as int);
    let n = data.len() - p;
    if n >= 4 && data[p] == 0 && data[p + 1] == 0 && data[p + 2] == 0 && data[p + 3] == 1 {
        assert(b[0] == data@[p as int] && b[1] == data@[p + 1] && b[2] == data@[p + 2] && b[3] == data@[p + 3]);
        4
    } else if n >= 3 && data[p] == 0 && data[p + 1] == 0 && data[p + 2] == 1 {
        assert(b[0] == data@[p as int] && b[1] == data@[p + 1] && b[2] == data@[p + 2]);
        3
    } else {
        assert(n >= 4 ==> !(b[0] == 0 && b[1] == 0 && b[2] == 0 && b[3] == 1)) by {
            if n >= 4 {
                assert(b[0] == data@[p as int] && b[1] == data@[p + 1] && b[2] == data@[p + 2] && b[3] == data@[p + 3]);
            }
        }
        assert(n >= 3 ==> !(b[0] == 0 && b[1] == 0 && b[2] == 1)) by {
            if n >= 3 {
                assert(b[0] == data@[p as int] && b[1] == data@[p + 1] && b[2] == data@[p + 2]);
            }
        }
        0
    }
}

/// Whether `data` is a NAL unit: at least five bytes, beginning with a
/// three- or four-byte start code.
pub fn is_valid_nal_unit(data: &[u8]) -> (r: bool)
    ensures
        r == nal_valid(data@),
{
    let sc = start_code_len_of(data, 0);
    assert(data@.subrange(0, data@.len() as int) =~= data@);
    data.len() >= 5 && sc > 0
}

/// The type of a NAL unit (7 SPS, 8 PPS, 5 IDR, 1 non-IDR, ...), or `None`
/// when `data` is not a valid unit.
pub fn get_nal_unit_type(data: &[u8]) -> (r: Option<u8>)
    ensures
        r == nal_type(data@),
{
    let sc = start_code_len_of(data, 0);
    assert(data@.subrange(0, data@.len() as int) =~= data@);
    if data.len() >= 5 && sc > 0 {
        Some(data[sc] % 32)
    } else {
        None
    }
}

/// Where the second NAL unit of a buffer that holds two or more begins.
pub fn find_second_unit(data: &[u8]) -> (r: Option<usize>)
    ensures
        match r {
            Some(p) => is_second_unit_start(data@, p as int),
            None => forall|p: int| !is_second_unit_start(data@, p),
        },
{
    let sc = start_code_len_of(data, 0);
    assert(data@.subrange(0, data@.len() as int) =~= data@);
    if sc == 0 {
        return None;
    }
    let mut p: usize = sc + 1;
    while p < data.len()
        invariant
            sc as int == start_code_len(data@),
            sc > 0,
            sc < p <= data@.len() || (p == sc + 1 && data@.len() <= sc),
            forall|q: int| sc < q < p ==> !start_code_at(data@, q),
        decreases data.len() - p,
    {
        if start_code_len_of(data, p) > 0 {
            return Some(p);
        }
        p = p + 1;
    }
    None
}

} // verus!
