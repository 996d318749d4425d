//! Nibble packing for 4-bit quantized weights.
//!
//! Quantization itself — scaling floating-point weights to small signed
//! integers and back — lives outside the library.  What belongs here is
//! the exact bit-level layout: two signed 4-bit values per byte, low
//! nibble first, in two's complement.

use vstd::prelude::*;

verus! {

/// The 4-bit two's-complement pattern of a small signed value.
pub open spec fn spec_nibble(v: i8) -> nat {
    if v < 0 {
        (v + 16) as nat
    } else {
        v as nat
    }
}

/// The signed value of a 4-bit pattern.
pub open spec fn spec_nibble_val(n: nat) -> int {
    if n >= 8 {
        n - 16
    } else {
        n as int
    }
}

/// The number of bytes that packing `n` values takes.
pub open spec fn spec_pack_len(n: nat) -> nat {
    (n + 1) / 2
}

/// Byte `j` of the packed form: the low nibble holds value `2j`, the high
/// nibble value `2j + 1` or zero padding.
pub open spec fn spec_packed_byte(vals: Seq<i8>, j: int) -> u8 {
    let high: nat = if 2 * j + 1 < vals.len() {
        spec_nibble(vals[2 * j + 1])
    } else {
        0
    };
    (spec_nibble(vals[2 * j]) + 16 * high) as u8
}

/// The packed form of a run of small signed values.
pub open spec fn spec_pack(vals: Seq<i8>) -> Seq<u8> {
    Seq::new(spec_pack_len(vals.len()), |j: int| spec_packed_byte(vals, j))
}

/// The number of values unpacking yields when `len` values are asked of
/// `bytes` packed bytes: the requested count once an odd count is reached
/// mid-byte, and everything the bytes hold otherwise.
pub open spec fn spec_unpack_len(bytes: nat, len: nat) -> nat {
    if len % 2 == 1 && len < 2 * bytes {
        len
    } else {
        2 * bytes
    }
}

/// Value `k` of the unpacked form: the low nibble of byte `k / 2` for even
/// `k`, its high nibble for odd `k`.
pub open spec fn spec_unpacked_at(data: Seq<u8>, k: int) -> i8 {
    let b = data[k / 2] as nat;
    let n: nat = if k % 2 == 0 {
        b % 16
    } else {
        b / 16
    };
    spec_nibble_val(n) as i8
}

/// The unpacked form of a run of packed bytes.
pub open spec fn spec_unpack(data: Seq<u8>, len: nat) -> Seq<i8> {
    Seq::new(spec_unpack_len(data.len(), len), |k: int| spec_unpacked_at(data, k))
}

/// Pack signed 4-bit values, two per byte with the low nibble first.  The
/// last byte of an odd-length run carries zero padding in its high nibble.
pub fn pack_nibbles(values: &Vec<i8>) -> (out: Vec<u8>)
    requires
        forall|i: int| 0 <= i < values@.len() ==> -8 <= #[trigger] values@[i] <= 7,
    ensures
        out@ == spec_pack(values@),
{
    let n: usize = values.len();
    let mut out: Vec<u8> = Vec::new();
    let mut i: usize = 0;
    while i < n
        invariant
            n == values@.len(),
            i <= n,
            i % 2 == 0 || i == n,
            forall|q: int| 0 <= q < n ==> -8 <= #[trigger] values@[q] <= 7,
            out@.len() == (i + 1) / 2,
            forall|j: int| 0 <= j < out@.len() ==> out@[j] == spec_packed_byte(values@, j),
        decreases n - i,
    {
        let v0: i8 = values[i];
        let low: u8 = if v0 < 0 {
            (v0 + 16) as u8
        } else {
            v0 as u8
        };
        let high: u8 = if i + 1 < n {
            let v1: i8 = values[i + 1];
            if v1 < 0 {
                (v1 + 16) as u8
            } else {
                v1 as u8
            }
        } else {
            0
        };
        out.push(low + 16 * high);
        i = if i + 1 < n {
            i + 2
        } else {
            i + 1
        };
    }
    proof {
        assert(out@ =~= spec_pack(values@));
    }
    out
}

/// Unpack signed 4-bit values.  `len` is the number of values the caller
/// recorded when packing; when it is odd, the final padding nibble is
/// dropped, and when the bytes hold fewer or more values than `len`,
/// everything they hold is returned.
pub fn unpack_nibbles(data: &Vec<u8>, len: usize) -> (out: Vec<i8>)
    requires
        data@.len() <= usize::MAX / 2,
    ensures
        out@ == spec_unpack(data@, len as nat),
{
    let total: usize = 2 * data.len();
    let m: usize = if len % 2 == 1 && len < total {
        len
    } else {
        total
    };
    let mut out: Vec<i8> = Vec::new();
    let mut k: usize = 0;
    while k < m
        invariant
            m as nat == spec_unpack_len(data@.len(), len as nat),
            m <= 2 * data@.len(),
            k <= m,
            out@.len() == k,
            forall|q: int| 0 <= q < k ==> out@[q] == spec_unpacked_at(data@, q),
        decreases m - k,
    {
        let b: u8 = data[k / 2];
        let nib: u8 = if k % 2 == 0 {
            b % 16
        } else {
            b / 16
        };
        let v: i8 = if nib >= 8 {
            (nib as i8) - 16
        } else {
            nib as i8
        };
        out.push(v);
        k = k + 1;
    }
    proof {
        assert(out@ =~= spec_unpack(data@, len as nat));
    }
    out
}

/// Law (round trip): packing a run of values in the 4-bit range and
/// unpacking it with the original count restores the run exactly.
pub proof fn lemma_pack_unpack_round_trip(vals: Seq<i8>)
    requires
        forall|i: int| 0 <= i < vals.len() ==> -8 <= #[trigger] vals[i] <= 7,
    ensures
        spec_unpack(spec_pack(vals), vals.len()) == vals,
{
    let packed = spec_pack(vals);
    let back = spec_unpack(packed, vals.len());
    assert(back.len() == vals.len());
    assert forall|k: int| 0 <= k < vals.len() implies back[k] == vals[k] by {
        let j = k / 2;
        let b = packed[j] as nat;
        let lown = spec_nibble(vals[2 * j]);
        let highn: nat = if 2 * j + 1 < vals.len() {
            spec_nibble(vals[2 * j + 1])
        } else {
            0
        };
        assert(b == lown + 16 * highn);
        assert(lown < 16 && highn < 16);
        assert(b % 16 == lown && b / 16 == highn) by (nonlinear_arith)
            requires
                b == lown + 16 * highn,
                lown < 16,
                highn < 16,
        {
        }
        assert(k % 2 == 0 ==> k == 2 * j);
        assert(k % 2 == 1 ==> k == 2 * j + 1);
    }
    assert(back =~= vals);
}

} // verus!
