//! Binary waveform framing: IEEE-488.2 definite-length blocks, the 346-byte
//! little-endian waveform descriptor, and raw sample codes.
use vstd::prelude::*;

use vstd::slice::slice_subrange;

use crate::error::Error;

verus! {

/// Size of the waveform descriptor.
pub const WAVEDESC_LEN: usize = 346;

/// Most points asked for in one waveform transfer.
pub const WINDOW_POINTS: u32 = 20000;

/// Whether `b` is an ASCII decimal digit.
pub open spec fn is_digit(b: u8) -> bool {
    48 <= b <= 57
}

/// The value of a sequence of decimal digits.
pub open spec fn dec_value(d: Seq<u8>) -> int
    decreases d.len(),
{
    if d.len() == 0 {
        0
    } else {
        dec_value(d.drop_last()) * 10 + (d.last() - 48)
    }
}

/// Whether every byte of `d` is a decimal digit.
pub open spec fn all_digits(d: Seq<u8>) -> bool {
    forall|i: int| 0 <= i < d.len() ==> is_digit(#[trigger] d[i])
}

/// Number of length digits that a block prefix `#N` announces, when it is
/// well formed: '#' then a digit from 1 to 9.
pub open spec fn block_prefix_digits(p: Seq<u8>) -> Option<nat> {
    if p.len() == 2 && p[0] == 35 && 49 <= p[1] <= 57 {
        Some((p[1] - 48) as nat)
    } else {
        None
    }
}

/// The number of length digits announced by the two-byte prefix `#N` of a
/// definite-length block. Anything else is a bad response.
pub fn block_digit_count(prefix: &[u8]) -> (r: Result<usize, Error>)
    ensures
        match block_prefix_digits(prefix@) {
            Some(n) => r == Ok::<usize, Error>(n as usize),
            None => r matches Err(Error::BadResponse(_)),
        },
{
    if prefix.len() != 2 || prefix[0] != 35 || prefix[1] < 49 || prefix[1] > 57 {
        return Err(Error::bad_response("Malformed block header"));
    }
    Ok((prefix[1] - 48) as usize)
}

/// A decimal number made of at most nine digits is below 10^9.
proof fn lemma_dec_value_bound(d: Seq<u8>)
    requires
        all_digits(d),
    ensures
        0 <= dec_value(d) < pow10(d.len()),
    decreases d.len(),
{
    if d.len() > 0 {
        lemma_dec_value_bound(d.drop_last());
        assert(is_digit(d[d.len() - 1]));
    }
}

/// 10 to the power `n`.
pub open spec fn pow10(n: nat) -> int
    decreases n,
{
    if n == 0 {
        1
    } else {
        10 * pow10((n - 1) as nat)
    }
}

/// The payload length written by the length digits of a block: at most nine
/// decimal digits. Anything else is a bad response.
pub fn block_length(digits: &[u8]) -> (r: Result<usize, Error>)
    ensures
        digits@.len() <= 9 && all_digits(digits@) ==> (r matches Ok(v) && v as int == dec_value(
            digits@,
        )),
        !(digits@.len() <= 9 && all_digits(digits@)) ==> (r matches Err(Error::BadResponse(_))),
{
    if digits.len() > 9 {
        return Err(Error::bad_response("Block length has too many digits"));
    }
    let mut value: u32 = 0;
    let mut i: usize = 0;
    while i < digits.len()
        invariant
            i <= digits@.len() <= 9,
            all_digits(digits@.take(i as int)),
            value == dec_value(digits@.take(i as int)),
            value < pow10(i as nat),
        decreases digits@.len() - i,
    {
        let b = digits[i];
        if b < 48 || b > 57 {
            assert(!all_digits(digits@));
            return Err(Error::bad_response("Block length is not decimal"));
        }
        assert(digits@.take(i + 1).drop_last() =~= digits@.take(i as int));
        assert(pow10(i as nat) <= 100_000_000) by {
            lemma_pow10_mono(i as nat, 8);
        }
        value = value * 10 + (b - 48) as u32;
        i += 1;
        assert(all_digits(digits@.take(i as int)));
    }
    assert(digits@.take(i as int) =~= digits@);
    assert(pow10(i as nat) <= 1_000_000_000) by {
        lemma_pow10_mono(i as nat, 9);
    }
    Ok(value as usize)
}

/// Powers of ten grow with the exponent.
proof fn lemma_pow10_mono(a: nat, b: nat)
    requires
        a <= b,
    ensures
        pow10(a) <= pow10(b),
        pow10(8) == 100_000_000,
        pow10(9) == 1_000_000_000,
    decreases b,
{
    reveal_with_fuel(pow10, 9);
    if a < b {
        lemma_pow10_mono(a, (b - 1) as nat);
        lemma_pow10_pos((b - 1) as nat);
    }
}

proof fn lemma_pow10_pos(n: nat)
    ensures
        pow10(n) >= 1,
    decreases n,
{
    if n > 0 {
        lemma_pow10_pos((n - 1) as nat);
    }
}

/// Decoding a whole definite-length block from the head of `s`: its payload
/// and the bytes after it.
pub open spec fn parse_block(s: Seq<u8>) -> Option<(Seq<u8>, Seq<u8>)> {
    if s.len() < 2 {
        None
    } else {
        match block_prefix_digits(s.take(2)) {
            None => None,
            Some(n) => {
                let h = 2 + n as int;
                if s.len() < h || !all_digits(s.subrange(2, h)) {
                    None
                } else {
                    let len = dec_value(s.subrange(2, h));
                    if s.len() < h + len {
                        None
                    } else {
                        Some((s.subrange(h, h + len), s.skip(h + len)))
                    }
                }
            },
        }
    }
}

/// Splits a definite-length block `#N<digits><payload>` off the head of
/// `input`: the payload and whatever follows it. A malformed header or a
/// payload shorter than announced is a bad response.
pub fn split_block(input: &[u8]) -> (r: Result<(Vec<u8>, Vec<u8>), Error>)
    ensures
        match parse_block(input@) {
            Some((payload, rest)) => r matches Ok(v) && v.0@ == payload && v.1@ == rest,
            None => r matches Err(Error::BadResponse(_)),
        },
{
    if input.len() < 2 {
        return Err(Error::bad_response("Block header is short"));
    }
    let n = match block_digit_count(slice_subrange(input, 0, 2)) {
        Ok(n) => n,
        Err(e) => return Err(e),
    };
    assert(input@.subrange(0, 2) =~= input@.take(2));
    if input.len() - 2 < n {
        return Err(Error::bad_response("Block length is short"));
    }
    let len = match block_length(slice_subrange(input, 2, 2 + n)) {
        Ok(l) => l,
        Err(e) => return Err(e),
    };
    if input.len() - 2 - n < len {
        return Err(Error::bad_response("Block payload is short"));
    }
    let mut payload: Vec<u8> = Vec::new();
    payload.extend_from_slice(slice_subrange(input, 2 + n, 2 + n + len));
    let mut rest: Vec<u8> = Vec::new();
    rest.extend_from_slice(slice_subrange(input, 2 + n + len, input.len()));
    assert(rest@ =~= input@.skip(2 + n + len));
    Ok((payload, rest))
}

/// Little-endian 16-bit value at `off`.
pub open spec fn le_u16(s: Seq<u8>, off: int) -> u16 {
    (s[off] as u16) | ((s[off + 1] as u16) << 8u16)
}

/// Little-endian 32-bit value at `off`.
pub open spec fn le_u32(s: Seq<u8>, off: int) -> u32 {
    (s[off] as u32) | ((s[off + 1] as u32) << 8u32) | ((s[off + 2] as u32) << 16u32) | ((s[off
        + 3] as u32) << 24u32)
}

/// Little-endian 64-bit value at `off`.
pub open spec fn le_u64(s: Seq<u8>, off: int) -> u64 {
    (le_u32(s, off) as u64) | ((le_u32(s, off + 4) as u64) << 32u64)
}

fn read_le_u16(s: &[u8], off: usize) -> (r: u16)
    requires
        off + 2 <= s@.len(),
    ensures
        r == le_u16(s@, off as int),
{
    (s[off] as u16) | ((s[off + 1] as u16) << 8u16)
}

fn read_le_u32(s: &[u8], off: usize) -> (r: u32)
    requires
        off + 4 <= s@.len(),
    ensures
        r == le_u32(s@, off as int),
{
    (s[off] as u32) | ((s[off + 1] as u32) << 8u32) | ((s[off + 2] as u32) << 16u32) | ((s[off
        + 3] as u32) << 24u32)
}

fn read_le_u64(s: &[u8], off: usize) -> (r: u64)
    requires
        off + 8 <= s@.len(),
    ensures
        r == le_u64(s@, off as int),
{
    let _len = s.len();
    (read_le_u32(s, off) as u64) | ((read_le_u32(s, off + 4) as u64) << 32u64)
}

fn copy_bytes(s: &[u8], off: usize, n: usize) -> (r: Vec<u8>)
    requires
        off + n <= s@.len(),
    ensures
        r@ == s@.subrange(off as int, off + n),
{
    let _len = s.len();
    let mut v: Vec<u8> = Vec::new();
    v.extend_from_slice(slice_subrange(s, off, off + n));
    v
}

/// The waveform descriptor. Floating-point fields are kept as their IEEE-754
/// bit patterns.
#[derive(Debug)]
pub struct WaveDescData {
    pub descriptor: Vec<u8>,
    pub template: Vec<u8>,
    /// 0 for byte samples, 1 for 16-bit samples
    pub comm_type: u16,
    pub comm_order: u16,
    pub length: u32,
    pub wave_len: u32,
    pub name: Vec<u8>,
    pub n_points: u32,
    pub start_point: u32,
    pub point_interval: u32,
    pub read_frames: u32,
    pub sum_frames: u32,
    pub vert_gain_bits: u32,
    pub vert_offset_bits: u32,
    pub code_per_div_bits: u32,
    pub adc_bit: u16,
    pub frame_idx: u16,
    pub horiz_interval_bits: u32,
    pub horiz_offset_bits: u64,
    pub time_base: u16,
    pub coupling: u16,
    pub attenuation_bits: u32,
    pub fixed_vert_gain: u16,
    pub bwidth_limit: u16,
    pub source: u16,
}

/// Whether `w` holds the fields of the descriptor bytes `s`, each read at
/// its offset in the packed layout.
pub open spec fn wavedesc_fields(w: WaveDescData, s: Seq<u8>) -> bool {
    &&& w.descriptor@ == s.subrange(0, 16)
    &&& w.template@ == s.subrange(16, 32)
    &&& w.comm_type == le_u16(s, 32)
    &&& w.comm_order == le_u16(s, 34)
    &&& w.length == le_u32(s, 36)
    &&& w.wave_len == le_u32(s, 60)
    &&& w.name@ == s.subrange(76, 92)
    &&& w.n_points == le_u32(s, 116)
    &&& w.start_point == le_u32(s, 132)
    &&& w.point_interval == le_u32(s, 136)
    &&& w.read_frames == le_u32(s, 144)
    &&& w.sum_frames == le_u32(s, 148)
    &&& w.vert_gain_bits == le_u32(s, 156)
    &&& w.vert_offset_bits == le_u32(s, 160)
    &&& w.code_per_div_bits == le_u32(s, 164)
    &&& w.adc_bit == le_u16(s, 172)
    &&& w.frame_idx == le_u16(s, 174)
    &&& w.horiz_interval_bits == le_u32(s, 176)
    &&& w.horiz_offset_bits == le_u64(s, 180)
    &&& w.time_base == le_u16(s, 324)
    &&& w.coupling == le_u16(s, 326)
    &&& w.attenuation_bits == le_u32(s, 328)
    &&& w.fixed_vert_gain == le_u16(s, 332)
    &&& w.bwidth_limit == le_u16(s, 334)
    &&& w.source == le_u16(s, 344)
}

impl WaveDescData {
    /// Decodes a descriptor field by field. Data of any length but 346
    /// bytes is a bad response.
    pub fn from_bytes(data: &[u8]) -> (r: Result<Self, Error>)
        ensures
            data@.len() == WAVEDESC_LEN ==> (r matches Ok(w) && wavedesc_fields(w, data@)),
            data@.len() != WAVEDESC_LEN ==> (r matches Err(Error::BadResponse(_))),
    {
        if data.len() != WAVEDESC_LEN {
            return Err(Error::bad_response("Waveform descriptor has the wrong size"));
        }
        Ok(
            WaveDescData {
                descriptor: copy_bytes(data, 0, 16),
                template: copy_bytes(data, 16, 16),
                comm_type: read_le_u16(data, 32),
                comm_order: read_le_u16(data, 34),
                length: read_le_u32(data, 36),
                wave_len: read_le_u32(data, 60),
                name: copy_bytes(data, 76, 16),
                n_points: read_le_u32(data, 116),
                start_point: read_le_u32(data, 132),
                point_interval: read_le_u32(data, 136),
                read_frames: read_le_u32(data, 144),
                sum_frames: read_le_u32(data, 148),
                vert_gain_bits: read_le_u32(data, 156),
                vert_offset_bits: read_le_u32(data, 160),
                code_per_div_bits: read_le_u32(data, 164),
                adc_bit: read_le_u16(data, 172),
                frame_idx: read_le_u16(data, 174),
                horiz_interval_bits: read_le_u32(data, 176),
                horiz_offset_bits: read_le_u64(data, 180),
                time_base: read_le_u16(data, 324),
                coupling: read_le_u16(data, 326),
                attenuation_bits: read_le_u32(data, 328),
                fixed_vert_gain: read_le_u16(data, 332),
                bwidth_limit: read_le_u16(data, 334),
                source: read_le_u16(data, 344),
            },
        )
    }
}

/// Number of sample bytes that hold `count` points: one per point for byte
/// samples (comm_type 0), two otherwise.
pub open spec fn sample_byte_len(comm_type: u16, count: nat) -> nat {
    if comm_type == 0 {
        count
    } else {
        2 * count
    }
}

/// Number of sample bytes that hold `count` points.
pub fn sample_bytes(comm_type: u16, count: usize) -> (r: usize)
    requires
        sample_byte_len(comm_type, count as nat) <= usize::MAX,
    ensures
        r == sample_byte_len(comm_type, count as nat),
{
    if comm_type == 0 {
        count
    } else {
        count * 2
    }
}

/// Sample code `i` of raw sample bytes: a signed byte, or a signed 16-bit
/// little-endian word.
pub open spec fn sample_code(comm_type: u16, raw: Seq<u8>, i: int) -> i16 {
    if comm_type == 0 {
        (raw[i] as i8) as i16
    } else {
        le_u16(raw, 2 * i) as i16
    }
}

/// Number of samples in `n` raw bytes.
pub open spec fn sample_count(comm_type: u16, n: nat) -> nat {
    if comm_type == 0 {
        n
    } else {
        n / 2
    }
}

/// The signed sample codes held in raw sample bytes. Word samples need an
/// even number of bytes.
pub fn decode_sample_codes(comm_type: u16, raw: &[u8]) -> (r: Vec<i16>)
    requires
        comm_type == 0 || raw@.len() % 2 == 0,
    ensures
        r@.len() == sample_count(comm_type, raw@.len()),
        forall|i: int| 0 <= i < r@.len() ==> r@[i] == #[trigger] sample_code(comm_type, raw@, i),
{
    let mut out: Vec<i16> = Vec::new();
    let count = if comm_type == 0 {
        raw.len()
    } else {
        raw.len() / 2
    };
    let n = raw.len();
    let mut i: usize = 0;
    while i < count
        invariant
            n == raw@.len(),
            count == sample_count(comm_type, raw@.len()),
            comm_type == 0 || raw@.len() % 2 == 0,
            i <= count,
            out@.len() == i,
            forall|k: int| 0 <= k < i ==> out@[k] == #[trigger] sample_code(comm_type, raw@, k),
        decreases count - i,
    {
        let code: i16 = if comm_type == 0 {
            (#[verifier::truncate] (raw[i] as i8)) as i16
        } else {
            assert(2 * i + 2 <= raw@.len());
            #[verifier::truncate] (read_le_u16(raw, 2 * i) as i16)
        };
        out.push(code);
        i += 1;
    }
    out
}

/// Sizes of the transfers that fetch `n_points` points: full windows of
/// WINDOW_POINTS, then what is left.
pub fn sample_windows(n_points: u32) -> (r: Vec<u32>)
    ensures
        forall|i: int| 0 <= i < r@.len() ==> 0 < #[trigger] r@[i] <= WINDOW_POINTS,
        forall|i: int| 0 <= i < r@.len() - 1 ==> #[trigger] r@[i] == WINDOW_POINTS,
        window_total(r@) == n_points,
{
    let mut out: Vec<u32> = Vec::new();
    let mut done: u32 = 0;
    while done < n_points
        invariant
            done <= n_points,
            window_total(out@) == done,
            forall|i: int| 0 <= i < out@.len() ==> 0 < #[trigger] out@[i] <= WINDOW_POINTS,
            forall|i: int| 0 <= i < out@.len() - 1 ==> #[trigger] out@[i] == WINDOW_POINTS,
            out@.len() > 0 && done < n_points ==> out@.last() == WINDOW_POINTS,
        decreases n_points - done,
    {
        let left = n_points - done;
        let take = if left > WINDOW_POINTS {
            WINDOW_POINTS
        } else {
            left
        };
        let ghost before = out@;
        out.push(take);
        assert(out@.drop_last() =~= before);
        done = done + take;
    }
    out
}

/// Sum of window sizes.
pub open spec fn window_total(w: Seq<u32>) -> int
    decreases w.len(),
{
    if w.len() == 0 {
        0
    } else {
        window_total(w.drop_last()) + w.last()
    }
}

} // verus!
