//! External Data Representation (XDR), as defined by RFC 4506: big-endian
//! 32-bit primitives and length-prefixed opaque data padded to 4 bytes.
use vstd::prelude::*;

use vstd::utf8::encode_utf8;

use crate::error::Error;

verus! {

/// Big-endian bytes of a 32-bit word.
pub open spec fn u32_be(x: u32) -> Seq<u8> {
    seq![(x >> 24u32) as u8, (x >> 16u32) as u8, (x >> 8u32) as u8, x as u8]
}

/// The 32-bit word whose big-endian bytes are the first four of `s`.
pub open spec fn be_u32(s: Seq<u8>) -> u32
    recommends
        s.len() >= 4,
{
    ((s[0] as u32) << 24u32) | ((s[1] as u32) << 16u32) | ((s[2] as u32) << 8u32) | (s[3] as u32)
}

/// Number of zero bytes that follow `n` data bytes to reach a 4-byte boundary.
pub open spec fn pad_len(n: nat) -> nat {
    if n % 4 == 0 {
        0
    } else {
        (4 - n % 4) as nat
    }
}

/// `n` zero bytes.
pub open spec fn zeros(n: nat) -> Seq<u8> {
    Seq::new(n, |i: int| 0u8)
}

/// XDR image of a boolean: the word 1 or 0.
pub open spec fn bool_xdr(b: bool) -> Seq<u8> {
    u32_be(if b { 1u32 } else { 0u32 })
}

/// XDR image of a signed word: its two's complement bits.
pub open spec fn i32_xdr(x: i32) -> Seq<u8> {
    u32_be(x as u32)
}

/// XDR image of opaque data: length word, data, zero padding.
pub open spec fn opaque_xdr(b: Seq<u8>) -> Seq<u8> {
    u32_be(b.len() as u32) + b + zeros(pad_len(b.len()))
}

/// Decoding a word from the head of `s`: the value and what follows it.
pub open spec fn parse_u32(s: Seq<u8>) -> Option<(u32, Seq<u8>)> {
    if s.len() < 4 {
        None
    } else {
        Some((be_u32(s), s.skip(4)))
    }
}

/// Decoding a signed word from the head of `s`.
pub open spec fn parse_i32(s: Seq<u8>) -> Option<(i32, Seq<u8>)> {
    match parse_u32(s) {
        Some((v, rest)) => Some((v as i32, rest)),
        None => None,
    }
}

/// Decoding a word that must hold a 16-bit value.
pub open spec fn parse_u16(s: Seq<u8>) -> Option<(u16, Seq<u8>)> {
    match parse_u32(s) {
        Some((v, rest)) => if v <= 0xffff {
            Some((v as u16, rest))
        } else {
            None
        },
        None => None,
    }
}

/// Decoding opaque data from the head of `s`: the data and what follows its
/// padding. Fails when the declared data and padding are not all present,
/// or when a padding byte is not zero.
pub open spec fn parse_opaque(s: Seq<u8>) -> Option<(Seq<u8>, Seq<u8>)> {
    match parse_u32(s) {
        Some((n, rest)) => if rest.len() < n + pad_len(n as nat) {
            None
        } else if rest.subrange(n as int, n + pad_len(n as nat)) != zeros(pad_len(n as nat)) {
            None
        } else {
            Some((rest.take(n as int), rest.skip(n + pad_len(n as nat))))
        },
        None => None,
    }
}

/// Values that have an XDR image and can append it to a buffer.
pub trait XdrPack: Sized {
    /// The XDR image of this value.
    spec fn xdr(&self) -> Seq<u8>;

    /// Whether every length inside this value fits in a 32-bit word.
    spec fn xdr_fits(&self) -> bool;

    /// Consume self, appending its XDR image to `out`.
    fn pack_xdr(self, out: &mut Vec<u8>)
        requires
            self.xdr_fits(),
        ensures
            final(out)@ == old(out)@ + self.xdr(),
    ;
}

/// Appends the big-endian bytes of `x`.
pub fn pack_u32(x: u32, out: &mut Vec<u8>)
    ensures
        final(out)@ == old(out)@ + u32_be(x),
{
    out.push((x >> 24u32) as u8);
    out.push((x >> 16u32) as u8);
    out.push((x >> 8u32) as u8);
    out.push(x as u8);
    assert(final(out)@ =~= old(out)@ + u32_be(x));
}

/// Appends opaque data: its length, the bytes and zero padding.
pub fn pack_opaque(data: &[u8], out: &mut Vec<u8>)
    requires
        data@.len() <= u32::MAX,
    ensures
        final(out)@ == old(out)@ + opaque_xdr(data@),
{
    let len = data.len();
    pack_u32(len as u32, out);
    out.extend_from_slice(data);
    let pad: usize = if len % 4 == 0 {
        0
    } else {
        4 - len % 4
    };
    let ghost before = out@;
    let mut i: usize = 0;
    while i < pad
        invariant
            pad == pad_len(len as nat),
            i <= pad,
            out@ == before + zeros(i as nat),
        decreases pad - i,
    {
        out.push(0u8);
        i += 1;
        assert(out@ =~= before + zeros(i as nat));
    }
    assert(final(out)@ =~= old(out)@ + opaque_xdr(data@));
}

impl XdrPack for u32 {
    open spec fn xdr(&self) -> Seq<u8> {
        u32_be(*self)
    }

    open spec fn xdr_fits(&self) -> bool {
        true
    }

    fn pack_xdr(self, out: &mut Vec<u8>) {
        pack_u32(self, out);
    }
}

impl XdrPack for i32 {
    open spec fn xdr(&self) -> Seq<u8> {
        i32_xdr(*self)
    }

    open spec fn xdr_fits(&self) -> bool {
        true
    }

    fn pack_xdr(self, out: &mut Vec<u8>) {
        pack_u32(self as u32, out);
    }
}

impl XdrPack for bool {
    open spec fn xdr(&self) -> Seq<u8> {
        bool_xdr(*self)
    }

    open spec fn xdr_fits(&self) -> bool {
        true
    }

    fn pack_xdr(self, out: &mut Vec<u8>) {
        pack_u32(if self { 1u32 } else { 0u32 }, out);
    }
}

impl XdrPack for Vec<u8> {
    /// Opaque data, prefixed by its length.
    open spec fn xdr(&self) -> Seq<u8> {
        opaque_xdr(self@)
    }

    open spec fn xdr_fits(&self) -> bool {
        self@.len() <= u32::MAX
    }

    fn pack_xdr(self, out: &mut Vec<u8>) {
        pack_opaque(self.as_slice(), out);
    }
}

impl XdrPack for String {
    /// A string is opaque data holding its UTF-8 bytes.
    open spec fn xdr(&self) -> Seq<u8> {
        opaque_xdr(encode_utf8(self@))
    }

    open spec fn xdr_fits(&self) -> bool {
        encode_utf8(self@).len() <= u32::MAX
    }

    fn pack_xdr(self, out: &mut Vec<u8>) {
        pack_opaque(self.as_str().as_bytes(), out);
    }
}

/// Removes the first `n` bytes of `src` and returns them.
fn take_head(src: &mut Vec<u8>, n: usize) -> (head: Vec<u8>)
    requires
        n <= old(src)@.len(),
    ensures
        head@ == old(src)@.take(n as int),
        final(src)@ == old(src)@.skip(n as int),
{
    let mut rest = src.split_off(n);
    std::mem::swap(src, &mut rest);
    rest
}

/// Reads a big-endian word from the head of `src`, removing it. On short
/// input `src` is left as it was.
pub fn unpack_u32(src: &mut Vec<u8>) -> (r: Result<u32, Error>)
    ensures
        match parse_u32(old(src)@) {
            Some((v, rest)) => r == Ok::<u32, Error>(v) && final(src)@ == rest,
            None => r matches Err(Error::BadResponse(_)) && final(src)@ == old(src)@,
        },
{
    if src.len() < 4 {
        return Err(Error::bad_response("Not enough bytes to read u32"));
    }
    let v = ((src[0] as u32) << 24u32) | ((src[1] as u32) << 16u32) | ((src[2] as u32) << 8u32)
        | (src[3] as u32);
    let _ = take_head(src, 4);
    Ok(v)
}

/// Reads a big-endian signed word from the head of `src`, removing it.
pub fn unpack_i32(src: &mut Vec<u8>) -> (r: Result<i32, Error>)
    ensures
        match parse_i32(old(src)@) {
            Some((v, rest)) => r == Ok::<i32, Error>(v) && final(src)@ == rest,
            None => r matches Err(Error::BadResponse(_)) && final(src)@ == old(src)@,
        },
{
    if src.len() < 4 {
        return Err(Error::bad_response("Not enough bytes to read i32"));
    }
    let v = unpack_u32(src)?;
    Ok(v as i32)
}

/// Reads a word that must hold a 16-bit value, removing it. A larger value
/// is a bad response; its word is still consumed. On short input `src` is
/// left as it was.
pub fn unpack_u16(src: &mut Vec<u8>) -> (r: Result<u16, Error>)
    ensures
        match parse_u32(old(src)@) {
            Some((v, rest)) => final(src)@ == rest && (v <= 0xffff ==> r == Ok::<u16, Error>(
                v as u16,
            )) && (v > 0xffff ==> (r matches Err(Error::BadResponse(_)))),
            None => r matches Err(Error::BadResponse(_)) && final(src)@ == old(src)@,
        },
        r is Ok == (parse_u16(old(src)@) is Some),
        r is Ok ==> r == Ok::<u16, Error>(parse_u16(old(src)@)->Some_0.0),
{
    let v = match unpack_u32(src) {
        Ok(v) => v,
        Err(e) => return Err(e),
    };
    if v > 0xffff {
        return Err(Error::bad_response("Value does not represent a 16-bit value"));
    }
    Ok(v as u16)
}

/// Reads opaque data (length, bytes, padding) from the head of `src`,
/// removing it. When the declared bytes and padding are not all there, or a
/// padding byte is not zero, the response is bad and `src` is left as it
/// was.
pub fn unpack_opaque(src: &mut Vec<u8>) -> (r: Result<Vec<u8>, Error>)
    ensures
        match parse_opaque(old(src)@) {
            Some((data, rest)) => r matches Ok(v) && v@ == data && final(src)@ == rest,
            None => r matches Err(Error::BadResponse(_)) && final(src)@ == old(src)@,
        },
{
    if src.len() < 4 {
        return Err(Error::bad_response("Not enough bytes to read u32"));
    }
    let length = ((src[0] as u32) << 24u32) | ((src[1] as u32) << 16u32) | ((src[2] as u32)
        << 8u32) | (src[3] as u32);
    let padding: u64 = if length % 4 == 0 {
        0
    } else {
        (4 - length % 4) as u64
    };
    if ((src.len() - 4) as u64) < (length as u64) + padding {
        return Err(Error::bad_response("Not enough bytes to read opaque type"));
    }
    let start = 4 + length as usize;
    let pad = padding as usize;
    let ghost rest = old(src)@.skip(4);
    let mut i: usize = 0;
    while i < pad
        invariant
            src@ == old(src)@,
            src@.len() >= 4,
            length == be_u32(src@),
            rest == src@.skip(4),
            start == 4 + length,
            pad == pad_len(length as nat),
            start + pad <= src@.len(),
            i <= pad,
            rest.subrange(length as int, length + i) == zeros(i as nat),
        decreases pad - i,
    {
        if src[start + i] != 0 {
            assert(rest.subrange(length as int, length + pad)[i as int] == src@[start + i]);
            assert(zeros(pad as nat)[i as int] == 0u8);
            assert(rest.subrange(length as int, length + pad) != zeros(pad as nat));
            return Err(Error::bad_response("Opaque padding is not zero"));
        }
        assert(rest.subrange(length as int, length + i + 1) =~= zeros((i + 1) as nat));
        i += 1;
    }
    let _ = take_head(src, 4);
    let data = take_head(src, length as usize);
    let _ = take_head(src, padding as usize);
    assert(final(src)@ =~= old(src)@.skip(4).skip(length + pad_len(length as nat)));
    Ok(data)
}

/// A word packed and read back gives the same word, and the rest of the
/// buffer is untouched.
pub proof fn lemma_u32_round_trip(x: u32, rest: Seq<u8>)
    ensures
        parse_u32(u32_be(x) + rest) == Some((x, rest)),
{
    let s = u32_be(x) + rest;
    let b0 = (x >> 24u32) as u8;
    let b1 = (x >> 16u32) as u8;
    let b2 = (x >> 8u32) as u8;
    let b3 = x as u8;
    assert(s[0] == b0 && s[1] == b1 && s[2] == b2 && s[3] == b3);
    assert(((b0 as u32) << 24u32) | ((b1 as u32) << 16u32) | ((b2 as u32) << 8u32) | (b3 as u32)
        == x) by (bit_vector)
        requires
            b0 == (x >> 24u32) as u8,
            b1 == (x >> 16u32) as u8,
            b2 == (x >> 8u32) as u8,
            b3 == x as u8,
    ;
    assert(s.skip(4) =~= rest);
}

/// A signed word packed and read back gives the same value.
pub proof fn lemma_i32_round_trip(x: i32, rest: Seq<u8>)
    ensures
        parse_i32(i32_xdr(x) + rest) == Some((x, rest)),
{
    lemma_u32_round_trip(x as u32, rest);
    assert(((x as u32) as i32) == x) by (bit_vector);
}

/// A boolean packs to the word 1 or 0, which reads back as that word.
pub proof fn lemma_bool_round_trip(b: bool, rest: Seq<u8>)
    ensures
        parse_u32(bool_xdr(b) + rest) == Some((if b { 1u32 } else { 0u32 }, rest)),
        (parse_u32(bool_xdr(b) + rest).unwrap().0 != 0) == b,
{
    lemma_u32_round_trip(if b { 1u32 } else { 0u32 }, rest);
}

/// Opaque data packed and read back gives the same bytes; the packed image
/// is a whole number of 4-byte words and the rest of the buffer is untouched.
pub proof fn lemma_opaque_round_trip(b: Seq<u8>, rest: Seq<u8>)
    requires
        b.len() <= u32::MAX,
    ensures
        parse_opaque(opaque_xdr(b) + rest) == Some((b, rest)),
        opaque_xdr(b).len() % 4 == 0,
        0 <= opaque_xdr(b).len() - b.len() - 4 <= 3,
{
    let n = b.len() as u32;
    let tail = b + zeros(pad_len(b.len())) + rest;
    assert(opaque_xdr(b) + rest =~= u32_be(n) + tail);
    lemma_u32_round_trip(n, tail);
    assert(tail.take(n as int) =~= b);
    assert(tail.subrange(n as int, n + pad_len(n as nat)) =~= zeros(pad_len(n as nat)));
    assert(tail.skip(n + pad_len(n as nat)) =~= rest);
}

/// A string packed as opaque data reads back as its UTF-8 bytes.
pub proof fn lemma_string_round_trip(s: String, rest: Seq<u8>)
    requires
        s.xdr_fits(),
    ensures
        parse_opaque(s.xdr() + rest) == Some((encode_utf8(s@), rest)),
{
    lemma_opaque_round_trip(encode_utf8(s@), rest);
}

} // verus!
