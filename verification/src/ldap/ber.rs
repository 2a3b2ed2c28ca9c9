//! The basic encoding rules (BER) as LDAP uses them: a tag, a length and the contents.
use vstd::prelude::*;
use vstd::string::{StringExecFns, StringSliceAdditionalSpecFns};
use vstd::utf8::{valid_utf8, decode_utf8};
use crate::text::{utf8_str, lemma_utf8_chars};
use crate::octets::{be_value, be_octets, pow256, read_be, push_be, lemma_be_roundtrip, lemma_be_octets_len};

verus! {

pub const BER_BOOLEAN: u8 = 0x01;
pub const BER_INTEGER: u8 = 0x02;
pub const BER_OCTET_STRING: u8 = 0x04;
pub const BER_NULL: u8 = 0x05;
pub const BER_ENUMERATED: u8 = 0x0A;
pub const BER_SEQUENCE: u8 = 0x30;
pub const BER_SET: u8 = 0x31;

pub type BerTag = u8;

/// What reading an element ran into.
#[derive(Copy, Clone, Debug, Eq, PartialEq)]
pub enum BerError {
    /// the octets ended before the element did
    UnexpectedEof,
    /// the element is not what was expected, or not valid
    InvalidData,
}



/// Reading the tag and length of an element at `p`, reading no further than `end`: the tag,
/// the length and the position of the contents. A length octet with the high bit clear is the
/// length; otherwise its low seven bits count the big-endian length octets that follow, at
/// most eight.
pub open spec fn ber_header_at(buf: Seq<u8>, p: int, end: int) -> Result<(u8, usize, int), BerError> {
    if p + 2 > end {
        Err(BerError::UnexpectedEof)
    } else if buf[p + 1] < 0x80 {
        Ok((buf[p], buf[p + 1] as usize, p + 2))
    } else if buf[p + 1] - 0x80 > 8 {
        Err(BerError::InvalidData)
    } else if p + 2 + (buf[p + 1] - 0x80) > end {
        Err(BerError::UnexpectedEof)
    } else {
        Ok((buf[p], be_value(buf, p + 2, (buf[p + 1] - 0x80) as nat) as usize, p + 2 + (buf[p + 1] - 0x80)))
    }
}

/// The tag and length octets that `write_ber` writes: the length itself below 128, else the
/// marker of eight length octets and the length in eight big-endian octets.
pub open spec fn ber_header(tag: u8, len: nat) -> Seq<u8> {
    if len < 128 {
        seq![tag, len as u8]
    } else {
        seq![tag, 0x88u8] + be_octets(len, 8)
    }
}

/// Reading the contents of an element with tag `tag` at `p`: the octets and the position after
/// them.
pub open spec fn ber_data_at(buf: Seq<u8>, p: int, end: int, tag: u8) -> Result<(Seq<u8>, int), BerError> {
    match ber_header_at(buf, p, end) {
        Err(e) => Err(e),
        Ok((t, len, q)) => if t != tag {
            Err(BerError::InvalidData)
        } else if q + len > end {
            Err(BerError::UnexpectedEof)
        } else {
            Ok((buf.subrange(q, q + len), q + len))
        },
    }
}

/// Reading a string element: its characters, when the contents are valid UTF-8.
pub open spec fn ber_str_at(buf: Seq<u8>, p: int, end: int, tag: u8) -> Result<(Seq<char>, int), BerError> {
    match ber_data_at(buf, p, end, tag) {
        Err(e) => Err(e),
        Ok((d, q)) => if valid_utf8(d) { Ok((decode_utf8(d), q)) } else { Err(BerError::InvalidData) },
    }
}

/// Reading an integer element: at most eight contents octets, taken big-endian as the low
/// octets of a 64-bit two's complement value.
pub open spec fn ber_int_at(buf: Seq<u8>, p: int, end: int, tag: u8) -> Result<(i64, int), BerError> {
    match ber_header_at(buf, p, end) {
        Err(e) => Err(e),
        Ok((t, len, q)) => if t != tag || len > 8 {
            Err(BerError::InvalidData)
        } else if q + len > end {
            Err(BerError::UnexpectedEof)
        } else {
            Ok((be_value(buf, q, len as nat) as i64, q + len))
        },
    }
}

/// Reading a boolean element: its tag and a length of one, then any octet but zero for true.
pub open spec fn ber_bool_at(buf: Seq<u8>, p: int, end: int, tag: u8) -> Result<(bool, int), BerError> {
    match ber_header_at(buf, p, end) {
        Err(e) => Err(e),
        Ok((t, len, q)) => if t != tag || len != 1 {
            Err(BerError::InvalidData)
        } else if q + 1 > end {
            Err(BerError::UnexpectedEof)
        } else {
            Ok((buf[q] != 0, q + 1))
        },
    }
}

/// Reading a null element: its tag and a length of zero.
pub open spec fn ber_null_at(buf: Seq<u8>, p: int, end: int, tag: u8) -> Result<int, BerError> {
    match ber_header_at(buf, p, end) {
        Err(e) => Err(e),
        Ok((t, len, q)) => if t != tag || len != 0 { Err(BerError::InvalidData) } else { Ok(q) },
    }
}

/// The contents octets that `write_ber_int` writes for `v`: its low 32 bits, big-endian.
pub open spec fn int_octets(v: i64) -> Seq<u8> {
    be_octets((v as i32 as u32) as nat, 4)
}

/// The element that `write_ber_data` writes.
pub open spec fn ber_data(tag: u8, data: Seq<u8>) -> Seq<u8> {
    ber_header(tag, data.len()) + data
}




/// Reads the tag and length of an element at `*pos`, reading no further than `end`. On
/// success `*pos` is moved to the contents; on failure it stays.
pub fn read_ber(buf: &[u8], pos: &mut usize, end: usize) -> (r: Result<(BerTag, usize), BerError>)
    requires
        *old(pos) <= end <= buf@.len(),
    ensures
        match ber_header_at(buf@, *old(pos) as int, end as int) {
            Err(e) => r == Err::<(BerTag, usize), BerError>(e) && *final(pos) == *old(pos),
            Ok((t, len, q)) => r == Ok::<(BerTag, usize), BerError>((t, len)) && *final(pos) == q,
        },
{
    let p = *pos;
    if end - p < 2 {
        return Err(BerError::UnexpectedEof);
    }
    let tag = buf[p];
    let b = buf[p + 1];
    if b < 0x80 {
        *pos = p + 2;
        return Ok((tag, b as usize));
    }
    let n = (b - 0x80) as usize;
    if n > 8 {
        return Err(BerError::InvalidData);
    }
    if end - p - 2 < n {
        return Err(BerError::UnexpectedEof);
    }
    let len = read_be(buf, p + 2, n);
    *pos = p + 2 + n;
    Ok((tag, len as usize))
}

/// Reads the contents of an element with the tag `tag`. On success `*pos` is moved past the
/// element; on failure it stays.
pub fn read_ber_data(buf: &[u8], pos: &mut usize, end: usize, tag: BerTag) -> (r: Result<Vec<u8>, BerError>)
    requires
        *old(pos) <= end <= buf@.len(),
    ensures
        match ber_data_at(buf@, *old(pos) as int, end as int, tag) {
            Err(e) => r == Err::<Vec<u8>, BerError>(e) && *final(pos) == *old(pos),
            Ok((d, q)) => r matches Ok(v) && v@ == d && *final(pos) == q,
        },
{
    let p = *pos;
    let (t, len) = match read_ber(buf, pos, end) {
        Ok(h) => h,
        Err(e) => return Err(e),
    };
    let q = *pos;
    if t != tag {
        *pos = p;
        return Err(BerError::InvalidData);
    }
    if len > end - q {
        *pos = p;
        return Err(BerError::UnexpectedEof);
    }
    let mut v: Vec<u8> = Vec::new();
    let mut k: usize = q;
    while k < q + len
        invariant
            q + len <= end <= buf@.len(),
            q <= k <= q + len,
            v@ == buf@.subrange(q as int, k as int),
        decreases q + len - k,
    {
        v.push(buf[k]);
        proof {
            assert(buf@.subrange(q as int, k + 1) =~= buf@.subrange(q as int, k as int).push(buf@[k as int]));
        }
        k += 1;
    }
    *pos = q + len;
    Ok(v)
}

/// Reads a string element with the tag `tag`: contents that are valid UTF-8.
pub fn read_ber_str(buf: &[u8], pos: &mut usize, end: usize, tag: BerTag) -> (r: Result<String, BerError>)
    requires
        *old(pos) <= end <= buf@.len(),
    ensures
        match ber_str_at(buf@, *old(pos) as int, end as int, tag) {
            Err(e) => r == Err::<String, BerError>(e) && *final(pos) == *old(pos),
            Ok((s, q)) => r matches Ok(x) && x@ == s && *final(pos) == q,
        },
{
    let p = *pos;
    let d = match read_ber_data(buf, pos, end, tag) {
        Ok(d) => d,
        Err(e) => return Err(e),
    };
    match utf8_str(d.as_slice()) {
        Some(s) => {
            proof {
                lemma_utf8_chars(s, d@);
            }
            Ok(String::from_str(s))
        }
        None => {
            *pos = p;
            Err(BerError::InvalidData)
        }
    }
}

/// Reads an integer element with the tag `tag`: at most eight big-endian contents octets.
pub fn read_ber_int(buf: &[u8], pos: &mut usize, end: usize, tag: BerTag) -> (r: Result<i64, BerError>)
    requires
        *old(pos) <= end <= buf@.len(),
    ensures
        match ber_int_at(buf@, *old(pos) as int, end as int, tag) {
            Err(e) => r == Err::<i64, BerError>(e) && *final(pos) == *old(pos),
            Ok((v, q)) => r == Ok::<i64, BerError>(v) && *final(pos) == q,
        },
{
    let p = *pos;
    let (t, len) = match read_ber(buf, pos, end) {
        Ok(h) => h,
        Err(e) => return Err(e),
    };
    let q = *pos;
    if t != tag || len > 8 {
        *pos = p;
        return Err(BerError::InvalidData);
    }
    if len > end - q {
        *pos = p;
        return Err(BerError::UnexpectedEof);
    }
    let v = read_be(buf, q, len);
    *pos = q + len;
    Ok(v as i64)
}

/// Reads a boolean element with the tag `tag`.
pub fn read_ber_bool(buf: &[u8], pos: &mut usize, end: usize, tag: BerTag) -> (r: Result<bool, BerError>)
    requires
        *old(pos) <= end <= buf@.len(),
    ensures
        match ber_bool_at(buf@, *old(pos) as int, end as int, tag) {
            Err(e) => r == Err::<bool, BerError>(e) && *final(pos) == *old(pos),
            Ok((v, q)) => r == Ok::<bool, BerError>(v) && *final(pos) == q,
        },
{
    let p = *pos;
    let (t, len) = match read_ber(buf, pos, end) {
        Ok(h) => h,
        Err(e) => return Err(e),
    };
    let q = *pos;
    if t != tag || len != 1 {
        *pos = p;
        return Err(BerError::InvalidData);
    }
    if q >= end {
        *pos = p;
        return Err(BerError::UnexpectedEof);
    }
    *pos = q + 1;
    Ok(buf[q] != 0)
}

/// Reads a null element with the tag `tag`.
pub fn read_ber_null(buf: &[u8], pos: &mut usize, end: usize, tag: BerTag) -> (r: Result<(), BerError>)
    requires
        *old(pos) <= end <= buf@.len(),
    ensures
        match ber_null_at(buf@, *old(pos) as int, end as int, tag) {
            Err(e) => r == Err::<(), BerError>(e) && *final(pos) == *old(pos),
            Ok(q) => r == Ok::<(), BerError>(()) && *final(pos) == q,
        },
{
    let p = *pos;
    let (t, len) = match read_ber(buf, pos, end) {
        Ok(h) => h,
        Err(e) => return Err(e),
    };
    if t != tag || len != 0 {
        *pos = p;
        return Err(BerError::InvalidData);
    }
    Ok(())
}


fn push_slice(buf: &mut Vec<u8>, data: &[u8])
    ensures
        final(buf)@ == old(buf)@ + data@,
{
    let mut i: usize = 0;
    while i < data.len()
        invariant
            i <= data@.len(),
            buf@ == old(buf)@ + data@.subrange(0, i as int),
        decreases data@.len() - i,
    {
        buf.push(data[i]);
        proof {
            assert(data@.subrange(0, i + 1) =~= data@.subrange(0, i as int).push(data@[i as int]));
        }
        i += 1;
    }
    assert(data@.subrange(0, data@.len() as int) =~= data@);
}

/// Writing elements in the basic encoding rules.
pub trait BerWrite {
    /// Writes the tag and the length of an element.
    fn write_ber(&mut self, tag: BerTag, len: usize);

    /// Writes an element with the contents `data`.
    fn write_ber_data(&mut self, tag: BerTag, data: &[u8]);

    /// Writes a null element.
    fn write_ber_null(&mut self, tag: BerTag);

    /// Writes a boolean element: `0xFF` for true, zero for false.
    fn write_ber_bool(&mut self, tag: BerTag, v: bool);

    /// Writes an integer element: the low 32 bits of `v`, big-endian.
    fn write_ber_int(&mut self, tag: BerTag, v: i64);

    /// Writes a string element: the UTF-8 octets of `v`.
    fn write_ber_str(&mut self, tag: BerTag, v: &str);
}

impl BerWrite for Vec<u8> {
    fn write_ber(&mut self, tag: BerTag, len: usize)
        ensures
            final(self)@ == old(self)@ + ber_header(tag, len as nat),
    {
        if len < 128 {
            self.push(tag);
            self.push(len as u8);
            assert(final(self)@ =~= old(self)@ + ber_header(tag, len as nat));
        } else {
            self.push(tag);
            self.push(0x88);
            let ghost mid = self@;
            push_be(self, len as u64, 8);
            assert(final(self)@ =~= old(self)@ + ber_header(tag, len as nat));
        }
    }

    fn write_ber_data(&mut self, tag: BerTag, data: &[u8])
        ensures
            final(self)@ == old(self)@ + ber_data(tag, data@),
    {
        self.write_ber(tag, data.len());
        push_slice(self, data);
        assert(final(self)@ =~= old(self)@ + ber_data(tag, data@));
    }

    fn write_ber_null(&mut self, tag: BerTag)
        ensures
            final(self)@ == old(self)@ + ber_data(tag, Seq::empty()),
    {
        let empty: [u8; 0] = [];
        self.write_ber_data(tag, &empty);
        assert(empty@ =~= Seq::<u8>::empty());
    }

    fn write_ber_bool(&mut self, tag: BerTag, v: bool)
        ensures
            final(self)@ == old(self)@ + ber_data(tag, seq![if v { 0xFFu8 } else { 0x00u8 }]),
    {
        let b: [u8; 1] = [if v { 0xFF } else { 0x00 }];
        self.write_ber_data(tag, &b);
        assert(b@ =~= seq![if v { 0xFFu8 } else { 0x00u8 }]);
    }

    fn write_ber_int(&mut self, tag: BerTag, v: i64)
        ensures
            final(self)@ == old(self)@ + ber_data(tag, int_octets(v)),
    {
        let x = v as i32 as u32;
        let mut b: Vec<u8> = Vec::new();
        push_be(&mut b, x as u64, 4);
        self.write_ber_data(tag, b.as_slice());
    }

    fn write_ber_str(&mut self, tag: BerTag, v: &str)
        ensures
            final(self)@ == old(self)@ + ber_data(tag, v.spec_bytes()),
    {
        self.write_ber_data(tag, v.as_bytes());
    }
}

/// An element whose length is written once its contents are: `new` writes the tag and room
/// for a two-octet length, `finish` writes the length of what follows.
pub struct BerWriter {
    pub off: usize,
}

/// The element that a `BerWriter` frames: the tag, the marker of two length octets, the
/// length modulo 2^16 big-endian, and the contents.
pub open spec fn ber_framed(tag: u8, contents: Seq<u8>) -> Seq<u8> {
    seq![tag, 0x82u8] + be_octets(contents.len() % 0x10000, 2) + contents
}

impl BerWriter {
    /// Starts an element with the tag `tag` at the end of `buf`.
    pub fn new(buf: &mut Vec<u8>, tag: BerTag) -> (r: BerWriter)
        ensures
            final(buf)@ == old(buf)@ + seq![tag, 0x82u8, 0u8, 0u8],
            r.off == final(buf)@.len(),
    {
        buf.push(tag);
        buf.push(0x82);
        buf.push(0);
        buf.push(0);
        assert(final(buf)@ =~= old(buf)@ + seq![tag, 0x82u8, 0u8, 0u8]);
        BerWriter { off: buf.len() }
    }

    /// Ends the element: writes the number of octets after it started, modulo 2^16, into its
    /// length octets.
    pub fn finish(self, buf: &mut Vec<u8>)
        requires
            2 <= self.off <= old(buf)@.len(),
        ensures
            final(buf)@ == old(buf)@.subrange(0, self.off - 2)
                + be_octets(((old(buf)@.len() - self.off) % 0x10000) as nat, 2)
                + old(buf)@.subrange(self.off as int, old(buf)@.len() as int),
    {
        let len = ((buf.len() - self.off) % 0x10000) as u16;
        buf.set(self.off - 2, (len / 256) as u8);
        buf.set(self.off - 1, (len % 256) as u8);
        proof {
            let l = (old(buf)@.len() - self.off) % 0x10000;
            reveal_with_fuel(be_octets, 3);
            assert(be_octets(l as nat, 2) =~= seq![(l / 256 % 256) as u8, (l % 256) as u8]);
        }
        assert(final(buf)@ =~= old(buf)@.subrange(0, self.off - 2)
            + be_octets(((old(buf)@.len() - self.off) % 0x10000) as nat, 2)
            + old(buf)@.subrange(self.off as int, old(buf)@.len() as int));
    }
}

/// Whether a sequence read goes on after one element read: the end of the octets (an
/// unexpected end) ends it, another error stops it with that error.
pub struct BerSeqIter;

impl BerSeqIter {
    /// What one element read means for the sequence: `None` at the end, the element, or the
    /// error that stops it.
    pub fn next<T>(read: Result<T, BerError>) -> (r: Result<Option<T>, BerError>)
        ensures
            match read {
                Err(BerError::UnexpectedEof) => r == Ok::<Option<T>, BerError>(None),
                Err(e) => r == Err::<Option<T>, BerError>(e),
                Ok(v) => r == Ok::<Option<T>, BerError>(Some(v)),
            },
    {
        match read {
            Err(BerError::UnexpectedEof) => Ok(None),
            Err(e) => Err(e),
            Ok(v) => Ok(Some(v)),
        }
    }
}


/// Reading back a header that `ber_header` makes gives its tag and length.
pub proof fn lemma_header_roundtrip(buf: Seq<u8>, p: int, end: int, tag: u8, len: nat)
    requires
        0 <= p,
        len <= usize::MAX,
        p + ber_header(tag, len).len() <= end <= buf.len(),
        buf.subrange(p, p + ber_header(tag, len).len()) == ber_header(tag, len),
    ensures
        ber_header_at(buf, p, end) == Ok::<(u8, usize, int), BerError>((tag, len as usize, p + ber_header(tag, len).len())),
{
    let h = ber_header(tag, len);
    lemma_be_octets_len(len, 8);
    assert(buf[p] == buf.subrange(p, p + h.len())[0]);
    assert(buf[p + 1] == buf.subrange(p, p + h.len())[1]);
    if len >= 128 {
        assert(h.subrange(2, 10) =~= be_octets(len, 8));
        assert(buf.subrange(p + 2, p + 10) =~= buf.subrange(p, p + 10).subrange(2, 10));
        assert(buf.subrange(p + 2, p + 10) =~= be_octets(len, 8));
        reveal_with_fuel(pow256, 9);
        lemma_be_roundtrip(buf, p + 2, len, 8);
    }
}

/// Reading back the header of a framed element gives its tag and its length modulo 2^16.
pub proof fn lemma_framed_header(buf: Seq<u8>, p: int, end: int, tag: u8, c: Seq<u8>)
    requires
        0 <= p,
        p + 4 <= end <= buf.len(),
        buf.subrange(p, p + 4) == ber_framed(tag, c).subrange(0, 4),
    ensures
        ber_header_at(buf, p, end) == Ok::<(u8, usize, int), BerError>((tag, (c.len() % 0x10000) as usize, p + 4)),
{
    lemma_be_octets_len((c.len() % 0x10000) as nat, 2);
    let f = ber_framed(tag, c);
    assert(buf[p] == buf.subrange(p, p + 4)[0]);
    assert(buf[p + 1] == buf.subrange(p, p + 4)[1]);
    assert(f.subrange(2, 4) =~= be_octets((c.len() % 0x10000) as nat, 2));
    assert(buf.subrange(p + 2, p + 4) =~= buf.subrange(p, p + 4).subrange(2, 4));
    assert(f.subrange(0, 4).subrange(2, 4) =~= f.subrange(2, 4));
    assert(buf.subrange(p + 2, p + 4) =~= be_octets((c.len() % 0x10000) as nat, 2));
    reveal_with_fuel(pow256, 3);
    lemma_be_roundtrip(buf, p + 2, (c.len() % 0x10000) as nat, 2);
}

/// Reading back an element that `ber_data` makes gives its contents.
pub proof fn lemma_data_roundtrip(buf: Seq<u8>, p: int, end: int, tag: u8, d: Seq<u8>)
    requires
        0 <= p,
        d.len() <= usize::MAX,
        p + ber_data(tag, d).len() <= end <= buf.len(),
        buf.subrange(p, p + ber_data(tag, d).len()) == ber_data(tag, d),
    ensures
        ber_data_at(buf, p, end, tag) == Ok::<(Seq<u8>, int), BerError>((d, p + ber_data(tag, d).len())),
{
    let h = ber_header(tag, d.len());
    lemma_be_octets_len(d.len(), 8);
    assert(buf.subrange(p, p + h.len()) =~= buf.subrange(p, p + ber_data(tag, d).len()).subrange(0, h.len() as int));
    assert((h + d).subrange(0, h.len() as int) =~= h);
    assert((h + d).subrange(h.len() as int, (h + d).len() as int) =~= d);
    assert(buf.subrange(p + h.len(), p + h.len() + d.len()) =~= buf.subrange(p, p + ber_data(tag, d).len()).subrange(h.len() as int, (h + d).len() as int));
    lemma_header_roundtrip(buf, p, end, tag, d.len());
    assert(buf.subrange(p + h.len(), p + h.len() + d.len()) =~= d);
}

/// Reading back an integer element that `write_ber_int` writes gives the low 32 bits of the
/// value, taken as unsigned.
pub proof fn lemma_int_roundtrip(buf: Seq<u8>, p: int, end: int, tag: u8, v: i64)
    requires
        0 <= p,
        p + ber_data(tag, int_octets(v)).len() <= end <= buf.len(),
        buf.subrange(p, p + ber_data(tag, int_octets(v)).len()) == ber_data(tag, int_octets(v)),
    ensures
        ber_int_at(buf, p, end, tag) == Ok::<(i64, int), BerError>(
            ((v as i32 as u32) as i64, p + ber_data(tag, int_octets(v)).len())),
{
    lemma_be_octets_len((v as i32 as u32) as nat, 4);
    let d = int_octets(v);
    lemma_data_roundtrip(buf, p, end, tag, d);
    assert(buf.subrange(p + 2, p + 6) =~= d);
    reveal_with_fuel(pow256, 5);
    lemma_be_roundtrip(buf, p + 2, (v as i32 as u32) as nat, 4);
}

} // verus!
