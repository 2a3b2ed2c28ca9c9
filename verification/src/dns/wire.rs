//! The wire format of DNS messages: header flags, questions and domain names.
use vstd::prelude::*;
use vstd::string::{StringSliceAdditionalSpecFns, StringExecFns};
use vstd::utf8::{valid_utf8, decode_utf8, encode_utf8};
use crate::text::{utf8_str, lemma_utf8_chars};
use crate::octets::{be_value, be_octets, read_be, push_be, pow256, lemma_be_roundtrip, lemma_be_octets_len};
use crate::dns::records::{Type, Class, ResourceRecord, type_value, type_of, class_value, class_of};

verus! {

pub const QR_BIT: u16 = 0x0001;
pub const OPCODE_MASK: u16 = 0b0111100000000000;
pub const OPCODE_SHIFT: u16 = 1;
pub const OPCODE_QUERY: u16 = 0;
pub const OPCODE_IQUERY: u16 = 1;
pub const OPCODE_STATUS: u16 = 2;
pub const OPCODE_NOTIFY: u16 = 4;
pub const OPCODE_UPDATE: u16 = 5;
pub const AA_BIT: u16 = 0x0020;
pub const TC_BIT: u16 = 0x0040;
pub const RD_BIT: u16 = 0x0080;
pub const RA_BIT: u16 = 0x0100;
pub const Z_BIT: u16 = 0x0200;
pub const AD_BIT: u16 = 0x0400;
pub const CD_BIT: u16 = 0x0800;
pub const RCODE_MASK: u16 = 0b0000000000001111;
pub const RCODE_SHIFT: u16 = 12;

/// Whether the flag `mask` is set in `bits`.
pub open spec fn flag_set(bits: u16, mask: u16) -> bool {
    bits & mask == mask
}

/// `bits` with the flag `mask` set to `v`.
pub open spec fn with_flag(bits: u16, mask: u16, v: bool) -> u16 {
    if v { bits | mask } else { bits & !mask }
}

/// The flags word of a DNS message header.
#[derive(Copy, Clone, Debug, Default, Eq, PartialEq, Ord, PartialOrd)]
pub struct Flags(pub u16);

/// The response codes of DNS.
#[derive(Copy, Clone, Debug, Eq, PartialEq)]
pub enum RCode {
    NoError,
    FormatError,
    ServerFailure,
    NonExistentDomain,
    NotImplemented,
    QueryRefused,
    YXDomain,
    YXRRSet,
    NonExistentRRSet,
    NotAuthoritive,
    NotZone,
    DsoTypeNotImplemented,
    BadVersOrSig,
    BadKey,
    BadTime,
    BadMode,
    BadName,
    BadAlg,
    BadTrunc,
    BadCookie,
}

/// The numeric value of a response code.
pub open spec fn rcode_value(c: RCode) -> u16 {
    match c {
        RCode::NoError => 0,
        RCode::FormatError => 1,
        RCode::ServerFailure => 2,
        RCode::NonExistentDomain => 3,
        RCode::NotImplemented => 4,
        RCode::QueryRefused => 5,
        RCode::YXDomain => 6,
        RCode::YXRRSet => 7,
        RCode::NonExistentRRSet => 8,
        RCode::NotAuthoritive => 9,
        RCode::NotZone => 10,
        RCode::DsoTypeNotImplemented => 11,
        RCode::BadVersOrSig => 16,
        RCode::BadKey => 17,
        RCode::BadTime => 18,
        RCode::BadMode => 19,
        RCode::BadName => 20,
        RCode::BadAlg => 21,
        RCode::BadTrunc => 22,
        RCode::BadCookie => 23,
    }
}

/// The response code with value `v`, if there is one.
pub open spec fn rcode_of(v: u16) -> Option<RCode> {
    if v == 0 { Some(RCode::NoError) }
    else if v == 1 { Some(RCode::FormatError) }
    else if v == 2 { Some(RCode::ServerFailure) }
    else if v == 3 { Some(RCode::NonExistentDomain) }
    else if v == 4 { Some(RCode::NotImplemented) }
    else if v == 5 { Some(RCode::QueryRefused) }
    else if v == 6 { Some(RCode::YXDomain) }
    else if v == 7 { Some(RCode::YXRRSet) }
    else if v == 8 { Some(RCode::NonExistentRRSet) }
    else if v == 9 { Some(RCode::NotAuthoritive) }
    else if v == 10 { Some(RCode::NotZone) }
    else if v == 11 { Some(RCode::DsoTypeNotImplemented) }
    else if v == 16 { Some(RCode::BadVersOrSig) }
    else if v == 17 { Some(RCode::BadKey) }
    else if v == 18 { Some(RCode::BadTime) }
    else if v == 19 { Some(RCode::BadMode) }
    else if v == 20 { Some(RCode::BadName) }
    else if v == 21 { Some(RCode::BadAlg) }
    else if v == 22 { Some(RCode::BadTrunc) }
    else if v == 23 { Some(RCode::BadCookie) }
    else { None }
}

impl RCode {
    /// The numeric value of the response code.
    pub fn value(self) -> (r: u16)
        ensures
            r == rcode_value(self),
    {
        match self {
            RCode::NoError => 0,
            RCode::FormatError => 1,
            RCode::ServerFailure => 2,
            RCode::NonExistentDomain => 3,
            RCode::NotImplemented => 4,
            RCode::QueryRefused => 5,
            RCode::YXDomain => 6,
            RCode::YXRRSet => 7,
            RCode::NonExistentRRSet => 8,
            RCode::NotAuthoritive => 9,
            RCode::NotZone => 10,
            RCode::DsoTypeNotImplemented => 11,
            RCode::BadVersOrSig => 16,
            RCode::BadKey => 17,
            RCode::BadTime => 18,
            RCode::BadMode => 19,
            RCode::BadName => 20,
            RCode::BadAlg => 21,
            RCode::BadTrunc => 22,
            RCode::BadCookie => 23,
        }
    }

    /// The response code with value `value`: 0 to 11 and 16 to 23 are defined.
    pub fn try_from(value: u16) -> (r: Result<RCode, ()>)
        ensures
            match rcode_of(value) {
                Some(c) => r == Ok::<RCode, ()>(c),
                None => r == Err::<RCode, ()>(()),
            },
    {
        match value {
            0 => Ok(RCode::NoError),
            1 => Ok(RCode::FormatError),
            2 => Ok(RCode::ServerFailure),
            3 => Ok(RCode::NonExistentDomain),
            4 => Ok(RCode::NotImplemented),
            5 => Ok(RCode::QueryRefused),
            6 => Ok(RCode::YXDomain),
            7 => Ok(RCode::YXRRSet),
            8 => Ok(RCode::NonExistentRRSet),
            9 => Ok(RCode::NotAuthoritive),
            10 => Ok(RCode::NotZone),
            11 => Ok(RCode::DsoTypeNotImplemented),
            16 => Ok(RCode::BadVersOrSig),
            17 => Ok(RCode::BadKey),
            18 => Ok(RCode::BadTime),
            19 => Ok(RCode::BadMode),
            20 => Ok(RCode::BadName),
            21 => Ok(RCode::BadAlg),
            22 => Ok(RCode::BadTrunc),
            23 => Ok(RCode::BadCookie),
            _ => Err(()),
        }
    }
}

/// Reading a response code back from its value gives the code.
pub proof fn lemma_rcode_value_roundtrip(c: RCode)
    ensures
        rcode_of(rcode_value(c)) == Some(c),
{
}

impl Flags {
    /// Whether the `qr` flag is set.
    pub fn qr(&self) -> (r: bool)
        ensures
            r == flag_set(self.0, QR_BIT),
    {
        self.0 & QR_BIT == QR_BIT
    }

    /// Sets the `qr` flag to `v` and leaves the other bits as they are.
    pub fn set_qr(&mut self, v: bool)
        ensures
            final(self).0 == with_flag(old(self).0, QR_BIT, v),
    {
        if v {
            self.0 |= QR_BIT;
        } else {
            self.0 &= !QR_BIT;
        }
    }

    /// Whether the `aa` flag is set.
    pub fn aa(&self) -> (r: bool)
        ensures
            r == flag_set(self.0, AA_BIT),
    {
        self.0 & AA_BIT == AA_BIT
    }

    /// Sets the `aa` flag to `v` and leaves the other bits as they are.
    pub fn set_aa(&mut self, v: bool)
        ensures
            final(self).0 == with_flag(old(self).0, AA_BIT, v),
    {
        if v {
            self.0 |= AA_BIT;
        } else {
            self.0 &= !AA_BIT;
        }
    }

    /// Whether the `tc` flag is set.
    pub fn tc(&self) -> (r: bool)
        ensures
            r == flag_set(self.0, TC_BIT),
    {
        self.0 & TC_BIT == TC_BIT
    }

    /// Sets the `tc` flag to `v` and leaves the other bits as they are.
    pub fn set_tc(&mut self, v: bool)
        ensures
            final(self).0 == with_flag(old(self).0, TC_BIT, v),
    {
        if v {
            self.0 |= TC_BIT;
        } else {
            self.0 &= !TC_BIT;
        }
    }

    /// Whether the `rd` flag is set.
    /// Note that this flag is kept in the same bit as `qr`.
    pub fn rd(&self) -> (r: bool)
        ensures
            r == flag_set(self.0, QR_BIT),
    {
        self.0 & QR_BIT == QR_BIT
    }

    /// Sets the `rd` flag to `v` and leaves the other bits as they are.
    pub fn set_rd(&mut self, v: bool)
        ensures
            final(self).0 == with_flag(old(self).0, QR_BIT, v),
    {
        if v {
            self.0 |= QR_BIT;
        } else {
            self.0 &= !QR_BIT;
        }
    }

    /// Whether the `ra` flag is set.
    pub fn ra(&self) -> (r: bool)
        ensures
            r == flag_set(self.0, RA_BIT),
    {
        self.0 & RA_BIT == RA_BIT
    }

    /// Sets the `ra` flag to `v` and leaves the other bits as they are.
    pub fn set_ra(&mut self, v: bool)
        ensures
            final(self).0 == with_flag(old(self).0, RA_BIT, v),
    {
        if v {
            self.0 |= RA_BIT;
        } else {
            self.0 &= !RA_BIT;
        }
    }

    /// Whether the `z` flag is set.
    pub fn z(&self) -> (r: bool)
        ensures
            r == flag_set(self.0, Z_BIT),
    {
        self.0 & Z_BIT == Z_BIT
    }

    /// Sets the `z` flag to `v` and leaves the other bits as they are.
    pub fn set_z(&mut self, v: bool)
        ensures
            final(self).0 == with_flag(old(self).0, Z_BIT, v),
    {
        if v {
            self.0 |= Z_BIT;
        } else {
            self.0 &= !Z_BIT;
        }
    }

    /// Whether the `ad` flag is set.
    pub fn ad(&self) -> (r: bool)
        ensures
            r == flag_set(self.0, AD_BIT),
    {
        self.0 & AD_BIT == AD_BIT
    }

    /// Sets the `ad` flag to `v` and leaves the other bits as they are.
    pub fn set_ad(&mut self, v: bool)
        ensures
            final(self).0 == with_flag(old(self).0, AD_BIT, v),
    {
        if v {
            self.0 |= AD_BIT;
        } else {
            self.0 &= !AD_BIT;
        }
    }

    /// Whether the `cd` flag is set.
    pub fn cd(&self) -> (r: bool)
        ensures
            r == flag_set(self.0, CD_BIT),
    {
        self.0 & CD_BIT == CD_BIT
    }

    /// Sets the `cd` flag to `v` and leaves the other bits as they are.
    pub fn set_cd(&mut self, v: bool)
        ensures
            final(self).0 == with_flag(old(self).0, CD_BIT, v),
    {
        if v {
            self.0 |= CD_BIT;
        } else {
            self.0 &= !CD_BIT;
        }
    }

    /// The bits under the opcode mask shifted left by `OPCODE_SHIFT`.
    pub fn op_code(&self) -> (r: u16)
        ensures
            r == self.0 & ((OPCODE_MASK << OPCODE_SHIFT) as u16),
    {
        self.0 & OPCODE_MASK << OPCODE_SHIFT
    }

    /// Ors `v` shifted right by `OPCODE_SHIFT` into the flags.
    pub fn set_op_code(&mut self, v: u16)
        ensures
            final(self).0 == old(self).0 | (v >> OPCODE_SHIFT),
    {
        self.0 |= v >> OPCODE_SHIFT;
    }

    /// The response code held in the bits under the response code mask shifted left by
    /// `RCODE_SHIFT`, or those bits when they are no response code.
    pub fn rcode(&self) -> (r: Result<RCode, u16>)
        ensures
            ({
                let v = self.0 & ((RCODE_MASK << RCODE_SHIFT) as u16);
                match rcode_of(v) {
                    Some(c) => r == Ok::<RCode, u16>(c),
                    None => r == Err::<RCode, u16>(v),
                }
            }),
    {
        let v = self.0 & RCODE_MASK << RCODE_SHIFT;
        match RCode::try_from(v) {
            Ok(c) => Ok(c),
            Err(_) => Err(v),
        }
    }

    /// Ors the value of the response code (or `v` itself) shifted right by `RCODE_SHIFT` into
    /// the flags.
    pub fn set_rcode(&mut self, v: Result<RCode, u16>)
        ensures
            final(self).0 == old(self).0 | (match v {
                Ok(c) => rcode_value(c),
                Err(x) => x,
            } >> RCODE_SHIFT),
    {
        let x = match v {
            Ok(c) => c.value(),
            Err(x) => x,
        };
        self.0 |= x >> RCODE_SHIFT;
    }
}

/// Setting a flag and reading it back gives the value that was set.
pub proof fn lemma_flag_set_get(bits: u16, mask: u16, v: bool)
    requires
        mask == QR_BIT || mask == AA_BIT || mask == TC_BIT || mask == RA_BIT || mask == Z_BIT
            || mask == AD_BIT || mask == CD_BIT,
    ensures
        flag_set(with_flag(bits, mask, v), mask) == v,
{
    assert(flag_set(with_flag(bits, mask, v), mask) == v) by (bit_vector)
        requires
            mask == 1u16 || mask == 32u16 || mask == 64u16 || mask == 256u16 || mask == 512u16
                || mask == 1024u16 || mask == 2048u16;
}

/// Setting one flag leaves every other flag as it was.
pub proof fn lemma_flag_set_other(bits: u16, mask: u16, other: u16, v: bool)
    requires
        mask == QR_BIT || mask == AA_BIT || mask == TC_BIT || mask == RA_BIT || mask == Z_BIT
            || mask == AD_BIT || mask == CD_BIT,
        other == QR_BIT || other == AA_BIT || other == TC_BIT || other == RA_BIT || other == Z_BIT
            || other == AD_BIT || other == CD_BIT,
        mask != other,
    ensures
        flag_set(with_flag(bits, mask, v), other) == flag_set(bits, other),
{
    assert(flag_set(with_flag(bits, mask, v), other) == flag_set(bits, other)) by (bit_vector)
        requires
            mask == 1u16 || mask == 32u16 || mask == 64u16 || mask == 256u16 || mask == 512u16
                || mask == 1024u16 || mask == 2048u16,
            other == 1u16 || other == 32u16 || other == 64u16 || other == 256u16 || other == 512u16
                || other == 1024u16 || other == 2048u16,
            mask != other;
}

/// What reading a message part from octets ran into.
#[derive(Copy, Clone, Debug, Eq, PartialEq)]
pub enum WireError {
    /// the octets ended before the part did
    UnexpectedEnd,
    /// the octets do not form a valid part
    InvalidData,
}

/// The octet that separates the labels of a dotted domain name.
pub const DOT: u8 = 0x2e;

/// The number of octets from `i` up to the next dot or the end of `s`.
pub open spec fn label_len_at(s: Seq<u8>, i: int) -> nat
    decreases s.len() - i,
{
    if i < 0 || i >= s.len() || s[i] == DOT { 0 } else { 1 + label_len_at(s, i + 1) }
}

/// What writing the labels of the dotted name `s` from `i` on produces: each label that a dot
/// ends, and the last one, as its length (taken modulo 256) followed by its octets.
pub open spec fn name_wire_from(s: Seq<u8>, i: int) -> Seq<u8>
    decreases s.len() - i,
{
    let k = label_len_at(s, i);
    if i < 0 || i + k >= s.len() {
        seq![(k % 256) as u8] + s.subrange(i, s.len() as int)
    } else {
        seq![(k % 256) as u8] + s.subrange(i, i + k) + name_wire_from(s, i + k + 1)
    }
}

/// The wire form of the dotted name with the octets `s`.
pub open spec fn name_wire(s: Seq<u8>) -> Seq<u8> {
    name_wire_from(s, 0)
}

/// Whether the labels of `s` from `i` on are each 1 to 255 octets long and the name ends with
/// a dot (or is empty): the names whose wire form reads back as the same name.
pub open spec fn wire_name_from(s: Seq<u8>, i: int) -> bool
    decreases s.len() - i,
{
    let k = label_len_at(s, i);
    if i < 0 || i + k >= s.len() {
        k == 0
    } else {
        1 <= k <= 255 && wire_name_from(s, i + k + 1)
    }
}

/// Whether the dotted name with the octets `s` survives writing and reading back.
pub open spec fn wire_name(s: Seq<u8>) -> bool {
    wire_name_from(s, 0)
}

/// Reading a domain name from `buf` at `p`: its labels, each followed by a dot, and the
/// position after the terminating zero length; or what was wrong.
pub open spec fn read_name_at(buf: Seq<u8>, p: int) -> Result<(Seq<u8>, int), WireError>
    decreases buf.len() - p,
{
    if p < 0 || p >= buf.len() {
        Err(WireError::UnexpectedEnd)
    } else if buf[p] == 0 {
        Ok((Seq::<u8>::empty(), p + 1))
    } else if p + 1 + buf[p] > buf.len() {
        Err(WireError::UnexpectedEnd)
    } else {
        match read_name_at(buf, p + 1 + buf[p]) {
            Ok((rest, q)) => Ok((buf.subrange(p + 1, p + 1 + buf[p]) + seq![DOT] + rest, q)),
            Err(e) => Err(e),
        }
    }
}

proof fn lemma_label_len_at(s: Seq<u8>, i: int)
    requires
        0 <= i <= s.len(),
    ensures
        i + label_len_at(s, i) <= s.len(),
        i + label_len_at(s, i) < s.len() ==> s[i + label_len_at(s, i)] == DOT,
        forall|j: int| i <= j < i + label_len_at(s, i) ==> s[j] != DOT,
    decreases s.len() - i,
{
    if i < s.len() && s[i] != DOT {
        lemma_label_len_at(s, i + 1);
    }
}

/// A label ends at the first dot.
proof fn lemma_label_end(s: Seq<u8>, i: int, j: int)
    requires
        0 <= i <= j <= s.len(),
        forall|m: int| i <= m < j ==> s[m] != DOT,
        j == s.len() || s[j] == DOT,
    ensures
        label_len_at(s, i) == j - i,
    decreases j - i,
{
    if i < j {
        lemma_label_end(s, i + 1, j);
    }
}

/// Writes the dotted name `name` in wire form: every label that the dots separate, the last one
/// included, as its length in octets (modulo 256) followed by its octets.
pub fn write_domain_name(name: &str, out: &mut Vec<u8>)
    ensures
        final(out)@ == old(out)@ + name_wire(name.spec_bytes()),
{
    let bytes = name.as_bytes();
    let ghost s = bytes@;
    let n = bytes.len();
    let mut i: usize = 0;
    loop
        invariant
            bytes@ == s,
            s == name.spec_bytes(),
            n == s.len(),
            i <= n,
            out@ + name_wire_from(s, i as int) == old(out)@ + name_wire(s),
        decreases n - i,
    {
        let mut j: usize = i;
        while j < n && bytes[j] != DOT
            invariant
                bytes@ == s,
                n == s.len(),
                i <= j <= n,
                forall|m: int| i <= m < j ==> s[m] != DOT,
            decreases n - j,
        {
            j += 1;
        }
        proof {
            lemma_label_end(s, i as int, j as int);
        }
        let ghost before = out@;
        out.push(((j - i) % 256) as u8);
        let mut m: usize = i;
        while m < j
            invariant
                bytes@ == s,
                n == s.len(),
                i <= m <= j <= n,
                out@ == before + seq![((j - i) % 256) as u8] + s.subrange(i as int, m as int),
            decreases j - m,
        {
            out.push(bytes[m]);
            proof {
                assert(s.subrange(i as int, m + 1) =~= s.subrange(i as int, m as int).push(s[m as int]));
            }
            m += 1;
        }
        if j == n {
            proof {
                assert(name_wire_from(s, i as int) == seq![((j - i) % 256) as u8] + s.subrange(i as int, n as int));
                assert(out@ =~= before + name_wire_from(s, i as int));
            }
            return;
        }
        proof {
            assert(name_wire_from(s, i as int) == seq![((j - i) % 256) as u8] + s.subrange(i as int, j as int) + name_wire_from(s, j + 1));
            assert(out@ + name_wire_from(s, j + 1) =~= before + name_wire_from(s, i as int));
        }
        i = j + 1;
    }
}

/// Reads a domain name in wire form from `buf` at `*pos`: labels, each preceded by its length,
/// up to a zero length, joined into a dotted name that ends with a dot. On success `*pos` is
/// moved past the name; on failure it stays.
pub fn read_domain_name(buf: &[u8], pos: &mut usize) -> (r: Result<String, WireError>)
    ensures
        match read_name_at(buf@, *old(pos) as int) {
            Err(e) => r == Err::<String, WireError>(e) && *final(pos) == *old(pos),
            Ok((name, q)) => if valid_utf8(name) {
                r matches Ok(s) && s@ == decode_utf8(name) && *final(pos) == q
            } else {
                r == Err::<String, WireError>(WireError::InvalidData) && *final(pos) == *old(pos)
            },
        },
{
    let n = buf.len();
    let mut p: usize = *pos;
    let mut name: Vec<u8> = Vec::new();
    let ghost start = *pos as int;
    loop
        invariant
            n == buf@.len(),
            start == *old(pos) as int,
            *pos == *old(pos),
            start <= p,
            match read_name_at(buf@, start) {
                Ok((all, q)) => match read_name_at(buf@, p as int) {
                    Ok((rest, q2)) => all == name@ + rest && q == q2,
                    Err(_) => false,
                },
                Err(e) => read_name_at(buf@, p as int) == Err::<(Seq<u8>, int), WireError>(e),
            },
        ensures
            p < n,
            buf@[p as int] == 0,
        decreases n - p,
    {
        if p >= n {
            return Err(WireError::UnexpectedEnd);
        }
        let len = buf[p] as usize;
        if len == 0 {
            break;
        }
        if len > n - p - 1 {
            return Err(WireError::UnexpectedEnd);
        }
        let ghost before = name@;
        let mut m: usize = p + 1;
        while m < p + 1 + len
            invariant
                n == buf@.len(),
                p + 1 <= m <= p + 1 + len <= n,
                name@ == before + buf@.subrange(p + 1, m as int),
            decreases p + 1 + len - m,
        {
            name.push(buf[m]);
            proof {
                assert(buf@.subrange(p + 1, m + 1) =~= buf@.subrange(p + 1, m as int).push(buf@[m as int]));
            }
            m += 1;
        }
        name.push(DOT);
        proof {
            assert(name@ =~= before + (buf@.subrange(p + 1, p + 1 + len) + seq![DOT]));
            match read_name_at(buf@, p + 1 + len) {
                Ok((rest, q2)) => {
                    assert(before + (buf@.subrange(p + 1, p + 1 + len) + seq![DOT] + rest) =~= name@ + rest);
                }
                Err(_) => {}
            }
        }
        p = p + 1 + len;
    }
    proof {
        assert(name@ + Seq::<u8>::empty() =~= name@);
    }
    match utf8_str(name.as_slice()) {
        Some(s) => {
            proof {
                lemma_utf8_chars(s, name@);
            }
            *pos = p + 1;
            Ok(String::from_str(s))
        }
        None => Err(WireError::InvalidData),
    }
}

/// Writing a name that `wire_name` admits and reading it back gives the name and the position
/// after it, whatever precedes and follows.
pub proof fn lemma_name_roundtrip(s: Seq<u8>, pre: Seq<u8>, rest: Seq<u8>)
    requires
        wire_name(s),
    ensures
        read_name_at(pre + name_wire(s) + rest, pre.len() as int)
            == Ok::<(Seq<u8>, int), WireError>((s, (pre.len() + name_wire(s).len()) as int)),
{
    lemma_name_roundtrip_from(s, 0, pre, rest);
    assert(s.subrange(0, s.len() as int) =~= s);
}

proof fn lemma_name_roundtrip_from(s: Seq<u8>, i: int, pre: Seq<u8>, rest: Seq<u8>)
    requires
        0 <= i <= s.len(),
        wire_name_from(s, i),
    ensures
        read_name_at(pre + name_wire_from(s, i) + rest, pre.len() as int)
            == Ok::<(Seq<u8>, int), WireError>((s.subrange(i, s.len() as int), (pre.len() + name_wire_from(s, i).len()) as int)),
    decreases s.len() - i,
{
    lemma_label_len_at(s, i);
    let k = label_len_at(s, i);
    let buf = pre + name_wire_from(s, i) + rest;
    let p = pre.len() as int;
    if i + k >= s.len() {
        assert(k == 0);
        assert(i == s.len());
        assert(buf[p] == 0);
        assert(s.subrange(i, s.len() as int) =~= Seq::<u8>::empty());
    } else {
        let w = name_wire_from(s, i + k + 1);
        let pre2 = pre + seq![(k % 256) as u8] + s.subrange(i, i + k);
        assert(buf =~= pre2 + w + rest);
        assert(buf[p] == k);
        lemma_name_roundtrip_from(s, i + k + 1, pre2, rest);
        assert(buf.subrange(p + 1, p + 1 + k) =~= s.subrange(i, i + k));
        assert(s.subrange(i, i + k) + seq![DOT] + s.subrange(i + k + 1, s.len() as int)
            =~= s.subrange(i, s.len() as int));
    }
}

/// The little-endian 16-bit value at `p` of `buf`.
pub open spec fn le16(buf: Seq<u8>, p: int) -> u16 {
    (buf[p] as int + 256 * buf[p + 1] as int) as u16
}

/// The two little-endian octets of `v`.
pub open spec fn le16_octets(v: u16) -> Seq<u8> {
    seq![(v % 256) as u8, (v / 256) as u8]
}

fn push_le16(out: &mut Vec<u8>, v: u16)
    ensures
        final(out)@ == old(out)@ + le16_octets(v),
{
    out.push((v % 256) as u8);
    out.push((v / 256) as u8);
    assert(final(out)@ =~= old(out)@ + le16_octets(v));
}

/// A question of a DNS message: a name with the type and class asked for.
#[derive(Clone, Debug, Eq, PartialEq)]
pub struct Question {
    pub name: String,
    pub ty: Type,
    pub class: Class,
}

/// The wire form of a question: the name, then the type and the class as little-endian 16-bit
/// values.
pub open spec fn question_wire(name: Seq<char>, ty: Type, class: Class) -> Seq<u8> {
    name_wire(encode_utf8(name)) + le16_octets(type_value(ty)) + le16_octets(class_value(class))
}

/// Reading a question from `buf` at `p`: its name, type, class and the position after it; or
/// what was wrong.
pub open spec fn read_question_at(buf: Seq<u8>, p: int) -> Result<(Seq<char>, Type, Class, int), WireError> {
    match read_name_at(buf, p) {
        Err(e) => Err(e),
        Ok((n, q)) => if !valid_utf8(n) {
            Err(WireError::InvalidData)
        } else if q + 4 > buf.len() {
            Err(WireError::UnexpectedEnd)
        } else {
            match type_of(le16(buf, q)) {
                None => Err(WireError::InvalidData),
                Some(t) => match class_of(le16(buf, q + 2)) {
                    None => Err(WireError::InvalidData),
                    Some(c) => Ok((decode_utf8(n), t, c, q + 4)),
                },
            }
        },
    }
}

impl Question {
    /// Reads a question from `buf` at `*pos`. On success `*pos` is moved past it; on failure it
    /// stays.
    pub fn read(buf: &[u8], pos: &mut usize) -> (r: Result<Question, WireError>)
        ensures
            match read_question_at(buf@, *old(pos) as int) {
                Err(e) => r == Err::<Question, WireError>(e) && *final(pos) == *old(pos),
                Ok((n, t, c, q)) => r matches Ok(x) && x.name@ == n && x.ty == t && x.class == c
                    && *final(pos) == q,
            },
    {
        let start = *pos;
        let name = match read_domain_name(buf, pos) {
            Ok(name) => name,
            Err(e) => return Err(e),
        };
        let q = *pos;
        if buf.len() < 4 || q > buf.len() - 4 {
            *pos = start;
            return Err(WireError::UnexpectedEnd);
        }
        let ty = match Type::try_from(buf[q] as u16 + 256 * buf[q + 1] as u16) {
            Ok(t) => t,
            Err(_) => {
                *pos = start;
                return Err(WireError::InvalidData);
            }
        };
        let class = match Class::try_from(buf[q + 2] as u16 + 256 * buf[q + 3] as u16) {
            Ok(c) => c,
            Err(_) => {
                *pos = start;
                return Err(WireError::InvalidData);
            }
        };
        *pos = q + 4;
        Ok(Question { name, ty, class })
    }

    /// Writes the question in wire form.
    pub fn write(&self, out: &mut Vec<u8>)
        ensures
            final(out)@ == old(out)@ + question_wire(self.name@, self.ty, self.class),
    {
        write_domain_name(self.name.as_str(), out);
        push_le16(out, self.ty.value());
        push_le16(out, self.class.value());
        assert(final(out)@ =~= old(out)@ + question_wire(self.name@, self.ty, self.class));
    }
}

/// Writing a question whose name `wire_name` admits and reading it back gives the question and
/// the position after it, whatever precedes and follows.
pub proof fn lemma_question_roundtrip(name: Seq<char>, ty: Type, class: Class, pre: Seq<u8>, rest: Seq<u8>)
    requires
        wire_name(encode_utf8(name)),
    ensures
        read_question_at(pre + question_wire(name, ty, class) + rest, pre.len() as int)
            == Ok::<(Seq<char>, Type, Class, int), WireError>(
                (name, ty, class, (pre.len() + question_wire(name, ty, class).len()) as int)),
{
    let b = encode_utf8(name);
    let w = name_wire(b);
    let tail = le16_octets(type_value(ty)) + le16_octets(class_value(class)) + rest;
    let buf = pre + question_wire(name, ty, class) + rest;
    assert(buf =~= pre + w + tail);
    lemma_name_roundtrip(b, pre, tail);
    vstd::utf8::encode_utf8_valid_utf8(name);
    vstd::utf8::encode_utf8_decode_utf8(name);
    let q = (pre.len() + w.len()) as int;
    assert(buf[q] == (type_value(ty) % 256) as u8);
    assert(buf[q + 1] == (type_value(ty) / 256) as u8);
    assert(buf[q + 2] == (class_value(class) % 256) as u8);
    assert(buf[q + 3] == (class_value(class) / 256) as u8);
    assert(le16(buf, q) == type_value(ty));
    assert(le16(buf, q + 2) == class_value(class));
    crate::dns::records::lemma_type_value_roundtrip(ty);
    crate::dns::records::lemma_class_value_roundtrip(class);
}

/// The header of a DNS message.
#[derive(Copy, Clone, Debug, Eq, PartialEq)]
pub struct Header {
    pub id: u16,
    pub flags: Flags,
    pub qd_count: u16,
    pub an_count: u16,
    pub ns_count: u16,
    pub ar_count: u16,
}

/// A DNS message.
#[derive(Clone, Debug, Default)]
pub struct Message {
    pub id: u16,
    pub flags: Flags,
    pub questions: Vec<Question>,
    pub answers: Vec<ResourceRecord>,
    pub authority_records: Vec<ResourceRecord>,
    pub additional_records: Vec<ResourceRecord>,
}

/// The wire form of the questions `qs` from the `i`-th on.
pub open spec fn questions_wire(qs: Seq<Question>, i: int) -> Seq<u8>
    decreases qs.len() - i,
{
    if i < 0 || i >= qs.len() {
        Seq::<u8>::empty()
    } else {
        question_wire(qs[i].name@, qs[i].ty, qs[i].class) + questions_wire(qs, i + 1)
    }
}

/// The wire form of a message without records: the header (identifier, flags and the four
/// counts, each little-endian, the question count taken modulo 2^16), then the questions.
pub open spec fn message_wire(id: u16, flags: u16, qs: Seq<Question>) -> Seq<u8> {
    le16_octets(id) + le16_octets(flags) + le16_octets((qs.len() % 0x10000) as u16)
        + le16_octets(0) + le16_octets(0) + le16_octets(0) + questions_wire(qs, 0)
}

/// Reading `count` questions from `buf` at `p`: each one's name, type and class, and the
/// position after the last; or what was wrong.
pub open spec fn read_questions_at(buf: Seq<u8>, p: int, count: nat)
    -> Result<(Seq<(Seq<char>, Type, Class)>, int), WireError>
    decreases count,
{
    if count == 0 {
        Ok((Seq::empty(), p))
    } else {
        match read_question_at(buf, p) {
            Err(e) => Err(e),
            Ok((n, t, c, q)) => match read_questions_at(buf, q, (count - 1) as nat) {
                Err(e) => Err(e),
                Ok((rest, end)) => Ok((seq![(n, t, c)] + rest, end)),
            },
        }
    }
}

/// Whether a record in wire form at `p` of `buf` has a complete name, fixed part and data:
/// the reading of record data is not provided, so a message reader stops at such a record.
pub open spec fn record_complete_at(buf: Seq<u8>, p: int) -> bool {
    match read_name_at(buf, p) {
        Err(_) => false,
        Ok((n, q)) => valid_utf8(n) && q + 10 <= buf.len() && q + 10 + le16(buf, q + 8) <= buf.len(),
    }
}

/// What reading the first record at `p` runs into when it is not complete.
pub open spec fn record_error_at(buf: Seq<u8>, p: int) -> WireError {
    match read_name_at(buf, p) {
        Err(e) => e,
        Ok((n, q)) => if !valid_utf8(n) { WireError::InvalidData } else { WireError::UnexpectedEnd },
    }
}

/// The record count of the first record section that has records, at header offset 6, 8 or
/// 10, or none.
pub open spec fn first_record_count(buf: Seq<u8>) -> bool {
    le16(buf, 6) != 0 || le16(buf, 8) != 0 || le16(buf, 10) != 0
}

/// Reading a message from `buf`: the identifier, the flags and the questions; or what was
/// wrong. A message with records can only fail here (see `record_complete_at`).
pub open spec fn read_message(buf: Seq<u8>) -> Result<(u16, u16, Seq<(Seq<char>, Type, Class)>), WireError> {
    if buf.len() < 12 {
        Err(WireError::UnexpectedEnd)
    } else {
        match read_questions_at(buf, 12, le16(buf, 4) as nat) {
            Err(e) => Err(e),
            Ok((qs, end)) => if first_record_count(buf) {
                Err(record_error_at(buf, end))
            } else {
                Ok((le16(buf, 0), le16(buf, 2), qs))
            },
        }
    }
}

/// Whether reading the message `buf` would reach the data of a record.
pub open spec fn message_reaches_record_data(buf: Seq<u8>) -> bool {
    buf.len() >= 12 && match read_questions_at(buf, 12, le16(buf, 4) as nat) {
        Err(_) => false,
        Ok((qs, end)) => first_record_count(buf) && record_complete_at(buf, end),
    }
}

fn read_le16(buf: &[u8], p: usize) -> (r: u16)
    requires
        p + 2 <= buf@.len(),
    ensures
        r == le16(buf@, p as int),
{
    buf[p] as u16 + 256 * buf[p + 1] as u16
}

/// Whether `r` is what reading the message `buf` gives (see `read_message`): the error, or a
/// message of the header and the questions read, with no records.
pub open spec fn message_read_as(r: Result<Message, WireError>, buf: Seq<u8>) -> bool {
    match read_message(buf) {
        Err(e) => r == Err::<Message, WireError>(e),
        Ok((id, flags, qs)) => r matches Ok(m) && m.id == id && m.flags.0 == flags
            && m.questions@.len() == qs.len()
            && (forall|i: int| 0 <= i < qs.len() ==>
                (#[trigger] m.questions@[i]).name@ == qs[i].0
                && m.questions@[i].ty == qs[i].1 && m.questions@[i].class == qs[i].2)
            && m.answers@.len() == 0 && m.authority_records@.len() == 0
            && m.additional_records@.len() == 0,
    }
}

/// The message that a frame holds: two octets of length, big-endian, then the message; the
/// octets must reach the end of the message.
pub open spec fn framed_message(buf: Seq<u8>) -> Result<Seq<u8>, WireError> {
    if buf.len() < 2 {
        Err(WireError::UnexpectedEnd)
    } else if 2 + be_value(buf, 0, 2) > buf.len() {
        Err(WireError::UnexpectedEnd)
    } else {
        Ok(buf.subrange(2, 2 + be_value(buf, 0, 2) as int))
    }
}

impl Message {
    /// Reads a message: the header and the questions. Reading record data is not provided: a
    /// message whose first record is complete is outside what this reads.
    pub fn read(buf: &[u8]) -> (r: Result<Message, WireError>)
        requires
            !message_reaches_record_data(buf@),
        ensures
            message_read_as(r, buf@),
    {
        if buf.len() < 12 {
            return Err(WireError::UnexpectedEnd);
        }
        let id = read_le16(buf, 0);
        let flags = read_le16(buf, 2);
        let count = read_le16(buf, 4);
        let mut questions: Vec<Question> = Vec::new();
        let mut pos: usize = 12;
        let mut k: u16 = 0;
        let ghost all = read_questions_at(buf@, 12, count as nat);
        while k < count
            invariant
                buf@.len() >= 12,
                count == le16(buf@, 4),
                k <= count,
                all == read_questions_at(buf@, 12, count as nat),
                questions@.len() == k,
                match all {
                    Err(e) => read_questions_at(buf@, pos as int, (count - k) as nat)
                        == Err::<(Seq<(Seq<char>, Type, Class)>, int), WireError>(e),
                    Ok((qs, end)) => match read_questions_at(buf@, pos as int, (count - k) as nat) {
                        Err(_) => false,
                        Ok((rest, end2)) => end2 == end && qs.len() == k + rest.len()
                            && rest == qs.subrange(k as int, qs.len() as int)
                            && forall|i: int| 0 <= i < k ==>
                                (#[trigger] questions@[i]).name@ == qs[i].0
                                && questions@[i].ty == qs[i].1 && questions@[i].class == qs[i].2,
                    },
                },
            decreases count - k,
        {
            let ghost before = questions@;
            let ghost p0 = pos as int;
            let q = match Question::read(buf, &mut pos) {
                Ok(q) => q,
                Err(e) => return Err(e),
            };
            questions.push(q);
            proof {
                match all {
                    Ok((qs, end)) => {
                        let rd = read_question_at(buf@, p0);
                        assert(rd == Ok::<(Seq<char>, Type, Class, int), WireError>((q.name@, q.ty, q.class, pos as int)));
                        let rest = qs.subrange(k as int, qs.len() as int);
                        assert(read_questions_at(buf@, p0, (count - k) as nat) == match read_questions_at(buf@, pos as int, (count - k - 1) as nat) {
                            Err(e) => Err(e),
                            Ok((r2, e2)) => Ok::<(Seq<(Seq<char>, Type, Class)>, int), WireError>((seq![(q.name@, q.ty, q.class)] + r2, e2)),
                        });
                        assert(rest[0] == qs[k as int]);
                        assert(qs[k as int] == (q.name@, q.ty, q.class));
                        assert forall|i: int| 0 <= i < k + 1 implies
                            (#[trigger] questions@[i]).name@ == qs[i].0
                            && questions@[i].ty == qs[i].1 && questions@[i].class == qs[i].2 by {
                            if i < k {
                                assert(questions@[i] == before[i]);
                            }
                        }
                        assert(qs.subrange(k + 1, qs.len() as int) =~= qs.subrange(k as int, qs.len() as int).drop_first());
                    }
                    Err(_) => {}
                }
            }
            k += 1;
        }
        if read_le16(buf, 6) != 0 || read_le16(buf, 8) != 0 || read_le16(buf, 10) != 0 {
            return Err(Self::record_error(buf, pos));
        }
        Ok(Message {
            id,
            flags: Flags(flags),
            questions,
            answers: Vec::new(),
            authority_records: Vec::new(),
            additional_records: Vec::new(),
        })
    }

    /// What reading an incomplete first record at `pos` runs into.
    fn record_error(buf: &[u8], pos: usize) -> (r: WireError)
        requires
            !record_complete_at(buf@, pos as int),
        ensures
            r == record_error_at(buf@, pos as int),
    {
        let mut p = pos;
        match read_domain_name(buf, &mut p) {
            Err(e) => e,
            Ok(_) => WireError::UnexpectedEnd,
        }
    }

    /// Writes the message in wire form. Writing record data is not provided, so the message
    /// holds questions only.
    pub fn write(&self, out: &mut Vec<u8>)
        requires
            self.answers@.len() == 0,
            self.authority_records@.len() == 0,
            self.additional_records@.len() == 0,
        ensures
            final(out)@ == old(out)@ + message_wire(self.id, self.flags.0, self.questions@),
    {
        push_le16(out, self.id);
        push_le16(out, self.flags.0);
        push_le16(out, (self.questions.len() % 0x10000) as u16);
        push_le16(out, 0);
        push_le16(out, 0);
        push_le16(out, 0);
        let ghost head = out@;
        let mut i: usize = 0;
        while i < self.questions.len()
            invariant
                i <= self.questions@.len(),
                out@ + questions_wire(self.questions@, i as int) == head + questions_wire(self.questions@, 0),
            decreases self.questions@.len() - i,
        {
            let ghost before = out@;
            self.questions[i].write(out);
            proof {
                assert(before + questions_wire(self.questions@, i as int) =~= out@ + questions_wire(self.questions@, i + 1));
            }
            i += 1;
        }
        proof {
            assert(out@ =~= head + questions_wire(self.questions@, 0));
            assert(final(out)@ =~= old(out)@ + message_wire(self.id, self.flags.0, self.questions@));
        }
    }
}

/// A question as its name, type and class.
pub open spec fn question_view(q: Question) -> (Seq<char>, Type, Class) {
    (q.name@, q.ty, q.class)
}

/// Whether every question of `qs` has a name that `wire_name` admits.
pub open spec fn wire_questions(qs: Seq<Question>) -> bool {
    forall|i: int| 0 <= i < qs.len() ==> wire_name(encode_utf8(#[trigger] qs[i].name@))
}

#[verifier::spinoff_prover]
#[verifier::rlimit(40)]
proof fn lemma_questions_roundtrip(qs: Seq<Question>, i: int, pre: Seq<u8>, rest: Seq<u8>)
    requires
        0 <= i <= qs.len(),
        wire_questions(qs),
    ensures
        read_questions_at(pre + questions_wire(qs, i) + rest, pre.len() as int, (qs.len() - i) as nat)
            == Ok::<(Seq<(Seq<char>, Type, Class)>, int), WireError>((
                qs.subrange(i, qs.len() as int).map_values(|q: Question| question_view(q)),
                (pre.len() + questions_wire(qs, i).len()) as int)),
    decreases qs.len() - i,
{
    if i == qs.len() {
        assert(qs.subrange(i, qs.len() as int).map_values(|q: Question| question_view(q)) =~= Seq::empty());
    } else {
        let w = question_wire(qs[i].name@, qs[i].ty, qs[i].class);
        let tail = questions_wire(qs, i + 1) + rest;
        assert(pre + questions_wire(qs, i) + rest =~= pre + w + tail);
        lemma_question_roundtrip(qs[i].name@, qs[i].ty, qs[i].class, pre, tail);
        lemma_questions_roundtrip(qs, i + 1, pre + w, rest);
        assert(pre + w + questions_wire(qs, i + 1) + rest =~= pre + w + tail);
        assert(qs.subrange(i, qs.len() as int).map_values(|q: Question| question_view(q))
            =~= seq![question_view(qs[i])] + qs.subrange(i + 1, qs.len() as int).map_values(|q: Question| question_view(q)));
    }
}

/// Writing a message of fewer than 2^16 questions, whose names `wire_name` admits, and reading
/// it back gives its identifier, flags and questions.
pub proof fn lemma_message_roundtrip(id: u16, flags: u16, qs: Seq<Question>)
    requires
        qs.len() < 0x10000,
        wire_questions(qs),
    ensures
        read_message(message_wire(id, flags, qs))
            == Ok::<(u16, u16, Seq<(Seq<char>, Type, Class)>), WireError>(
                (id, flags, qs.map_values(|q: Question| question_view(q)))),
{
    let head = le16_octets(id) + le16_octets(flags) + le16_octets((qs.len() % 0x10000) as u16)
        + le16_octets(0) + le16_octets(0) + le16_octets(0);
    let buf = message_wire(id, flags, qs);
    assert(buf =~= head + questions_wire(qs, 0) + Seq::<u8>::empty());
    assert(head.len() == 12);
    lemma_questions_roundtrip(qs, 0, head, Seq::<u8>::empty());
    assert(le16(buf, 0) == id);
    assert(le16(buf, 2) == flags);
    assert(le16(buf, 4) == qs.len());
    assert(le16(buf, 6) == 0);
    assert(le16(buf, 8) == 0);
    assert(le16(buf, 10) == 0);
    assert(qs.subrange(0, qs.len() as int) =~= qs);
}


impl Message {
    /// Reads a message from a frame (see `framed_message`), as a stream carries it.
    pub fn read_with_len(buf: &[u8]) -> (r: Result<Message, WireError>)
        requires
            framed_message(buf@) matches Ok(m) ==> !message_reaches_record_data(m),
        ensures
            match framed_message(buf@) {
                Err(e) => r == Err::<Message, WireError>(e),
                Ok(m) => message_read_as(r, m),
            },
    {
        if buf.len() < 2 {
            return Err(WireError::UnexpectedEnd);
        }
        let len = buf[0] as usize * 256 + buf[1] as usize;
        proof {
            reveal_with_fuel(be_value, 3);
            assert(be_value(buf@, 0, 2) == len);
        }
        if len > buf.len() - 2 {
            return Err(WireError::UnexpectedEnd);
        }
        let mut frame: Vec<u8> = Vec::new();
        let mut i: usize = 0;
        while i < len
            invariant
                2 + len <= buf@.len(),
                buf@.len() <= usize::MAX,
                i <= len,
                frame@ == buf@.subrange(2, 2 + i),
            decreases len - i,
        {
            frame.push(buf[2 + i]);
            i += 1;
            proof {
                assert(frame@ =~= buf@.subrange(2, 2 + i));
            }
        }
        Message::read(frame.as_slice())
    }

    /// Writes the message in a frame: its length in two octets, big-endian, then the message.
    /// The length is taken modulo 2^16; a frame whose length leaves less than 2 there is left
    /// out. The message holds questions only (see `write`).
    pub fn write_with_len(&self, out: &mut Vec<u8>)
        requires
            self.answers@.len() == 0,
            self.authority_records@.len() == 0,
            self.additional_records@.len() == 0,
            (message_wire(self.id, self.flags.0, self.questions@).len() + 2) % 0x10000 >= 2,
        ensures
            final(out)@ == old(out)@
                + be_octets(((message_wire(self.id, self.flags.0, self.questions@).len() + 2) % 0x10000 - 2) as nat, 2)
                + message_wire(self.id, self.flags.0, self.questions@),
    {
        let mut buf: Vec<u8> = Vec::new();
        self.write(&mut buf);
        assert(buf@ =~= message_wire(self.id, self.flags.0, self.questions@));
        let total = buf.len() as u64 + 2;
        let len = (total % 0x10000) - 2;
        push_be(out, len, 2);
        let mut i: usize = 0;
        let ghost start = out@;
        while i < buf.len()
            invariant
                i <= buf@.len(),
                out@ == start + buf@.subrange(0, i as int),
            decreases buf@.len() - i,
        {
            out.push(buf[i]);
            i += 1;
            proof {
                assert(out@ =~= start + buf@.subrange(0, i as int));
            }
        }
        assert(buf@.subrange(0, buf@.len() as int) =~= buf@);
    }
}


/// A frame that `write_with_len` makes of a message of fewer than 2^16 - 2 octets holds that
/// message.
pub proof fn lemma_frame_roundtrip(msg: Seq<u8>)
    requires
        msg.len() + 2 < 0x10000,
    ensures
        framed_message(be_octets(((msg.len() + 2) % 0x10000 - 2) as nat, 2) + msg) == Ok::<Seq<u8>, WireError>(msg),
{
    let v = ((msg.len() + 2) % 0x10000 - 2) as nat;
    assert(v == msg.len());
    let buf = be_octets(v, 2) + msg;
    lemma_be_octets_len(v, 2);
    reveal_with_fuel(pow256, 3);
    assert(buf.subrange(0, 2) =~= be_octets(v, 2));
    lemma_be_roundtrip(buf, 0, v, 2);
    assert(buf.subrange(2, 2 + v as int) =~= msg);
}

/// The response codes of DNS, as RFC 1035 (section 4.1.1) and the later RFCs of the IANA
/// registry assign them: each response code is written as its number, and each number reads as
/// its response code.
#[verifier::rlimit(50)]
pub proof fn lemma_rcode_numbers()
    ensures
        rcode_value(RCode::NoError) == 0,
        rcode_of(0) == Some(RCode::NoError),
        rcode_value(RCode::FormatError) == 1,
        rcode_of(1) == Some(RCode::FormatError),
        rcode_value(RCode::ServerFailure) == 2,
        rcode_of(2) == Some(RCode::ServerFailure),
        rcode_value(RCode::NonExistentDomain) == 3,
        rcode_of(3) == Some(RCode::NonExistentDomain),
        rcode_value(RCode::NotImplemented) == 4,
        rcode_of(4) == Some(RCode::NotImplemented),
        rcode_value(RCode::QueryRefused) == 5,
        rcode_of(5) == Some(RCode::QueryRefused),
        rcode_value(RCode::YXDomain) == 6,
        rcode_of(6) == Some(RCode::YXDomain),
        rcode_value(RCode::YXRRSet) == 7,
        rcode_of(7) == Some(RCode::YXRRSet),
        rcode_value(RCode::NonExistentRRSet) == 8,
        rcode_of(8) == Some(RCode::NonExistentRRSet),
        rcode_value(RCode::NotAuthoritive) == 9,
        rcode_of(9) == Some(RCode::NotAuthoritive),
        rcode_value(RCode::NotZone) == 10,
        rcode_of(10) == Some(RCode::NotZone),
        rcode_value(RCode::DsoTypeNotImplemented) == 11,
        rcode_of(11) == Some(RCode::DsoTypeNotImplemented),
        rcode_value(RCode::BadVersOrSig) == 16,
        rcode_of(16) == Some(RCode::BadVersOrSig),
        rcode_value(RCode::BadKey) == 17,
        rcode_of(17) == Some(RCode::BadKey),
        rcode_value(RCode::BadTime) == 18,
        rcode_of(18) == Some(RCode::BadTime),
        rcode_value(RCode::BadMode) == 19,
        rcode_of(19) == Some(RCode::BadMode),
        rcode_value(RCode::BadName) == 20,
        rcode_of(20) == Some(RCode::BadName),
        rcode_value(RCode::BadAlg) == 21,
        rcode_of(21) == Some(RCode::BadAlg),
        rcode_value(RCode::BadTrunc) == 22,
        rcode_of(22) == Some(RCode::BadTrunc),
        rcode_value(RCode::BadCookie) == 23,
        rcode_of(23) == Some(RCode::BadCookie),
{
}

/// Every number that reads as a response code is the number that response code is written as.
pub proof fn lemma_rcode_of_inverse(v: u16)
    ensures
        rcode_of(v) matches Some(x) ==> rcode_value(x) == v,
{
}

} // verus!
