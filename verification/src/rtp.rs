//! RTP (RFC 3550): the fixed header of a data packet.
use vstd::prelude::*;
use crate::rtcp::{ReadError, read_be_u32};
use crate::octets::{be_value, be_octets, pow256, push_be, lemma_be_roundtrip, lemma_be_octets_len};

verus! {

pub const FLAGS_VERSION_MASK: u8 = 0b11;
pub const FLAGS_PADDING_BIT: u8 = 0b100;
pub const FLAGS_EXTENSION_BIT: u8 = 0b1000;
pub const FLAGS_CSRC_COUNT_MASK: u8 = 0b00001111;
pub const FLAGS_CSRC_COUNT_SHIFT: u8 = 4;
pub const PAYLOAD_TYPE_MARKER_BIT: u8 = 1;

/// The fixed header of an RTP packet.
#[derive(Copy, Clone, Debug, Default, Eq, PartialEq)]
pub struct Header {
    pub flags: u8,
    pub payload_type: u8,
    pub sequence_number: u16,
    pub timestamp: u32,
    pub ssrc: u32,
}

/// The CSRC count field as the header keeps it: the flags under the count mask shifted left by
/// `FLAGS_CSRC_COUNT_SHIFT`. Only a count of zero fits the 72 octets that a header is read
/// into.
pub open spec fn csrc_count(flags: u8) -> nat {
    (flags & 0xf0) as nat
}

/// The 72 octets that `write` writes: the twelve octets of the header, the CSRC identifiers,
/// and zeros up to 72 octets.
pub open spec fn header_octets(h: Header, csrc: Seq<u32>) -> Seq<u8> {
    let head = seq![h.flags, h.payload_type] + be_octets(h.sequence_number as nat, 2)
        + be_octets(h.timestamp as nat, 4) + be_octets(h.ssrc as nat, 4);
    let ids = Seq::new((4 * csrc.len()) as nat, |i: int| be_octets(csrc[i / 4] as nat, 4)[i % 4]);
    head + ids + Seq::new((60 - 4 * csrc.len()) as nat, |i: int| 0u8)
}

impl Header {
    /// Reads a header: the flags, the payload type, the sequence number, the timestamp and the
    /// source identifier, big-endian, then the CSRC identifiers that the count field asks for.
    /// The count field is read unshifted, so only headers whose field is zero fit; the
    /// identifiers read are returned (none).
    pub fn read(reader: &[u8]) -> (r: Result<(Header, Vec<u32>), ReadError>)
        requires
            reader@.len() >= 1 ==> csrc_count(reader@[0]) == 0,
        ensures
            reader@.len() < 12 ==> r == Err::<(Header, Vec<u32>), ReadError>(ReadError::UnexpectedEof),
            reader@.len() >= 12 ==> (r matches Ok((h, ids)) && ids@.len() == 0 && h == Header {
                flags: reader@[0],
                payload_type: reader@[1],
                sequence_number: be_value(reader@, 2, 2) as u16,
                timestamp: be_value(reader@, 4, 4) as u32,
                ssrc: be_value(reader@, 8, 4) as u32,
            }),
    {
        if reader.len() < 12 {
            return Err(ReadError::UnexpectedEof);
        }
        proof {
            reveal_with_fuel(be_value, 5);
        }
        let h = Header {
            flags: reader[0],
            payload_type: reader[1],
            sequence_number: reader[2] as u16 * 256 + reader[3] as u16,
            timestamp: ((reader[4] as u32 * 256 + reader[5] as u32) * 256 + reader[6] as u32) * 256 + reader[7] as u32,
            ssrc: ((reader[8] as u32 * 256 + reader[9] as u32) * 256 + reader[10] as u32) * 256 + reader[11] as u32,
        };
        Ok((h, Vec::new()))
    }

    /// Writes the header and at most fifteen CSRC identifiers into 72 octets: the header's
    /// twelve, four per identifier, and zeros for the rest.
    pub fn write(self, csrc: &[u32], out: &mut Vec<u8>)
        requires
            csrc@.len() <= 15,
        ensures
            final(out)@ == old(out)@ + header_octets(self, csrc@),
    {
        out.push(self.flags);
        out.push(self.payload_type);
        push_be(out, self.sequence_number as u64, 2);
        push_be(out, self.timestamp as u64, 4);
        push_be(out, self.ssrc as u64, 4);
        let ghost head = out@;
        let mut i: usize = 0;
        while i < csrc.len()
            invariant
                i <= csrc@.len() <= 15,
                out@ == head + Seq::new((4 * i) as nat, |k: int| be_octets(csrc@[k / 4] as nat, 4)[k % 4]),
            decreases csrc@.len() - i,
        {
            let ghost before = out@;
            push_be(out, csrc[i] as u64, 4);
            proof {
                lemma_be_octets_len(csrc@[i as int] as nat, 4);
                assert(out@ =~= head + Seq::new((4 * (i + 1)) as nat, |k: int| be_octets(csrc@[k / 4] as nat, 4)[k % 4]));
            }
            i += 1;
        }
        let ghost mid = out@;
        let mut k: usize = 4 * csrc.len();
        while k < 60
            invariant
                4 * csrc@.len() <= k <= 60,
                out@ == mid + Seq::new((k - 4 * csrc@.len()) as nat, |j: int| 0u8),
            decreases 60 - k,
        {
            out.push(0);
            assert(out@ =~= mid + Seq::new((k + 1 - 4 * csrc@.len()) as nat, |j: int| 0u8));
            k += 1;
        }
        proof {
            lemma_be_octets_len(self.sequence_number as nat, 2);
            lemma_be_octets_len(self.timestamp as nat, 4);
            lemma_be_octets_len(self.ssrc as nat, 4);
        }
        assert(final(out)@ =~= old(out)@ + header_octets(self, csrc@));
    }
}

/// Writing a header with no CSRC identifiers, whose count field is zero, and reading it back
/// gives the header.
pub proof fn lemma_header_roundtrip(h: Header)
    requires
        csrc_count(h.flags) == 0,
    ensures
        ({
            let b = header_octets(h, Seq::empty());
            &&& b.len() >= 12
            &&& b[0] == h.flags
            &&& b[1] == h.payload_type
            &&& be_value(b, 2, 2) as u16 == h.sequence_number
            &&& be_value(b, 4, 4) as u32 == h.timestamp
            &&& be_value(b, 8, 4) as u32 == h.ssrc
        }),
{
    let b = header_octets(h, Seq::empty());
    lemma_be_octets_len(h.sequence_number as nat, 2);
    lemma_be_octets_len(h.timestamp as nat, 4);
    lemma_be_octets_len(h.ssrc as nat, 4);
    assert(b.subrange(2, 4) =~= be_octets(h.sequence_number as nat, 2));
    assert(b.subrange(4, 8) =~= be_octets(h.timestamp as nat, 4));
    assert(b.subrange(8, 12) =~= be_octets(h.ssrc as nat, 4));
    reveal_with_fuel(pow256, 5);
    lemma_be_roundtrip(b, 2, h.sequence_number as nat, 2);
    lemma_be_roundtrip(b, 4, h.timestamp as nat, 4);
    lemma_be_roundtrip(b, 8, h.ssrc as nat, 4);
}

} // verus!
