//! RTCP, the control protocol of RTP (RFC 3550): packet headers and the reading of sender
//! reports, receiver reports and source descriptions.
use vstd::prelude::*;
use vstd::string::StringExecFns;
use vstd::utf8::{valid_utf8, decode_utf8};
use crate::text::{utf8_str, lemma_utf8_chars};
use crate::octets::be_value;

verus! {

pub const VERSION_2: u8 = 2;
pub const FLAGS_VERSION_MASK: u8 = 0b11;
pub const FLAGS_PADDING_BIT: u8 = 0b100;
pub const FLAGS_RC_MASK: u8 = 0b00011111;
pub const FLAGS_RC_SHIFT: u8 = 3;
pub const PACKET_TYPE_SR: u8 = 200;
pub const PACKET_TYPE_RR: u8 = 201;
pub const PACKET_TYPE_SDES: u8 = 202;
pub const PACKET_TYPE_BYE: u8 = 203;
pub const PACKET_TYPE_APP: u8 = 204;
pub const SDES_CNAME: u8 = 1;
pub const SDES_NAME: u8 = 2;
pub const SDES_EMAIL: u8 = 3;
pub const SDES_PHONE: u8 = 4;
pub const SDES_LOC: u8 = 5;
pub const SDES_TOOL: u8 = 6;
pub const SDES_NOTE: u8 = 7;
pub const SDES_PRIV: u8 = 8;

/// What reading a packet ran into.
#[derive(Copy, Clone, Debug, Eq, PartialEq)]
pub enum ReadError {
    /// the octets ended before the part did
    UnexpectedEof,
    /// the packet has a version other than 2
    UnsupportedVersion,
    /// the octets are not a valid part
    InvalidData,
}

pub(crate) fn read_be_u32(b: &[u8], p: usize) -> (r: u32)
    requires
        p + 4 <= b@.len(),
    ensures
        r == be_value(b@, p as int, 4),
{
    reveal_with_fuel(be_value, 5);
    ((b[p] as u32 * 256 + b[p + 1] as u32) * 256 + b[p + 2] as u32) * 256 + b[p + 3] as u32
}

fn read_be_u64(b: &[u8], p: usize) -> (r: u64)
    requires
        p + 8 <= b@.len(),
    ensures
        r == be_value(b@, p as int, 8),
{
    reveal_with_fuel(be_value, 9);
    let blen = b.len();
    let hi = read_be_u32(b, p) as u64;
    let lo = read_be_u32(b, p + 4) as u64;
    assert(be_value(b@, p as int, 8) == be_value(b@, p as int, 4) * 0x1_0000_0000 + be_value(b@, p + 4, 4));
    hi * 0x1_0000_0000 + lo
}

/// The fixed header of an RTCP packet.
#[derive(Copy, Clone, Debug, Default, Eq, PartialEq)]
pub struct Header {
    pub flags: u8,
    pub packet_type: u8,
    pub length: u16,
}

impl Header {
    /// Reads the header from the first four octets: flags, packet type and the big-endian
    /// length.
    pub fn read(reader: &[u8]) -> (r: Result<Header, ReadError>)
        ensures
            reader@.len() < 4 ==> r == Err::<Header, ReadError>(ReadError::UnexpectedEof),
            reader@.len() >= 4 ==> r == Ok::<Header, ReadError>(Header {
                flags: reader@[0],
                packet_type: reader@[1],
                length: (reader@[2] as int * 256 + reader@[3] as int) as u16,
            }),
    {
        if reader.len() < 4 {
            return Err(ReadError::UnexpectedEof);
        }
        Ok(Header { flags: reader[0], packet_type: reader[1], length: reader[2] as u16 * 256 + reader[3] as u16 })
    }
}

/// What the header of a packet says is to be read next.
pub enum PacketReceiver<'a> {
    SenderReport(PacketSenderReportSenderInfo<'a>),
    ReceiverReport(PacketSenderReportReportBlocks<'a>),
    SourceDescription(PacketSourceDescriptionChunks<'a>),
    Bye(ByeReceiver<'a>),
    App(AppReceiver<'a>),
}

/// The sender information of a sender report is next in `reader`.
pub struct PacketSenderReportSenderInfo<'a> {
    pub reader: &'a [u8],
    pub count: usize,
}

/// `count` report blocks are next in `reader`.
pub struct PacketSenderReportReportBlocks<'a> {
    pub reader: &'a [u8],
    pub count: usize,
}

/// The extensions of a report are next in `reader`.
pub struct PacketSenderReportExtensions<'a> {
    pub reader: &'a [u8],
}

/// Source description chunks are next in `reader`.
pub struct PacketSourceDescriptionChunks<'a> {
    pub reader: &'a [u8],
    pub count: usize,
}

/// The items of a source description chunk are next in `reader`; `read` counts the octets of
/// the items read so far.
pub struct PacketSourceDescriptionChunkItems<'a> {
    pub reader: &'a [u8],
    pub count: usize,
    pub read: usize,
}

/// A goodbye packet is next in `reader`.
pub struct ByeReceiver<'a> {
    pub reader: &'a [u8],
    pub count: usize,
}

/// An application-defined packet of `length` octets is next in `reader`.
pub struct AppReceiver<'a> {
    pub reader: &'a [u8],
    pub length: usize,
}

/// The report count field as the packet header keeps it: the flags under the count mask
/// shifted left by `FLAGS_RC_SHIFT`.
pub open spec fn report_count(flags: u8) -> usize {
    (flags & 0xf8) as usize
}

/// Reads the header of a packet and tells what follows it: a sender report, a receiver report,
/// a source description, a goodbye or an application-defined packet. The version is kept in
/// the low two bits of the flags and must be 2.
pub fn recv_packet<'a>(reader: &'a [u8]) -> (r: Result<PacketReceiver<'a>, ReadError>)
    requires
        reader@.len() >= 4 ==> reader@[2] < 64,
    ensures
        reader@.len() < 4 ==> (r matches Err(ReadError::UnexpectedEof)),
        reader@.len() >= 4 ==> {
            let flags = reader@[0];
            let ty = reader@[1];
            let rest = reader@.subrange(4, reader@.len() as int);
            let count = report_count(flags);
            if flags & 0b11 != 2 {
                r matches Err(ReadError::UnsupportedVersion)
            } else if ty == PACKET_TYPE_SR {
                r matches Ok(PacketReceiver::SenderReport(x)) && x.reader@ == rest && x.count == count
            } else if ty == PACKET_TYPE_RR {
                r matches Ok(PacketReceiver::ReceiverReport(x)) && x.reader@ == rest && x.count == count
            } else if ty == PACKET_TYPE_SDES {
                r matches Ok(PacketReceiver::SourceDescription(x)) && x.reader@ == rest && x.count == count
            } else if ty == PACKET_TYPE_BYE {
                r matches Ok(PacketReceiver::Bye(x)) && x.reader@ == rest && x.count == count
            } else if ty == PACKET_TYPE_APP {
                r matches Ok(PacketReceiver::App(x)) && x.reader@ == rest
                    && x.length == (reader@[2] as int * 256 + reader@[3] as int) * 4
            } else {
                r matches Err(ReadError::InvalidData)
            }
        },
{
    let header = match Header::read(reader) {
        Ok(h) => h,
        Err(e) => return Err(e),
    };
    let len = (header.length * 4) as usize;
    if header.flags & FLAGS_VERSION_MASK != VERSION_2 {
        return Err(ReadError::UnsupportedVersion);
    }
    let count = (header.flags & FLAGS_RC_MASK << FLAGS_RC_SHIFT) as usize;
    let rest = vstd::slice::slice_subrange(reader, 4, reader.len());
    proof {
        let f = header.flags;
        assert(f & (FLAGS_RC_MASK << FLAGS_RC_SHIFT) == f & 0xf8) by (bit_vector);
    }
    if header.packet_type == PACKET_TYPE_SR {
        Ok(PacketReceiver::SenderReport(PacketSenderReportSenderInfo { reader: rest, count }))
    } else if header.packet_type == PACKET_TYPE_RR {
        Ok(PacketReceiver::ReceiverReport(PacketSenderReportReportBlocks { reader: rest, count }))
    } else if header.packet_type == PACKET_TYPE_SDES {
        Ok(PacketReceiver::SourceDescription(PacketSourceDescriptionChunks { reader: rest, count }))
    } else if header.packet_type == PACKET_TYPE_BYE {
        Ok(PacketReceiver::Bye(ByeReceiver { reader: rest, count }))
    } else if header.packet_type == PACKET_TYPE_APP {
        Ok(PacketReceiver::App(AppReceiver { reader: rest, length: len }))
    } else {
        Err(ReadError::InvalidData)
    }
}

/// The sender information of a sender report.
#[derive(Copy, Clone, Debug, Eq, PartialEq)]
pub struct SenderInfo {
    pub ntp_timestamp: u64,
    pub rtp_timestamp: u32,
    pub sender_packet_count: u32,
    pub sender_octet_count: u32,
}

/// A report block of a sender or receiver report.
#[derive(Copy, Clone, Debug, Eq, PartialEq)]
pub struct ReportBlock {
    pub ssrc: u32,
    pub fraction_lost: u8,
    pub packets_lost: [u8; 3],
    pub highest_sqeuence_number: u32,
    pub interarrival_jitter: u32,
    pub last_sr: u32,
    pub delay_since_last_sr: u32,
}

impl<'a> PacketSenderReportSenderInfo<'a> {
    /// Reads the sender information, twenty octets: the NTP timestamp (eight big-endian
    /// octets), then the RTP timestamp, the packet count and the octet count (four each).
    pub fn read_sender_info(self) -> (r: Result<(SenderInfo, PacketSenderReportReportBlocks<'a>), ReadError>)
        ensures
            self.reader@.len() < 20 ==> (r matches Err(ReadError::UnexpectedEof)),
            self.reader@.len() >= 20 ==> (r matches Ok((info, next)) && info.ntp_timestamp == be_value(self.reader@, 0, 8) && info.rtp_timestamp == be_value(self.reader@, 8, 4) && info.sender_packet_count == be_value(self.reader@, 12, 4) && info.sender_octet_count == be_value(self.reader@, 16, 4) && next.reader@ == self.reader@.subrange(20, self.reader@.len() as int) && next.count == self.count),
    {
        let b = self.reader;
        if b.len() < 20 {
            return Err(ReadError::UnexpectedEof);
        }
        let info = SenderInfo {
            ntp_timestamp: read_be_u64(b, 0),
            rtp_timestamp: read_be_u32(b, 8),
            sender_packet_count: read_be_u32(b, 12),
            sender_octet_count: read_be_u32(b, 16),
        };
        let rest = vstd::slice::slice_subrange(b, 20, b.len());
        Ok((info, PacketSenderReportReportBlocks { reader: rest, count: self.count }))
    }
}

impl<'a> PacketSenderReportReportBlocks<'a> {
    /// Reads the next report block, twenty-four octets, while the count lasts; once it is
    /// spent, the extensions follow.
    pub fn read_report_block(self)
        -> (r: Result<Result<(ReportBlock, PacketSenderReportReportBlocks<'a>), PacketSenderReportExtensions<'a>>, ReadError>)
        ensures
            self.count == 0 ==> (r matches Ok(Err(x)) && x.reader@ == self.reader@),
            self.count > 0 && self.reader@.len() < 24 ==> (r matches Err(ReadError::UnexpectedEof)),
            self.count > 0 && self.reader@.len() >= 24 ==> (r matches Ok(Ok((block, next))) && block.ssrc == be_value(self.reader@, 0, 4) && block.fraction_lost == self.reader@[4] && block.packets_lost@ == self.reader@.subrange(5, 8) && block.highest_sqeuence_number == be_value(self.reader@, 8, 4) && block.interarrival_jitter == be_value(self.reader@, 12, 4) && block.last_sr == be_value(self.reader@, 16, 4) && block.delay_since_last_sr == be_value(self.reader@, 20, 4) && next.reader@ == self.reader@.subrange(24, self.reader@.len() as int) && next.count == self.count - 1),
    {
        if self.count == 0 {
            return Ok(Err(PacketSenderReportExtensions { reader: self.reader }));
        }
        let b = self.reader;
        if b.len() < 24 {
            return Err(ReadError::UnexpectedEof);
        }
        let packets_lost: [u8; 3] = [b[5], b[6], b[7]];
        let block = ReportBlock {
            ssrc: read_be_u32(b, 0),
            fraction_lost: b[4],
            packets_lost,
            highest_sqeuence_number: read_be_u32(b, 8),
            interarrival_jitter: read_be_u32(b, 12),
            last_sr: read_be_u32(b, 16),
            delay_since_last_sr: read_be_u32(b, 20),
        };
        assert(block.packets_lost@ =~= b@.subrange(5, 8));
        let rest = vstd::slice::slice_subrange(b, 24, b.len());
        Ok(Ok((block, PacketSenderReportReportBlocks { reader: rest, count: self.count - 1 })))
    }
}

impl<'a> PacketSourceDescriptionChunks<'a> {
    /// Reads the source identifier of the next chunk, while the count lasts. The count is then
    /// spent: the items that follow end the description.
    pub fn read_chunk(self) -> (r: Result<Option<(u32, PacketSourceDescriptionChunkItems<'a>)>, ReadError>)
        ensures
            self.count == 0 ==> (r matches Ok(None)),
            self.count > 0 && self.reader@.len() < 4 ==> (r matches Err(ReadError::UnexpectedEof)),
            self.count > 0 && self.reader@.len() >= 4 ==> (r matches Ok(Some((ssrc, items))) && ssrc == be_value(self.reader@, 0, 4) && items.reader@ == self.reader@.subrange(4, self.reader@.len() as int) && items.count == 0 && items.read == 0),
    {
        if self.count == 0 {
            return Ok(None);
        }
        let b = self.reader;
        if b.len() < 4 {
            return Err(ReadError::UnexpectedEof);
        }
        let ssrc = read_be_u32(b, 0);
        let rest = vstd::slice::slice_subrange(b, 4, b.len());
        Ok(Some((ssrc, PacketSourceDescriptionChunkItems { reader: rest, count: 0, read: 0 })))
    }
}

impl<'a> PacketSourceDescriptionChunkItems<'a> {
    /// Reads the next item of a chunk into `text`: its type, its length and its UTF-8 text. A
    /// zero type ends the chunk, followed by padding: four octets less the octets read so far
    /// modulo four.
    pub fn read_item(self, text: &mut String)
        -> (r: Result<Result<(u8, PacketSourceDescriptionChunkItems<'a>), PacketSourceDescriptionChunks<'a>>, ReadError>)
        requires
            self.read + 2 + 255 <= usize::MAX,
        ensures
            ({
                let b = self.reader@;
                if b.len() < 1 {
                    r matches Err(ReadError::UnexpectedEof) && final(text)@ == old(text)@
                } else if b[0] == 0 {
                    let pad = 4 - (self.read % 4);
                    if b.len() < 1 + pad {
                        r matches Err(ReadError::UnexpectedEof) && final(text)@ == old(text)@
                    } else {
                        r matches Ok(Err(chunks)) && chunks.reader@ == b.subrange(1 + pad, b.len() as int)
                            && chunks.count == self.count && final(text)@ == old(text)@
                    }
                } else if b.len() < 2 || b.len() < 2 + b[1] {
                    r matches Err(ReadError::UnexpectedEof) && final(text)@ == old(text)@
                } else if !valid_utf8(b.subrange(2, 2 + b[1])) {
                    r matches Err(ReadError::InvalidData) && final(text)@ == old(text)@
                } else {
                    r matches Ok(Ok((ty, items))) && ty == b[0]
                        && final(text)@ == decode_utf8(b.subrange(2, 2 + b[1]))
                        && items.reader@ == b.subrange(2 + b[1], b.len() as int)
                        && items.count == self.count && items.read == self.read + 2 + b[1]
                }
            }),
    {
        let b = self.reader;
        if b.len() < 1 {
            return Err(ReadError::UnexpectedEof);
        }
        let ty = b[0];
        if ty == 0 {
            let sr = self.read;
            let read = sr & 0b11;
            assert(read == sr % 4) by (bit_vector)
                requires read == sr & 3usize;
            let pad = 4 - read;
            if b.len() - 1 < pad {
                return Err(ReadError::UnexpectedEof);
            }
            let rest = vstd::slice::slice_subrange(b, 1 + pad, b.len());
            return Ok(Err(PacketSourceDescriptionChunks { reader: rest, count: self.count }));
        }
        if b.len() < 2 {
            return Err(ReadError::UnexpectedEof);
        }
        let len = b[1] as usize;
        if b.len() - 2 < len {
            return Err(ReadError::UnexpectedEof);
        }
        let data = vstd::slice::slice_subrange(b, 2, 2 + len);
        match utf8_str(data) {
            Some(s) => {
                proof {
                    lemma_utf8_chars(s, data@);
                }
                *text = String::from_str(s);
            }
            None => return Err(ReadError::InvalidData),
        }
        let rest = vstd::slice::slice_subrange(b, 2 + len, b.len());
        Ok(Ok((ty, PacketSourceDescriptionChunkItems { reader: rest, count: self.count, read: self.read + 2 + len })))
    }
}

/// A complete RTCP packet.
#[derive(Clone, Debug, Eq, PartialEq)]
pub struct Packet {
    pub header: Header,
    pub packet_type: PacketType,
}

/// The body of an RTCP packet by type.
#[derive(Clone, Debug, Eq, PartialEq)]
pub enum PacketType {
    SenderReport(SenderReportPacket),
    ReceiverReport(ReceiverReportPacket),
    SourceDescription(SourceDescriptionPacket),
    Bye(ByePacket),
    App(AppPacket),
}

/// A sender report.
#[derive(Clone, Debug, Eq, PartialEq)]
pub struct SenderReportPacket {
    pub sender_ssrc: u32,
    pub sender_info: SenderInfo,
    pub report_blocks: Vec<ReportBlock>,
}

/// A receiver report.
#[derive(Clone, Debug, Eq, PartialEq)]
pub struct ReceiverReportPacket {
    pub sender_ssrc: u32,
    pub report_blocks: Vec<ReportBlock>,
}

/// A source description.
#[derive(Clone, Debug, Eq, PartialEq)]
pub struct SourceDescriptionPacket {
    pub chunks: Vec<SourceDescriptionChunk>,
}

/// A chunk of a source description.
#[derive(Clone, Debug, Eq, PartialEq)]
pub struct SourceDescriptionChunk {
    pub ssrc_ccsrc: u32,
    pub items: Vec<SourceDescriptionItem>,
}

/// An item of a source description chunk.
#[derive(Clone, Debug, Eq, PartialEq)]
pub struct SourceDescriptionItem {
    pub ty: u8,
    pub val: String,
}

/// A goodbye packet.
#[derive(Clone, Debug, Eq, PartialEq)]
pub struct ByePacket {
    pub ssrc_csrc: Vec<u32>,
    pub reason: Option<String>,
}

/// An application-defined packet.
#[derive(Clone, Debug, Eq, PartialEq)]
pub struct AppPacket {
    pub ssrc_csrs: u32,
    pub name: [u8; 4],
    pub data: Vec<u8>,
}

} // verus!
