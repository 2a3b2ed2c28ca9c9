//! HPACK / QPACK primitive representations: prefixed integers and string literals.
use vstd::prelude::*;
use vstd::string::{StringSliceAdditionalSpecFns, StringExecFns};
use vstd::utf8::{valid_utf8, decode_utf8, encode_utf8};
use crate::http::huffman::{
    lemma_huffman_octets_bits, lemma_huffman_roundtrip, huffman_bits, ones, padding_len,
    huffman_octets, octet_chars, huffman_bit_len, huffman_encode, huffman_decode, octet_bits,
    huffman_decode_octets,
};
use crate::text::{utf8_str, lemma_utf8_chars, push_char};

verus! {

/// Errors of the header compression codec.
#[derive(Copy, Clone, Eq, PartialEq, Debug)]
pub enum Error {
    IndexOutOfBounds,
    /// a variable length integer would overflow `usize`
    IntegerOverflow,
    /// the passed buffer was too short for encoding
    BufferOverflow,
    /// the passed buffer was too short for decoding
    BufferUnderflow,
    /// a huffman-encoded string had a padding that was greater than 7 bits
    PaddingTooLong,
    /// a huffman-encoded string had a padding that did not correspond to
    /// the most significant bits of the EOS symbol
    PaddingNotEOS,
    /// an index was 0, which is a reserved value
    InvalidIndex,
    /// the new max limit was higher than the limit set by the application protocol
    MaxLimitTooHigh,
    /// a huffman-encoded string contained the EOS code
    UnexpectedEOS,
    NoValueInStaticTable,
}

/// How a header field is to be represented.
#[derive(Copy, Clone, Eq, PartialEq, Debug)]
pub enum EncodeType {
    IncrementalIndexed,
    WithoutIndexing,
    NeverIndexed,
}

/// The largest value that fits into the prefix of `prefix` bits taken from the first octet:
/// the low `8 - prefix` bits.
pub open spec fn prefix_mask(prefix: usize) -> u8 {
    if prefix == 0 { 255 }
    else if prefix == 1 { 127 }
    else if prefix == 2 { 63 }
    else if prefix == 3 { 31 }
    else if prefix == 4 { 15 }
    else if prefix == 5 { 7 }
    else if prefix == 6 { 3 }
    else { 1 }
}

/// The bits above the value field of the first octet: `prefix_bits` shifted into the high
/// `prefix` bits.
pub open spec fn prefix_high(prefix: usize, prefix_bits: u8) -> u8 {
    ((prefix_bits << ((8 - prefix) as u8)) & !prefix_mask(prefix)) as u8
}

/// The continuation octets that carry `x`, seven bits per octet, least significant group first.
pub open spec fn continuation_octets(x: nat) -> Seq<u8>
    decreases x,
{
    if x > 127 {
        seq![(x % 128 + 128) as u8] + continuation_octets(x / 128)
    } else {
        seq![x as u8]
    }
}

/// The representation of `value` as an integer with an N-bit prefix (RFC 7541, section 5.1),
/// where N is `8 - prefix`.
pub open spec fn integer_octets(prefix: usize, value: nat, prefix_bits: u8) -> Seq<u8> {
    let mask = prefix_mask(prefix);
    if value < mask {
        seq![(value as u8 | prefix_high(prefix, prefix_bits)) as u8]
    } else {
        seq![(mask | prefix_high(prefix, prefix_bits)) as u8]
            + continuation_octets((value - mask) as nat)
    }
}

/// Decoding of the continuation octets from position `j`, after `k` of them were read;
/// `acc` is the value so far and `mult` is `128` to the power `k`.
/// Yields the value and the position after the last octet read.
pub open spec fn decode_continuation(
    octets: Seq<u8>,
    j: int,
    k: nat,
    acc: nat,
    mult: nat,
) -> (Result<nat, Error>, int)
    decreases 6 - k,
{
    if j < 0 || j >= octets.len() {
        (Err(Error::BufferUnderflow), j)
    } else if k >= 6 {
        (Err(Error::IntegerOverflow), j)
    } else {
        let acc2 = acc + (octets[j] & 127u8) as nat * mult;
        if octets[j] & 128u8 == 0 {
            (Ok(acc2), j + 1)
        } else {
            decode_continuation(octets, j + 1, k + 1, acc2, mult * 128)
        }
    }
}

/// Decoding of an integer with an N-bit prefix (N is `8 - prefix`) that starts at position `i`:
/// the value, or the error, and the position where decoding stopped.
pub open spec fn decode_integer_spec(prefix: usize, octets: Seq<u8>, i: int) -> (Result<nat, Error>, int) {
    if i < 0 || i >= octets.len() {
        (Err(Error::BufferUnderflow), i)
    } else {
        let first = octets[i] & prefix_mask(prefix);
        if first < prefix_mask(prefix) {
            (Ok(first as nat), i + 1)
        } else {
            decode_continuation(octets, i + 1, 0, first as nat, 1)
        }
    }
}

/// `new` equals `old` with `data` written over it from position `at`.
pub open spec fn spliced(old: Seq<u8>, at: int, data: Seq<u8>, new: Seq<u8>) -> bool {
    &&& new.len() == old.len()
    &&& 0 <= at
    &&& at + data.len() <= old.len()
    &&& forall|k: int| 0 <= k < at ==> new[k] == old[k]
    &&& forall|k: int| 0 <= k < data.len() ==> new[at + k] == data[k]
    &&& forall|k: int| at + data.len() <= k < old.len() ==> new[k] == old[k]
}

proof fn lemma_continuation_len(x: nat)
    ensures
        continuation_octets(x).len() >= 1,
        x < 0x80 ==> continuation_octets(x).len() <= 1,
        x < 0x4000 ==> continuation_octets(x).len() <= 2,
        x < 0x20_0000 ==> continuation_octets(x).len() <= 3,
        x < 0x1000_0000 ==> continuation_octets(x).len() <= 4,
        x < 0x8_0000_0000 ==> continuation_octets(x).len() <= 5,
        x < 0x400_0000_0000 ==> continuation_octets(x).len() <= 6,
    decreases x,
{
    if x > 127 {
        lemma_continuation_len(x / 128);
    }
}

fn mask_of(prefix: usize) -> (m: u8)
    requires
        prefix <= 7,
    ensures
        m == prefix_mask(prefix),
        m as u8 == (0xFFu8 >> (prefix as u8)),
{
    let p = prefix as u8;
    let m = 0xFFu8 >> p;
    assert(p == 0 ==> 0xFFu8 >> p == 255u8) by (bit_vector);
    assert(p == 1 ==> 0xFFu8 >> p == 127u8) by (bit_vector);
    assert(p == 2 ==> 0xFFu8 >> p == 63u8) by (bit_vector);
    assert(p == 3 ==> 0xFFu8 >> p == 31u8) by (bit_vector);
    assert(p == 4 ==> 0xFFu8 >> p == 15u8) by (bit_vector);
    assert(p == 5 ==> 0xFFu8 >> p == 7u8) by (bit_vector);
    assert(p == 6 ==> 0xFFu8 >> p == 3u8) by (bit_vector);
    assert(p == 7 ==> 0xFFu8 >> p == 1u8) by (bit_vector);
    m
}

/// Writes `value` as an integer with an N-bit prefix (N is `8 - prefix`) at position `i`,
/// with `prefix_bits` in the high bits of the first octet, and advances `i` past it.
/// Fails with `BufferOverflow` when the representation does not fit into `octets`.
pub fn encode_integer(
    prefix: usize,
    octets: &mut [u8],
    i: &mut usize,
    value: usize,
    prefix_bits: u8,
) -> (r: Result<(), Error>)
    requires
        1 <= prefix <= 7,
    ensures
        final(octets)@.len() == old(octets)@.len(),
        forall|k: int| 0 <= k < *old(i) ==> final(octets)@[k] == old(octets)@[k],
        r is Ok <==> *old(i) + integer_octets(prefix, value as nat, prefix_bits).len() <= old(octets)@.len(),
        r is Err ==> r == Err::<(), Error>(Error::BufferOverflow),
        r is Ok ==> {
            &&& spliced(old(octets)@, *old(i) as int, integer_octets(prefix, value as nat, prefix_bits), final(octets)@)
            &&& *final(i) == *old(i) + integer_octets(prefix, value as nat, prefix_bits).len()
        },
{
    let ghost start = *i as int;
    let ghost enc = integer_octets(prefix, value as nat, prefix_bits);
    let ghost orig = octets@;
    let mask = mask_of(prefix);
    let high = (prefix_bits << ((8 - prefix) as u8)) & !mask;
    proof { lemma_continuation_len((value - mask) as nat); }
    if *i >= octets.len() {
        return Err(Error::BufferOverflow);
    }
    if value < mask as usize {
        octets[*i] = value as u8 | high;
        *i += 1;
        assert(enc =~= seq![(value as u8 | high) as u8]);
        return Ok(());
    }
    octets[*i] = mask | high;
    *i += 1;
    let mut v: usize = value - mask as usize;
    proof {
        assert(enc =~= seq![(mask | high) as u8] + continuation_octets(v as nat));
    }
    if *i >= octets.len() {
        return Err(Error::BufferOverflow);
    }
    while v > 127
        invariant
            octets@.len() == orig.len(),
            orig == old(octets)@,
            enc == integer_octets(prefix, value as nat, prefix_bits),
            start == *old(i) as int,
            start + 1 <= *i < octets@.len(),
            enc == seq![(mask | high) as u8] + continuation_octets((value - mask) as nat),
            continuation_octets((value - mask) as nat)
                == enc.subrange(1, *i - start) + continuation_octets(v as nat),
            *i - start <= enc.len() - continuation_octets(v as nat).len(),
            enc.len() == (*i - start) + continuation_octets(v as nat).len(),
            forall|k: int| 0 <= k < start ==> octets@[k] == orig[k],
            forall|k: int| start <= k < *i ==> octets@[k] == enc[k - start],
            forall|k: int| *i <= k < orig.len() ==> octets@[k] == orig[k],
        decreases v,
    {
        let ghost vo = v;
        octets[*i] = (v % 128 + 128) as u8;
        *i += 1;
        v = v / 128;
        proof {
            lemma_continuation_len(v as nat);
            assert(continuation_octets(vo as nat) =~= seq![(vo % 128 + 128) as u8] + continuation_octets(v as nat));
            assert(enc.len() == (*i - start) + continuation_octets(v as nat).len());
            assert(continuation_octets((value - mask) as nat) =~= enc.subrange(1, *i - start) + continuation_octets(v as nat));
        }
        if octets.len() <= *i {
            return Err(Error::BufferOverflow);
        }
    }
    octets[*i] = v as u8;
    *i += 1;
    proof {
        assert(continuation_octets(v as nat) =~= seq![v as u8]);
        assert(enc.len() == *i - start);
    }
    Ok(())
}

/// Reads an integer with an N-bit prefix (N is `8 - prefix`) at position `i` and advances `i`
/// past it. At most six continuation octets are accepted.
pub fn decode_integer(prefix: usize, octets: &[u8], i: &mut usize) -> (r: Result<usize, Error>)
    requires
        prefix <= 7,
    ensures
        ({
            let (res, next) = decode_integer_spec(prefix, octets@, *old(i) as int);
            &&& *final(i) == next
            &&& match res {
                Ok(v) => if v <= usize::MAX { r == Ok::<usize, Error>(v as usize) } else { r == Err::<usize, Error>(Error::IntegerOverflow) },
                Err(e) => r == Err::<usize, Error>(e),
            }
        }),
{
    let ghost start = *i as int;
    let mask = mask_of(prefix);
    if *i >= octets.len() {
        return Err(Error::BufferUnderflow);
    }
    let first = octets[*i] & mask;
    *i += 1;
    if first < mask {
        return Ok(first as usize);
    }
    let mut value: u64 = first as u64;
    let mut mult: u64 = 1;
    let mut k: usize = 0;
    while k < 6
        invariant
            0 <= k <= 6,
            start < *i <= octets@.len(),
            decode_continuation(octets@, *i as int, k as nat, value as nat, mult as nat)
                == decode_integer_spec(prefix, octets@, start),
            k == 0 ==> mult == 1,
            k == 1 ==> mult == 0x80,
            k == 2 ==> mult == 0x4000,
            k == 3 ==> mult == 0x20_0000,
            k == 4 ==> mult == 0x1000_0000,
            k == 5 ==> mult == 0x8_0000_0000,
            k == 6 ==> mult == 0x400_0000_0000,
            start == *old(i) as int,
            value < 256 * mult,
        decreases 6 - k,
    {
        if *i >= octets.len() {
            return Err(Error::BufferUnderflow);
        }
        let b = octets[*i];
        let low = b & 127;
        assert(low <= 127) by (bit_vector)
            requires low == b & 127;
        proof {
            assert(low as nat * mult as nat <= 127 * mult as nat) by (nonlinear_arith)
                requires low <= 127;
        }
        value = value + low as u64 * mult;
        *i += 1;
        if b & 128 == 0 {
            if value > usize::MAX as u64 {
                return Err(Error::IntegerOverflow);
            }
            return Ok(value as usize);
        }
        mult = mult * 128;
        k += 1;
    }
    if *i >= octets.len() {
        return Err(Error::BufferUnderflow);
    }
    Err(Error::IntegerOverflow)
}

proof fn lemma_decode_continuation(octets: Seq<u8>, j: int, k: nat, acc: nat, mult: nat, x: nat)
    requires
        0 <= j,
        continuation_octets(x).len() <= 6 - k,
        j + continuation_octets(x).len() <= octets.len(),
        octets.subrange(j, j + continuation_octets(x).len()) == continuation_octets(x),
    ensures
        decode_continuation(octets, j, k, acc, mult)
            == (Ok::<nat, Error>(acc + x * mult), j + continuation_octets(x).len()),
    decreases x,
{
    let b = octets[j];
    assert(b == continuation_octets(x)[0]);
    if x > 127 {
        let rest = continuation_octets(x / 128);
        assert(continuation_octets(x) == seq![(x % 128 + 128) as u8] + rest);
        let y = (x % 128) as u8;
        assert(b == (y + 128) as u8);
        assert((((y + 128) as u8) & 127u8) == y && (((y + 128) as u8) & 128u8) != 0) by (bit_vector)
            requires y < 128;
        assert(octets.subrange(j + 1, j + 1 + rest.len()) =~= rest) by {
            assert forall|t: int| 0 <= t < rest.len() implies octets.subrange(j + 1, j + 1 + rest.len())[t] == rest[t] by {
                assert(octets.subrange(j, j + continuation_octets(x).len())[t + 1] == continuation_octets(x)[t + 1]);
            }
        }
        lemma_decode_continuation(octets, j + 1, k + 1, acc + y as nat * mult, mult * 128, x / 128);
        assert(acc + y as nat * mult + (x / 128) * (mult * 128) == acc + x * mult) by (nonlinear_arith)
            requires y as nat == x % 128;
    } else {
        let y = x as u8;
        assert(b == y);
        assert((y & 127u8) == y && (y & 128u8) == 0) by (bit_vector)
            requires y < 128;
    }
}

/// Decoding the representation of an integer gives back that integer and ends right after
/// the representation, for every value that fits into six continuation octets.
pub proof fn lemma_integer_roundtrip(prefix: usize, value: nat, prefix_bits: u8, octets: Seq<u8>, i: int)
    requires
        1 <= prefix <= 7,
        value < prefix_mask(prefix) + 0x400_0000_0000,
        0 <= i,
        i + integer_octets(prefix, value, prefix_bits).len() <= octets.len(),
        octets.subrange(i, i + integer_octets(prefix, value, prefix_bits).len())
            == integer_octets(prefix, value, prefix_bits),
    ensures
        decode_integer_spec(prefix, octets, i)
            == (Ok::<nat, Error>(value), i + integer_octets(prefix, value, prefix_bits).len()),
{
    let enc = integer_octets(prefix, value, prefix_bits);
    let m = prefix_mask(prefix);
    let h = prefix_high(prefix, prefix_bits);
    let p = prefix as u8;
    assert(octets[i] == enc[0]);
    assert(h & m == 0u8) by (bit_vector)
        requires
            m == 127u8 || m == 63u8 || m == 31u8 || m == 15u8 || m == 7u8 || m == 3u8 || m == 1u8,
            h == ((prefix_bits << ((8 - p) as u8)) & !m) as u8;
    if value < m {
        let v = value as u8;
        assert(((v | h) as u8) & m == v) by (bit_vector)
            requires
                v < m,
                h & m == 0u8,
                m == 127u8 || m == 63u8 || m == 31u8 || m == 15u8 || m == 7u8 || m == 3u8 || m == 1u8;
    } else {
        assert(((m | h) as u8) & m == m) by (bit_vector)
            requires h & m == 0u8;
        let x = (value - m) as nat;
        lemma_continuation_len(x);
        let c = continuation_octets(x);
        assert(enc == seq![(m | h) as u8] + c);
        assert(octets.subrange(i + 1, i + 1 + c.len()) =~= c) by {
            assert forall|t: int| 0 <= t < c.len() implies octets.subrange(i + 1, i + 1 + c.len())[t] == c[t] by {
                assert(octets.subrange(i, i + enc.len())[t + 1] == enc[t + 1]);
            }
        }
        lemma_decode_continuation(octets, i + 1, 0, m as nat, 1, x);
    }
}

/// The octets of a string literal's content: its Huffman encoding, or its UTF-8 octets.
pub open spec fn string_payload(chars: Seq<char>, huffman: bool) -> Seq<u8> {
    if huffman { huffman_octets(chars) } else { encode_utf8(chars) }
}

/// The representation of a string literal (RFC 7541, section 5.2): the length of the content as
/// an integer with a 7-bit prefix whose high bit flags Huffman encoding, then the content.
pub open spec fn string_octets(chars: Seq<char>, huffman: bool) -> Seq<u8> {
    let payload = string_payload(chars, huffman);
    integer_octets(1, payload.len(), if huffman { 1u8 } else { 0u8 }) + payload
}

/// Writes `value` as a string literal at position `i`, Huffman encoded when `huffman` is set,
/// and advances `i` past it. Fails with `BufferOverflow` when the length or the content does not
/// fit into `octets`.
pub fn encode_string(octets: &mut [u8], i: &mut usize, value: &str, huffman: bool) -> (r: Result<(), Error>)
    requires
        huffman ==> octet_chars(value@),
    ensures
        final(octets)@.len() == old(octets)@.len(),
        forall|k: int| 0 <= k < *old(i) ==> final(octets)@[k] == old(octets)@[k],
        ({
            let payload = string_payload(value@, huffman);
            let head = integer_octets(1, payload.len(), if huffman { 1u8 } else { 0u8 });
            if payload.len() > usize::MAX {
                r == Err::<(), Error>(Error::BufferOverflow)
            } else if *old(i) + head.len() + payload.len() > old(octets)@.len() {
                r == Err::<(), Error>(Error::BufferOverflow)
            } else {
                &&& r is Ok
                &&& spliced(old(octets)@, *old(i) as int, string_octets(value@, huffman), final(octets)@)
                &&& *final(i) == *old(i) + string_octets(value@, huffman).len()
            }
        }),
{
    let ghost orig = octets@;
    let ghost start = *i as int;
    if !huffman {
        let bytes = value.as_bytes();
        let r = encode_integer(1, octets, i, bytes.len(), 0);
        if r.is_err() {
            return r;
        }
        let ghost mid = octets@;
        let ghost head = integer_octets(1, bytes@.len(), 0u8);
        if octets.len() - *i < bytes.len() {
            return Err(Error::BufferOverflow);
        }
        let mut k: usize = 0;
        let olen = octets.len();
        while k < bytes.len()
            invariant
                olen == orig.len(),
                octets@.len() == orig.len(),
                *i as int == start + head.len(),
                *i + bytes@.len() <= orig.len(),
                bytes@ == value.spec_bytes(),
                spliced(orig, start, head, mid),
                k <= bytes@.len(),
                forall|x: int| 0 <= x < *i ==> octets@[x] == mid[x],
                forall|x: int| 0 <= x < k ==> octets@[*i + x] == bytes@[x],
                forall|x: int| *i + k <= x < orig.len() ==> octets@[x] == mid[x],
            decreases bytes@.len() - k,
        {
            assert(*i + k < orig.len());
            octets[*i + k] = bytes[k];
            k += 1;
        }
        *i = *i + bytes.len();
        proof {
            assert(string_octets(value@, huffman) =~= head + bytes@);
        }
        Ok(())
    } else {
        let total = huffman_bit_len(value);
        let nbytes = (total + 7) / 8;
        proof {
            assert(huffman_octets(value@).len() == nbytes);
        }
        if nbytes > usize::MAX as u128 {
            return Err(Error::BufferOverflow);
        }
        let r = encode_integer(1, octets, i, nbytes as usize, 1);
        if r.is_err() {
            return r;
        }
        let ghost mid = octets@;
        let ghost head = integer_octets(1, nbytes as nat, 1u8);
        if octets.len() - *i < nbytes as usize {
            return Err(Error::BufferOverflow);
        }
        huffman_encode(value, octets, *i, total);
        *i = *i + nbytes as usize;
        proof {
            assert(string_octets(value@, huffman) =~= head + huffman_octets(value@));
        }
        Ok(())
    }
}

proof fn lemma_decode_continuation_position(octets: Seq<u8>, j: int, k: nat, acc: nat, mult: nat)
    requires
        0 <= j,
    ensures
        decode_continuation(octets, j, k, acc, mult).0 is Ok ==>
            j < decode_continuation(octets, j, k, acc, mult).1 <= octets.len(),
    decreases 6 - k,
{
    if 0 <= j < octets.len() && k < 6 && octets[j] & 128u8 != 0 {
        lemma_decode_continuation_position(octets, j + 1, k + 1, acc + (octets[j] & 127u8) as nat * mult, mult * 128);
    }
}

/// A successful decoding ends after where it started and within the octets.
pub proof fn lemma_decode_integer_position(prefix: usize, octets: Seq<u8>, i: int)
    ensures
        decode_integer_spec(prefix, octets, i).0 is Ok ==>
            i < decode_integer_spec(prefix, octets, i).1 <= octets.len(),
{
    if 0 <= i < octets.len() {
        lemma_decode_continuation_position(octets, i + 1, 0, (octets[i] & prefix_mask(prefix)) as nat, 1);
    }
}

/// Decoding of a string literal that starts at position `i`: its characters, or the error, and
/// the position after it. Content that is not Huffman encoded and is not valid UTF-8 gives no
/// characters.
pub open spec fn decode_string_spec(octets: Seq<u8>, i: int) -> (Result<Seq<char>, Error>, int) {
    if i < 0 || i >= octets.len() {
        (Err(Error::BufferUnderflow), i)
    } else {
        let huffman = octets[i] & 128u8 != 0;
        match decode_integer_spec(1, octets, i) {
            (Err(e), _) => (Err(e), i),
            (Ok(len), j) => if len > usize::MAX {
                (Err(Error::IntegerOverflow), i)
            } else if j + len > octets.len() {
                (Err(Error::BufferUnderflow), i)
            } else {
                let payload = octets.subrange(j, j + len);
                if !huffman {
                    (Ok(if valid_utf8(payload) { decode_utf8(payload) } else { Seq::empty() }), j + len)
                } else {
                    match huffman_decode(octet_bits(payload)) {
                        Ok(cs) => (Ok(cs), j + len),
                        Err(e) => (Err(e), i),
                    }
                }
            },
        }
    }
}

/// Decoding the representation of a string literal gives back its characters and ends right
/// after the representation, for every content shorter than 2^42 octets; Huffman encoding
/// applies to strings of characters below 256.
pub proof fn lemma_string_roundtrip(chars: Seq<char>, huffman: bool, octets: Seq<u8>, i: int)
    requires
        huffman ==> octet_chars(chars),
        string_payload(chars, huffman).len() < 0x400_0000_0000,
        string_payload(chars, huffman).len() <= usize::MAX,
        0 <= i,
        i + string_octets(chars, huffman).len() <= octets.len(),
        octets.subrange(i, i + string_octets(chars, huffman).len()) == string_octets(chars, huffman),
    ensures
        decode_string_spec(octets, i) == (Ok::<Seq<char>, Error>(chars), i + string_octets(chars, huffman).len()),
{
    let payload = string_payload(chars, huffman);
    let hb: u8 = if huffman { 1u8 } else { 0u8 };
    let head = integer_octets(1, payload.len(), hb);
    let all = string_octets(chars, huffman);
    assert(all == head + payload);
    let sub = octets.subrange(i, i + all.len());
    assert(octets.subrange(i, i + head.len()) =~= head) by {
        assert forall|t: int| 0 <= t < head.len() implies octets.subrange(i, i + head.len())[t] == head[t] by {
            assert(sub[t] == all[t]);
        }
    }
    lemma_integer_roundtrip(1, payload.len(), hb, octets, i);
    assert(octets[i] == head[0]) by {
        assert(sub[0] == all[0]);
    }
    let h = prefix_high(1, hb);
    assert(h == ((hb << 7u8) & !127u8) as u8);
    assert((h & 128u8 != 0) == (hb == 1u8)) by (bit_vector)
        requires
            hb == 0u8 || hb == 1u8,
            h == ((hb << 7u8) & !127u8) as u8;
    let f = head[0];
    assert((f & 128u8 != 0) == (h & 128u8 != 0)) by {
        if payload.len() < 127 {
            let v = payload.len() as u8;
            assert(f == (v | h) as u8);
            assert(((v | h) as u8 & 128u8 != 0) == (h & 128u8 != 0)) by (bit_vector)
                requires v < 127u8;
        } else {
            assert(f == (127u8 | h) as u8);
            assert(((127u8 | h) as u8 & 128u8 != 0) == (h & 128u8 != 0)) by (bit_vector);
        }
    }
    let j = i + head.len();
    assert(octets.subrange(j, j + payload.len()) =~= payload) by {
        assert forall|t: int| 0 <= t < payload.len() implies octets.subrange(j, j + payload.len())[t] == payload[t] by {
            assert(sub[head.len() + t] == all[head.len() + t]);
        }
    }
    assert((octets[i] & 128u8 != 0) == huffman);
    assert(decode_integer_spec(1, octets, i) == (Ok::<nat, Error>(payload.len()), j));
    assert(payload.len() <= usize::MAX);
    if huffman {
        lemma_huffman_octets_bits(chars);
        let n = huffman_bits(chars).len();
        assert(padding_len(n) <= 7);
        lemma_huffman_roundtrip(chars, padding_len(n));
        assert(octet_bits(payload) == huffman_bits(chars) + ones(padding_len(n)));
    } else {
        vstd::utf8::encode_utf8_valid_utf8(chars);
        vstd::utf8::encode_utf8_decode_utf8(chars);
    }
    assert(j + payload.len() == i + all.len());
}

/// Reads a string literal at position `i`, appends its characters to `str` and advances `i`
/// past it. On an error `str` and `i` are left as they were.
pub fn decode_string(octets: &[u8], i: &mut usize, str: &mut String) -> (r: Result<(), Error>)
    ensures
        ({
            let (res, next) = decode_string_spec(octets@, *old(i) as int);
            match res {
                Ok(cs) => r is Ok && final(str)@ == old(str)@ + cs && *final(i) == next,
                Err(e) => r == Err::<(), Error>(e) && final(str)@ == old(str)@ && *final(i) == *old(i),
            }
        }),
{
    let start = *i;
    if *i >= octets.len() {
        return Err(Error::BufferUnderflow);
    }
    let huffman = octets[*i] & 128 != 0;
    proof { lemma_decode_integer_position(1, octets@, *i as int); }
    let length = match decode_integer(1, octets, i) {
        Ok(v) => v,
        Err(e) => {
            *i = start;
            return Err(e);
        },
    };
    if length > octets.len() - *i {
        *i = start;
        return Err(Error::BufferUnderflow);
    }
    let limit = *i + length;
    if !huffman {
        let payload = vstd::slice::slice_subrange(octets, *i, limit);
        match utf8_str(payload) {
            Some(s) => {
                proof { lemma_utf8_chars(s, payload@); }
                str.append(s);
            },
            None => {
                proof { assert(str@ =~= str@ + Seq::<char>::empty()); }
            },
        }
    } else {
        match huffman_decode_octets(octets, *i, limit) {
            Ok(chars) => {
                let mut k: usize = 0;
                let ghost base = str@;
                while k < chars.len()
                    invariant
                        k <= chars@.len(),
                        str@ == base + chars@.take(k as int),
                    decreases chars@.len() - k,
                {
                    push_char(str, chars[k]);
                    proof {
                        assert(chars@.take(k + 1) =~= chars@.take(k as int).push(chars@[k as int]));
                    }
                    k += 1;
                }
                proof { assert(chars@.take(k as int) =~= chars@); }
            },
            Err(e) => {
                *i = start;
                return Err(e);
            },
        }
    }
    *i = limit;
    Ok(())
}

} // verus!
