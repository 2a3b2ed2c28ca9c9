//! Salted Challenge Response Authentication Mechanism (SCRAM), RFC 5802: the messages that
//! client and server exchange, and the checks each side makes on what the other sends. The
//! stream and the hash function are the caller's: it hands in what the keyed hash, the key
//! derivation and the digest gave.
use vstd::prelude::*;
use vstd::string::StrSliceExecFns;
use vstd::string::StringExecFns;
use vstd::string::StringSliceAdditionalSpecFns;
use vstd::utf8::{valid_utf8, decode_utf8, encode_utf8, is_char_boundary};
use rand::Rng;
use crate::text::{index_of_from, lemma_index_of_from, occurs_at, find_from, find_str, lemma_find_from, str_eq, utf8_str, lemma_utf8_chars, parse_usize,
    usize_text, push_decimal, decimal, lemma_decimal_digits, lemma_usize_text_decimal, has_prefix,
    starts_with};
use crate::dns::records::{base64_encoded, base64_decoded, base64_encode, base64_decode, base64_char,
    base64_text_reads_back};

verus! {

/// The name of the mechanism with SHA-256.
pub const SCRAM_SHA_256: &'static str = "SCRAM-SHA-256";

/// The least iteration count that a client accepts where a password is used.
pub const MIN_ITERATIONS: usize = 4096;

/// The room that one exchange has for its messages.
pub const BUFFER_LEN: usize = 1024;

/// What a server stores of a user.
#[derive(Copy, Clone, Debug)]
pub struct User<'a, const N: usize> {
    pub iterations: usize,
    pub salt: &'a [u8],
    pub server_key: [u8; N],
    pub stored_key: [u8; N],
}

/// `std::io::Error`, the error of the stream.
#[verifier::external_type_specification]
#[verifier::external_body]
pub struct ExIoError(std::io::Error);

/// Why an exchange failed.
#[derive(Debug)]
pub enum Error {
    SaslPrepFailed,
    InvalidReply,
    InvalidNonce,
    InvalidSignatureOrProof,
    InvalidCredentials,
    InvalidIterationCount,
    Io(std::io::Error),
}

/// The value of the attribute `attr` in the message `msg`: what follows the first `attr`, up
/// to the next comma or to the end; nothing where `attr` does not occur.
pub open spec fn attribute_value(msg: Seq<char>, attr: Seq<char>) -> Option<Seq<char>> {
    let k = find_from(msg, attr, 0);
    if k < 0 {
        None
    } else {
        let off = k + attr.len();
        let j = index_of_from(msg, ',', off);
        Some(msg.subrange(off, if j < 0 { msg.len() as int } else { j }))
    }
}

/// The value of the attribute `attr` (such as `r=`) in the message `msg`.
pub fn sasl_get<'a>(msg: &'a str, attr: &str) -> (r: Option<&'a str>)
    ensures
        match attribute_value(msg@, attr@) {
            Some(v) => r matches Some(x) && x@ == v,
            None => r is None,
        },
{
    let k = match find_str(msg, attr) {
        Some(k) => k,
        None => return None,
    };
    let n = msg.unicode_len();
    let off = k + attr.unicode_len();
    let mut j: usize = off;
    while j < n && msg.get_char(j) != ','
        invariant
            n == msg@.len(),
            off <= j <= n,
            forall|q: int| off <= q < j ==> msg@[q] != ',',
        decreases n - j,
    {
        j += 1;
    }
    proof {
        lemma_index_of_from(msg@, ',', off as int, j as int);
    }
    let v = msg.substring_char(off, j);
    proof {
        assert(v@ =~= msg@.subrange(off as int, j as int));
    }
    Some(v)
}

impl From<std::io::Error> for Error {
    fn from(e: std::io::Error) -> (r: Self)
        ensures
            r == Error::Io(e),
    {
        Error::Io(e)
    }
}

impl vstd::std_specs::convert::FromSpecImpl<std::io::Error> for Error {
    open spec fn obeys_from_spec() -> bool {
        true
    }

    open spec fn from_spec(e: std::io::Error) -> Self {
        Error::Io(e)
    }
}

/// `stringprep::saslprep`, which prepares a user name or a password with the SASLprep
/// profile: the prepared text, or nothing where the profile refuses the text. Claimed: the
/// result is `saslprepped` of the text, a function of the text alone; and, as the crate's fast
/// path shows, a text of ASCII characters outside the control characters comes back as it is.
#[verifier::external_body]
fn saslprep(s: &str) -> (r: Option<String>)
    ensures
        r is Some <==> saslprepped(s@) is Some,
        r matches Some(x) ==> saslprepped(s@) == Some(x@),
        plain_ascii(s@) ==> (r is Some && r->0@ == s@),
{
    match stringprep::saslprep(s) {
        Ok(v) => Some(v.into_owned()),
        Err(_) => None,
    }
}

/// The name of what `stringprep::saslprep` makes of a text: the prepared text, or nothing
/// where it refuses the text.
pub uninterp spec fn saslprepped(s: Seq<char>) -> Option<Seq<char>>;

/// Whether every character of `s` is ASCII and no control character.
pub open spec fn plain_ascii(s: Seq<char>) -> bool {
    forall|i: int| 0 <= i < s.len() ==> 0x20 <= (#[trigger] s[i]) as u32 && (s[i] as u32) < 0x7f
}

/// Prepares a user name or a password with SASLprep; refused text is `SaslPrepFailed`.
pub fn sasl_prep(s: &str) -> (r: Result<String, Error>)
    ensures
        match saslprepped(s@) {
            Some(p) => r matches Ok(x) && x@ == p,
            None => r matches Err(Error::SaslPrepFailed),
        },
{
    match saslprep(s) {
        Some(v) => Ok(v),
        None => Err(Error::SaslPrepFailed),
    }
}

/// The text of a message as it came: valid UTF-8, else the reply is invalid.
pub fn message_text(bytes: &[u8]) -> (r: Result<&str, Error>)
    ensures
        valid_utf8(bytes@) ==> (r matches Ok(s) && s@ == decode_utf8(bytes@)),
        !valid_utf8(bytes@) ==> (r matches Err(Error::InvalidReply)),
{
    match utf8_str(bytes) {
        Some(s) => {
            proof {
                lemma_utf8_chars(s, bytes@);
            }
            Ok(s)
        },
        None => Err(Error::InvalidReply),
    }
}

/// The client's first message without its header: the user name and the client nonce.
pub open spec fn client_first_bare(user: Seq<char>, nonce: Seq<char>) -> Seq<char> {
    "n="@ + user + ",r="@ + nonce
}

/// The client's first message: no channel binding, no authorization identity, then the user
/// name and the nonce.
pub open spec fn client_first_text(user: Seq<char>, nonce: Seq<char>) -> Seq<char> {
    "n,,"@ + client_first_bare(user, nonce)
}

/// Writes the client's first message for the (prepared) user name and the client nonce.
pub fn client_first_message(user: &str, client_nonce: &str) -> (r: String)
    ensures
        r@ == client_first_text(user@, client_nonce@),
{
    let mut m = String::from_str("n,,");
    m.append("n=");
    m.append(user);
    m.append(",r=");
    m.append(client_nonce);
    proof {
        assert(m@ =~= client_first_text(user@, client_nonce@));
    }
    m
}

/// What the client takes from the server's first message.
#[derive(Clone, Debug, Eq, PartialEq)]
pub struct ServerFirst {
    pub combined_nonce: String,
    pub salt: Vec<u8>,
    pub iterations: usize,
}

/// What a client makes of the server's first message `msg`: the combined nonce, the salt and
/// the iteration count, or why it refuses the message. A count under the minimum is refused
/// where a password is used, and the combined nonce must begin with the client's nonce.
pub open spec fn server_first_outcome(msg: Seq<char>, client_nonce: Seq<char>, password: Seq<char>) -> Result<(Seq<char>, Seq<u8>, usize), Error> {
    match attribute_value(msg, "r="@) {
        None => Err(Error::InvalidReply),
        Some(nonce) => match attribute_value(msg, "s="@) {
            None => Err(Error::InvalidReply),
            Some(s) => match base64_decoded(s) {
                None => Err(Error::InvalidReply),
                Some(salt) => match attribute_value(msg, "i="@) {
                    None => Err(Error::InvalidReply),
                    Some(i) => match usize_text(i) {
                        None => Err(Error::InvalidReply),
                        Some(it) => if password.len() > 0 && it < MIN_ITERATIONS {
                            Err(Error::InvalidIterationCount)
                        } else if !has_prefix(nonce, client_nonce) {
                            Err(Error::InvalidNonce)
                        } else {
                            Ok((nonce, salt, it))
                        },
                    },
                },
            },
        },
    }
}

/// Reads the server's first message on the client's side (see `server_first_outcome`).
pub fn read_server_first(msg: &str, client_nonce: &str, password: &str) -> (r: Result<ServerFirst, Error>)
    ensures
        match server_first_outcome(msg@, client_nonce@, password@) {
            Ok((n, s, i)) => r matches Ok(v) && v.combined_nonce@ == n && v.salt@ == s && v.iterations == i,
            Err(e) => r matches Err(x) && x == e,
        },
{
    let nonce = match sasl_get(msg, "r=") {
        Some(v) => v,
        None => return Err(Error::InvalidReply),
    };
    let s = match sasl_get(msg, "s=") {
        Some(v) => v,
        None => return Err(Error::InvalidReply),
    };
    let salt = match base64_decode(s) {
        Ok(v) => v,
        Err(_) => return Err(Error::InvalidReply),
    };
    let i = match sasl_get(msg, "i=") {
        Some(v) => v,
        None => return Err(Error::InvalidReply),
    };
    let iterations = match parse_usize(i) {
        Some(v) => v,
        None => return Err(Error::InvalidReply),
    };
    if !password.is_empty() && iterations < MIN_ITERATIONS {
        return Err(Error::InvalidIterationCount);
    }
    if !starts_with(nonce, client_nonce) {
        return Err(Error::InvalidNonce);
    }
    Ok(ServerFirst { combined_nonce: String::from_str(nonce), salt, iterations })
}

/// The client's final message without the proof: channel binding `biws` and the combined
/// nonce.
pub open spec fn client_final_bare(combined_nonce: Seq<char>) -> Seq<char> {
    "c=biws,r="@ + combined_nonce
}

/// Writes the client's final message without the proof.
pub fn client_final_without_proof(combined_nonce: &str) -> (r: String)
    ensures
        r@ == client_final_bare(combined_nonce@),
{
    let mut m = String::from_str("c=biws,r=");
    m.append(combined_nonce);
    m
}

/// The message that both sides sign: the client's first message without its header, the
/// server's first message and the client's final message, joined by commas.
pub open spec fn auth_text(client_first: Seq<char>, server_first: Seq<char>, client_final: Seq<char>) -> Seq<char> {
    client_first.skip(3) + ","@ + server_first + ","@ + client_final
}

/// Writes the message that both sides sign (see `auth_text`). The client hands in its final
/// message without the proof; the server hands in the client's final message as it came.
pub fn auth_message(client_first: &str, server_first: &str, client_final: &str) -> (r: String)
    requires
        has_prefix(client_first@, "n,,"@),
    ensures
        r@ == auth_text(client_first@, server_first@, client_final@),
{
    proof {
        reveal_strlit("n,,");
    }
    let n = client_first.unicode_len();
    let mut m = String::from_str(client_first.substring_char(3, n));
    m.append(",");
    m.append(server_first);
    m.append(",");
    m.append(client_final);
    proof {
        assert(client_first@.subrange(3, n as int) =~= client_first@.skip(3));
    }
    m
}

/// Each octet of `a` combined by exclusive or with the octet of `b`.
pub open spec fn xor_octets(a: Seq<u8>, b: Seq<u8>) -> Seq<u8> {
    Seq::new(a.len(), |i: int| a[i] ^ b[i])
}

/// The client's proof from the client key and the client signature: the first 32 octets
/// combined by exclusive or, the rest zero.
pub open spec fn proof_octets(client_key: Seq<u8>, client_signature: Seq<u8>) -> Seq<u8> {
    Seq::new(client_key.len(), |i: int| if i < 32 { client_key[i] ^ client_signature[i] } else { 0u8 })
}

/// The client's proof: the first 32 octets of the client key, each combined by exclusive or
/// with the octet of the client signature; the octets after them stay zero.
pub fn client_proof(client_key: &[u8], client_signature: &[u8]) -> (r: Vec<u8>)
    requires
        client_key@.len() == client_signature@.len(),
        32 <= client_key@.len(),
    ensures
        r@ == proof_octets(client_key@, client_signature@),
{
    let n = client_key.len();
    let mut r: Vec<u8> = Vec::new();
    let mut i: usize = 0;
    while i < n
        invariant
            n == client_key@.len(),
            n == client_signature@.len(),
            32 <= n,
            i <= n,
            r@.len() == i,
            forall|j: int| 0 <= j < i && j < 32 ==> r@[j] == client_key@[j] ^ client_signature@[j],
            forall|j: int| 32 <= j < i ==> r@[j] == 0,
        decreases n - i,
    {
        if i < 32 {
            r.push(client_key[i] ^ client_signature[i]);
        } else {
            r.push(0);
        }
        i += 1;
    }
    assert(r@ =~= proof_octets(client_key@, client_signature@));
    r
}

/// The client's final message: the part without the proof, then the proof in base64.
pub open spec fn client_final_text(without_proof: Seq<char>, proof: Seq<u8>) -> Seq<char> {
    without_proof + ",p="@ + base64_encoded(proof)
}

/// Writes the client's final message.
pub fn client_final_message(without_proof: &str, proof: &[u8]) -> (r: String)
    ensures
        r@ == client_final_text(without_proof@, proof@),
{
    let mut m = String::from_str(without_proof);
    m.append(",p=");
    let p = base64_encode(proof);
    m.append(p.as_str());
    m
}

/// What a client makes of the server's final message: its signature must be the one the
/// client computed.
pub open spec fn server_final_outcome(msg: Seq<char>, server_signature: Seq<u8>) -> Result<(), Error> {
    match attribute_value(msg, "v="@) {
        None => Err(Error::InvalidReply),
        Some(v) => match base64_decoded(v) {
            None => Err(Error::InvalidReply),
            Some(sig) => if sig != server_signature {
                Err(Error::InvalidSignatureOrProof)
            } else {
                Ok(())
            },
        },
    }
}

fn octets_eq(a: &[u8], b: &[u8]) -> (r: bool)
    ensures
        r == (a@ == b@),
{
    if a.len() != b.len() {
        return false;
    }
    let mut i: usize = 0;
    while i < a.len()
        invariant
            a@.len() == b@.len(),
            i <= a@.len(),
            forall|j: int| 0 <= j < i ==> a@[j] == b@[j],
        decreases a@.len() - i,
    {
        if a[i] != b[i] {
            return false;
        }
        i += 1;
    }
    assert(a@ =~= b@);
    true
}

/// Checks the server's final message on the client's side (see `server_final_outcome`).
pub fn check_server_final(msg: &str, server_signature: &[u8]) -> (r: Result<(), Error>)
    ensures
        match server_final_outcome(msg@, server_signature@) {
            Ok(()) => r is Ok,
            Err(e) => r matches Err(x) && x == e,
        },
{
    let v = match sasl_get(msg, "v=") {
        Some(v) => v,
        None => return Err(Error::InvalidReply),
    };
    let sig = match base64_decode(v) {
        Ok(v) => v,
        Err(_) => return Err(Error::InvalidReply),
    };
    if !octets_eq(sig.as_slice(), server_signature) {
        return Err(Error::InvalidSignatureOrProof);
    }
    Ok(())
}


/// What a server makes of the client's first message: it must begin with `n,,` (no channel
/// binding, no authorization identity) and name the user and the client nonce.
pub open spec fn client_first_outcome(msg: Seq<char>) -> Result<(Seq<char>, Seq<char>), Error> {
    if !has_prefix(msg, "n,,"@) {
        Err(Error::InvalidReply)
    } else {
        match attribute_value(msg, "n="@) {
            None => Err(Error::InvalidReply),
            Some(user) => match attribute_value(msg, "r="@) {
                None => Err(Error::InvalidReply),
                Some(nonce) => Ok((user, nonce)),
            },
        }
    }
}

/// Reads the client's first message on the server's side: the user name and the client nonce
/// (see `client_first_outcome`).
pub fn read_client_first(msg: &str) -> (r: Result<(&str, &str), Error>)
    ensures
        match client_first_outcome(msg@) {
            Ok((u, n)) => r matches Ok((x, y)) && x@ == u && y@ == n,
            Err(e) => r matches Err(x) && x == e,
        },
{
    if !starts_with(msg, "n,,") {
        return Err(Error::InvalidReply);
    }
    let user = match sasl_get(msg, "n=") {
        Some(v) => v,
        None => return Err(Error::InvalidReply),
    };
    let nonce = match sasl_get(msg, "r=") {
        Some(v) => v,
        None => return Err(Error::InvalidReply),
    };
    Ok((user, nonce))
}

/// The server's first message: the combined nonce (the client's, then the server's), the salt
/// in base64 and the iteration count in decimal.
pub open spec fn server_first_text(client_nonce: Seq<char>, server_nonce: Seq<char>, salt: Seq<u8>, iterations: nat) -> Seq<char> {
    "r="@ + client_nonce + server_nonce + ",s="@ + base64_encoded(salt) + ",i="@ + decimal(iterations)
}

/// Writes the server's first message.
pub fn server_first_message(client_nonce: &str, server_nonce: &str, salt: &[u8], iterations: usize) -> (r: String)
    ensures
        r@ == server_first_text(client_nonce@, server_nonce@, salt@, iterations as nat),
{
    let mut m = String::from_str("r=");
    m.append(client_nonce);
    m.append(server_nonce);
    m.append(",s=");
    let s = base64_encode(salt);
    m.append(s.as_str());
    m.append(",i=");
    push_decimal(&mut m, iterations as u64);
    m
}

/// Whether the combined nonce `combined` is the server nonce followed by the client nonce, the
/// two compared as octets at the length of the server nonce.
pub open spec fn nonce_echoed(combined: Seq<char>, client_nonce: Seq<char>, server_nonce: Seq<char>) -> bool {
    let k = encode_utf8(server_nonce).len() as int;
    &&& encode_utf8(combined).take(k) == encode_utf8(server_nonce)
    &&& encode_utf8(combined).skip(k) == encode_utf8(client_nonce)
}

/// Whether the combined nonce can be cut at the length in octets of the server nonce: it is
/// that long, and a character ends there.
pub open spec fn nonce_cut_ok(combined: Seq<char>, server_nonce: Seq<char>) -> bool {
    &&& encode_utf8(server_nonce).len() <= encode_utf8(combined).len()
    &&& is_char_boundary(encode_utf8(combined), encode_utf8(server_nonce).len() as int)
}

/// Whether reading the client's final message `msg` gets as far as comparing nonces: it has a
/// nonce and a proof in base64 and begins with `c=biws,`.
pub open spec fn client_final_reaches_nonce(msg: Seq<char>) -> bool {
    &&& attribute_value(msg, "r="@) is Some
    &&& attribute_value(msg, "p="@) matches Some(p) && base64_decoded(p) is Some
    &&& has_prefix(msg, "c=biws,"@)
}

/// What a server makes of the client's final message: the client's proof, or why it refuses
/// the message. The message must carry a nonce and a proof in base64 and begin with
/// `c=biws,`; a nonce that is the server nonce followed by the client nonce is refused, and
/// the proof must have the length of a key.
pub open spec fn client_final_outcome(msg: Seq<char>, client_nonce: Seq<char>, server_nonce: Seq<char>, key_len: nat) -> Result<Seq<u8>, Error> {
    match attribute_value(msg, "r="@) {
        None => Err(Error::InvalidReply),
        Some(combined) => match attribute_value(msg, "p="@) {
            None => Err(Error::InvalidReply),
            Some(p) => match base64_decoded(p) {
                None => Err(Error::InvalidReply),
                Some(proof) => if !has_prefix(msg, "c=biws,"@) {
                    Err(Error::InvalidReply)
                } else if nonce_echoed(combined, client_nonce, server_nonce) {
                    Err(Error::InvalidNonce)
                } else if proof.len() != key_len {
                    Err(Error::InvalidSignatureOrProof)
                } else {
                    Ok(proof)
                },
            },
        },
    }
}

/// Reads the client's final message on the server's side (see `client_final_outcome`). Where
/// the reading gets to the nonces, the combined nonce must be cut where the server nonce ends.
pub fn read_client_final(msg: &str, client_nonce: &str, server_nonce: &str, key_len: usize) -> (r: Result<Vec<u8>, Error>)
    requires
        client_final_reaches_nonce(msg@) ==> nonce_cut_ok(attribute_value(msg@, "r="@)->0, server_nonce@),
    ensures
        match client_final_outcome(msg@, client_nonce@, server_nonce@, key_len as nat) {
            Ok(p) => r matches Ok(v) && v@ == p,
            Err(e) => r matches Err(x) && x == e,
        },
{
    let combined = match sasl_get(msg, "r=") {
        Some(v) => v,
        None => return Err(Error::InvalidReply),
    };
    let p = match sasl_get(msg, "p=") {
        Some(v) => v,
        None => return Err(Error::InvalidReply),
    };
    let proof = match base64_decode(p) {
        Ok(v) => v,
        Err(_) => return Err(Error::InvalidReply),
    };
    if !starts_with(msg, "c=biws,") {
        return Err(Error::InvalidReply);
    }
    let k = server_nonce.as_bytes().len();
    proof {
        assert(client_final_reaches_nonce(msg@));
        assert(nonce_cut_ok(combined@, server_nonce@));
    }
    let (a, b) = combined.split_at(k);
    proof {
        vstd::utf8::encode_utf8_decode_utf8(a@);
        vstd::utf8::encode_utf8_decode_utf8(b@);
        vstd::utf8::encode_utf8_decode_utf8(client_nonce@);
        vstd::utf8::encode_utf8_decode_utf8(server_nonce@);
        assert(encode_utf8(combined@).take(k as int) =~= a.spec_bytes());
        assert(encode_utf8(combined@).skip(k as int) =~= b.spec_bytes());
    }
    let echoed = str_eq(a, server_nonce) && str_eq(b, client_nonce);
    proof {
        if nonce_echoed(combined@, client_nonce@, server_nonce@) {
            assert(encode_utf8(a@) == encode_utf8(server_nonce@));
            assert(decode_utf8(encode_utf8(a@)) == decode_utf8(encode_utf8(server_nonce@)));
            assert(encode_utf8(b@) == encode_utf8(client_nonce@));
            assert(decode_utf8(encode_utf8(b@)) == decode_utf8(encode_utf8(client_nonce@)));
        }
    }
    if echoed {
        return Err(Error::InvalidNonce);
    }
    if proof.len() != key_len {
        return Err(Error::InvalidSignatureOrProof);
    }
    Ok(proof)
}

/// The client key that the proof carries: each octet of the client signature combined by
/// exclusive or with the octet of the proof.
pub fn recover_client_key(client_signature: &[u8], client_proof: &[u8]) -> (r: Vec<u8>)
    requires
        client_signature@.len() == client_proof@.len(),
    ensures
        r@ == xor_octets(client_signature@, client_proof@),
{
    let n = client_signature.len();
    let mut r: Vec<u8> = Vec::new();
    let mut i: usize = 0;
    while i < n
        invariant
            n == client_signature@.len(),
            n == client_proof@.len(),
            i <= n,
            r@.len() == i,
            forall|j: int| 0 <= j < i ==> r@[j] == client_signature@[j] ^ client_proof@[j],
        decreases n - i,
    {
        r.push(client_signature[i] ^ client_proof[i]);
        i += 1;
    }
    assert(r@ =~= xor_octets(client_signature@, client_proof@));
    r
}

/// Checks on the server's side that the digest of the recovered client key is the stored key.
pub fn check_client_key(hashed_client_key: &[u8], stored_key: &[u8]) -> (r: Result<(), Error>)
    ensures
        hashed_client_key@ == stored_key@ ==> r is Ok,
        hashed_client_key@ != stored_key@ ==> (r matches Err(Error::InvalidSignatureOrProof)),
{
    if !octets_eq(hashed_client_key, stored_key) {
        return Err(Error::InvalidSignatureOrProof);
    }
    Ok(())
}

/// The server's final message: the server signature in base64.
pub open spec fn server_final_text(server_signature: Seq<u8>) -> Seq<char> {
    "v="@ + base64_encoded(server_signature)
}

/// Writes the server's final message.
pub fn server_final_message(server_signature: &[u8]) -> (r: String)
    ensures
        r@ == server_final_text(server_signature@),
{
    let mut m = String::from_str("v=");
    let s = base64_encode(server_signature);
    m.append(s.as_str());
    m
}

/// `rand::Rng::gen_range` on the thread's generator: an octet drawn from `low` up to, not
/// including, `high`. Claimed: only that it lies in that range, which rand documents (it
/// panics where `low >= high`, which `requires` leaves out).
#[verifier::external_body]
fn random_octet(low: u8, high: u8) -> (r: u8)
    requires
        low < high,
    ensures
        low <= r < high,
{
    rand::thread_rng().gen_range(low, high)
}

/// A fresh nonce of `n` octets, each a character from `0` to `Z`.
pub fn gen_nonce(n: usize) -> (r: Vec<u8>)
    ensures
        r@.len() == n,
        forall|i: int| 0 <= i < n ==> 0x30 <= #[trigger] r@[i] < 0x5b,
{
    let mut nonce: Vec<u8> = Vec::new();
    let mut i: usize = 0;
    while i < n
        invariant
            i <= n,
            nonce@.len() == i,
            forall|j: int| 0 <= j < i ==> 0x30 <= #[trigger] nonce@[j] < 0x5b,
        decreases n - i,
    {
        nonce.push(random_octet(0x30, 0x5b));
        i += 1;
    }
    nonce
}


/// The value of an attribute that first occurs at `k` and is followed by a comma or the end.
proof fn lemma_attribute_at(msg: Seq<char>, attr: Seq<char>, k: int, v: Seq<char>)
    requires
        occurs_at(msg, attr, k),
        forall|p: int| 0 <= p < k ==> !#[trigger] occurs_at(msg, attr, p),
        k + attr.len() + v.len() <= msg.len(),
        msg.subrange(k + attr.len(), k + attr.len() + v.len()) == v,
        forall|i: int| 0 <= i < v.len() ==> v[i] != ',',
        k + attr.len() + v.len() == msg.len() || msg[k + attr.len() + v.len()] == ',',
    ensures
        attribute_value(msg, attr) == Some(v),
{
    lemma_find_from(msg, attr, 0, k);
    let off = k + attr.len();
    let end = off + v.len();
    assert forall|q: int| off <= q < end implies msg[q] != ',' by {
        assert(msg[q] == v[q - off]);
    }
    lemma_index_of_from(msg, ',', off, end);
    if end < msg.len() {
        assert(index_of_from(msg, ',', end) == end);
    } else {
        assert(index_of_from(msg, ',', end) == -1);
    }
    assert(msg.subrange(off, end) == v);
}

/// Whether `c` occurs in `s`.
pub open spec fn has_char(s: Seq<char>, c: char) -> bool {
    exists|i: int| 0 <= i < s.len() && s[i] == c
}

/// A server reads from the client's first message the user name and the nonce that the client
/// wrote, where the name holds no `,` and no `=` and the nonce no `,`.
pub proof fn lemma_client_first_roundtrip(user: Seq<char>, nonce: Seq<char>)
    requires
        !has_char(user, ','),
        !has_char(user, '='),
        !has_char(nonce, ','),
    ensures
        client_first_outcome(client_first_text(user, nonce)) == Ok::<(Seq<char>, Seq<char>), Error>((user, nonce)),
{
    reveal_strlit("n,,");
    reveal_strlit("n=");
    reveal_strlit(",r=");
    reveal_strlit("r=");
    assert("n,,"@.len() == 3 && "n,,"@[0] == 'n' && "n,,"@[1] == ',' && "n,,"@[2] == ',');
    assert("n="@.len() == 2 && "n="@[0] == 'n' && "n="@[1] == '=');
    assert(",r="@.len() == 3 && ",r="@[0] == ',' && ",r="@[1] == 'r' && ",r="@[2] == '=');
    assert("r="@.len() == 2 && "r="@[0] == 'r' && "r="@[1] == '=');
    let msg = client_first_text(user, nonce);
    let u = user.len() as int;
    assert(msg.len() == 8 + u + nonce.len());
    assert(msg[0] == 'n' && msg[1] == ',' && msg[2] == ',' && msg[3] == 'n' && msg[4] == '=');
    assert forall|i: int| 0 <= i < u implies msg[5 + i] == user[i] by {}
    assert(msg[5 + u] == ',' && msg[6 + u] == 'r' && msg[7 + u] == '=');
    assert forall|i: int| 0 <= i < nonce.len() implies msg[8 + u + i] == nonce[i] by {}
    assert(msg.take(3) =~= "n,,"@);
    // the user name
    assert(msg.subrange(3, 5) =~= "n="@);
    assert forall|p: int| 0 <= p < 3 implies !#[trigger] occurs_at(msg, "n="@, p) by {
        assert(msg.subrange(p, p + 2)[0] == msg[p]);
        assert(msg.subrange(p, p + 2)[1] == msg[p + 1]);
    }
    assert(msg.subrange(5, 5 + u) =~= user);
    assert forall|i: int| 0 <= i < user.len() implies user[i] != ',' by {}
    lemma_attribute_at(msg, "n="@, 3, user);
    // the nonce
    assert(msg.subrange(6 + u, 8 + u) =~= "r="@);
    assert forall|p: int| 0 <= p < 6 + u implies !#[trigger] occurs_at(msg, "r="@, p) by {
        if occurs_at(msg, "r="@, p) {
            assert(msg.subrange(p, p + 2)[0] == msg[p]);
            assert(msg.subrange(p, p + 2)[1] == msg[p + 1]);
            if 5 <= p < 5 + u {
                if p + 1 < 5 + u {
                    assert(user[p + 1 - 5] == '=');
                }
            }
        }
    }
    assert(msg.subrange(8 + u, 8 + u + nonce.len()) =~= nonce);
    assert forall|i: int| 0 <= i < nonce.len() implies nonce[i] != ',' by {}
    lemma_attribute_at(msg, "r="@, 6 + u, nonce);
}

/// A client accepts the server's final message that carries the signature it computed.
pub proof fn lemma_server_final_roundtrip(server_signature: Seq<u8>)
    requires
        base64_text_reads_back(server_signature),
    ensures
        server_final_outcome(server_final_text(server_signature), server_signature) == Ok::<(), Error>(()),
{
    reveal_strlit("v=");
    assert("v="@.len() == 2 && "v="@[0] == 'v' && "v="@[1] == '=');
    let msg = server_final_text(server_signature);
    let b = base64_encoded(server_signature);
    assert(msg.subrange(0, 2) =~= "v="@);
    assert(msg.subrange(2, 2 + b.len() as int) =~= b);
    assert forall|i: int| 0 <= i < b.len() implies b[i] != ',' by {
        assert(base64_char(b[i]));
    }
    lemma_attribute_at(msg, "v="@, 0, b);
}


/// A client reads from the server's first message the combined nonce, the salt and the
/// iteration count that the server wrote, where the nonces hold no `,` and no `=`, the base64
/// text of the salt holds no `i=`, and the count is not under the minimum where a password is
/// used.
#[verifier::spinoff_prover]
#[verifier::rlimit(40)]
pub proof fn lemma_server_first_roundtrip(client_nonce: Seq<char>, server_nonce: Seq<char>, salt: Seq<u8>, iterations: usize, password: Seq<char>)
    requires
        !has_char(client_nonce, ','),
        !has_char(client_nonce, '='),
        !has_char(server_nonce, ','),
        !has_char(server_nonce, '='),
        base64_text_reads_back(salt),
        forall|p: int| !#[trigger] occurs_at(base64_encoded(salt), "i="@, p),
        password.len() == 0 || iterations >= MIN_ITERATIONS,
    ensures
        server_first_outcome(server_first_text(client_nonce, server_nonce, salt, iterations as nat), client_nonce, password)
            == Ok::<(Seq<char>, Seq<u8>, usize), Error>((client_nonce + server_nonce, salt, iterations)),
{
    reveal_strlit("r=");
    reveal_strlit(",s=");
    reveal_strlit(",i=");
    reveal_strlit("s=");
    reveal_strlit("i=");
    assert("r="@.len() == 2 && "r="@[0] == 'r' && "r="@[1] == '=');
    assert("s="@.len() == 2 && "s="@[0] == 's' && "s="@[1] == '=');
    assert("i="@.len() == 2 && "i="@[0] == 'i' && "i="@[1] == '=');
    assert(",s="@.len() == 3 && ",s="@[0] == ',' && ",s="@[1] == 's' && ",s="@[2] == '=');
    assert(",i="@.len() == 3 && ",i="@[0] == ',' && ",i="@[1] == 'i' && ",i="@[2] == '=');
    let c = client_nonce + server_nonce;
    let b = base64_encoded(salt);
    let d = decimal(iterations as nat);
    let msg = server_first_text(client_nonce, server_nonce, salt, iterations as nat);
    let l = c.len() as int;
    let m = b.len() as int;
    assert(msg =~= "r="@ + c + ",s="@ + b + ",i="@ + d);
    assert(msg.len() == 8 + l + m + d.len());
    assert(msg[0] == 'r' && msg[1] == '=');
    assert forall|i: int| 0 <= i < l implies msg[2 + i] == c[i] by {}
    assert(msg[2 + l] == ',' && msg[3 + l] == 's' && msg[4 + l] == '=');
    assert forall|i: int| 0 <= i < m implies msg[5 + l + i] == b[i] by {}
    assert(msg[5 + l + m] == ',' && msg[6 + l + m] == 'i' && msg[7 + l + m] == '=');
    assert forall|i: int| 0 <= i < d.len() implies msg[8 + l + m + i] == d[i] by {}
    assert forall|i: int| 0 <= i < l implies c[i] != ',' && c[i] != '=' by {
        if i < client_nonce.len() {
            assert(c[i] == client_nonce[i]);
        } else {
            assert(c[i] == server_nonce[i - client_nonce.len()]);
        }
    }
    // the combined nonce
    assert(msg.subrange(0, 2) =~= "r="@);
    assert(msg.subrange(2, 2 + l) =~= c);
    lemma_attribute_at(msg, "r="@, 0, c);
    // the salt
    assert(msg.subrange(3 + l, 5 + l) =~= "s="@);
    assert forall|p: int| 0 <= p < 3 + l implies !#[trigger] occurs_at(msg, "s="@, p) by {
        if occurs_at(msg, "s="@, p) {
            assert(msg.subrange(p, p + 2)[0] == msg[p]);
            assert(msg.subrange(p, p + 2)[1] == msg[p + 1]);
            if 2 <= p < 2 + l && p + 1 < 2 + l {
                assert(c[p + 1 - 2] == '=');
            }
        }
    }
    assert(msg.subrange(5 + l, 5 + l + m) =~= b);
    assert forall|i: int| 0 <= i < m implies b[i] != ',' by {
        assert(base64_char(b[i]));
    }
    lemma_attribute_at(msg, "s="@, 3 + l, b);
    // the iteration count
    lemma_decimal_digits(iterations as nat);
    lemma_usize_text_decimal(iterations);
    assert(msg.subrange(6 + l + m, 8 + l + m) =~= "i="@);
    assert forall|p: int| 0 <= p < 6 + l + m implies !#[trigger] occurs_at(msg, "i="@, p) by {
        if occurs_at(msg, "i="@, p) {
            assert(msg.subrange(p, p + 2)[0] == msg[p]);
            assert(msg.subrange(p, p + 2)[1] == msg[p + 1]);
            if 2 <= p < 2 + l && p + 1 < 2 + l {
                assert(c[p + 1 - 2] == '=');
            }
            if 5 + l <= p < 5 + l + m {
                if p + 1 < 5 + l + m {
                    assert(b.subrange(p - 5 - l, p - 5 - l + 2) =~= msg.subrange(p, p + 2));
                    assert(occurs_at(b, "i="@, p - 5 - l));
                } else {
                    assert(msg[p + 1] == ',');
                }
            }
        }
    }
    assert(msg.subrange(8 + l + m, 8 + l + m + d.len()) =~= d);
    assert forall|i: int| 0 <= i < d.len() implies d[i] != ',' by {
        assert('0' <= d[i] <= '9');
    }
    lemma_attribute_at(msg, "i="@, 6 + l + m, d);
    assert(c.take(client_nonce.len() as int) =~= client_nonce);
}

/// A server reads from the client's final message the proof that the client wrote, where the
/// combined nonce holds no `,` and no `=`, is not the server nonce followed by the client nonce,
/// and the proof has the length of a key.
pub proof fn lemma_client_final_roundtrip(combined_nonce: Seq<char>, proof: Seq<u8>, client_nonce: Seq<char>, server_nonce: Seq<char>, key_len: nat)
    requires
        !has_char(combined_nonce, ','),
        !has_char(combined_nonce, '='),
        base64_text_reads_back(proof),
        !nonce_echoed(combined_nonce, client_nonce, server_nonce),
        proof.len() == key_len,
    ensures
        client_final_outcome(client_final_text(client_final_bare(combined_nonce), proof), client_nonce, server_nonce, key_len)
            == Ok::<Seq<u8>, Error>(proof),
{
    reveal_strlit("c=biws,r=");
    reveal_strlit("c=biws,");
    reveal_strlit(",p=");
    reveal_strlit("r=");
    reveal_strlit("p=");
    assert("r="@.len() == 2 && "r="@[0] == 'r' && "r="@[1] == '=');
    assert("p="@.len() == 2 && "p="@[0] == 'p' && "p="@[1] == '=');
    assert(",p="@.len() == 3 && ",p="@[0] == ',' && ",p="@[1] == 'p' && ",p="@[2] == '=');
    assert("c=biws,r="@.len() == 9 && "c=biws,r="@[0] == 'c' && "c=biws,r="@[1] == '=' && "c=biws,r="@[2] == 'b'
        && "c=biws,r="@[3] == 'i' && "c=biws,r="@[4] == 'w' && "c=biws,r="@[5] == 's' && "c=biws,r="@[6] == ','
        && "c=biws,r="@[7] == 'r' && "c=biws,r="@[8] == '=');
    assert("c=biws,"@.len() == 7 && "c=biws,"@[0] == 'c' && "c=biws,"@[1] == '=' && "c=biws,"@[2] == 'b'
        && "c=biws,"@[3] == 'i' && "c=biws,"@[4] == 'w' && "c=biws,"@[5] == 's' && "c=biws,"@[6] == ',');
    let c = combined_nonce;
    let b = base64_encoded(proof);
    let msg = client_final_text(client_final_bare(c), proof);
    let l = c.len() as int;
    let m = b.len() as int;
    assert(msg =~= "c=biws,r="@ + c + ",p="@ + b);
    assert(msg.len() == 12 + l + m);
    assert forall|i: int| 0 <= i < 9 implies msg[i] == "c=biws,r="@[i] by {}
    assert forall|i: int| 0 <= i < l implies msg[9 + i] == c[i] by {}
    assert(msg[9 + l] == ',' && msg[10 + l] == 'p' && msg[11 + l] == '=');
    assert forall|i: int| 0 <= i < m implies msg[12 + l + i] == b[i] by {}
    assert forall|i: int| 0 <= i < l implies c[i] != ',' && c[i] != '=' by {}
    assert(msg.take(7) =~= "c=biws,"@);
    // the combined nonce
    assert(msg.subrange(7, 9) =~= "r="@);
    assert forall|p: int| 0 <= p < 7 implies !#[trigger] occurs_at(msg, "r="@, p) by {
        assert(msg.subrange(p, p + 2)[0] == msg[p]);
    }
    assert(msg.subrange(9, 9 + l) =~= c);
    lemma_attribute_at(msg, "r="@, 7, c);
    // the proof
    assert(msg.subrange(10 + l, 12 + l) =~= "p="@);
    assert forall|p: int| 0 <= p < 10 + l implies !#[trigger] occurs_at(msg, "p="@, p) by {
        if occurs_at(msg, "p="@, p) {
            assert(msg.subrange(p, p + 2)[0] == msg[p]);
            assert(msg.subrange(p, p + 2)[1] == msg[p + 1]);
            if 9 <= p < 9 + l && p + 1 < 9 + l {
                assert(c[p + 1 - 9] == '=');
            }
        }
    }
    assert(msg.subrange(12 + l, 12 + l + m) =~= b);
    assert forall|i: int| 0 <= i < m implies b[i] != ',' by {
        assert(base64_char(b[i]));
    }
    lemma_attribute_at(msg, "p="@, 10 + l, b);
}


/// With keys of 32 octets, the server recovers from the client's proof the client key that the
/// client put in: combining the proof with the same client signature undoes the combination.
pub proof fn lemma_client_key_recovered(client_key: Seq<u8>, client_signature: Seq<u8>)
    requires
        client_key.len() == 32,
        client_signature.len() == 32,
    ensures
        xor_octets(client_signature, proof_octets(client_key, client_signature)) == client_key,
{
    let p = proof_octets(client_key, client_signature);
    assert forall|i: int| 0 <= i < 32 implies #[trigger] xor_octets(client_signature, p)[i] == client_key[i] by {
        let k = client_key[i];
        let s = client_signature[i];
        assert(s ^ (k ^ s) == k) by (bit_vector);
    }
    assert(xor_octets(client_signature, p) =~= client_key);
}

/// What is left of the buffer that one exchange is written into: each message and each
/// separator takes its length from it.
#[derive(Copy, Clone, Debug, PartialEq, Eq)]
pub struct Room {
    pub left: usize,
}

impl Room {
    /// The whole buffer of an exchange.
    pub fn new() -> (r: Room)
        ensures
            r.left == BUFFER_LEN,
    {
        Room { left: BUFFER_LEN }
    }

    /// Takes `n` octets; fails, taking nothing, where fewer are left (as writing past a full
    /// buffer does).
    pub fn take(&mut self, n: usize) -> (r: Result<(), ()>)
        ensures
            r is Ok <==> n <= old(self).left,
            r is Ok ==> final(self).left == old(self).left - n,
            r is Err ==> final(self).left == old(self).left,
    {
        if n > self.left {
            return Err(());
        }
        self.left = self.left - n;
        Ok(())
    }

    /// Takes the one octet of a separator; the buffer must not be full (writing it there is out
    /// of bounds).
    pub fn separator(&mut self)
        requires
            old(self).left > 0,
        ensures
            final(self).left == old(self).left - 1,
    {
        self.left = self.left - 1;
    }
}

} // verus!
