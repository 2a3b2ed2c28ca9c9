//! Internet Message Format (RFC 5322): header field names.
use vstd::prelude::*;
use crate::text::str_eq;

verus! {

/// The header fields of an Internet message that are known by name.
#[derive(Copy, Clone, Debug, Eq, PartialEq)]
pub enum HeaderId {
    Bcc,
    Cc,
    Comments,
    Keywords,
    Date,
    From,
    InReplyTo,
    MessageId,
    Received,
    References,
    ReplyTo,
    ResentBcc,
    ResentCc,
    ResentDate,
    ResentFrom,
    ResentMessageId,
    ResentSender,
    ResentTo,
    ReturnPath,
    Sender,
    Subject,
    To,
}

/// The name of a header.
pub open spec fn header_name(id: HeaderId) -> Seq<char> {
    match id {
        HeaderId::Bcc => "Bcc"@,
        HeaderId::Cc => "Cc"@,
        HeaderId::Comments => "Comments"@,
        HeaderId::Keywords => "Keywords"@,
        HeaderId::Date => "Date"@,
        HeaderId::From => "From"@,
        HeaderId::InReplyTo => "In-Reply-To"@,
        HeaderId::MessageId => "Message-Id"@,
        HeaderId::Received => "Received"@,
        HeaderId::References => "References"@,
        HeaderId::ReplyTo => "Reply-To"@,
        HeaderId::ResentBcc => "Resent-Bcc"@,
        HeaderId::ResentCc => "Resent-Cc"@,
        HeaderId::ResentDate => "Resent-Date"@,
        HeaderId::ResentFrom => "Resent-From"@,
        HeaderId::ResentMessageId => "Resent-Message-Id"@,
        HeaderId::ResentSender => "Resent-Sender"@,
        HeaderId::ResentTo => "Resent-To"@,
        HeaderId::ReturnPath => "Return-Path"@,
        HeaderId::Sender => "Sender"@,
        HeaderId::Subject => "Subject"@,
        HeaderId::To => "To"@,
    }
}

/// The header that the name `s` stands for, if any.
pub open spec fn header_id_parse(s: Seq<char>) -> Option<HeaderId> {
    if s == "Bcc"@ { Some(HeaderId::Bcc) }
    else if s == "Cc"@ { Some(HeaderId::Cc) }
    else if s == "Comments"@ { Some(HeaderId::Comments) }
    else if s == "Keywords"@ { Some(HeaderId::Keywords) }
    else if s == "Date"@ { Some(HeaderId::Date) }
    else if s == "From"@ { Some(HeaderId::From) }
    else if s == "In-Reply-To"@ { Some(HeaderId::InReplyTo) }
    else if s == "Message-Id"@ { Some(HeaderId::MessageId) }
    else if s == "Received"@ { Some(HeaderId::Received) }
    else if s == "References"@ { Some(HeaderId::References) }
    else if s == "Reply-To"@ { Some(HeaderId::ReplyTo) }
    else if s == "Resent-Bcc"@ { Some(HeaderId::ResentBcc) }
    else if s == "Resent-Cc"@ { Some(HeaderId::ResentCc) }
    else if s == "Resent-Date"@ { Some(HeaderId::ResentDate) }
    else if s == "Resent-From"@ { Some(HeaderId::ResentFrom) }
    else if s == "Resent-Message-Id"@ { Some(HeaderId::ResentMessageId) }
    else if s == "Resent-Sender"@ { Some(HeaderId::ResentSender) }
    else if s == "Resent-To"@ { Some(HeaderId::ResentTo) }
    else if s == "Return-Path"@ { Some(HeaderId::ReturnPath) }
    else if s == "Sender"@ { Some(HeaderId::Sender) }
    else if s == "Subject"@ { Some(HeaderId::Subject) }
    else if s == "To"@ { Some(HeaderId::To) }
    else { None }
}

impl HeaderId {
    /// The name of the header.
    pub fn name(self) -> (r: &'static str)
        ensures
            r@ == header_name(self),
    {
        match self {
            HeaderId::Bcc => "Bcc",
            HeaderId::Cc => "Cc",
            HeaderId::Comments => "Comments",
            HeaderId::Keywords => "Keywords",
            HeaderId::Date => "Date",
            HeaderId::From => "From",
            HeaderId::InReplyTo => "In-Reply-To",
            HeaderId::MessageId => "Message-Id",
            HeaderId::Received => "Received",
            HeaderId::References => "References",
            HeaderId::ReplyTo => "Reply-To",
            HeaderId::ResentBcc => "Resent-Bcc",
            HeaderId::ResentCc => "Resent-Cc",
            HeaderId::ResentDate => "Resent-Date",
            HeaderId::ResentFrom => "Resent-From",
            HeaderId::ResentMessageId => "Resent-Message-Id",
            HeaderId::ResentSender => "Resent-Sender",
            HeaderId::ResentTo => "Resent-To",
            HeaderId::ReturnPath => "Return-Path",
            HeaderId::Sender => "Sender",
            HeaderId::Subject => "Subject",
            HeaderId::To => "To",
        }
    }

    /// Reads a header name.
    pub fn from_str(s: &str) -> (r: Result<HeaderId, ()>)
        ensures
            match header_id_parse(s@) {
                Some(id) => r == Ok::<HeaderId, ()>(id),
                None => r == Err::<HeaderId, ()>(()),
            },
    {
        if str_eq(s, "Bcc") {
            return Ok(HeaderId::Bcc);
        }
        if str_eq(s, "Cc") {
            return Ok(HeaderId::Cc);
        }
        if str_eq(s, "Comments") {
            return Ok(HeaderId::Comments);
        }
        if str_eq(s, "Keywords") {
            return Ok(HeaderId::Keywords);
        }
        if str_eq(s, "Date") {
            return Ok(HeaderId::Date);
        }
        if str_eq(s, "From") {
            return Ok(HeaderId::From);
        }
        if str_eq(s, "In-Reply-To") {
            return Ok(HeaderId::InReplyTo);
        }
        if str_eq(s, "Message-Id") {
            return Ok(HeaderId::MessageId);
        }
        if str_eq(s, "Received") {
            return Ok(HeaderId::Received);
        }
        if str_eq(s, "References") {
            return Ok(HeaderId::References);
        }
        if str_eq(s, "Reply-To") {
            return Ok(HeaderId::ReplyTo);
        }
        if str_eq(s, "Resent-Bcc") {
            return Ok(HeaderId::ResentBcc);
        }
        if str_eq(s, "Resent-Cc") {
            return Ok(HeaderId::ResentCc);
        }
        if str_eq(s, "Resent-Date") {
            return Ok(HeaderId::ResentDate);
        }
        if str_eq(s, "Resent-From") {
            return Ok(HeaderId::ResentFrom);
        }
        if str_eq(s, "Resent-Message-Id") {
            return Ok(HeaderId::ResentMessageId);
        }
        if str_eq(s, "Resent-Sender") {
            return Ok(HeaderId::ResentSender);
        }
        if str_eq(s, "Resent-To") {
            return Ok(HeaderId::ResentTo);
        }
        if str_eq(s, "Return-Path") {
            return Ok(HeaderId::ReturnPath);
        }
        if str_eq(s, "Sender") {
            return Ok(HeaderId::Sender);
        }
        if str_eq(s, "Subject") {
            return Ok(HeaderId::Subject);
        }
        if str_eq(s, "To") {
            return Ok(HeaderId::To);
        }
        Err(())
    }
}

/// Reading the name of a header gives the header.
pub proof fn lemma_header_name_roundtrip(id: HeaderId)
    ensures
        header_id_parse(header_name(id)) == Some(id),
{
    reveal_strlit("Bcc");
    assert("Bcc"@.len() == 3 && "Bcc"@[0] == 'B' && "Bcc"@[1] == 'c' && "Bcc"@[2] == 'c');
    reveal_strlit("Cc");
    assert("Cc"@.len() == 2 && "Cc"@[0] == 'C' && "Cc"@[1] == 'c');
    reveal_strlit("Comments");
    assert("Comments"@.len() == 8 && "Comments"@[0] == 'C' && "Comments"@[1] == 'o' && "Comments"@[2] == 'm' && "Comments"@[3] == 'm' && "Comments"@[4] == 'e' && "Comments"@[5] == 'n' && "Comments"@[6] == 't' && "Comments"@[7] == 's');
    reveal_strlit("Date");
    assert("Date"@.len() == 4 && "Date"@[0] == 'D' && "Date"@[1] == 'a' && "Date"@[2] == 't' && "Date"@[3] == 'e');
    reveal_strlit("From");
    assert("From"@.len() == 4 && "From"@[0] == 'F' && "From"@[1] == 'r' && "From"@[2] == 'o' && "From"@[3] == 'm');
    reveal_strlit("In-Reply-To");
    assert("In-Reply-To"@.len() == 11 && "In-Reply-To"@[0] == 'I' && "In-Reply-To"@[1] == 'n' && "In-Reply-To"@[2] == '-' && "In-Reply-To"@[3] == 'R' && "In-Reply-To"@[4] == 'e' && "In-Reply-To"@[5] == 'p' && "In-Reply-To"@[6] == 'l' && "In-Reply-To"@[7] == 'y' && "In-Reply-To"@[8] == '-' && "In-Reply-To"@[9] == 'T' && "In-Reply-To"@[10] == 'o');
    reveal_strlit("Keywords");
    assert("Keywords"@.len() == 8 && "Keywords"@[0] == 'K' && "Keywords"@[1] == 'e' && "Keywords"@[2] == 'y' && "Keywords"@[3] == 'w' && "Keywords"@[4] == 'o' && "Keywords"@[5] == 'r' && "Keywords"@[6] == 'd' && "Keywords"@[7] == 's');
    reveal_strlit("Message-Id");
    assert("Message-Id"@.len() == 10 && "Message-Id"@[0] == 'M' && "Message-Id"@[1] == 'e' && "Message-Id"@[2] == 's' && "Message-Id"@[3] == 's' && "Message-Id"@[4] == 'a' && "Message-Id"@[5] == 'g' && "Message-Id"@[6] == 'e' && "Message-Id"@[7] == '-' && "Message-Id"@[8] == 'I' && "Message-Id"@[9] == 'd');
    reveal_strlit("Received");
    assert("Received"@.len() == 8 && "Received"@[0] == 'R' && "Received"@[1] == 'e' && "Received"@[2] == 'c' && "Received"@[3] == 'e' && "Received"@[4] == 'i' && "Received"@[5] == 'v' && "Received"@[6] == 'e' && "Received"@[7] == 'd');
    reveal_strlit("References");
    assert("References"@.len() == 10 && "References"@[0] == 'R' && "References"@[1] == 'e' && "References"@[2] == 'f' && "References"@[3] == 'e' && "References"@[4] == 'r' && "References"@[5] == 'e' && "References"@[6] == 'n' && "References"@[7] == 'c' && "References"@[8] == 'e' && "References"@[9] == 's');
    reveal_strlit("Reply-To");
    assert("Reply-To"@.len() == 8 && "Reply-To"@[0] == 'R' && "Reply-To"@[1] == 'e' && "Reply-To"@[2] == 'p' && "Reply-To"@[3] == 'l' && "Reply-To"@[4] == 'y' && "Reply-To"@[5] == '-' && "Reply-To"@[6] == 'T' && "Reply-To"@[7] == 'o');
    reveal_strlit("Resent-Bcc");
    assert("Resent-Bcc"@.len() == 10 && "Resent-Bcc"@[0] == 'R' && "Resent-Bcc"@[1] == 'e' && "Resent-Bcc"@[2] == 's' && "Resent-Bcc"@[3] == 'e' && "Resent-Bcc"@[4] == 'n' && "Resent-Bcc"@[5] == 't' && "Resent-Bcc"@[6] == '-' && "Resent-Bcc"@[7] == 'B' && "Resent-Bcc"@[8] == 'c' && "Resent-Bcc"@[9] == 'c');
    reveal_strlit("Resent-Cc");
    assert("Resent-Cc"@.len() == 9 && "Resent-Cc"@[0] == 'R' && "Resent-Cc"@[1] == 'e' && "Resent-Cc"@[2] == 's' && "Resent-Cc"@[3] == 'e' && "Resent-Cc"@[4] == 'n' && "Resent-Cc"@[5] == 't' && "Resent-Cc"@[6] == '-' && "Resent-Cc"@[7] == 'C' && "Resent-Cc"@[8] == 'c');
    reveal_strlit("Resent-Date");
    assert("Resent-Date"@.len() == 11 && "Resent-Date"@[0] == 'R' && "Resent-Date"@[1] == 'e' && "Resent-Date"@[2] == 's' && "Resent-Date"@[3] == 'e' && "Resent-Date"@[4] == 'n' && "Resent-Date"@[5] == 't' && "Resent-Date"@[6] == '-' && "Resent-Date"@[7] == 'D' && "Resent-Date"@[8] == 'a' && "Resent-Date"@[9] == 't' && "Resent-Date"@[10] == 'e');
    reveal_strlit("Resent-From");
    assert("Resent-From"@.len() == 11 && "Resent-From"@[0] == 'R' && "Resent-From"@[1] == 'e' && "Resent-From"@[2] == 's' && "Resent-From"@[3] == 'e' && "Resent-From"@[4] == 'n' && "Resent-From"@[5] == 't' && "Resent-From"@[6] == '-' && "Resent-From"@[7] == 'F' && "Resent-From"@[8] == 'r' && "Resent-From"@[9] == 'o' && "Resent-From"@[10] == 'm');
    reveal_strlit("Resent-Message-Id");
    assert("Resent-Message-Id"@.len() == 17 && "Resent-Message-Id"@[0] == 'R' && "Resent-Message-Id"@[1] == 'e' && "Resent-Message-Id"@[2] == 's' && "Resent-Message-Id"@[3] == 'e' && "Resent-Message-Id"@[4] == 'n' && "Resent-Message-Id"@[5] == 't' && "Resent-Message-Id"@[6] == '-' && "Resent-Message-Id"@[7] == 'M' && "Resent-Message-Id"@[8] == 'e' && "Resent-Message-Id"@[9] == 's' && "Resent-Message-Id"@[10] == 's' && "Resent-Message-Id"@[11] == 'a' && "Resent-Message-Id"@[12] == 'g' && "Resent-Message-Id"@[13] == 'e' && "Resent-Message-Id"@[14] == '-' && "Resent-Message-Id"@[15] == 'I' && "Resent-Message-Id"@[16] == 'd');
    reveal_strlit("Resent-Sender");
    assert("Resent-Sender"@.len() == 13 && "Resent-Sender"@[0] == 'R' && "Resent-Sender"@[1] == 'e' && "Resent-Sender"@[2] == 's' && "Resent-Sender"@[3] == 'e' && "Resent-Sender"@[4] == 'n' && "Resent-Sender"@[5] == 't' && "Resent-Sender"@[6] == '-' && "Resent-Sender"@[7] == 'S' && "Resent-Sender"@[8] == 'e' && "Resent-Sender"@[9] == 'n' && "Resent-Sender"@[10] == 'd' && "Resent-Sender"@[11] == 'e' && "Resent-Sender"@[12] == 'r');
    reveal_strlit("Resent-To");
    assert("Resent-To"@.len() == 9 && "Resent-To"@[0] == 'R' && "Resent-To"@[1] == 'e' && "Resent-To"@[2] == 's' && "Resent-To"@[3] == 'e' && "Resent-To"@[4] == 'n' && "Resent-To"@[5] == 't' && "Resent-To"@[6] == '-' && "Resent-To"@[7] == 'T' && "Resent-To"@[8] == 'o');
    reveal_strlit("Return-Path");
    assert("Return-Path"@.len() == 11 && "Return-Path"@[0] == 'R' && "Return-Path"@[1] == 'e' && "Return-Path"@[2] == 't' && "Return-Path"@[3] == 'u' && "Return-Path"@[4] == 'r' && "Return-Path"@[5] == 'n' && "Return-Path"@[6] == '-' && "Return-Path"@[7] == 'P' && "Return-Path"@[8] == 'a' && "Return-Path"@[9] == 't' && "Return-Path"@[10] == 'h');
    reveal_strlit("Sender");
    assert("Sender"@.len() == 6 && "Sender"@[0] == 'S' && "Sender"@[1] == 'e' && "Sender"@[2] == 'n' && "Sender"@[3] == 'd' && "Sender"@[4] == 'e' && "Sender"@[5] == 'r');
    reveal_strlit("Subject");
    assert("Subject"@.len() == 7 && "Subject"@[0] == 'S' && "Subject"@[1] == 'u' && "Subject"@[2] == 'b' && "Subject"@[3] == 'j' && "Subject"@[4] == 'e' && "Subject"@[5] == 'c' && "Subject"@[6] == 't');
    reveal_strlit("To");
    assert("To"@.len() == 2 && "To"@[0] == 'T' && "To"@[1] == 'o');
}

} // verus!
