//! Zone files: their directives and the errors of their syntax.
use vstd::prelude::*;
use vstd::string::StrSliceExecFns;
use vstd::string::StringExecFns;
use crate::text::{split_lines, split_ascii_whitespace, lines, words, texts, index_of_from,
    lemma_index_of_from, str_eq, parse_usize, usize_text, ascii_ws, decimal, lemma_decimal_digits,
    lemma_usize_text_decimal, lemma_two_words, lemma_two_lines};
use crate::dns::records::{Zone, zone_text};

verus! {

/// What a zone file parser rejected.
#[derive(Copy, Clone, Debug, Eq, PartialEq)]
pub enum ZoneParseErrorType {
    Directive,
    DirectiveValue,
    RecordClass,
    RecordType,
    RecordValue,
}

/// A zone file parse error with its place.
#[derive(Copy, Clone, Debug, Eq, PartialEq)]
pub struct ZoneParseError {
    pub ty: ZoneParseErrorType,
    pub line: usize,
    pub row: usize,
}

impl ZoneParseError {
    pub fn new(ty: ZoneParseErrorType, line: usize, row: usize) -> (r: Self)
        ensures
            r == (ZoneParseError { ty, line, row }),
    {
        Self { ty, line, row }
    }
}


/// The part of a zone file line before its comment, which begins at the first `;`.
pub open spec fn line_content(line: Seq<char>) -> Seq<char> {
    let k = index_of_from(line, ';', 0);
    if k < 0 { line } else { line.take(k) }
}

/// What reading a zone file makes of its lines from the `k`-th on, given the origin and the
/// time to live so far: the final origin and time to live, or the error with its line. Blank
/// and comment lines are skipped; `$ORIGIN` and `$TTL` need a value (the time to live a
/// number); another `$` directive is an error. Nothing where a record line is reached, which
/// the reading cannot parse.
pub open spec fn zone_lines_outcome(ls: Seq<Seq<char>>, k: int, origin: Seq<char>, ttl: usize) -> Option<Result<(Seq<char>, usize), ZoneParseError>>
    decreases ls.len() - k,
{
    if k < 0 || k >= ls.len() {
        Some(Ok((origin, ttl)))
    } else {
        let w = words(line_content(ls[k]));
        let value_error = ZoneParseError { ty: ZoneParseErrorType::DirectiveValue, line: k as usize, row: 0 };
        if w.len() == 0 {
            zone_lines_outcome(ls, k + 1, origin, ttl)
        } else if w[0] == "$ORIGIN"@ {
            if w.len() < 2 { Some(Err(value_error)) } else { zone_lines_outcome(ls, k + 1, w[1], ttl) }
        } else if w[0] == "$TTL"@ {
            if w.len() < 2 {
                Some(Err(value_error))
            } else {
                match usize_text(w[1]) {
                    None => Some(Err(value_error)),
                    Some(t) => zone_lines_outcome(ls, k + 1, origin, t),
                }
            }
        } else if w[0].len() > 0 && w[0][0] == '$' {
            Some(Err(ZoneParseError { ty: ZoneParseErrorType::Directive, line: k as usize, row: 0 }))
        } else {
            None
        }
    }
}

/// What reading the zone file `s` makes of it (see `zone_lines_outcome`), from an empty origin
/// and a time to live of 0.
pub open spec fn zone_outcome(s: Seq<char>) -> Option<Result<(Seq<char>, usize), ZoneParseError>> {
    zone_lines_outcome(lines(s), 0, Seq::empty(), 0)
}

fn content_of(line: &str) -> (r: &str)
    ensures
        r@ == line_content(line@),
{
    let n = line.unicode_len();
    let mut i: usize = 0;
    while i < n && line.get_char(i) != ';'
        invariant
            n == line@.len(),
            i <= n,
            forall|q: int| 0 <= q < i ==> line@[q] != ';',
        decreases n - i,
    {
        i += 1;
    }
    proof {
        lemma_index_of_from(line@, ';', 0, i as int);
    }
    let r = line.substring_char(0, i);
    proof {
        if i == n {
            assert(r@ =~= line@);
        } else {
            assert(r@ =~= line@.take(i as int));
        }
    }
    r
}

impl Zone {
    /// Reads a zone file of directives (see `zone_outcome`); it has no records. A record line
    /// cannot be read, so `requires` leaves such files out.
    pub fn from_str(s: &str) -> (r: Result<Zone, ZoneParseError>)
        requires
            zone_outcome(s@) is Some,
        ensures
            match zone_outcome(s@) {
                Some(Ok((o, t))) => r matches Ok(z) && z.origin@ == o && z.ttl == t && z.records@.len() == 0,
                Some(Err(e)) => r == Err::<Zone, ZoneParseError>(e),
                None => false,
            },
    {
        let ls = split_lines(s);
        let mut origin = String::new();
        let mut ttl: usize = 0;
        let mut k: usize = 0;
        while k < ls.len()
            invariant
                k <= ls@.len(),
                texts(ls@) == lines(s@),
                zone_lines_outcome(texts(ls@), k as int, origin@, ttl) == zone_outcome(s@),
                zone_outcome(s@) is Some,
            decreases ls@.len() - k,
        {
            let line = ls[k];
            assert(texts(ls@)[k as int] == line@);
            let w = split_ascii_whitespace(content_of(line));
            assert(texts(w@).len() == w@.len());
            if w.len() == 0 {
                k += 1;
                continue;
            }
            assert(texts(w@)[0] == w@[0]@);
            if str_eq(w[0], "$ORIGIN") {
                if w.len() < 2 {
                    return Err(ZoneParseError::new(ZoneParseErrorType::DirectiveValue, k, 0));
                }
                assert(texts(w@)[1] == w@[1]@);
                origin = String::from_str(w[1]);
            } else if str_eq(w[0], "$TTL") {
                if w.len() < 2 {
                    return Err(ZoneParseError::new(ZoneParseErrorType::DirectiveValue, k, 0));
                }
                assert(texts(w@)[1] == w@[1]@);
                ttl = match parse_usize(w[1]) {
                    Some(t) => t,
                    None => return Err(ZoneParseError::new(ZoneParseErrorType::DirectiveValue, k, 0)),
                };
            } else {
                // every other line reached here is a directive: record lines are left out
                return Err(ZoneParseError::new(ZoneParseErrorType::Directive, k, 0));
            }
            k += 1;
        }
        Ok(Zone { origin, ttl, records: Vec::new() })
    }
}


/// A zone without records, whose origin is one word without `;`, reads back from its zone file
/// text as its origin and time to live.
pub proof fn lemma_zone_roundtrip(z: Zone)
    requires
        z.records@.len() == 0,
        z.origin@.len() > 0,
        forall|m: int| 0 <= m < z.origin@.len() ==> !ascii_ws(#[trigger] z.origin@[m]) && z.origin@[m] != ';',
    ensures
        zone_outcome(zone_text(z)) == Some(Ok::<(Seq<char>, usize), ZoneParseError>((z.origin@, z.ttl))),
{
    reveal_strlit("$ORIGIN ");
    reveal_strlit("\n$TTL ");
    reveal_strlit("\n");
    reveal_strlit(" ");
    reveal_strlit("$ORIGIN");
    reveal_strlit("$TTL");
    let o = z.origin@;
    let d = decimal(z.ttl as nat);
    let org = "$ORIGIN"@;
    let ttl = "$TTL"@;
    assert(org.len() == 7 && org[0] == '$' && org[1] == 'O' && org[2] == 'R' && org[3] == 'I' && org[4] == 'G'
        && org[5] == 'I' && org[6] == 'N');
    assert(ttl.len() == 4 && ttl[0] == '$' && ttl[1] == 'T' && ttl[2] == 'T' && ttl[3] == 'L');
    assert(" "@.len() == 1 && " "@[0] == ' ');
    assert("\n"@.len() == 1 && "\n"@[0] == '\n');
    assert("$ORIGIN "@ =~= org + " "@);
    assert("\n$TTL "@ =~= "\n"@ + ttl + " "@);
    lemma_decimal_digits(z.ttl as nat);
    lemma_usize_text_decimal(z.ttl);
    let l0 = org + " "@ + o;
    let l1 = ttl + " "@ + d;
    assert(crate::dns::records::records_text(z.records@, 0) == Seq::<char>::empty());
    assert(zone_text(z) =~= l0 + "\n"@ + l1 + "\n"@);
    assert forall|m: int| 0 <= m < l0.len() implies #[trigger] l0[m] != '\n' && l0[m] != ';' by {
        if m >= 8 {
            assert(l0[m] == o[m - 8]);
        }
    }
    assert forall|m: int| 0 <= m < l1.len() implies #[trigger] l1[m] != '\n' && l1[m] != ';' by {
        if m >= 5 {
            assert(l1[m] == d[m - 5]);
            assert('0' <= d[m - 5] <= '9');
        }
    }
    assert(l0.last() == o.last());
    assert(l1.last() == d.last());
    assert('0' <= d[d.len() - 1] <= '9');
    lemma_two_lines(l0, l1);
    lemma_index_of_from(l0, ';', 0, l0.len() as int);
    lemma_index_of_from(l1, ';', 0, l1.len() as int);
    assert(line_content(l0) == l0);
    assert(line_content(l1) == l1);
    assert forall|m: int| 0 <= m < d.len() implies !ascii_ws(#[trigger] d[m]) by {
        assert('0' <= d[m] <= '9');
    }
    lemma_two_words(org, o);
    lemma_two_words(ttl, d);
    let ls = lines(zone_text(z));
    assert(ls == seq![l0, l1]);
    assert(words(line_content(ls[0])) == seq![org, o]);
    assert(words(line_content(ls[1])) == seq![ttl, d]);
    assert(ttl != org);
    assert(zone_lines_outcome(ls, 2, o, z.ttl) == Some(Ok::<(Seq<char>, usize), ZoneParseError>((o, z.ttl))));
    assert(zone_lines_outcome(ls, 1, o, 0) == zone_lines_outcome(ls, 2, o, z.ttl));
    assert(zone_lines_outcome(ls, 0, Seq::empty(), 0) == zone_lines_outcome(ls, 1, o, 0));
}

} // verus!
