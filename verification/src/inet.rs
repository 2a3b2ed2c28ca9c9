//! IP addresses and their text forms.
use vstd::prelude::*;
use vstd::string::StrSliceExecFns;
use crate::text::{decimal, push_decimal, all_digits, digits_value, pieces, split_char, texts, lemma_decimal_digits, lemma_pieces_cons, lemma_pieces_single, find_from, find_str, occurs_at, push_char, lemma_find_from, pieces_from};

verus! {

/// Whether `p` is the text of one octet of an address: one to three decimal digits, without a
/// leading zero unless the octet is `0`, of a value below 256.
pub open spec fn octet_text(p: Seq<char>) -> bool {
    1 <= p.len() <= 3 && all_digits(p) && (p.len() == 1 || p[0] != '0') && digits_value(p) < 256
}

/// The IPv4 address that the text `s` stands for: four octets separated by dots; nothing for
/// any other text.
pub open spec fn ipv4_parse(s: Seq<char>) -> Option<Seq<u8>> {
    let p = pieces(s, '.');
    if p.len() == 4 && (forall|i: int| 0 <= i < 4 ==> #[trigger] octet_text(p[i])) {
        Some(seq![digits_value(p[0]) as u8, digits_value(p[1]) as u8, digits_value(p[2]) as u8,
            digits_value(p[3]) as u8])
    } else {
        None
    }
}

/// The text of an IPv4 address: its four octets in decimal, separated by dots.
pub open spec fn ipv4_text(a: Seq<u8>) -> Seq<char> {
    decimal(a[0] as nat) + seq!['.'] + decimal(a[1] as nat) + seq!['.'] + decimal(a[2] as nat)
        + seq!['.'] + decimal(a[3] as nat)
}

fn read_octet(p: &str) -> (r: Option<u8>)
    ensures
        r is Some <==> octet_text(p@),
        r matches Some(v) ==> v == digits_value(p@),
{
    let n = p.unicode_len();
    if n == 0 || n > 3 {
        return None;
    }
    if n > 1 && p.get_char(0) == '0' {
        return None;
    }
    let mut v: u32 = 0;
    let mut i: usize = 0;
    while i < n
        invariant
            n == p@.len(),
            1 <= n <= 3,
            i <= n,
            all_digits(p@.take(i as int)),
            v == digits_value(p@.take(i as int)),
            v < (if i == 0 { 1int } else if i == 1 { 10 } else if i == 2 { 100 } else { 1000 }),
        decreases n - i,
    {
        let c = p.get_char(i);
        if c < '0' || c > '9' {
            proof {
                assert(!('0' <= p@[i as int] <= '9'));
            }
            return None;
        }
        let ghost t = p@.take(i + 1);
        proof {
            assert(t.drop_last() =~= p@.take(i as int));
            assert(t.last() == c);
        }
        v = v * 10 + (c as u32 - 0x30);
        i += 1;
    }
    proof {
        assert(p@.take(n as int) =~= p@);
    }
    if v > 255 {
        return None;
    }
    Some(v as u8)
}

/// Reads an IPv4 address from its text: four octets in decimal, separated by dots, each of one
/// to three digits without a leading zero.
pub fn parse_ipv4(s: &str) -> (r: Option<[u8; 4]>)
    ensures
        match ipv4_parse(s@) {
            Some(a) => r matches Some(x) && x@ == a,
            None => r is None,
        },
{
    let p = split_char(s, '.');
    if p.len() != 4 {
        return None;
    }
    proof {
        assert forall|i: int| 0 <= i < 4 implies #[trigger] p@[i]@ == pieces(s@, '.')[i] by {
            assert(texts(p@)[i] == p@[i]@);
        }
    }
    let a = match read_octet(p[0]) {
        Some(v) => v,
        None => return None,
    };
    let b = match read_octet(p[1]) {
        Some(v) => v,
        None => return None,
    };
    let c = match read_octet(p[2]) {
        Some(v) => v,
        None => return None,
    };
    let d = match read_octet(p[3]) {
        Some(v) => v,
        None => return None,
    };
    let x = [a, b, c, d];
    proof {
        assert(x@ =~= seq![a, b, c, d]);
    }
    Some(x)
}

/// Appends the text of an IPv4 address: its four octets in decimal, separated by dots.
pub fn push_ipv4(out: &mut String, a: &[u8; 4])
    ensures
        final(out)@ == old(out)@ + ipv4_text(a@),
{
    push_decimal(out, a[0] as u64);
    out.append(".");
    push_decimal(out, a[1] as u64);
    out.append(".");
    push_decimal(out, a[2] as u64);
    out.append(".");
    push_decimal(out, a[3] as u64);
    proof {
        reveal_strlit(".");
        assert(final(out)@ =~= old(out)@ + ipv4_text(a@));
    }
}

/// Reading the text of an IPv4 address gives the address.
#[verifier::spinoff_prover]
pub proof fn lemma_ipv4_roundtrip(a: Seq<u8>)
    requires
        a.len() == 4,
    ensures
        ipv4_parse(ipv4_text(a)) == Some(a),
{
    let d0 = decimal(a[0] as nat);
    let d1 = decimal(a[1] as nat);
    let d2 = decimal(a[2] as nat);
    let d3 = decimal(a[3] as nat);
    lemma_octet_decimal(a[0]);
    lemma_octet_decimal(a[1]);
    lemma_octet_decimal(a[2]);
    lemma_octet_decimal(a[3]);
    let s = ipv4_text(a);
    assert(s =~= d0 + seq!['.'] + (d1 + seq!['.'] + (d2 + seq!['.'] + d3)));
    lemma_pieces_cons(d0, '.', d1 + seq!['.'] + (d2 + seq!['.'] + d3));
    lemma_pieces_cons(d1, '.', d2 + seq!['.'] + d3);
    lemma_pieces_cons(d2, '.', d3);
    lemma_pieces_single(d3, '.');
    let p = pieces(s, '.');
    assert(p =~= seq![d0, d1, d2, d3]);
    assert(ipv4_parse(s).unwrap() =~= a);
}

proof fn lemma_octet_decimal(v: u8)
    ensures
        octet_text(decimal(v as nat)),
        digits_value(decimal(v as nat)) == v,
        forall|m: int| 0 <= m < decimal(v as nat).len() ==> #[trigger] decimal(v as nat)[m] != '.',
{
    lemma_decimal_digits(v as nat);
    let d = decimal(v as nat);
    if v >= 10 {
        lemma_decimal_digits(v as nat / 10);
        if v >= 100 {
            lemma_decimal_digits(v as nat / 100);
            assert(decimal(v as nat / 10) == decimal(v as nat / 100).push(crate::text::digit_char((v as nat / 10) % 10)));
            assert(decimal(v as nat / 100).len() == 1);
        } else {
            assert(decimal(v as nat / 10).len() == 1);
        }
        assert(d[0] == decimal(v as nat / 10)[0]);
        assert(d[0] != '0');
    }
    assert forall|m: int| 0 <= m < d.len() implies #[trigger] d[m] != '.' by {
        assert('0' <= d[m] <= '9');
    }
}

/// The value of a hexadecimal digit (either case), or -1 for another character.
pub open spec fn hex_digit_value(c: char) -> int {
    if '0' <= c <= '9' {
        c as int - 0x30
    } else if 'a' <= c <= 'f' {
        c as int - 0x61 + 10
    } else if 'A' <= c <= 'F' {
        c as int - 0x41 + 10
    } else {
        -1
    }
}

/// The value of the hexadecimal digits `p`.
pub open spec fn hex_value(p: Seq<char>) -> nat
    decreases p.len(),
{
    if p.len() == 0 {
        0
    } else {
        (hex_value(p.drop_last()) * 16 + hex_digit_value(p.last())) as nat
    }
}

/// Whether `p` is a group of an IPv6 address: one to four hexadecimal digits.
pub open spec fn hex_group_text(p: Seq<char>) -> bool {
    1 <= p.len() <= 4 && forall|i: int| 0 <= i < p.len() ==> #[trigger] hex_digit_value(p[i]) >= 0
}

/// The groups that the pieces `ps` stand for, where each is a hexadecimal group.
pub open spec fn hex_groups(ps: Seq<Seq<char>>) -> Option<Seq<u16>> {
    if forall|i: int| 0 <= i < ps.len() ==> #[trigger] hex_group_text(ps[i]) {
        Some(ps.map_values(|p: Seq<char>| hex_value(p) as u16))
    } else {
        None
    }
}

/// The two groups that an IPv4 address stands for inside an IPv6 address.
pub open spec fn v4_groups(a: Seq<u8>) -> Seq<u16> {
    seq![(a[0] * 256 + a[1]) as u16, (a[2] * 256 + a[3]) as u16]
}

/// The groups that the pieces `ps` stand for: hexadecimal groups, where the last piece may
/// instead be an IPv4 address, which stands for two groups.
pub open spec fn run_groups(ps: Seq<Seq<char>>) -> Option<Seq<u16>> {
    if ps.len() > 0 && ipv4_parse(ps.last()) is Some && hex_groups(ps.drop_last()) is Some {
        Some(hex_groups(ps.drop_last()).unwrap() + v4_groups(ipv4_parse(ps.last()).unwrap()))
    } else {
        hex_groups(ps)
    }
}

/// The groups of the text on one side of `::`: none for an empty text.
pub open spec fn side_groups(s: Seq<char>, last_v4: bool) -> Option<Seq<u16>> {
    if s.len() == 0 {
        Some(Seq::empty())
    } else if last_v4 {
        run_groups(pieces(s, ':'))
    } else {
        hex_groups(pieces(s, ':'))
    }
}

/// The eight groups of the IPv6 address that the text `s` stands for. Without `::`, the text
/// is eight groups separated by colons, where an IPv4 address may stand for the last two. With
/// `::` (its first occurrence), the groups before it (hexadecimal only) and after it (where the
/// last may be an IPv4 address) are at most seven, and `::` stands for zero groups enough to
/// make eight. Nothing for any other text.
pub open spec fn ipv6_parse(s: Seq<char>) -> Option<Seq<u16>> {
    let k = find_from(s, seq![':', ':'], 0);
    if k < 0 {
        match run_groups(pieces(s, ':')) {
            Some(g) => if g.len() == 8 { Some(g) } else { None },
            None => None,
        }
    } else {
        match (side_groups(s.take(k), false), side_groups(s.skip(k + 2), true)) {
            (Some(h), Some(t)) => if h.len() + t.len() <= 7 {
                Some(h + Seq::new((8 - h.len() - t.len()) as nat, |i: int| 0u16) + t)
            } else {
                None
            },
            _ => None,
        }
    }
}

/// The sixteen octets of an IPv6 address with the groups `g`, each group high octet first.
pub open spec fn groups_octets(g: Seq<u16>) -> Seq<u8> {
    Seq::new(16, |i: int| if i % 2 == 0 { (g[i / 2] / 256) as u8 } else { (g[i / 2] % 256) as u8 })
}

/// The eight groups of an IPv6 address with the octets `o`.
pub open spec fn octets_groups(o: Seq<u8>) -> Seq<u16> {
    Seq::new(8, |i: int| (o[2 * i] * 256 + o[2 * i + 1]) as u16)
}

fn read_hex_group(p: &str) -> (r: Option<u16>)
    ensures
        r is Some <==> hex_group_text(p@),
        r matches Some(v) ==> v == hex_value(p@),
{
    let n = p.unicode_len();
    if n == 0 || n > 4 {
        return None;
    }
    let mut v: u32 = 0;
    let mut i: usize = 0;
    while i < n
        invariant
            n == p@.len(),
            1 <= n <= 4,
            i <= n,
            forall|j: int| 0 <= j < i ==> #[trigger] hex_digit_value(p@[j]) >= 0,
            v == hex_value(p@.take(i as int)),
            v < (if i == 0 { 1int } else if i == 1 { 16 } else if i == 2 { 256 } else if i == 3 { 4096 } else { 65536 }),
        decreases n - i,
    {
        let c = p.get_char(i);
        let d: u32 = if '0' <= c && c <= '9' {
            c as u32 - 0x30
        } else if 'a' <= c && c <= 'f' {
            c as u32 - 0x61 + 10
        } else if 'A' <= c && c <= 'F' {
            c as u32 - 0x41 + 10
        } else {
            proof {
                assert(hex_digit_value(p@[i as int]) < 0);
            }
            return None;
        };
        let ghost t = p@.take(i + 1);
        proof {
            assert(t.drop_last() =~= p@.take(i as int));
            assert(t.last() == c);
        }
        v = v * 16 + d;
        i += 1;
    }
    proof {
        assert(p@.take(n as int) =~= p@);
    }
    Some(v as u16)
}

/// Reads the first `n` pieces as hexadecimal groups.
fn read_hex_pieces(ps: &Vec<&str>, n: usize) -> (r: Option<Vec<u16>>)
    requires
        n <= ps@.len(),
    ensures
        match hex_groups(texts(ps@).take(n as int)) {
            Some(g) => r matches Some(v) && v@ == g,
            None => r is None,
        },
{
    let ghost q = texts(ps@).take(n as int);
    let mut out: Vec<u16> = Vec::new();
    let mut i: usize = 0;
    while i < n
        invariant
            n <= ps@.len(),
            q == texts(ps@).take(n as int),
            i <= n,
            out@.len() == i,
            forall|j: int| 0 <= j < i ==> #[trigger] hex_group_text(q[j]),
            forall|j: int| 0 <= j < i ==> out@[j] == hex_value(#[trigger] q[j]) as u16,
        decreases n - i,
    {
        proof {
            assert(q[i as int] == ps@[i as int]@);
        }
        match read_hex_group(ps[i]) {
            Some(v) => out.push(v),
            None => return None,
        }
        i += 1;
    }
    proof {
        assert(out@ =~= q.map_values(|p: Seq<char>| hex_value(p) as u16));
    }
    Some(out)
}

/// Reads the groups of the pieces of `t` cut at each colon, where the last piece may be an
/// IPv4 address.
fn read_run(t: &str) -> (r: Option<Vec<u16>>)
    ensures
        match run_groups(pieces(t@, ':')) {
            Some(g) => r matches Some(v) && v@ == g,
            None => r is None,
        },
{
    let ps = split_char(t, ':');
    let n = ps.len();
    let ghost q = pieces(t@, ':');
    proof {
        assert(texts(ps@).take(n as int) =~= q);
        assert(texts(ps@).take(n - 1) =~= q.drop_last());
        assert(q.last() == ps@[n - 1]@);
    }
    match parse_ipv4(ps[n - 1]) {
        Some(a) => match read_hex_pieces(&ps, n - 1) {
            Some(v) => {
                let mut v = v;
                let ghost h = v@;
                v.push(((a[0] as u32) * 256 + a[1] as u32) as u16);
                v.push(((a[2] as u32) * 256 + a[3] as u32) as u16);
                proof {
                    assert(v@ =~= h + v4_groups(a@));
                }
                Some(v)
            }
            None => {
                proof {
                    assert(!hex_group_text(q[n - 1]) || !(forall|i: int| 0 <= i < q.len() ==> #[trigger] hex_group_text(q[i]))) by {
                        let d = q.drop_last();
                        if forall|i: int| 0 <= i < q.len() ==> #[trigger] hex_group_text(q[i]) {
                            assert forall|i: int| 0 <= i < d.len() implies #[trigger] hex_group_text(d[i]) by {
                                assert(d[i] == q[i]);
                            }
                        }
                    }
                }
                None
            }
        },
        None => read_hex_pieces(&ps, n),
    }
}

fn groups_to_octets(g: &Vec<u16>) -> (r: [u8; 16])
    requires
        g@.len() == 8,
    ensures
        r@ == groups_octets(g@),
{
    let r = [
        (g[0] / 256) as u8, (g[0] % 256) as u8, (g[1] / 256) as u8, (g[1] % 256) as u8,
        (g[2] / 256) as u8, (g[2] % 256) as u8, (g[3] / 256) as u8, (g[3] % 256) as u8,
        (g[4] / 256) as u8, (g[4] % 256) as u8, (g[5] / 256) as u8, (g[5] % 256) as u8,
        (g[6] / 256) as u8, (g[6] % 256) as u8, (g[7] / 256) as u8, (g[7] % 256) as u8,
    ];
    proof {
        assert(r@ =~= groups_octets(g@));
    }
    r
}

/// Reads an IPv6 address from its text (see `ipv6_parse`) into its sixteen octets.
pub fn parse_ipv6(s: &str) -> (r: Option<[u8; 16]>)
    ensures
        match ipv6_parse(s@) {
            Some(g) => r matches Some(x) && x@ == groups_octets(g),
            None => r is None,
        },
{
    let sep = "::";
    proof {
        reveal_strlit("::");
        assert(sep@ =~= seq![':', ':']);
    }
    match find_str(s, sep) {
        None => match read_run(s) {
            Some(g) => {
                if g.len() != 8 {
                    return None;
                }
                Some(groups_to_octets(&g))
            }
            None => None,
        },
        Some(k) => {
            let n = s.unicode_len();
            let head = s.substring_char(0, k);
            let tail = s.substring_char(k + 2, n);
            proof {
                assert(head@ =~= s@.take(k as int));
                assert(tail@ =~= s@.skip(k + 2));
            }
            let h = if head.unicode_len() == 0 {
                Vec::new()
            } else {
                let ps = split_char(head, ':');
                proof {
                    assert(texts(ps@).take(ps@.len() as int) =~= pieces(head@, ':'));
                }
                match read_hex_pieces(&ps, ps.len()) {
                    Some(v) => v,
                    None => return None,
                }
            };
            let t = if tail.unicode_len() == 0 {
                Vec::new()
            } else {
                match read_run(tail) {
                    Some(v) => v,
                    None => return None,
                }
            };
            if h.len() > 7 || t.len() > 7 - h.len() {
                return None;
            }
            let h_len: usize = h.len();
            let mut g = h;
            let ghost hv = g@;
            let z: usize = 8 - h_len - t.len();
            let mut j: usize = 0;
            while j < z
                invariant
                    j <= z,
                    g@ == hv + Seq::new(j as nat, |i: int| 0u16),
                decreases z - j,
            {
                g.push(0);
                proof {
                    assert(g@ =~= hv + Seq::new((j + 1) as nat, |i: int| 0u16));
                }
                j += 1;
            }
            let mut m: usize = 0;
            let ghost gz = g@;
            while m < t.len()
                invariant
                    m <= t@.len(),
                    g@ == gz + t@.take(m as int),
                decreases t@.len() - m,
            {
                g.push(t[m]);
                proof {
                    assert(g@ =~= gz + t@.take(m + 1));
                }
                m += 1;
            }
            proof {
                assert(t@.take(t@.len() as int) =~= t@);
                assert(g@ =~= hv + Seq::new((8 - hv.len() - t@.len()) as nat, |i: int| 0u16) + t@);
            }
            Some(groups_to_octets(&g))
        }
    }
}

/// The lowercase hexadecimal digit for `d` below 16.
pub open spec fn hex_digit_char(d: nat) -> char {
    if d < 10 { crate::text::digit_char(d) }
    else if d == 10 { 'a' }
    else if d == 11 { 'b' }
    else if d == 12 { 'c' }
    else if d == 13 { 'd' }
    else if d == 14 { 'e' }
    else { 'f' }
}

/// The lowercase hexadecimal text of `n`, without leading zeros.
pub open spec fn hex_text(n: nat) -> Seq<char>
    decreases n,
{
    if n < 16 {
        seq![hex_digit_char(n)]
    } else {
        hex_text(n / 16).push(hex_digit_char(n % 16))
    }
}

/// The hexadecimal texts of the groups `g`, separated by colons.
pub open spec fn hex_join(g: Seq<u16>) -> Seq<char>
    decreases g.len(),
{
    if g.len() == 0 {
        Seq::empty()
    } else if g.len() == 1 {
        hex_text(g[0] as nat)
    } else {
        hex_join(g.drop_last()) + seq![':'] + hex_text(g.last() as nat)
    }
}

/// The number of zero groups in a row from `i` on.
pub open spec fn zero_run(g: Seq<u16>, i: int) -> nat
    decreases g.len() - i,
{
    if 0 <= i < g.len() && g[i] == 0 { 1 + zero_run(g, i + 1) } else { 0 }
}

/// The first longest run of zero groups from `i` on: where it starts and how long it is; a
/// length of 0 when there is no zero group.
pub open spec fn longest_zero_run(g: Seq<u16>, i: int) -> (int, nat)
    decreases g.len() - i,
{
    if i < 0 || i >= g.len() {
        (0, 0)
    } else {
        let r = zero_run(g, i);
        let (s, l) = longest_zero_run(g, i + 1);
        if r > 0 && r >= l { (i, r) } else { (s, l) }
    }
}

/// The text of an IPv6 address with the eight groups `g`: an address that maps an IPv4
/// address is `::ffff:` and that address; otherwise the groups in lowercase hexadecimal,
/// separated by colons, where the first longest run of two or more zero groups is written as
/// `::`.
pub open spec fn ipv6_text(g: Seq<u16>) -> Seq<char> {
    if g[0] == 0 && g[1] == 0 && g[2] == 0 && g[3] == 0 && g[4] == 0 && g[5] == 0xffff {
        seq![':', ':', 'f', 'f', 'f', 'f', ':'] + ipv4_text(
            seq![(g[6] / 256) as u8, (g[6] % 256) as u8, (g[7] / 256) as u8, (g[7] % 256) as u8])
    } else {
        let (st, ln) = longest_zero_run(g, 0);
        if ln > 1 {
            hex_join(g.take(st)) + seq![':', ':'] + hex_join(g.skip(st + ln))
        } else {
            hex_join(g)
        }
    }
}

fn hex_digit(d: u32) -> (c: char)
    requires
        d < 16,
    ensures
        c == hex_digit_char(d as nat),
{
    if d == 0 { '0' }
    else if d == 1 { '1' }
    else if d == 2 { '2' }
    else if d == 3 { '3' }
    else if d == 4 { '4' }
    else if d == 5 { '5' }
    else if d == 6 { '6' }
    else if d == 7 { '7' }
    else if d == 8 { '8' }
    else if d == 9 { '9' }
    else if d == 10 { 'a' }
    else if d == 11 { 'b' }
    else if d == 12 { 'c' }
    else if d == 13 { 'd' }
    else if d == 14 { 'e' }
    else { 'f' }
}

fn push_hex(out: &mut String, v: u32)
    ensures
        final(out)@ == old(out)@ + hex_text(v as nat),
    decreases v,
{
    if v >= 16 {
        push_hex(out, v / 16);
    }
    push_char(out, hex_digit(v % 16));
    assert(final(out)@ =~= old(out)@ + hex_text(v as nat));
}

fn push_hex_join(out: &mut String, g: &Vec<u16>, from: usize, to: usize)
    requires
        from <= to <= g@.len(),
    ensures
        final(out)@ == old(out)@ + hex_join(g@.subrange(from as int, to as int)),
{
    let ghost start = out@;
    let mut i: usize = from;
    while i < to
        invariant
            from <= i <= to <= g@.len(),
            out@ == start + hex_join(g@.subrange(from as int, i as int)),
        decreases to - i,
    {
        let ghost before = out@;
        let ghost part = g@.subrange(from as int, i + 1);
        if i > from {
            push_char(out, ':');
        }
        push_hex(out, g[i] as u32);
        proof {
            assert(part.drop_last() =~= g@.subrange(from as int, i as int));
            if i == from {
                assert(g@.subrange(from as int, i as int) =~= Seq::<u16>::empty());
                assert(out@ =~= start + hex_join(part));
            } else {
                assert(out@ =~= start + hex_join(part));
            }
        }
        i += 1;
    }
}

fn zero_run_at(g: &Vec<u16>, i: usize) -> (r: usize)
    requires
        i <= g@.len(),
        g@.len() == 8,
    ensures
        r == zero_run(g@, i as int),
        i + r <= 8,
    decreases 8 - i,
{
    if i < 8 && g[i] == 0 {
        1 + zero_run_at(g, i + 1)
    } else {
        0
    }
}

/// Appends the text of an IPv6 address with the octets `a` (see `ipv6_text`).
pub fn push_ipv6(out: &mut String, a: &[u8; 16])
    ensures
        final(out)@ == old(out)@ + ipv6_text(octets_groups(a@)),
{
    let mut g: Vec<u16> = Vec::new();
    let mut i: usize = 0;
    while i < 8
        invariant
            i <= 8,
            g@ == octets_groups(a@).take(i as int),
        decreases 8 - i,
    {
        g.push((a[2 * i] as u16) * 256 + a[2 * i + 1] as u16);
        proof {
            assert(g@ =~= octets_groups(a@).take(i + 1));
        }
        i += 1;
    }
    proof {
        assert(g@ =~= octets_groups(a@));
    }
    if g[0] == 0 && g[1] == 0 && g[2] == 0 && g[3] == 0 && g[4] == 0 && g[5] == 0xffff {
        out.append("::ffff:");
        let v4 = [(g[6] / 256) as u8, (g[6] % 256) as u8, (g[7] / 256) as u8, (g[7] % 256) as u8];
        let ghost mid = out@;
        push_ipv4(out, &v4);
        proof {
            reveal_strlit("::ffff:");
            assert(v4@ =~= seq![(g@[6] / 256) as u8, (g@[6] % 256) as u8, (g@[7] / 256) as u8, (g@[7] % 256) as u8]);
            assert(final(out)@ =~= old(out)@ + ipv6_text(octets_groups(a@)));
        }
        return;
    }
    let mut best_start: usize = 0;
    let mut best_len: usize = 0;
    let mut k: usize = 8;
    while k > 0
        invariant
            k <= 8,
            g@.len() == 8,
            (best_start as int, best_len as nat) == longest_zero_run(g@, k as int),
            best_start + best_len <= 8,
        decreases k,
    {
        k -= 1;
        let r = zero_run_at(&g, k);
        if r > 0 && r >= best_len {
            best_start = k;
            best_len = r;
        }
    }
    if best_len > 1 {
        push_hex_join(out, &g, 0, best_start);
        out.append("::");
        push_hex_join(out, &g, best_start + best_len, 8);
        proof {
            reveal_strlit("::");
            assert(g@.subrange(0, best_start as int) =~= g@.take(best_start as int));
            assert(g@.subrange(best_start + best_len, 8) =~= g@.skip(best_start + best_len));
            assert(final(out)@ =~= old(out)@ + ipv6_text(octets_groups(a@)));
        }
    } else {
        push_hex_join(out, &g, 0, 8);
        proof {
            assert(g@.subrange(0, 8) =~= g@);
        }
    }
}

proof fn lemma_hex_digit_char(d: nat)
    requires
        d < 16,
    ensures
        hex_digit_value(hex_digit_char(d)) == d,
        hex_digit_char(d) != ':',
        hex_digit_char(d) != '.',
{
}

proof fn lemma_hex_text(n: nat)
    ensures
        hex_text(n).len() > 0,
        forall|m: int| 0 <= m < hex_text(n).len() ==> hex_digit_value(#[trigger] hex_text(n)[m]) >= 0
            && hex_text(n)[m] != ':' && hex_text(n)[m] != '.',
        hex_value(hex_text(n)) == n,
        n < 16 ==> hex_text(n).len() == 1,
        n < 256 ==> hex_text(n).len() <= 2,
        n < 4096 ==> hex_text(n).len() <= 3,
        n < 65536 ==> hex_text(n).len() <= 4,
    decreases n,
{
    let h = hex_text(n);
    lemma_hex_digit_char(n % 16);
    if n >= 16 {
        lemma_hex_text(n / 16);
        assert(h.drop_last() =~= hex_text(n / 16));
        assert(h.last() == hex_digit_char(n % 16));
        assert(n == (n / 16) * 16 + n % 16);
        assert(hex_value(h.drop_last()) == n / 16);
        assert forall|m: int| 0 <= m < h.len() implies hex_digit_value(#[trigger] h[m]) >= 0 && h[m] != ':' && h[m] != '.' by {
            if m < h.len() - 1 {
                assert(h[m] == hex_text(n / 16)[m]);
            }
        }
    } else {
        assert(h.drop_last() =~= Seq::<char>::empty());
        assert(hex_value(h.drop_last()) == 0);
        assert(h.last() == hex_digit_char(n));
    }
}

proof fn lemma_hex_join_cons(g: Seq<u16>)
    requires
        g.len() >= 2,
    ensures
        hex_join(g) == hex_text(g[0] as nat) + seq![':'] + hex_join(g.skip(1)),
    decreases g.len(),
{
    let d = g.drop_last();
    let k = g.skip(1);
    assert(hex_join(g) == hex_join(d) + seq![':'] + hex_text(g.last() as nat));
    if g.len() == 2 {
        assert(d =~= seq![g[0]]);
        assert(k =~= seq![g[1]]);
        assert(hex_join(d) == hex_text(g[0] as nat));
        assert(hex_join(k) == hex_text(g[1] as nat));
    } else {
        lemma_hex_join_cons(d);
        assert(d.skip(1) =~= k.drop_last());
        assert(k.last() == g.last());
        assert(hex_join(k) == hex_join(k.drop_last()) + seq![':'] + hex_text(k.last() as nat));
        assert(hex_join(g) =~= hex_text(g[0] as nat) + seq![':'] + hex_join(k));
    }
}

/// The pieces of joined groups are the groups' texts.
proof fn lemma_hex_join_pieces(g: Seq<u16>)
    requires
        g.len() >= 1,
    ensures
        pieces(hex_join(g), ':') == g.map_values(|v: u16| hex_text(v as nat)),
    decreases g.len(),
{
    lemma_hex_text(g[0] as nat);
    let a = hex_text(g[0] as nat);
    assert forall|m: int| 0 <= m < a.len() implies #[trigger] a[m] != ':' by {}
    if g.len() == 1 {
        lemma_pieces_single(a, ':');
        assert(g.map_values(|v: u16| hex_text(v as nat)) =~= seq![a]);
    } else {
        lemma_hex_join_cons(g);
        lemma_pieces_cons(a, ':', hex_join(g.skip(1)));
        lemma_hex_join_pieces(g.skip(1));
        assert(g.map_values(|v: u16| hex_text(v as nat)) =~= seq![a]
            + g.skip(1).map_values(|v: u16| hex_text(v as nat)));
    }
}

/// Joined groups hold no two colons in a row, and neither begin nor end with a colon.
proof fn lemma_hex_join_colons(g: Seq<u16>)
    ensures
        forall|m: int| 0 <= m < hex_join(g).len() - 1 ==> !(#[trigger] hex_join(g)[m] == ':' && hex_join(g)[m + 1] == ':'),
        hex_join(g).len() > 0 ==> hex_join(g)[0] != ':' && hex_join(g).last() != ':',
        g.len() > 0 ==> hex_join(g).len() > 0,
    decreases g.len(),
{
    if g.len() == 1 {
        lemma_hex_text(g[0] as nat);
        assert(hex_join(g) == hex_text(g[0] as nat));
    } else if g.len() >= 2 {
        let a = hex_join(g.drop_last());
        let b = hex_text(g.last() as nat);
        lemma_hex_join_colons(g.drop_last());
        lemma_hex_text(g.last() as nat);
        let j = hex_join(g);
        assert(j =~= a + seq![':'] + b);
        assert(a.len() > 0);
        assert forall|m: int| 0 <= m < j.len() - 1 implies !(#[trigger] j[m] == ':' && j[m + 1] == ':') by {
            if m < a.len() - 1 {
                assert(j[m] == a[m] && j[m + 1] == a[m + 1]);
            } else if m == a.len() - 1 {
                assert(j[m] == a.last());
            } else if m == a.len() {
                assert(j[m + 1] == b[0]);
            } else {
                assert(j[m] == b[m - a.len() - 1]);
            }
        }
        assert(j[0] == a[0]);
        assert(j.last() == b[b.len() - 1]);
    } else {
        assert(hex_join(g) == Seq::<char>::empty());
    }
}

/// Joined groups read back as the groups, none of them read as an IPv4 address.
proof fn lemma_hex_join_groups(g: Seq<u16>)
    requires
        g.len() >= 1,
    ensures
        run_groups(pieces(hex_join(g), ':')) == Some(g),
        hex_groups(pieces(hex_join(g), ':')) == Some(g),
{
    let ps = pieces(hex_join(g), ':');
    lemma_hex_join_pieces(g);
    assert forall|i: int| 0 <= i < ps.len() implies #[trigger] hex_group_text(ps[i]) by {
        assert(ps[i] == hex_text(g[i] as nat));
        lemma_hex_text(g[i] as nat);
    }
    assert forall|i: int| 0 <= i < ps.len() implies #[trigger] hex_value(ps[i]) as u16 == g[i] by {
        assert(ps[i] == hex_text(g[i] as nat));
        lemma_hex_text(g[i] as nat);
    }
    assert(ps.map_values(|p: Seq<char>| hex_value(p) as u16) =~= g);
    let l = hex_text(g.last() as nat);
    lemma_hex_text(g.last() as nat);
    assert(ps.last() == l);
    assert forall|m: int| 0 <= m < l.len() implies #[trigger] l[m] != '.' by {}
    lemma_pieces_single(l, '.');
}

proof fn lemma_zero_run(g: Seq<u16>, i: int)
    requires
        0 <= i,
    ensures
        i + zero_run(g, i) <= g.len() || zero_run(g, i) == 0,
        forall|j: int| i <= j < i + zero_run(g, i) ==> g[j] == 0,
    decreases g.len() - i,
{
    if 0 <= i < g.len() && g[i] == 0 {
        lemma_zero_run(g, i + 1);
    }
}

proof fn lemma_longest_zero_run(g: Seq<u16>, i: int)
    requires
        0 <= i,
    ensures
        longest_zero_run(g, i).1 > 0 ==> (i <= longest_zero_run(g, i).0 < g.len()
            && zero_run(g, longest_zero_run(g, i).0) == longest_zero_run(g, i).1),
    decreases g.len() - i,
{
    if i < g.len() {
        lemma_longest_zero_run(g, i + 1);
    }
}

proof fn lemma_ipv4_text_plain(a: Seq<u8>)
    requires
        a.len() == 4,
    ensures
        forall|m: int| 0 <= m < ipv4_text(a).len() ==> #[trigger] ipv4_text(a)[m] != ':',
{
    let v4 = ipv4_text(a);
    let d0 = decimal(a[0] as nat);
    let d1 = decimal(a[1] as nat);
    let d2 = decimal(a[2] as nat);
    let d3 = decimal(a[3] as nat);
    lemma_decimal_digits(a[0] as nat);
    lemma_decimal_digits(a[1] as nat);
    lemma_decimal_digits(a[2] as nat);
    lemma_decimal_digits(a[3] as nat);
    assert forall|m: int| 0 <= m < v4.len() implies #[trigger] v4[m] != ':' by {
        if m < d0.len() {
            assert(v4[m] == d0[m]);
        } else if m == d0.len() {
        } else if m < d0.len() + 1 + d1.len() {
            assert(v4[m] == d1[m - d0.len() - 1]);
        } else if m == d0.len() + 1 + d1.len() {
        } else if m < d0.len() + 2 + d1.len() + d2.len() {
            assert(v4[m] == d2[m - d0.len() - 2 - d1.len()]);
        } else if m == d0.len() + 2 + d1.len() + d2.len() {
        } else {
            assert(v4[m] == d3[m - d0.len() - 3 - d1.len() - d2.len()]);
        }
    }
}

#[verifier::spinoff_prover]
proof fn lemma_ipv6_mapped_roundtrip(g: Seq<u16>)
    requires
        g.len() == 8,
        g[0] == 0 && g[1] == 0 && g[2] == 0 && g[3] == 0 && g[4] == 0 && g[5] == 0xffff,
    ensures
        ipv6_parse(ipv6_text(g)) == Some(g),
{
    let cc = seq![':', ':'];
    let s = ipv6_text(g);
    let a = seq![(g[6] / 256) as u8, (g[6] % 256) as u8, (g[7] / 256) as u8, (g[7] % 256) as u8];
    let v4 = ipv4_text(a);
    let ffff = seq!['f', 'f', 'f', 'f'];
    assert(s =~= cc + (ffff + seq![':'] + v4));
    assert(occurs_at(s, cc, 0)) by {
        assert(s.subrange(0, 2) =~= cc);
    }
    assert(find_from(s, cc, 0) == 0);
    assert(s.take(0) =~= Seq::<char>::empty());
    let tail = s.skip(2);
    assert(tail =~= ffff + seq![':'] + v4);
    lemma_ipv4_roundtrip(a);
    lemma_ipv4_text_plain(a);
    lemma_pieces_cons(ffff, ':', v4);
    lemma_pieces_single(v4, ':');
    let ps = pieces(tail, ':');
    assert(ps =~= seq![ffff, v4]);
    assert(ps.drop_last() =~= seq![ffff]);
    let f1 = seq!['f'];
    let f2 = seq!['f', 'f'];
    let f3 = seq!['f', 'f', 'f'];
    assert(f1.drop_last() =~= Seq::<char>::empty());
    assert(hex_value(f1.drop_last()) == 0);
    assert(f1.last() == 'f');
    assert(hex_digit_value('f') == 15);
    assert(hex_value(f1) == 15);
    assert(f2.drop_last() =~= f1);
    assert(hex_value(f2) == 255);
    assert(f3.drop_last() =~= f2);
    assert(hex_value(f3) == 4095);
    assert(ffff.drop_last() =~= f3);
    assert(hex_value(ffff) == 65535);
    assert(hex_group_text(ffff));
    assert(seq![ffff].map_values(|p: Seq<char>| hex_value(p) as u16) =~= seq![0xffffu16]);
    assert(hex_groups(seq![ffff]) == Some(seq![0xffffu16]));
    let t = seq![0xffffu16] + v4_groups(a);
    assert(run_groups(ps) == Some(t));
    assert(v4_groups(a) =~= seq![g[6], g[7]]);
    assert(ipv6_parse(s).unwrap() =~= g);
}

#[verifier::spinoff_prover]
proof fn lemma_ipv6_compressed_roundtrip(g: Seq<u16>)
    requires
        g.len() == 8,
        !(g[0] == 0 && g[1] == 0 && g[2] == 0 && g[3] == 0 && g[4] == 0 && g[5] == 0xffff),
        longest_zero_run(g, 0).1 > 1,
    ensures
        ipv6_parse(ipv6_text(g)) == Some(g),
{
    let cc = seq![':', ':'];
    let s = ipv6_text(g);
    let (st, ln) = longest_zero_run(g, 0);
    lemma_longest_zero_run(g, 0);
    lemma_zero_run(g, st);
    let h = g.take(st);
    let tl = g.skip(st + ln);
    let j1 = hex_join(h);
    let j2 = hex_join(tl);
    lemma_hex_join_colons(h);
    assert(s =~= j1 + cc + j2);
    assert forall|p: int| 0 <= p < j1.len() implies !#[trigger] occurs_at(s, cc, p) by {
        if occurs_at(s, cc, p) {
            assert(s.subrange(p, p + 2) == cc);
            assert(s[p] == ':' && s[p + 1] == ':');
            if p < j1.len() - 1 {
                assert(s[p] == j1[p] && s[p + 1] == j1[p + 1]);
            } else {
                assert(s[p] == j1.last());
            }
        }
    }
    assert(occurs_at(s, cc, j1.len() as int)) by {
        assert(s.subrange(j1.len() as int, j1.len() as int + 2) =~= cc);
    }
    lemma_find_from(s, cc, 0, j1.len() as int);
    assert(find_from(s, cc, 0) == j1.len());
    assert(s.take(j1.len() as int) =~= j1);
    assert(s.skip(j1.len() as int + 2) =~= j2);
    if st > 0 {
        lemma_hex_join_groups(h);
    } else {
        assert(h =~= Seq::<u16>::empty());
    }
    assert(side_groups(j1, false) == Some(h));
    if st + ln < 8 {
        lemma_hex_join_groups(tl);
        lemma_hex_join_colons(tl);
    } else {
        assert(tl =~= Seq::<u16>::empty());
    }
    assert(side_groups(j2, true) == Some(tl));
    assert(ipv6_parse(s).unwrap() =~= g);
}

#[verifier::spinoff_prover]
proof fn lemma_ipv6_plain_roundtrip(g: Seq<u16>)
    requires
        g.len() == 8,
        !(g[0] == 0 && g[1] == 0 && g[2] == 0 && g[3] == 0 && g[4] == 0 && g[5] == 0xffff),
        longest_zero_run(g, 0).1 <= 1,
    ensures
        ipv6_parse(ipv6_text(g)) == Some(g),
{
    let cc = seq![':', ':'];
    let s = ipv6_text(g);
    lemma_hex_join_groups(g);
    lemma_hex_join_colons(g);
    assert(s == hex_join(g));
    let n = s.len() as int;
    assert forall|p: int| 0 <= p < n - 1 implies !#[trigger] occurs_at(s, cc, p) by {
        if occurs_at(s, cc, p) {
            assert(s.subrange(p, p + 2) == cc);
            assert(s[p] == ':' && s[p + 1] == ':');
        }
    }
    lemma_find_from(s, cc, 0, n - 1);
    assert(find_from(s, cc, 0) == -1);
}

/// Reading the text of an IPv6 address gives the address.
pub proof fn lemma_ipv6_roundtrip(g: Seq<u16>)
    requires
        g.len() == 8,
    ensures
        ipv6_parse(ipv6_text(g)) == Some(g),
{
    if g[0] == 0 && g[1] == 0 && g[2] == 0 && g[3] == 0 && g[4] == 0 && g[5] == 0xffff {
        lemma_ipv6_mapped_roundtrip(g);
    } else if longest_zero_run(g, 0).1 > 1 {
        lemma_ipv6_compressed_roundtrip(g);
    } else {
        lemma_ipv6_plain_roundtrip(g);
    }
}

/// An IP address: IPv4 with four octets, or IPv6 with sixteen.
#[derive(Copy, Clone, Debug, PartialEq, Eq)]
pub enum IpAddr {
    V4([u8; 4]),
    V6([u8; 16]),
}

/// Whether `r` is what reading an IP address from the text `s` gives: an IPv4 address where
/// the text is one, else an IPv6 address where it is one, else nothing.
pub open spec fn ip_read(s: Seq<char>, r: Option<IpAddr>) -> bool {
    match ipv4_parse(s) {
        Some(a) => r matches Some(IpAddr::V4(x)) && x@ == a,
        None => match ipv6_parse(s) {
            Some(g) => r matches Some(IpAddr::V6(x)) && x@ == groups_octets(g),
            None => r is None,
        },
    }
}

/// Whether the text `t` reads as an IP address.
pub open spec fn ip_readable(t: Seq<char>) -> bool {
    ipv4_parse(t) is Some || ipv6_parse(t) is Some
}

/// The text of an IP address.
pub open spec fn ip_text(a: IpAddr) -> Seq<char> {
    match a {
        IpAddr::V4(x) => ipv4_text(x@),
        IpAddr::V6(x) => ipv6_text(octets_groups(x@)),
    }
}

/// Reads an IP address from its text: IPv4 where the text is one, else IPv6.
pub fn parse_ip(s: &str) -> (r: Option<IpAddr>)
    ensures
        ip_read(s@, r),
        r is Some <==> ip_readable(s@),
{
    match parse_ipv4(s) {
        Some(a) => Some(IpAddr::V4(a)),
        None => match parse_ipv6(s) {
            Some(a) => Some(IpAddr::V6(a)),
            None => None,
        },
    }
}

/// Appends the text of an IP address.
pub fn push_ip(out: &mut String, a: &IpAddr)
    ensures
        final(out)@ == old(out)@ + ip_text(*a),
{
    match a {
        IpAddr::V4(x) => push_ipv4(out, x),
        IpAddr::V6(x) => push_ipv6(out, x),
    }
}

proof fn lemma_pieces_from_digits(s: Seq<char>, c: char, start: int, i: int)
    requires
        0 <= start <= i <= s.len(),
        forall|k: int| 0 <= k < pieces_from(s, c, start, i).len()
            ==> #[trigger] all_digits(pieces_from(s, c, start, i)[k]),
    ensures
        forall|m: int| start <= m < s.len() ==> #[trigger] s[m] == c || '0' <= s[m] <= '9',
    decreases s.len() - i,
{
    let ps = pieces_from(s, c, start, i);
    if i >= s.len() {
        assert(all_digits(ps[0]));
        assert forall|m: int| start <= m < s.len() implies #[trigger] s[m] == c || '0' <= s[m] <= '9' by {
            assert(ps[0][m - start] == s[m]);
        }
    } else if s[i] == c {
        let rest = pieces_from(s, c, i + 1, i + 1);
        assert(ps == seq![s.subrange(start, i)] + rest);
        assert(all_digits(ps[0]));
        assert forall|k: int| 0 <= k < rest.len() implies #[trigger] all_digits(rest[k]) by {
            assert(rest[k] == ps[k + 1]);
        }
        lemma_pieces_from_digits(s, c, i + 1, i + 1);
        assert forall|m: int| start <= m < s.len() implies #[trigger] s[m] == c || '0' <= s[m] <= '9' by {
            if m < i {
                assert(ps[0][m - start] == s[m]);
            }
        }
    } else {
        lemma_pieces_from_digits(s, c, start, i + 1);
    }
}

/// The text of an IPv4 address holds only digits and dots.
proof fn lemma_ipv4_chars(s: Seq<char>)
    requires
        ipv4_parse(s) is Some,
    ensures
        forall|m: int| 0 <= m < s.len() ==> #[trigger] s[m] == '.' || '0' <= s[m] <= '9',
{
    let ps = pieces(s, '.');
    assert forall|k: int| 0 <= k < ps.len() implies #[trigger] all_digits(ps[k]) by {
        assert(octet_text(ps[k]));
    }
    lemma_pieces_from_digits(s, '.', 0, 0);
}

/// The text of an IPv6 address holds a colon.
proof fn lemma_ipv6_text_colon(g: Seq<u16>)
    requires
        g.len() == 8,
    ensures
        exists|m: int| 0 <= m < ipv6_text(g).len() && #[trigger] ipv6_text(g)[m] == ':',
{
    let s = ipv6_text(g);
    if g[0] == 0 && g[1] == 0 && g[2] == 0 && g[3] == 0 && g[4] == 0 && g[5] == 0xffff {
        assert(s[0] == ':');
    } else {
        let (st, ln) = longest_zero_run(g, 0);
        if ln > 1 {
            let j1 = hex_join(g.take(st));
            assert(s[j1.len() as int] == ':');
        } else {
            let d = hex_join(g.drop_last());
            assert(s == d + seq![':'] + hex_text(g.last() as nat));
            assert(s[d.len() as int] == ':');
        }
    }
}

proof fn lemma_groups_octets(o: Seq<u8>)
    requires
        o.len() == 16,
    ensures
        groups_octets(octets_groups(o)) == o,
{
    let g = octets_groups(o);
    assert forall|i: int| 0 <= i < 16 implies #[trigger] groups_octets(g)[i] == o[i] by {
        let k = i / 2;
        assert(g[k] == o[2 * k] * 256 + o[2 * k + 1]);
        if i % 2 == 0 {
            assert(i == 2 * k);
        } else {
            assert(i == 2 * k + 1);
        }
    }
    assert(groups_octets(g) =~= o);
}

/// Reading the text of an IP address gives the address.
pub proof fn lemma_ip_roundtrip(a: IpAddr)
    ensures
        ip_read(ip_text(a), Some(a)),
{
    match a {
        IpAddr::V4(x) => {
            lemma_ipv4_roundtrip(x@);
        }
        IpAddr::V6(x) => {
            let g = octets_groups(x@);
            let s = ipv6_text(g);
            lemma_ipv6_roundtrip(g);
            lemma_groups_octets(x@);
            lemma_ipv6_text_colon(g);
            if ipv4_parse(s) is Some {
                lemma_ipv4_chars(s);
                let m = choose|m: int| 0 <= m < s.len() && #[trigger] s[m] == ':';
                assert(s[m] == '.' || '0' <= s[m] <= '9');
            }
        }
    }
}

proof fn lemma_hex_join_chars(g: Seq<u16>)
    ensures
        forall|m: int| 0 <= m < hex_join(g).len() ==> #[trigger] hex_join(g)[m] == ':'
            || hex_digit_value(hex_join(g)[m]) >= 0,
    decreases g.len(),
{
    if g.len() == 1 {
        lemma_hex_text(g[0] as nat);
        assert(hex_join(g) == hex_text(g[0] as nat));
    } else if g.len() >= 2 {
        let a = hex_join(g.drop_last());
        let b = hex_text(g.last() as nat);
        lemma_hex_join_chars(g.drop_last());
        lemma_hex_text(g.last() as nat);
        let j = hex_join(g);
        assert(j =~= a + seq![':'] + b);
        assert forall|m: int| 0 <= m < j.len() implies #[trigger] j[m] == ':' || hex_digit_value(j[m]) >= 0 by {
            if m < a.len() {
                assert(j[m] == a[m]);
            } else if m > a.len() {
                assert(j[m] == b[m - a.len() - 1]);
            }
        }
    } else {
        assert(hex_join(g) == Seq::<char>::empty());
    }
}

/// The text of an IP address is not empty and holds only hexadecimal digits, dots and colons.
pub proof fn lemma_ip_text_chars(a: IpAddr)
    ensures
        ip_text(a).len() > 0,
        forall|m: int| 0 <= m < ip_text(a).len() ==> #[trigger] ip_text(a)[m] == ':'
            || ip_text(a)[m] == '.' || hex_digit_value(ip_text(a)[m]) >= 0,
{
    match a {
        IpAddr::V4(x) => {
            lemma_ipv4_roundtrip(x@);
            lemma_ipv4_chars(ipv4_text(x@));
            lemma_decimal_digits(x@[0] as nat);
        }
        IpAddr::V6(x) => {
            let g = octets_groups(x@);
            let s = ipv6_text(g);
            lemma_ipv6_text_colon(g);
            if g[0] == 0 && g[1] == 0 && g[2] == 0 && g[3] == 0 && g[4] == 0 && g[5] == 0xffff {
                let v = seq![(g[6] / 256) as u8, (g[6] % 256) as u8, (g[7] / 256) as u8, (g[7] % 256) as u8];
                let v4 = ipv4_text(v);
                lemma_ipv4_roundtrip(v);
                lemma_ipv4_chars(v4);
                let p = seq![':', ':', 'f', 'f', 'f', 'f', ':'];
                assert(s == p + v4);
                assert forall|m: int| 0 <= m < s.len() implies #[trigger] s[m] == ':' || s[m] == '.' || hex_digit_value(s[m]) >= 0 by {
                    if m >= 7 {
                        assert(s[m] == v4[m - 7]);
                    }
                }
            } else {
                let (st, ln) = longest_zero_run(g, 0);
                if ln > 1 {
                    let j1 = hex_join(g.take(st));
                    let j2 = hex_join(g.skip(st + ln));
                    lemma_hex_join_chars(g.take(st));
                    lemma_hex_join_chars(g.skip(st + ln));
                    assert(s == j1 + seq![':', ':'] + j2);
                    assert forall|m: int| 0 <= m < s.len() implies #[trigger] s[m] == ':' || s[m] == '.' || hex_digit_value(s[m]) >= 0 by {
                        if m < j1.len() {
                            assert(s[m] == j1[m]);
                        } else if m >= j1.len() + 2 {
                            assert(s[m] == j2[m - j1.len() - 2]);
                        }
                    }
                } else {
                    lemma_hex_join_chars(g);
                }
            }
        }
    }
}

} // verus!
