//! IPv4 and IPv6 addresses and their textual forms, as written by
//! `std::net::IpAddr`'s `FromStr` and `Display`.

use vstd::prelude::*;

use crate::text::{
    digit_char, lemma_decimal_digits, lemma_split_concat, lemma_split_without_separator,
    all_digits, chars_of, decimal, digits_value, is_digit, parse_digits, push_char, push_str,
    split_chars, split_spec, u64_to_decimal,
};

verus! {

/// An IPv4 address (four octets) or an IPv6 address (eight 16-bit groups).
#[derive(Clone, Copy, Debug, PartialEq, Eq, Hash)]
pub enum IpAddress {
    /// An IPv4 address, most significant octet first.
    V4([u8; 4]),
    /// An IPv6 address, most significant group first.
    V6([u16; 8]),
}

/// The content of an address.
pub enum IpData {
    V4(Seq<u8>),
    V6(Seq<u16>),
}

impl View for IpAddress {
    type V = IpData;

    open spec fn view(&self) -> IpData {
        match self {
            IpAddress::V4(a) => IpData::V4(a@),
            IpAddress::V6(g) => IpData::V6(g@),
        }
    }
}

/// Failure to read an address from text.
#[derive(Clone, Copy, Debug, PartialEq, Eq)]
pub struct IpAddressParseError;

// ---------------------------------------------------------------- reading

/// A decimal octet: one to three digits, no leading zero, at most 255.
pub open spec fn octet_spec(p: Seq<char>) -> Option<u8> {
    if 1 <= p.len() <= 3 && all_digits(p) && (p.len() > 1 ==> p[0] != '0') && digits_value(p)
        <= 255 {
        Some(digits_value(p) as u8)
    } else {
        None
    }
}

/// A dotted-quad IPv4 address: exactly four octets separated by `.`.
pub open spec fn ipv4_spec(s: Seq<char>) -> Option<Seq<u8>> {
    let parts = split_spec(s, '.');
    if parts.len() == 4 && octet_spec(parts[0]) is Some && octet_spec(parts[1]) is Some
        && octet_spec(parts[2]) is Some && octet_spec(parts[3]) is Some {
        Some(
            seq![
                octet_spec(parts[0]).unwrap(),
                octet_spec(parts[1]).unwrap(),
                octet_spec(parts[2]).unwrap(),
                octet_spec(parts[3]).unwrap(),
            ],
        )
    } else {
        None
    }
}

pub open spec fn is_hex_digit(c: char) -> bool {
    let u = c as u32;
    (0x30 <= u <= 0x39) || (0x61 <= u <= 0x66) || (0x41 <= u <= 0x46)
}

pub open spec fn hex_digit_value(c: char) -> nat {
    let u = c as u32;
    if u <= 0x39 {
        (u - 0x30) as nat
    } else if u >= 0x61 {
        (u - 0x61 + 10) as nat
    } else {
        (u - 0x41 + 10) as nat
    }
}

/// The number written by a sequence of hexadecimal digits.
pub open spec fn hex_value(s: Seq<char>) -> nat
    decreases s.len(),
{
    if s.len() == 0 {
        0
    } else {
        hex_value(s.drop_last()) * 16 + hex_digit_value(s.last())
    }
}

/// An IPv6 group: one to four hexadecimal digits, either case.
pub open spec fn group_spec(p: Seq<char>) -> Option<u16> {
    if 1 <= p.len() <= 4 && (forall|i: int| 0 <= i < p.len() ==> is_hex_digit(#[trigger] p[i])) {
        Some(hex_value(p) as u16)
    } else {
        None
    }
}

/// Pieces that are all groups.
pub open spec fn groups_spec(parts: Seq<Seq<char>>) -> Option<Seq<u16>> {
    if forall|i: int| 0 <= i < parts.len() ==> (#[trigger] group_spec(parts[i])) is Some {
        Some(Seq::new(parts.len(), |i: int| group_spec(parts[i]).unwrap()))
    } else {
        None
    }
}

/// The two groups that carry an embedded IPv4 address.
pub open spec fn v4_groups(o: Seq<u8>) -> Seq<u16> {
    seq![(o[0] * 256 + o[1]) as u16, (o[2] * 256 + o[3]) as u16]
}

/// Pieces that are all groups, except that the last may be a dotted-quad
/// IPv4 address standing for two groups.
pub open spec fn final_groups_spec(parts: Seq<Seq<char>>) -> Option<Seq<u16>> {
    match groups_spec(parts) {
        Some(g) => Some(g),
        None => if parts.len() >= 1 && groups_spec(parts.drop_last()) is Some && ipv4_spec(
            parts.last(),
        ) is Some {
            Some(groups_spec(parts.drop_last()).unwrap() + v4_groups(ipv4_spec(parts.last()).unwrap()))
        } else {
            None
        },
    }
}

/// The index of the first `::` at or after `i`, or -1.
pub open spec fn pair_index(s: Seq<char>, i: int) -> int
    decreases s.len() - i,
{
    if i < 0 || i + 1 >= s.len() {
        -1
    } else if s[i] == ':' && s[i + 1] == ':' {
        i
    } else {
        pair_index(s, i + 1)
    }
}

/// `n` zero groups.
pub open spec fn zeros(n: nat) -> Seq<u16> {
    Seq::new(n, |i: int| 0u16)
}

/// An IPv6 address: either eight groups separated by `:` (the last two
/// may be written as a dotted quad), or groups before and after a single
/// `::` that stands for at least one zero group (only the part after it may
/// end in a dotted quad).
pub open spec fn ipv6_spec(s: Seq<char>) -> Option<Seq<u16>> {
    let k = pair_index(s, 0);
    if k < 0 {
        match final_groups_spec(split_spec(s, ':')) {
            Some(g) => if g.len() == 8 {
                Some(g)
            } else {
                None
            },
            None => None,
        }
    } else {
        let head = s.subrange(0, k);
        let tail = s.subrange(k + 2, s.len() as int);
        let h = if head.len() == 0 {
            Some(Seq::<u16>::empty())
        } else {
            groups_spec(split_spec(head, ':'))
        };
        let t = if tail.len() == 0 {
            Some(Seq::<u16>::empty())
        } else {
            final_groups_spec(split_spec(tail, ':'))
        };
        match (h, t) {
            (Some(h), Some(t)) => if h.len() + t.len() <= 7 {
                Some(h + zeros((8 - h.len() - t.len()) as nat) + t)
            } else {
                None
            },
            _ => None,
        }
    }
}

/// An address of either family: IPv4 is tried first.
pub open spec fn ip_spec(s: Seq<char>) -> Option<IpData> {
    match ipv4_spec(s) {
        Some(o) => Some(IpData::V4(o)),
        None => match ipv6_spec(s) {
            Some(g) => Some(IpData::V6(g)),
            None => None,
        },
    }
}

/// The pieces held by a vector of character vectors.
pub open spec fn parts_view(v: Seq<Vec<char>>) -> Seq<Seq<char>> {
    Seq::new(v.len(), |i: int| v[i]@)
}

fn parse_octet(p: &[char]) -> (r: Option<u8>)
    ensures
        r == octet_spec(p@),
{
    if p.len() == 0 || p.len() > 3 {
        return None;
    }
    if p.len() > 1 && p[0] == '0' {
        return None;
    }
    match parse_digits(p, 255) {
        Some(v) => Some(v as u8),
        None => None,
    }
}

fn parse_ipv4(s: &[char]) -> (r: Option<[u8; 4]>)
    ensures
        match r {
            Some(a) => ipv4_spec(s@) == Some(a@),
            None => ipv4_spec(s@) is None,
        },
{
    let parts = split_chars(s, '.');
    if parts.len() != 4 {
        return None;
    }
    let a = parse_octet(parts[0].as_slice());
    let b = parse_octet(parts[1].as_slice());
    let c = parse_octet(parts[2].as_slice());
    let d = parse_octet(parts[3].as_slice());
    assert(parts@[0]@ == split_spec(s@, '.')[0]);
    assert(parts@[1]@ == split_spec(s@, '.')[1]);
    assert(parts@[2]@ == split_spec(s@, '.')[2]);
    assert(parts@[3]@ == split_spec(s@, '.')[3]);
    match (a, b, c, d) {
        (Some(a), Some(b), Some(c), Some(d)) => {
            let r = [a, b, c, d];
            assert(r@ =~= seq![a, b, c, d]);
            Some(r)
        },
        _ => None,
    }
}

fn hex_digit(c: char) -> (r: Option<u32>)
    ensures
        match r {
            Some(d) => is_hex_digit(c) && d == hex_digit_value(c) && d < 16,
            None => !is_hex_digit(c),
        },
{
    let u = c as u32;
    if 0x30 <= u && u <= 0x39 {
        Some(u - 0x30)
    } else if 0x61 <= u && u <= 0x66 {
        Some(u - 0x61 + 10)
    } else if 0x41 <= u && u <= 0x46 {
        Some(u - 0x41 + 10)
    } else {
        None
    }
}

fn parse_group(p: &[char]) -> (r: Option<u16>)
    ensures
        r == group_spec(p@),
{
    if p.len() == 0 || p.len() > 4 {
        return None;
    }
    let mut acc: u32 = 0;
    let mut i: usize = 0;
    while i < p.len()
        invariant
            i <= p.len() <= 4,
            acc == hex_value(p@.take(i as int)),
            i == 0 ==> acc == 0,
            i == 1 ==> acc < 16,
            i == 2 ==> acc < 256,
            i == 3 ==> acc < 4096,
            i == 4 ==> acc < 65536,
            forall|j: int| 0 <= j < i ==> is_hex_digit(#[trigger] p@[j]),
        decreases p.len() - i,
    {
        match hex_digit(p[i]) {
            Some(d) => {
                assert(p@.take(i + 1).drop_last() =~= p@.take(i as int));
                acc = acc * 16 + d;
            },
            None => {
                return None;
            },
        }
        i += 1;
    }
    assert(p@.take(p.len() as int) =~= p@);
    Some(acc as u16)
}

/// Reads the first `n` pieces as groups.
fn parse_groups(parts: &Vec<Vec<char>>, n: usize) -> (r: Option<Vec<u16>>)
    requires
        n <= parts.len(),
    ensures
        match r {
            Some(g) => groups_spec(parts_view(parts@).take(n as int)) == Some(g@),
            None => groups_spec(parts_view(parts@).take(n as int)) is None,
        },
{
    let ghost ps = parts_view(parts@).take(n as int);
    let mut out: Vec<u16> = Vec::new();
    let mut i: usize = 0;
    while i < n
        invariant
            i <= n <= parts.len(),
            ps == parts_view(parts@).take(n as int),
            out.len() == i,
            forall|j: int| 0 <= j < i ==> group_spec(#[trigger] ps[j]) == Some(out@[j]),
        decreases n - i,
    {
        match parse_group(parts[i].as_slice()) {
            Some(g) => out.push(g),
            None => {
                assert(group_spec(ps[i as int]) is None);
                return None;
            },
        }
        i += 1;
    }
    assert(out@ =~= Seq::new(ps.len(), |j: int| group_spec(ps[j]).unwrap()));
    Some(out)
}

fn parse_final_groups(parts: &Vec<Vec<char>>) -> (r: Option<Vec<u16>>)
    ensures
        match r {
            Some(g) => final_groups_spec(parts_view(parts@)) == Some(g@),
            None => final_groups_spec(parts_view(parts@)) is None,
        },
{
    let ghost ps = parts_view(parts@);
    assert(ps.take(parts.len() as int) =~= ps);
    match parse_groups(parts, parts.len()) {
        Some(g) => Some(g),
        None => {
            if parts.len() == 0 {
                return None;
            }
            let last = parts.len() - 1;
            assert(ps.take(last as int) =~= ps.drop_last());
            match parse_groups(parts, last) {
                Some(mut g) => match parse_ipv4(parts[last].as_slice()) {
                    Some(o) => {
                        let ghost g0 = g@;
                        g.push(((o[0] as u16) * 256 + (o[1] as u16)) as u16);
                        g.push(((o[2] as u16) * 256 + (o[3] as u16)) as u16);
                        assert(g@ =~= g0 + v4_groups(o@));
                        Some(g)
                    },
                    None => None,
                },
                None => None,
            }
        },
    }
}

/// Finds the first `::`.
fn find_pair(s: &[char]) -> (r: Option<usize>)
    ensures
        match r {
            Some(k) => pair_index(s@, 0) == k && k + 1 < s.len(),
            None => pair_index(s@, 0) == -1,
        },
{
    let mut i: usize = 0;
    while i < s.len() && s.len() - i > 1
        invariant
            i <= s.len(),
            pair_index(s@, 0) == pair_index(s@, i as int),
        decreases s.len() - i,
    {
        if s[i] == ':' && s[i + 1] == ':' {
            return Some(i);
        }
        i += 1;
    }
    None
}

fn to_groups_array(g: &Vec<u16>) -> (r: [u16; 8])
    requires
        g.len() == 8,
    ensures
        r@ == g@,
{
    let r = [g[0], g[1], g[2], g[3], g[4], g[5], g[6], g[7]];
    assert(r@ =~= g@);
    r
}

fn parse_ipv6(s: &[char]) -> (r: Option<[u16; 8]>)
    ensures
        match r {
            Some(g) => ipv6_spec(s@) == Some(g@),
            None => ipv6_spec(s@) is None,
        },
{
    match find_pair(s) {
        None => {
            let parts = split_chars(s, ':');
            assert(parts_view(parts@) =~= split_spec(s@, ':'));
            match parse_final_groups(&parts) {
                Some(g) => if g.len() == 8 {
                    Some(to_groups_array(&g))
                } else {
                    None
                },
                None => None,
            }
        },
        Some(k) => {
            let head = vstd::slice::slice_subrange(s, 0, k);
            let tail = vstd::slice::slice_subrange(s, k + 2, s.len());
            let h = if head.len() == 0 {
                Some(Vec::new())
            } else {
                let parts = split_chars(head, ':');
                assert(parts_view(parts@) =~= split_spec(head@, ':'));
                assert(parts_view(parts@).take(parts.len() as int) =~= parts_view(parts@));
                parse_groups(&parts, parts.len())
            };
            let t = if tail.len() == 0 {
                Some(Vec::new())
            } else {
                let parts = split_chars(tail, ':');
                assert(parts_view(parts@) =~= split_spec(tail@, ':'));
                parse_final_groups(&parts)
            };
            match (h, t) {
                (Some(h), Some(t)) => {
                    if h.len() > 7 || t.len() > 7 - h.len() {
                        return None;
                    }
                    let mut out: Vec<u16> = h.clone();
                    let fill = 8 - h.len() - t.len();
                    let mut i: usize = 0;
                    while i < fill
                        invariant
                            i <= fill,
                            out@ == h@ + zeros(i as nat),
                        decreases fill - i,
                    {
                        out.push(0);
                        assert(zeros((i + 1) as nat) =~= zeros(i as nat).push(0u16));
                        i += 1;
                    }
                    let mut j: usize = 0;
                    while j < t.len()
                        invariant
                            j <= t.len(),
                            out@ == h@ + zeros(fill as nat) + t@.take(j as int),
                        decreases t.len() - j,
                    {
                        out.push(t[j]);
                        assert(t@.take(j + 1) =~= t@.take(j as int).push(t@[j as int]));
                        j += 1;
                    }
                    assert(t@.take(t.len() as int) =~= t@);
                    Some(to_groups_array(&out))
                },
                _ => None,
            }
        },
    }
}

// ---------------------------------------------------------------- writing

pub open spec fn hex_digit_char(d: nat) -> char {
    if d < 10 {
        ((d + 0x30) as u32) as char
    } else {
        ((d - 10 + 0x61) as u32) as char
    }
}

/// Lowercase hexadecimal without leading zeros.
pub open spec fn hex_text(n: nat) -> Seq<char>
    decreases n,
{
    if n < 16 {
        seq![hex_digit_char(n)]
    } else {
        hex_text(n / 16).push(hex_digit_char(n % 16))
    }
}

/// Groups in hexadecimal, separated by `:`.
pub open spec fn join_groups(g: Seq<u16>) -> Seq<char>
    decreases g.len(),
{
    if g.len() == 0 {
        Seq::empty()
    } else if g.len() == 1 {
        hex_text(g[0] as nat)
    } else {
        join_groups(g.drop_last()) + seq![':'] + hex_text(g.last() as nat)
    }
}

/// The dotted-quad form.
pub open spec fn ipv4_text(o: Seq<u8>) -> Seq<char> {
    decimal(o[0] as nat) + seq!['.'] + decimal(o[1] as nat) + seq!['.'] + decimal(o[2] as nat)
        + seq!['.'] + decimal(o[3] as nat)
}

/// The number of consecutive zero groups starting at `i`.
pub open spec fn run_len(g: Seq<u16>, i: int) -> nat
    decreases g.len() - i,
{
    if 0 <= i < g.len() && g[i] == 0 {
        1 + run_len(g, i + 1)
    } else {
        0
    }
}

/// `st` starts the leftmost of the longest runs of zero groups.
pub open spec fn is_best_run(g: Seq<u16>, st: int) -> bool {
    &&& 0 <= st < g.len()
    &&& forall|j: int| 0 <= j < g.len() ==> #[trigger] run_len(g, j) <= run_len(g, st)
    &&& forall|j: int| 0 <= j < st ==> #[trigger] run_len(g, j) < run_len(g, st)
}

pub open spec fn best_run(g: Seq<u16>) -> int {
    choose|st: int| is_best_run(g, st)
}

/// An IPv4 address mapped into IPv6 (`::ffff:a.b.c.d`).
pub open spec fn is_v4_mapped(g: Seq<u16>) -> bool {
    g[0] == 0 && g[1] == 0 && g[2] == 0 && g[3] == 0 && g[4] == 0 && g[5] == 0xffff
}

/// The canonical IPv6 form: an IPv4-mapped address as `::ffff:` and a
/// dotted quad; otherwise lowercase groups, with the leftmost longest run
/// of two or more zero groups written as `::`.
pub open spec fn ipv6_text(g: Seq<u16>) -> Seq<char> {
    if is_v4_mapped(g) {
        seq![':', ':', 'f', 'f', 'f', 'f', ':'] + ipv4_text(
            seq![(g[6] / 256) as u8, (g[6] % 256) as u8, (g[7] / 256) as u8, (g[7] % 256) as u8],
        )
    } else {
        let st = best_run(g);
        let ln = run_len(g, st);
        if ln > 1 {
            join_groups(g.subrange(0, st)) + seq![':', ':'] + join_groups(
                g.subrange(st + ln, g.len() as int),
            )
        } else {
            join_groups(g)
        }
    }
}

pub open spec fn ip_text(a: IpData) -> Seq<char> {
    match a {
        IpData::V4(o) => ipv4_text(o),
        IpData::V6(g) => ipv6_text(g),
    }
}

fn hex_char(d: u16) -> (c: char)
    requires
        d < 16,
    ensures
        c == hex_digit_char(d as nat),
{
    if d < 10 {
        ((d as u32) + 0x30) as u8 as char
    } else {
        ((d as u32) - 10 + 0x61) as u8 as char
    }
}

fn push_hex(out: &mut String, n: u16)
    ensures
        final(out)@ == old(out)@ + hex_text(n as nat),
    decreases n,
{
    if n < 16 {
        push_char(out, hex_char(n));
        assert(hex_text(n as nat) == seq![hex_digit_char(n as nat)]);
    } else {
        push_hex(out, n / 16);
        push_char(out, hex_char(n % 16));
        assert(hex_text(n as nat) == hex_text((n / 16) as nat).push(hex_digit_char((n % 16) as nat)));
    }
}

fn push_groups(out: &mut String, g: &[u16; 8], lo: usize, hi: usize)
    requires
        lo <= hi <= 8,
    ensures
        final(out)@ == old(out)@ + join_groups(g@.subrange(lo as int, hi as int)),
{
    let ghost start = out@;
    let mut i: usize = lo;
    assert(g@.subrange(lo as int, lo as int) =~= Seq::<u16>::empty());
    while i < hi
        invariant
            lo <= i <= hi <= 8,
            out@ == start + join_groups(g@.subrange(lo as int, i as int)),
        decreases hi - i,
    {
        let ghost before = g@.subrange(lo as int, i as int);
        let ghost after = g@.subrange(lo as int, i + 1);
        assert(after.drop_last() =~= before);
        if i > lo {
            push_char(out, ':');
        }
        push_hex(out, g[i]);
        proof {
            if i == lo {
                assert(after.len() == 1);
            }
        }
        i += 1;
    }
}

fn run_at(g: &[u16; 8], j: usize) -> (n: usize)
    requires
        j < 8,
    ensures
        n == run_len(g@, j as int),
        n <= 8 - j,
{
    let mut k: usize = j;
    while k < 8 && g[k] == 0
        invariant
            j <= k <= 8,
            run_len(g@, j as int) == (k - j) + run_len(g@, k as int),
        decreases 8 - k,
    {
        k += 1;
    }
    k - j
}

proof fn lemma_best_run_unique(g: Seq<u16>, a: int, b: int)
    requires
        is_best_run(g, a),
        is_best_run(g, b),
    ensures
        a == b,
{
    if a < b {
        assert(run_len(g, a) < run_len(g, b));
        assert(run_len(g, b) <= run_len(g, a));
    } else if b < a {
        assert(run_len(g, b) < run_len(g, a));
        assert(run_len(g, a) <= run_len(g, b));
    }
}

fn ipv4_to_text(o: &[u8; 4]) -> (r: String)
    ensures
        r@ == ipv4_text(o@),
{
    let mut r = u64_to_decimal(o[0] as u64);
    push_char(&mut r, '.');
    push_str(&mut r, u64_to_decimal(o[1] as u64).as_str());
    push_char(&mut r, '.');
    push_str(&mut r, u64_to_decimal(o[2] as u64).as_str());
    push_char(&mut r, '.');
    push_str(&mut r, u64_to_decimal(o[3] as u64).as_str());
    r
}

fn ipv6_to_text(g: &[u16; 8]) -> (r: String)
    ensures
        r@ == ipv6_text(g@),
{
    if g[0] == 0 && g[1] == 0 && g[2] == 0 && g[3] == 0 && g[4] == 0 && g[5] == 0xffff {
        let mut r = String::new();
        push_str(&mut r, "::ffff:");
        let o = [(g[6] / 256) as u8, (g[6] % 256) as u8, (g[7] / 256) as u8, (g[7] % 256) as u8];
        push_str(&mut r, ipv4_to_text(&o).as_str());
        proof {
            reveal_strlit("::ffff:");
            assert(o@ =~= seq![(g@[6] / 256) as u8, (g@[6] % 256) as u8, (g@[7] / 256) as u8, (g@[7] % 256) as u8]);
        }
        return r;
    }
    let mut best_start: usize = 0;
    let mut best_len: usize = run_at(g, 0);
    let mut j: usize = 1;
    while j < 8
        invariant
            1 <= j <= 8,
            best_start < j,
            best_len == run_len(g@, best_start as int),
            best_len <= 8 - best_start,
            forall|i: int| 0 <= i < j ==> #[trigger] run_len(g@, i) <= best_len,
            forall|i: int| 0 <= i < best_start ==> #[trigger] run_len(g@, i) < best_len,
        decreases 8 - j,
    {
        let n = run_at(g, j);
        if n > best_len {
            best_start = j;
            best_len = n;
        }
        j += 1;
    }
    proof {
        assert forall|i: int| 0 <= i < g@.len() implies #[trigger] run_len(g@, i) <= run_len(
            g@,
            best_start as int,
        ) by {}
        assert(is_best_run(g@, best_start as int));
        lemma_best_run_unique(g@, best_run(g@), best_start as int);
    }
    let mut r = String::new();
    if best_len > 1 {
        push_groups(&mut r, g, 0, best_start);
        push_char(&mut r, ':');
        push_char(&mut r, ':');
        push_groups(&mut r, g, best_start + best_len, 8);
        assert(r@ =~= ipv6_text(g@));
    } else {
        push_groups(&mut r, g, 0, 8);
        assert(g@.subrange(0, 8) =~= g@);
    }
    r
}

impl IpAddress {
    /// Reads an address as `IpAddr::from_str` does: an IPv4 dotted quad,
    /// or else an IPv6 address.
    pub fn parse(text: &str) -> (r: Option<IpAddress>)
        ensures
            match r {
                Some(a) => ip_spec(text@) == Some(a@),
                None => ip_spec(text@) is None,
            },
    {
        let s = chars_of(text);
        match parse_ipv4(s.as_slice()) {
            Some(o) => Some(IpAddress::V4(o)),
            None => match parse_ipv6(s.as_slice()) {
                Some(g) => Some(IpAddress::V6(g)),
                None => None,
            },
        }
    }

    /// Writes the address as `IpAddr`'s `Display` does.
    pub fn to_text(&self) -> (r: String)
        ensures
            r@ == ip_text(self@),
    {
        match self {
            IpAddress::V4(o) => ipv4_to_text(o),
            IpAddress::V6(g) => ipv6_to_text(g),
        }
    }
}

impl core::str::FromStr for IpAddress {
    type Err = IpAddressParseError;

    fn from_str(value: &str) -> (r: Result<IpAddress, IpAddressParseError>)
        ensures
            match r {
                Ok(a) => ip_spec(value@) == Some(a@),
                Err(_) => ip_spec(value@) is None,
            },
    {
        match IpAddress::parse(value) {
            Some(a) => Ok(a),
            None => Err(IpAddressParseError),
        }
    }
}

proof fn lemma_decimal_octet(n: u8)
    ensures
        octet_spec(decimal(n as nat)) == Some(n),
        !decimal(n as nat).contains('.'),
{
    let d = decimal(n as nat);
    lemma_decimal_digits(n as nat);
    if n >= 10 {
        let q = (n / 10) as nat;
        assert(d == decimal(q).push(digit_char((n % 10) as nat)));
        if q >= 10 {
            assert(decimal(q) == decimal(q / 10).push(digit_char(q % 10)));
            assert(q / 10 < 10);
            assert(decimal(q / 10) == seq![digit_char(q / 10)]);
            assert(d[0] == digit_char(q / 10));
        } else {
            assert(decimal(q) == seq![digit_char(q)]);
            assert(d[0] == digit_char(q));
        }
    }
    if d.contains('.') {
        let k = choose|k: int| 0 <= k < d.len() && d[k] == '.';
        assert(is_digit(d[k]));
    }
}

/// Reading back the dotted-quad rendering of an IPv4 address gives the
/// address.
pub proof fn lemma_ipv4_round_trip(o: Seq<u8>)
    requires
        o.len() == 4,
    ensures
        ip_spec(ipv4_text(o)) == Some(IpData::V4(o)),
{
    let a = decimal(o[0] as nat);
    let b = decimal(o[1] as nat);
    let c = decimal(o[2] as nat);
    let d = decimal(o[3] as nat);
    lemma_decimal_octet(o[0]);
    lemma_decimal_octet(o[1]);
    lemma_decimal_octet(o[2]);
    lemma_decimal_octet(o[3]);
    let ab = a + seq!['.'] + b;
    let abc = ab + seq!['.'] + c;
    assert(ipv4_text(o) =~= abc + seq!['.'] + d);
    lemma_split_concat(abc, d, '.');
    lemma_split_concat(ab, c, '.');
    lemma_split_concat(a, b, '.');
    lemma_split_without_separator(a, '.');
    lemma_split_without_separator(b, '.');
    lemma_split_without_separator(c, '.');
    lemma_split_without_separator(d, '.');
    assert(split_spec(ipv4_text(o), '.') =~= seq![a, b, c, d]);
    assert(seq![o[0], o[1], o[2], o[3]] =~= o);
}

proof fn lemma_hex_text(n: nat)
    requires
        n < 65536,
    ensures
        1 <= hex_text(n).len() <= 4,
        n < 16 ==> hex_text(n).len() == 1,
        n < 256 ==> hex_text(n).len() <= 2,
        n < 4096 ==> hex_text(n).len() <= 3,
        forall|i: int| 0 <= i < hex_text(n).len() ==> is_hex_digit(#[trigger] hex_text(n)[i]),
        hex_value(hex_text(n)) == n,
        group_spec(hex_text(n)) == Some(n as u16),
    decreases n,
{
    let t = hex_text(n);
    if n < 16 {
        assert(t == seq![hex_digit_char(n)]);
        assert(t.drop_last() =~= Seq::<char>::empty());
        assert(hex_value(t) == hex_value(Seq::<char>::empty()) * 16 + hex_digit_value(t.last()));
    } else {
        let q = n / 16;
        lemma_hex_text(q);
        let head = hex_text(q);
        let c = hex_digit_char(n % 16);
        assert(t == head.push(c));
        assert(t.drop_last() =~= head);
        assert(hex_value(t) == hex_value(head) * 16 + hex_digit_value(c));
        assert((n / 16) * 16 + n % 16 == n) by (nonlinear_arith);
        assert forall|i: int| 0 <= i < t.len() implies is_hex_digit(#[trigger] t[i]) by {
            if i < head.len() {
                assert(t[i] == head[i]);
            }
        }
    }
}

/// The text of a group has no separator of either kind.
proof fn lemma_hex_text_plain(n: nat)
    requires
        n < 65536,
    ensures
        !hex_text(n).contains(':'),
        !hex_text(n).contains('.'),
{
    lemma_hex_text(n);
    let t = hex_text(n);
    if t.contains(':') {
        let k = choose|k: int| 0 <= k < t.len() && t[k] == ':';
        assert(is_hex_digit(t[k]));
    }
    if t.contains('.') {
        let k = choose|k: int| 0 <= k < t.len() && t[k] == '.';
        assert(is_hex_digit(t[k]));
    }
}

pub open spec fn group_texts(g: Seq<u16>) -> Seq<Seq<char>> {
    Seq::new(g.len(), |i: int| hex_text(g[i] as nat))
}

proof fn lemma_join_split(g: Seq<u16>)
    requires
        g.len() >= 1,
    ensures
        split_spec(join_groups(g), ':') == group_texts(g),
        groups_spec(group_texts(g)) == Some(g),
        join_groups(g).len() >= 1,
        is_hex_digit(join_groups(g)[0]),
        is_hex_digit(join_groups(g).last()),
        !join_groups(g).contains('.'),
        forall|i: int|
            0 <= i < join_groups(g).len() - 1 ==> !(#[trigger] join_groups(g)[i] == ':'
                && join_groups(g)[i + 1] == ':'),
    decreases g.len(),
{
    let j = join_groups(g);
    if g.len() == 1 {
        lemma_hex_text(g[0] as nat);
        lemma_hex_text_plain(g[0] as nat);
        lemma_split_without_separator(j, ':');
        assert(j.last() == j[j.len() - 1]);
        assert forall|i: int| 0 <= i < j.len() - 1 implies !(#[trigger] j[i] == ':' && j[i + 1] == ':') by {
            assert(is_hex_digit(j[i]));
        }
    } else {
        let init = g.drop_last();
        lemma_join_split(init);
        let a = join_groups(init);
        let h = hex_text(g.last() as nat);
        lemma_hex_text(g.last() as nat);
        lemma_hex_text_plain(g.last() as nat);
        assert(j == a + seq![':'] + h);
        lemma_split_concat(a, h, ':');
        lemma_split_without_separator(h, ':');
        assert(group_texts(g) =~= group_texts(init) + seq![h]);
        assert(j[0] == a[0]);
        assert(j.last() == h.last()) by {
            assert(j[j.len() - 1] == h[h.len() - 1]);
        }
        assert(is_hex_digit(h[h.len() - 1]));
        assert(is_hex_digit(h[0]));
        assert(a.last() == a[a.len() - 1]);
        if j.contains('.') {
            let k = choose|k: int| 0 <= k < j.len() && j[k] == '.';
            if k < a.len() {
                assert(j[k] == a[k]);
                assert(a.contains('.'));
            } else if k > a.len() {
                assert(j[k] == h[k - a.len() - 1]);
                assert(h.contains('.'));
            }
        }
        assert forall|i: int| 0 <= i < j.len() - 1 implies !(#[trigger] j[i] == ':' && j[i + 1] == ':') by {
            if i + 1 < a.len() {
                assert(j[i] == a[i]);
                assert(j[i + 1] == a[i + 1]);
            } else if i + 1 == a.len() {
                assert(j[i] == a[a.len() - 1]);
            } else if i == a.len() {
                assert(j[i + 1] == h[0]);
            } else {
                assert(j[i] == h[i - a.len() - 1]);
                assert(is_hex_digit(h[i - a.len() - 1]));
            }
        }
        assert forall|i: int| 0 <= i < group_texts(g).len() implies (#[trigger] group_spec(group_texts(g)[i])) is Some by {
            lemma_hex_text(g[i] as nat);
        }
        assert(groups_spec(group_texts(g)) == Some(g)) by {
            assert forall|i: int| 0 <= i < g.len() implies group_spec(group_texts(g)[i]).unwrap() == g[i] by {
                lemma_hex_text(g[i] as nat);
            }
            assert(Seq::new(g.len(), |i: int| group_spec(group_texts(g)[i]).unwrap()) =~= g);
        }
    }
}

proof fn lemma_pair_index_none(s: Seq<char>, i: int)
    requires
        0 <= i,
        forall|j: int| i <= j < s.len() - 1 ==> !(#[trigger] s[j] == ':' && s[j + 1] == ':'),
    ensures
        pair_index(s, i) == -1,
    decreases s.len() - i,
{
    if i + 1 < s.len() {
        lemma_pair_index_none(s, i + 1);
    }
}

proof fn lemma_pair_index_at(s: Seq<char>, i: int, k: int)
    requires
        0 <= i <= k,
        k + 1 < s.len(),
        s[k] == ':' && s[k + 1] == ':',
        forall|j: int| i <= j < k ==> !(#[trigger] s[j] == ':' && s[j + 1] == ':'),
    ensures
        pair_index(s, i) == k,
    decreases k - i,
{
    if i < k {
        lemma_pair_index_at(s, i + 1, k);
    }
}

proof fn lemma_run_zeros(g: Seq<u16>, st: int)
    requires
        0 <= st <= g.len(),
    ensures
        st + run_len(g, st) <= g.len(),
        forall|k: int| st <= k < st + run_len(g, st) ==> g[k] == 0,
    decreases g.len() - st,
{
    if st < g.len() && g[st] == 0 {
        lemma_run_zeros(g, st + 1);
    }
}

proof fn lemma_best_prefix(g: Seq<u16>, n: int) -> (st: int)
    requires
        1 <= n <= g.len(),
    ensures
        0 <= st < n,
        forall|j: int| 0 <= j < n ==> #[trigger] run_len(g, j) <= run_len(g, st),
        forall|j: int| 0 <= j < st ==> #[trigger] run_len(g, j) < run_len(g, st),
    decreases n,
{
    if n == 1 {
        0
    } else {
        let prev = lemma_best_prefix(g, n - 1);
        if run_len(g, n - 1) > run_len(g, prev) {
            n - 1
        } else {
            prev
        }
    }
}

proof fn lemma_best_run_exists(g: Seq<u16>)
    requires
        g.len() >= 1,
    ensures
        is_best_run(g, best_run(g)),
{
    let st = lemma_best_prefix(g, g.len() as int);
    assert(is_best_run(g, st));
}

proof fn lemma_no_dot_single_piece(s: Seq<char>)
    requires
        !s.contains('.'),
    ensures
        ipv4_spec(s) is None,
{
    lemma_split_without_separator(s, '.');
}

proof fn lemma_mapped_round_trip(g: Seq<u16>)
    requires
        g.len() == 8,
        is_v4_mapped(g),
    ensures
        ip_spec(ipv6_text(g)) == Some(IpData::V6(g)),
{
    let text = ipv6_text(g);
    let o = seq![(g[6] / 256) as u8, (g[6] % 256) as u8, (g[7] / 256) as u8, (g[7] % 256) as u8];
    let v = ipv4_text(o);
    lemma_ipv4_round_trip(o);
    assert(ipv4_spec(v) == Some(o));
    let prefix = seq![':', ':', 'f', 'f', 'f', 'f', ':'];
    assert(text == prefix + v);
    assert(ipv4_spec(text) is None) by {
        let first = prefix + decimal(o[0] as nat);
        let rest = decimal(o[1] as nat) + seq!['.'] + decimal(o[2] as nat) + seq!['.'] + decimal(
            o[3] as nat,
        );
        assert(text =~= first + seq!['.'] + rest);
        lemma_split_concat(first, rest, '.');
        lemma_decimal_octet(o[0]);
        assert(!first.contains('.')) by {
            if first.contains('.') {
                let k = choose|k: int| 0 <= k < first.len() && first[k] == '.';
                if k >= 7 {
                    assert(first[k] == decimal(o[0] as nat)[k - 7]);
                    assert(decimal(o[0] as nat).contains('.'));
                }
            }
        }
        lemma_split_without_separator(first, '.');
        assert(split_spec(text, '.')[0] == first);
        assert(!is_digit(first[0]));
    }
    lemma_pair_index_at(text, 0, 0);
    let tail = text.subrange(2, text.len() as int);
    let ffff = seq!['f', 'f', 'f', 'f'];
    assert(tail =~= ffff + seq![':'] + v);
    lemma_mapped_tail(o, v, ffff);
    let t = seq![0xffffu16] + v4_groups(o);
    assert((g[6] / 256) * 256 + g[6] % 256 == g[6]) by (nonlinear_arith);
    assert((g[7] / 256) * 256 + g[7] % 256 == g[7]) by (nonlinear_arith);
    assert(v4_groups(o) =~= seq![g[6], g[7]]);
    assert(Seq::<u16>::empty() + zeros(5) + t =~= g);
}

proof fn lemma_mapped_tail(o: Seq<u8>, v: Seq<char>, ffff: Seq<char>)
    requires
        o.len() == 4,
        v == ipv4_text(o),
        ipv4_spec(v) == Some(o),
        ffff == seq!['f', 'f', 'f', 'f'],
    ensures
        final_groups_spec(split_spec(ffff + seq![':'] + v, ':')) == Some(
            seq![0xffffu16] + v4_groups(o),
        ),
{
    lemma_split_concat(ffff, v, ':');
    lemma_split_without_separator(ffff, ':');
    lemma_decimal_octet(o[0]);
    lemma_decimal_octet(o[1]);
    lemma_decimal_octet(o[2]);
    lemma_decimal_octet(o[3]);
    assert(!v.contains(':')) by {
        if v.contains(':') {
            let k = choose|k: int| 0 <= k < v.len() && v[k] == ':';
            let a = decimal(o[0] as nat);
            let b = decimal(o[1] as nat);
            let c = decimal(o[2] as nat);
            let d = decimal(o[3] as nat);
            lemma_decimal_digits(o[0] as nat);
            lemma_decimal_digits(o[1] as nat);
            lemma_decimal_digits(o[2] as nat);
            lemma_decimal_digits(o[3] as nat);
            if k < a.len() {
                assert(v[k] == a[k]);
            } else if k == a.len() {
            } else if k < a.len() + 1 + b.len() {
                assert(v[k] == b[k - a.len() - 1]);
            } else if k == a.len() + 1 + b.len() {
            } else if k < a.len() + 2 + b.len() + c.len() {
                assert(v[k] == c[k - a.len() - 2 - b.len()]);
            } else if k == a.len() + 2 + b.len() + c.len() {
            } else {
                assert(v[k] == d[k - a.len() - 3 - b.len() - c.len()]);
            }
        }
    }
    lemma_split_without_separator(v, ':');
    let parts = split_spec(ffff + seq![':'] + v, ':');
    assert(parts =~= seq![ffff, v]);
    reveal_with_fuel(hex_value, 5);
    assert(group_spec(ffff) == Some(0xffffu16));
    lemma_decimal_digits(o[0] as nat);
    assert(v[decimal(o[0] as nat).len() as int] == '.');
    assert(group_spec(v) is None) by {
        assert(!is_hex_digit(v[decimal(o[0] as nat).len() as int]));
    }
    assert(!(groups_spec(parts) is Some)) by {
        assert(group_spec(parts[1]) is None);
    }
    assert(parts.drop_last() =~= seq![ffff]);
    assert(parts.last() == v);
    assert(groups_spec(seq![ffff]) == Some(seq![0xffffu16])) by {
        assert(Seq::new(1, |i: int| group_spec(seq![ffff][i]).unwrap()) =~= seq![0xffffu16]);
    }
}

proof fn lemma_compressed_round_trip(g: Seq<u16>)
    requires
        g.len() == 8,
        !is_v4_mapped(g),
        is_best_run(g, best_run(g)),
        run_len(g, best_run(g)) > 1,
    ensures
        ip_spec(ipv6_text(g)) == Some(IpData::V6(g)),
{
    let text = ipv6_text(g);
    let st = best_run(g);
    let ln = run_len(g, st);
    lemma_run_zeros(g, st);
    let head = g.subrange(0, st);
    let tail = g.subrange(st + ln, 8);
    let a = join_groups(head);
    let b = join_groups(tail);
    assert(text == a + seq![':', ':'] + b);
    if head.len() > 0 {
        lemma_join_split(head);
    } else {
        assert(a =~= Seq::<char>::empty());
    }
    if tail.len() > 0 {
        lemma_join_split(tail);
    } else {
        assert(b =~= Seq::<char>::empty());
    }
    assert(!text.contains('.')) by {
        if text.contains('.') {
            let k = choose|k: int| 0 <= k < text.len() && text[k] == '.';
            if k < a.len() {
                assert(text[k] == a[k]);
                assert(a.contains('.'));
            } else if k >= a.len() + 2 {
                assert(text[k] == b[k - a.len() - 2]);
                assert(b.contains('.'));
            }
        }
    }
    lemma_no_dot_single_piece(text);
    assert forall|j: int| 0 <= j < a.len() implies !(#[trigger] text[j] == ':' && text[j + 1] == ':') by {
        if j + 1 < a.len() {
            assert(text[j] == a[j]);
            assert(text[j + 1] == a[j + 1]);
        } else {
            assert(text[j] == a[a.len() - 1]);
            assert(a.last() == a[a.len() - 1]);
        }
    }
    lemma_pair_index_at(text, 0, a.len() as int);
    assert(text.subrange(0, a.len() as int) =~= a);
    assert(text.subrange(a.len() as int + 2, text.len() as int) =~= b);
    assert(head + zeros(ln) + tail =~= g);
}

proof fn lemma_uncompressed_round_trip(g: Seq<u16>)
    requires
        g.len() == 8,
        !is_v4_mapped(g),
        run_len(g, best_run(g)) <= 1,
    ensures
        ip_spec(ipv6_text(g)) == Some(IpData::V6(g)),
{
    let text = ipv6_text(g);
    lemma_join_split(g);
    assert(text == join_groups(g));
    lemma_no_dot_single_piece(text);
    lemma_pair_index_none(text, 0);
}

/// Reading back the canonical rendering of an IPv6 address gives the
/// address.
pub proof fn lemma_ipv6_round_trip(g: Seq<u16>)
    requires
        g.len() == 8,
    ensures
        ip_spec(ipv6_text(g)) == Some(IpData::V6(g)),
{
    if is_v4_mapped(g) {
        lemma_mapped_round_trip(g);
    } else {
        lemma_best_run_exists(g);
        if run_len(g, best_run(g)) > 1 {
            lemma_compressed_round_trip(g);
        } else {
            lemma_uncompressed_round_trip(g);
        }
    }
}

/// Reading back the rendering of any address gives the address.
pub proof fn lemma_ip_round_trip(a: IpData)
    requires
        match a {
            IpData::V4(o) => o.len() == 4,
            IpData::V6(g) => g.len() == 8,
        },
    ensures
        ip_spec(ip_text(a)) == Some(a),
{
    match a {
        IpData::V4(o) => lemma_ipv4_round_trip(o),
        IpData::V6(g) => lemma_ipv6_round_trip(g),
    }
}

} // verus!
