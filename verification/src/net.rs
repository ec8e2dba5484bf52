//! IP addresses as plain values: IPv4 octets, IPv6 segments.

use vstd::prelude::*;
use vstd::string::*;
use crate::text::{all_digits, chars_of, dec_text, digits_value, digits_upto, push_text, split_on, split_on_exec, uint_text};

verus! {

/// An IPv4 address, held as its four octets.
#[derive(Debug, Clone, Copy, PartialEq, Eq, Structural, Hash)]
pub struct Ipv4Addr {
    pub a: u8,
    pub b: u8,
    pub c: u8,
    pub d: u8,
}

/// Dotted-quad text of four octets.
pub open spec fn dotted(a: u8, b: u8, c: u8, d: u8) -> Seq<char> {
    dec_text(a as nat) + "."@ + dec_text(b as nat) + "."@ + dec_text(c as nat) + "."@ + dec_text(d as nat)
}

impl Ipv4Addr {
    pub fn new(a: u8, b: u8, c: u8, d: u8) -> (r: Ipv4Addr)
        ensures
            r == (Ipv4Addr { a, b, c, d }),
    {
        Ipv4Addr { a, b, c, d }
    }

    pub fn octets(&self) -> (o: [u8; 4])
        ensures
            o@ == seq![self.a, self.b, self.c, self.d],
    {
        [self.a, self.b, self.c, self.d]
    }

    pub open spec fn text(self) -> Seq<char> {
        dotted(self.a, self.b, self.c, self.d)
    }

    /// Dotted-quad notation, as `Display` prints an address.
    pub fn to_text(&self) -> (s: String)
        ensures
            s@ == self.text(),
    {
        let mut s = uint_text(self.a as u64);
        push_text(&mut s, ".");
        let t = uint_text(self.b as u64);
        push_text(&mut s, t.as_str());
        push_text(&mut s, ".");
        let t = uint_text(self.c as u64);
        push_text(&mut s, t.as_str());
        push_text(&mut s, ".");
        let t = uint_text(self.d as u64);
        push_text(&mut s, t.as_str());
        s
    }

    /// 10/8, 172.16/12, 192.168/16.
    pub open spec fn private(self) -> bool {
        self.a == 10 || (self.a == 172 && 16 <= self.b < 32) || (self.a == 192 && self.b == 168)
    }

    /// 127/8.
    pub open spec fn loopback(self) -> bool {
        self.a == 127
    }

    /// 169.254/16.
    pub open spec fn link_local(self) -> bool {
        self.a == 169 && self.b == 254
    }

    /// 0.0.0.0.
    pub open spec fn unspecified(self) -> bool {
        self.a == 0 && self.b == 0 && self.c == 0 && self.d == 0
    }

    /// 255.255.255.255.
    pub open spec fn broadcast(self) -> bool {
        self.a == 255 && self.b == 255 && self.c == 255 && self.d == 255
    }

    /// 192.0.2/24, 198.51.100/24, 203.0.113/24 (documentation ranges).
    pub open spec fn documentation(self) -> bool {
        (self.a == 192 && self.b == 0 && self.c == 2) || (self.a == 198 && self.b == 51 && self.c == 100)
            || (self.a == 203 && self.b == 0 && self.c == 113)
    }
}

/// An IPv6 address, held as its 128 bits (high and low halves).
#[derive(Debug, Clone, Copy, PartialEq, Eq, Structural)]
pub struct Ipv6Addr {
    pub hi: u64,
    pub lo: u64,
}

/// An IPv4 or IPv6 address.
#[derive(Debug, Clone, Copy, PartialEq, Eq, Structural)]
pub enum IpAddr {
    V4(Ipv4Addr),
    V6(Ipv6Addr),
}

/// One dotted-quad octet as `Ipv4Addr::from_str` reads it: one to three
/// digits, no leading zero (but `0` itself), at most 255.
pub open spec fn octet_text(s: Seq<char>) -> Option<u8> {
    if 1 <= s.len() <= 3 && all_digits(s) && !(s.len() > 1 && s[0] == '0') && digits_value(s) <= 255 {
        Some(digits_value(s) as u8)
    } else {
        None
    }
}

/// What `Ipv4Addr::from_str` gives: four octets separated by dots.
pub open spec fn parse_v4_spec(s: Seq<char>) -> Option<Ipv4Addr> {
    let p = split_on(s, '.');
    if p.len() == 4 && octet_text(p[0]) is Some && octet_text(p[1]) is Some && octet_text(p[2]) is Some
        && octet_text(p[3]) is Some {
        Some(Ipv4Addr {
            a: octet_text(p[0])->0,
            b: octet_text(p[1])->0,
            c: octet_text(p[2])->0,
            d: octet_text(p[3])->0,
        })
    } else {
        None
    }
}

fn octet_of(v: &Vec<char>) -> (r: Option<u8>)
    ensures
        r == octet_text(v@),
{
    let n = v.len();
    if n < 1 || n > 3 {
        return None;
    }
    let mut i: usize = 0;
    while i < n
        invariant
            n == v@.len(),
            i <= n,
            forall|j: int| 0 <= j < i ==> crate::text::is_ascii_digit(#[trigger] v@[j]),
        decreases n - i,
    {
        if !('0' <= v[i] && v[i] <= '9') {
            return None;
        }
        i += 1;
    }
    assert(all_digits(v@));
    if n > 1 && v[0] == '0' {
        return None;
    }
    assert(v@.subrange(0, n as int) =~= v@);
    match digits_upto(v.as_slice(), 0, n, 255) {
        Some(x) => Some(x as u8),
        None => None,
    }
}

impl Ipv4Addr {
    /// Reads dotted-quad notation (see `parse_v4_spec`).
    pub fn parse(s: &str) -> (r: Option<Ipv4Addr>)
        ensures
            r == parse_v4_spec(s@),
    {
        let cs = chars_of(s);
        let parts = split_on_exec(cs.as_slice(), '.');
        let ghost p = parts@.map_values(|x: Vec<char>| x@);
        if parts.len() != 4 {
            return None;
        }
        assert(p[0] == parts@[0]@ && p[1] == parts@[1]@ && p[2] == parts@[2]@ && p[3] == parts@[3]@);
        let a = match octet_of(&parts[0]) {
            Some(x) => x,
            None => return None,
        };
        let b = match octet_of(&parts[1]) {
            Some(x) => x,
            None => return None,
        };
        let c = match octet_of(&parts[2]) {
            Some(x) => x,
            None => return None,
        };
        let d = match octet_of(&parts[3]) {
            Some(x) => x,
            None => return None,
        };
        Some(Ipv4Addr { a, b, c, d })
    }
}

/// Decimal notation of a number: digits only, the number's value, no
/// leading zero, and one, two or three digits below 10, 100 and 1000.
proof fn lemma_dec_text(n: nat)
    ensures
        dec_text(n).len() >= 1,
        all_digits(dec_text(n)),
        digits_value(dec_text(n)) == n,
        n >= 1 ==> dec_text(n)[0] != '0',
        n < 10 ==> dec_text(n).len() == 1,
        10 <= n < 100 ==> dec_text(n).len() == 2,
        100 <= n < 1000 ==> dec_text(n).len() == 3,
    decreases n,
{
    if n >= 10 {
        lemma_dec_text(n / 10);
        let p = dec_text(n / 10);
        let c = crate::text::digit_char(n % 10);
        let q = p.push(c);
        assert(dec_text(n) == q);
        assert(q.drop_last() =~= p);
        assert(q.last() == c);
        assert(q[0] == p[0]);
        assert((c as u32) == ('0' as u32) + n % 10);
        assert(digits_value(q) == digits_value(p) * 10 + ((c as u32) - ('0' as u32)) as nat);
        assert(n == (n / 10) * 10 + n % 10);
        assert forall|i: int| 0 <= i < q.len() implies crate::text::is_ascii_digit(#[trigger] q[i]) by {
            if i < p.len() {
                assert(q[i] == p[i]);
            }
        }
    } else {
        let c = crate::text::digit_char(n);
        let q = seq![c];
        assert(dec_text(n) == q);
        assert(q.drop_last() =~= Seq::<char>::empty());
        assert(digits_value(q.drop_last()) == 0);
        assert((c as u32) == ('0' as u32) + n);
        assert(digits_value(q) == ((c as u32) - ('0' as u32)) as nat);
    }
}

/// Splitting a text without separators gives the text itself.
proof fn lemma_split_plain(t: Seq<char>, sep: char)
    requires
        forall|i: int| 0 <= i < t.len() ==> t[i] != sep,
    ensures
        split_on(t, sep) == seq![t],
    decreases t.len(),
{
    if t.len() > 0 {
        let u = t.drop_last();
        assert forall|i: int| 0 <= i < u.len() implies u[i] != sep by {
            assert(u[i] == t[i]);
        }
        lemma_split_plain(u, sep);
        assert(t.last() == t[t.len() - 1]);
        assert(t.last() != sep);
        let p = split_on(u, sep);
        assert(split_on(t, sep) == p.update(p.len() - 1, p.last().push(t.last())));
        assert(u.push(t.last()) =~= t);
        assert(p.update(p.len() - 1, p.last().push(t.last())) =~= seq![t]);
    } else {
        assert(t =~= Seq::<char>::empty());
    }
}

/// Splitting `s`, a separator, then a text without separators gives the
/// pieces of `s` followed by that text.
proof fn lemma_split_append(s: Seq<char>, t: Seq<char>, sep: char)
    requires
        forall|i: int| 0 <= i < t.len() ==> t[i] != sep,
    ensures
        split_on(s.push(sep) + t, sep) == split_on(s, sep).push(t),
    decreases t.len(),
{
    let w = s.push(sep) + t;
    if t.len() == 0 {
        assert(w =~= s.push(sep));
        assert(w.drop_last() =~= s);
        assert(w.last() == sep);
        assert(split_on(w, sep) == split_on(s, sep).push(Seq::<char>::empty()));
        assert(t =~= Seq::<char>::empty());
    } else {
        let u = t.drop_last();
        assert forall|i: int| 0 <= i < u.len() implies u[i] != sep by {
            assert(u[i] == t[i]);
        }
        lemma_split_append(s, u, sep);
        assert(w.drop_last() =~= s.push(sep) + u);
        assert(w.last() == t[t.len() - 1]);
        assert(w.last() != sep);
        let p = split_on(s, sep).push(u);
        assert(split_on(w.drop_last(), sep) == p);
        assert(split_on(w, sep) == p.update(p.len() - 1, p.last().push(w.last())));
        assert(u.push(t.last()) =~= t);
        assert(p.update(p.len() - 1, p.last().push(t.last())) =~= split_on(s, sep).push(t));
    }
}

/// The decimal text of an octet reads back as the octet.
proof fn lemma_octet_roundtrip(n: u8)
    ensures
        octet_text(dec_text(n as nat)) == Some(n),
        forall|i: int| 0 <= i < dec_text(n as nat).len() ==> dec_text(n as nat)[i] != '.',
{
    lemma_dec_text(n as nat);
    let t = dec_text(n as nat);
    assert forall|i: int| 0 <= i < t.len() implies t[i] != '.' by {
        assert(crate::text::is_ascii_digit(t[i]));
    }
}

/// `Ipv4Addr::parse` reads back what `to_text` writes: the dotted-quad text
/// of every address parses to that address.
pub proof fn lemma_text_roundtrip(ip: Ipv4Addr)
    ensures
        parse_v4_spec(ip.text()) == Some(ip),
{
    reveal_strlit(".");
    let ta = dec_text(ip.a as nat);
    let tb = dec_text(ip.b as nat);
    let tc = dec_text(ip.c as nat);
    let td = dec_text(ip.d as nat);
    lemma_octet_roundtrip(ip.a);
    lemma_octet_roundtrip(ip.b);
    lemma_octet_roundtrip(ip.c);
    lemma_octet_roundtrip(ip.d);
    let s1 = ta.push('.') + tb;
    let s2 = s1.push('.') + tc;
    let s3 = s2.push('.') + td;
    assert(ip.text() =~= s3);
    lemma_split_plain(ta, '.');
    lemma_split_append(ta, tb, '.');
    lemma_split_append(s1, tc, '.');
    lemma_split_append(s2, td, '.');
    let p = split_on(s3, '.');
    assert(p =~= seq![ta, tb, tc, td]);
}

} // verus!
