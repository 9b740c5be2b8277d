//! Socket addresses, and the text forms in which they are given and shown.
use vstd::prelude::*;
use vstd::string::*;

use crate::text::{
    chars_of, decimal, decimal_value, digit_value, lemma_decimal_chars_are_digits,
    lemma_decimal_round_trip, to_decimal,
};

verus! {

/// Whether `c` is one of the ASCII digits `0`..`9`.
pub open spec fn is_ascii_digit(c: char) -> bool {
    '0' <= c && c <= '9'
}

/// Whether `s[a..b]` holds ASCII digits only.
pub open spec fn digits_between(s: Seq<char>, a: int, b: int) -> bool {
    forall|m: int| a <= m < b ==> is_ascii_digit(#[trigger] s[m])
}

/// Whether `s` holds dotted-decimal text around the dots at `p1`, `p2` and `p3`: a digit
/// before `p1`, at least one digit between consecutive dots and nothing else, and a digit
/// after `p3`.
pub open spec fn dotted_quad_at(s: Seq<char>, p1: int, p2: int, p3: int) -> bool {
    &&& 1 <= p1
    &&& p1 + 1 < p2
    &&& p2 + 1 < p3
    &&& p3 + 1 < s.len()
    &&& is_ascii_digit(s[p1 - 1])
    &&& s[p1] == '.'
    &&& digits_between(s, p1 + 1, p2)
    &&& s[p2] == '.'
    &&& digits_between(s, p2 + 1, p3)
    &&& s[p3] == '.'
    &&& is_ascii_digit(s[p3 + 1])
}

/// Whether the host text `s` holds an IPv4 address in dotted-decimal form: somewhere in it,
/// four runs of digits separated by dots.
pub open spec fn looks_like_ipv4(s: Seq<char>) -> bool {
    exists|p1: int, p2: int, p3: int| dotted_quad_at(s, p1, p2, p3)
}

fn is_digit(c: char) -> (b: bool)
    ensures
        b == is_ascii_digit(c),
{
    '0' <= c && c <= '9'
}

/// The address family of IPv4 addresses.
pub const AF_INET: i32 = 2;

/// The address family of IPv6 addresses.
pub const AF_INET6: i32 = 10;

/// The digits of the port text `s`: `s` without the one leading `+` it may have.
pub open spec fn port_digits(s: Seq<char>) -> Seq<char> {
    if s.len() > 0 && s[0] == '+' {
        s.drop_first()
    } else {
        s
    }
}

/// Whether `s` is the decimal text of a port number: an optional `+`, then at least one
/// ASCII digit and nothing else, denoting at most 65535.
pub open spec fn is_port_text(s: Seq<char>) -> bool {
    let d = port_digits(s);
    &&& d.len() > 0
    &&& forall|k: int| 0 <= k < d.len() ==> is_ascii_digit(#[trigger] d[k])
    &&& decimal_value(d) <= 65535
}

/// The port number that the port text `s` denotes.
pub open spec fn port_value(s: Seq<char>) -> nat {
    decimal_value(port_digits(s))
}

/// The value of the ASCII digit `c`.
fn digit_of(c: char) -> (d: u32)
    requires
        is_ascii_digit(c),
    ensures
        d == digit_value(c),
{
    if c == '1' { 1 }
    else if c == '2' { 2 }
    else if c == '3' { 3 }
    else if c == '4' { 4 }
    else if c == '5' { 5 }
    else if c == '6' { 6 }
    else if c == '7' { 7 }
    else if c == '8' { 8 }
    else if c == '9' { 9 }
    else { 0 }
}

/// Parses the decimal text of a port number, as a 16-bit unsigned integer is parsed from
/// text: an optional `+`, then ASCII digits denoting at most 65535.
pub fn parse_port(s: &str) -> (r: Option<u16>)
    ensures
        is_port_text(s@) ==> r == Some(port_value(s@) as u16),
        !is_port_text(s@) ==> r is None,
{
    let c = chars_of(s);
    let n = c.len();
    let start: usize = if n > 0 && c[0] == '+' { 1 } else { 0 };
    let ghost d = port_digits(c@);
    assert(d =~= c@.subrange(start as int, n as int));
    if start == n {
        return None;
    }
    let mut value: u32 = 0;
    let mut i: usize = start;
    while i < n
        invariant
            c@ == s@,
            n == c@.len(),
            start <= i <= n,
            d == c@.subrange(start as int, n as int),
            d == port_digits(s@),
            forall|k: int| start <= k < i ==> is_ascii_digit(#[trigger] c@[k]),
            value == if decimal_value(c@.subrange(start as int, i as int)) <= 65535 {
                decimal_value(c@.subrange(start as int, i as int))
            } else {
                65536
            },
        decreases n - i,
    {
        if !is_digit(c[i]) {
            assert(d[i - start] == c@[i as int]);
            return None;
        }
        let ghost before = c@.subrange(start as int, i as int);
        let ghost after = c@.subrange(start as int, i + 1);
        assert(after.drop_last() =~= before);
        assert(after.last() == c@[i as int]);
        let v = digit_of(c[i]);
        if value > 65535 {
            value = 65536;
        } else {
            value = value * 10 + v;
            if value > 65535 {
                value = 65536;
            }
        }
        i = i + 1;
    }
    assert(c@.subrange(start as int, n as int) == d);
    assert forall|k: int| 0 <= k < d.len() implies is_ascii_digit(#[trigger] d[k]) by {
        assert(d[k] == c@[start + k]);
    }
    if value > 65535 {
        None
    } else {
        Some(value as u16)
    }
}

/// A port rendered in decimal is read back as the same port.
pub proof fn lemma_port_text_round_trip(p: u16)
    ensures
        is_port_text(decimal(p as nat)),
        port_value(decimal(p as nat)) == p,
{
    lemma_decimal_chars_are_digits(p as nat);
    lemma_decimal_round_trip(p as nat);
    assert(decimal(p as nat)[0] != '+');
    assert(port_digits(decimal(p as nat)) == decimal(p as nat));
}

/// The end of the run of ASCII digits in `c` that starts at `start`: the first position
/// from `start` on that holds no digit, or the length of `c`.
fn digit_run_end(c: &Vec<char>, start: usize) -> (e: usize)
    requires
        start <= c@.len(),
    ensures
        start <= e <= c@.len(),
        digits_between(c@, start as int, e as int),
        e < c@.len() ==> !is_ascii_digit(c@[e as int]),
{
    let mut e = start;
    while e < c.len() && is_digit(c[e])
        invariant
            start <= e <= c@.len(),
            digits_between(c@, start as int, e as int),
        decreases c@.len() - e,
    {
        e = e + 1;
    }
    e
}

/// A run of digits between two dots ends at the second dot: once the dot at `p1` is
/// given, the other two dots of a dotted-decimal match are the ends of the digit runs that
/// follow.
proof fn lemma_dots_are_run_ends(s: Seq<char>, p1: int, p2: int, p3: int, r2: int, r3: int)
    requires
        dotted_quad_at(s, p1, p2, p3),
        p1 + 1 <= r2 <= s.len(),
        digits_between(s, p1 + 1, r2),
        r2 < s.len() ==> !is_ascii_digit(s[r2]),
        r2 + 1 <= r3 <= s.len(),
        digits_between(s, r2 + 1, r3),
        r3 < s.len() ==> !is_ascii_digit(s[r3]),
    ensures
        p2 == r2,
        p3 == r3,
{
    if p2 < r2 {
        assert(is_ascii_digit(s[p2]));
    }
    if r2 < p2 {
        assert(is_ascii_digit(s[r2]));
    }
    if p3 < r3 {
        assert(is_ascii_digit(s[p3]));
    }
    if r3 < p3 {
        assert(is_ascii_digit(s[r3]));
    }
}

/// Decides whether the host text `host` holds an IPv4 address in dotted-decimal form.
pub fn is_ipv4_shaped(host: &str) -> (b: bool)
    ensures
        b == looks_like_ipv4(host@),
{
    let c = chars_of(host);
    let n = c.len();
    let mut p1: usize = 1;
    while p1 < n
        invariant
            c@ == host@,
            n == c@.len(),
            1 <= p1,
            forall|q1: int, q2: int, q3: int| q1 < p1 ==> !dotted_quad_at(c@, q1, q2, q3),
        decreases n - p1,
    {
        if c[p1] == '.' && is_digit(c[p1 - 1]) {
            let r2 = digit_run_end(&c, p1 + 1);
            if r2 > p1 + 1 && r2 < n && c[r2] == '.' {
                let r3 = digit_run_end(&c, r2 + 1);
                if r3 > r2 + 1 && r3 < n - 1 && c[r3] == '.' && is_digit(c[r3 + 1]) {
                    assert(dotted_quad_at(c@, p1 as int, r2 as int, r3 as int));
                    return true;
                }
                assert forall|q2: int, q3: int| !dotted_quad_at(c@, p1 as int, q2, q3) by {
                    if dotted_quad_at(c@, p1 as int, q2, q3) {
                        lemma_dots_are_run_ends(c@, p1 as int, q2, q3, r2 as int, r3 as int);
                    }
                }
            } else {
                assert forall|q2: int, q3: int| !dotted_quad_at(c@, p1 as int, q2, q3) by {
                    if dotted_quad_at(c@, p1 as int, q2, q3) {
                        if q2 < r2 {
                            assert(is_ascii_digit(c@[q2]));
                        }
                        if r2 < q2 {
                            assert(is_ascii_digit(c@[r2 as int]));
                        }
                    }
                }
            }
        }
        p1 = p1 + 1;
    }
    false
}

/// An IPv4 socket address.
///
/// An IPv4 socket address consists of an IPv4 address as a string in dotted-decimal format
/// and 16-bit port number.
///
/// See [`SocketAddr`] for a type that can represent either IPv4 or IPv6 addresses.
#[derive(Clone, Debug)]
pub struct SocketAddrV4 {
    host: String,
    port: u16,
}

impl SocketAddrV4 {
    /// The host text of this address.
    pub closed spec fn spec_host(&self) -> Seq<char> {
        self.host@
    }

    /// The port of this address.
    pub closed spec fn spec_port(&self) -> u16 {
        self.port
    }

    /// Creates an address from a host text and a port.
    pub fn new(host: String, port: u16) -> (a: Self)
        ensures
            a.spec_host() == host@,
            a.spec_port() == port,
    {
        Self { host, port }
    }

    /// Returns the host text.
    pub fn host(&self) -> (h: &str)
        ensures
            h@ == self.spec_host(),
    {
        self.host.as_str()
    }

    /// Returns the port.
    pub fn port(&self) -> (p: u16)
        ensures
            p == self.spec_port(),
    {
        self.port
    }

    /// Renders the address as `host:port`.
    pub fn to_string(&self) -> (s: String)
        ensures
            s@ == self.spec_host() + ":"@ + decimal(self.spec_port() as nat),
    {
        let mut s = String::from_str(self.host.as_str());
        s.append(":");
        let p = to_decimal(self.port as u64);
        s.append(p.as_str());
        s
    }
}

/// An IPv6 socket address.
///
/// An IPv6 socket address consists of an IPv6 address as a string in colon-delimited
/// hexadecimal format and 16-bit port number.
///
/// See [`SocketAddr`] for a type that can represent either IPv4 or IPv6 addresses.
#[derive(Clone, Debug)]
pub struct SocketAddrV6 {
    host: String,
    port: u16,
}

impl SocketAddrV6 {
    /// The host text of this address.
    pub closed spec fn spec_host(&self) -> Seq<char> {
        self.host@
    }

    /// The port of this address.
    pub closed spec fn spec_port(&self) -> u16 {
        self.port
    }

    /// Creates an address from a host text and a port.
    pub fn new(host: String, port: u16) -> (a: Self)
        ensures
            a.spec_host() == host@,
            a.spec_port() == port,
    {
        Self { host, port }
    }

    /// Returns the host text.
    pub fn host(&self) -> (h: &str)
        ensures
            h@ == self.spec_host(),
    {
        self.host.as_str()
    }

    /// Returns the port.
    pub fn port(&self) -> (p: u16)
        ensures
            p == self.spec_port(),
    {
        self.port
    }

    /// Renders the address as `[host]:port`.
    pub fn to_string(&self) -> (s: String)
        ensures
            s@ == "["@ + self.spec_host() + "]:"@ + decimal(self.spec_port() as nat),
    {
        let mut s = String::from_str("[");
        s.append(self.host.as_str());
        s.append("]:");
        let p = to_decimal(self.port as u64);
        s.append(p.as_str());
        s
    }
}

/// An Internet socket address, either IPv4 or IPv6.
#[derive(Clone, Debug)]
pub enum SocketAddr {
    V4(SocketAddrV4),
    V6(SocketAddrV6),
}

impl SocketAddr {
    /// The host text of this address.
    pub open spec fn spec_host(&self) -> Seq<char> {
        match self {
            SocketAddr::V4(a) => a.spec_host(),
            SocketAddr::V6(a) => a.spec_host(),
        }
    }

    /// The port of this address.
    pub open spec fn spec_port(&self) -> u16 {
        match self {
            SocketAddr::V4(a) => a.spec_port(),
            SocketAddr::V6(a) => a.spec_port(),
        }
    }

    /// The text form of this address: `host:port` for IPv4 and `[host]:port` for IPv6.
    pub open spec fn spec_text(&self) -> Seq<char> {
        match self {
            SocketAddr::V4(a) => a.spec_host() + ":"@ + decimal(a.spec_port() as nat),
            SocketAddr::V6(a) => "["@ + a.spec_host() + "]:"@ + decimal(a.spec_port() as nat),
        }
    }

    /// Creates a new `SocketAddr` from a string containing an IPv4 or IPv6 address.
    ///
    /// The address is taken as IPv4 when its host text has the dotted shape of an IPv4
    /// address, and as IPv6 otherwise.
    pub fn new(host: String, port: u16) -> (a: Self)
        ensures
            a.spec_host() == host@,
            a.spec_port() == port,
            a is V4 <==> looks_like_ipv4(host@),
    {
        if is_ipv4_shaped(host.as_str()) {
            SocketAddr::V4(SocketAddrV4::new(host, port))
        } else {
            SocketAddr::V6(SocketAddrV6::new(host, port))
        }
    }

    /// Creates a socket address from what name resolution reports for one of its results:
    /// the address family, and the numeric host and service texts.
    ///
    /// The family must be IPv4 or IPv6 and the service text a port number; the operation
    /// panics otherwise, which the precondition refuses.
    pub fn from_name_info(family: i32, host: String, serv: &str) -> (a: Self)
        requires
            family == AF_INET || family == AF_INET6,
            is_port_text(serv@),
        ensures
            a is V4 <==> family == AF_INET,
            a.spec_host() == host@,
            a.spec_port() == port_value(serv@),
    {
        let port = match parse_port(serv) {
            Some(p) => p,
            None => vstd::pervasive::unreached(),
        };
        if family == AF_INET {
            SocketAddr::V4(SocketAddrV4::new(host, port))
        } else {
            SocketAddr::V6(SocketAddrV6::new(host, port))
        }
    }

    /// Returns the IP address associated with this socket address.
    pub fn ip(&self) -> (h: &str)
        ensures
            h@ == self.spec_host(),
    {
        match self {
            SocketAddr::V4(addr) => addr.host(),
            SocketAddr::V6(addr) => addr.host(),
        }
    }

    /// Returns the port associated with this socket address.
    pub fn port(&self) -> (p: u16)
        ensures
            p == self.spec_port(),
    {
        match self {
            SocketAddr::V4(addr) => addr.port(),
            SocketAddr::V6(addr) => addr.port(),
        }
    }

    /// Returns whether this socket address contains an IPv4 address.
    pub fn is_iv4(&self) -> (b: bool)
        ensures
            b == self is V4,
    {
        matches!(self, SocketAddr::V4(_))
    }

    /// Returns whether this socket address contains an IPv6 address.
    pub fn is_iv6(&self) -> (b: bool)
        ensures
            b == self is V6,
    {
        matches!(self, SocketAddr::V6(_))
    }

    /// Renders the address: `host:port` for IPv4 and `[host]:port` for IPv6.
    pub fn to_string(&self) -> (s: String)
        ensures
            s@ == self.spec_text(),
    {
        match self {
            SocketAddr::V4(addr) => addr.to_string(),
            SocketAddr::V6(addr) => addr.to_string(),
        }
    }
}

/// Whether `s[st..]` can be the service part of `host:service`: at least one character, and
/// no line feed.
pub open spec fn service_ok(s: Seq<char>, st: int) -> bool {
    &&& 0 <= st < s.len()
    &&& forall|k: int| st <= k < s.len() ==> s[k] != '\n'
}

/// Where the service starts when `host:service` text `s` is split with the host taken as
/// `s[p..e]`, following the pattern `^\[?([^\]]+)\]?:(.+)$`: the host is at least one
/// character and holds no `]`; an optional `]` and a `:` follow it, then the service.
/// `None` when the pattern does not match with that host.
pub open spec fn service_start(s: Seq<char>, p: int, e: int) -> Option<int> {
    if !(0 <= p < e <= s.len() && forall|k: int| p <= k < e ==> s[k] != ']') {
        None
    } else if e < s.len() && s[e] == ']' {
        if e + 1 < s.len() && s[e + 1] == ':' && service_ok(s, e + 2) {
            Some(e + 2)
        } else {
            None
        }
    } else if e < s.len() && s[e] == ':' && service_ok(s, e + 1) {
        Some(e + 1)
    } else {
        None
    }
}

/// Whether some host starting at `p` splits `s`.
pub open spec fn splits_from(s: Seq<char>, p: int) -> bool {
    exists|e: int| #[trigger] service_start(s, p, e) is Some
}

/// Whether `s` starts with `[`.
pub open spec fn bracketed(s: Seq<char>) -> bool {
    s.len() > 0 && s[0] == '['
}

/// Whether the pattern `^\[?([^\]]+)\]?:(.+)$` captures the host `s[p..e]`: the opening
/// `[` is consumed when that leads to a match, and the host is the longest that matches.
pub open spec fn chosen_split(s: Seq<char>, p: int, e: int) -> bool {
    &&& service_start(s, p, e) is Some
    &&& forall|e2: int| e < e2 ==> service_start(s, p, e2) is None
    &&& ((p == 1 && bracketed(s)) || (p == 0 && !(bracketed(s) && splits_from(s, 1))))
}

/// The pattern captures a single split: at most one host is chosen.
pub proof fn lemma_chosen_split_unique(s: Seq<char>, p: int, e: int, p2: int, e2: int)
    requires
        chosen_split(s, p, e),
        chosen_split(s, p2, e2),
    ensures
        p == p2,
        e == e2,
{
    if p == 1 {
        assert(service_start(s, 1, e) is Some);
        assert(splits_from(s, 1));
    }
    if p2 == 1 {
        assert(service_start(s, 1, e2) is Some);
        assert(splits_from(s, 1));
    }
    if e < e2 {
        assert(service_start(s, p, e2) is None);
    }
    if e2 < e {
        assert(service_start(s, p2, e) is None);
    }
}

/// The text form of a socket address splits back into its host and its port in decimal,
/// for a host that is not empty and holds no `]` (and, for IPv4, does not start with `[`).
pub proof fn lemma_text_splits_back(a: SocketAddr)
    requires
        a.spec_host().len() > 0,
        forall|k: int| 0 <= k < a.spec_host().len() ==> #[trigger] a.spec_host()[k] != ']',
        a is V4 ==> a.spec_host()[0] != '[',
    ensures
        exists|p: int, e: int| chosen_split(a.spec_text(), p, e),
        forall|p: int, e: int|
            #[trigger] chosen_split(a.spec_text(), p, e) ==> a.spec_text().subrange(p, e)
                == a.spec_host() && a.spec_text().subrange(
                service_start(a.spec_text(), p, e)->0,
                a.spec_text().len() as int,
            ) == decimal(a.spec_port() as nat),
{
    reveal_strlit(":");
    reveal_strlit("[");
    reveal_strlit("]:");
    let h = a.spec_host();
    let d = decimal(a.spec_port() as nat);
    let t = a.spec_text();
    lemma_decimal_chars_are_digits(a.spec_port() as nat);
    let hl = h.len() as int;
    let n = t.len() as int;
    let (p, e, st) = if a is V4 {
        assert(t =~= h + seq![':'] + d);
        (0int, hl, hl + 1)
    } else {
        assert(t =~= seq!['['] + h + seq![']', ':'] + d);
        (1int, hl + 1, hl + 3)
    };
    assert(forall|k: int| p <= k < e ==> t[k] == h[k - p]);
    assert(forall|k: int| st <= k < n ==> t[k] == d[k - st]);
    assert(service_ok(t, st));
    assert(service_start(t, p, e) == Some(st));
    assert forall|e2: int| e < e2 implies service_start(t, p, e2) is None by {
        if a is V4 {
            if e2 < n {
                assert(t[e2] == d[e2 - st]);
            }
        } else {
            if e2 <= n {
                assert(t[e] == ']');
            }
        }
    }
    if a is V6 {
        assert(bracketed(t));
    } else {
        assert(t[0] == h[0]);
        assert(!bracketed(t));
    }
    assert(chosen_split(t, p, e));
    assert(t.subrange(p, e) =~= h);
    assert(t.subrange(st, n) =~= d);
    assert forall|p2: int, e2: int| #[trigger] chosen_split(t, p2, e2) implies t.subrange(p2, e2)
        == h && t.subrange(service_start(t, p2, e2)->0, n) == d by {
        lemma_chosen_split_unique(t, p, e, p2, e2);
    }
}

/// Finds the longest host starting at `p` that splits `c`, with where its service starts.
fn last_split(c: &Vec<char>, p: usize) -> (r: Option<(usize, usize)>)
    requires
        p <= 1,
    ensures
        r matches Some((e, st)) ==> service_start(c@, p as int, e as int) == Some(st as int)
            && forall|e2: int| e < e2 ==> service_start(c@, p as int, e2) is None,
        r is None ==> forall|e: int| service_start(c@, p as int, e) is None,
{
    let n = c.len();
    if p >= n {
        assert forall|e: int| service_start(c@, p as int, e) is None by {}
        return None;
    }
    // The host ends at or before the first `]` from `p` on.
    let mut limit: usize = p;
    while limit < n && c[limit] != ']'
        invariant
            p <= limit <= n,
            n == c.len(),
            forall|k: int| p <= k < limit ==> c@[k] != ']',
        decreases n - limit,
    {
        limit = limit + 1;
    }
    // The service holds no line feed, so it starts at or after `first_ok`.
    let mut first_ok: usize = n;
    while first_ok > 0 && c[first_ok - 1] != '\n'
        invariant
            first_ok <= n,
            n == c.len(),
            forall|k: int| first_ok <= k < n ==> c@[k] != '\n',
        decreases first_ok,
    {
        first_ok = first_ok - 1;
    }
    assert forall|st: int| service_ok(c@, st) <==> first_ok <= st < n by {
        if service_ok(c@, st) && st < first_ok {
            assert(c@[first_ok - 1] == '\n');
        }
    }
    assert forall|e2: int| limit < e2 implies service_start(c@, p as int, e2) is None by {
        if e2 <= n {
            assert(c@[limit as int] == ']');
        }
    }
    let mut e: usize = limit;
    while e > p
        invariant
            p < n,
            p <= e <= limit <= n,
            n == c.len(),
            forall|k: int| p <= k < limit ==> c@[k] != ']',
            forall|st: int| service_ok(c@, st) <==> first_ok <= st < n,
            forall|e2: int| e < e2 ==> service_start(c@, p as int, e2) is None,
        decreases e,
    {
        if e < n && c[e] == ']' {
            if n - e > 2 && c[e + 1] == ':' && first_ok <= e + 2 {
                assert(service_start(c@, p as int, e as int) == Some((e + 2) as int));
                return Some((e, e + 2));
            }
        } else if e < n && c[e] == ':' && n - e > 1 && first_ok <= e + 1 {
            assert(service_start(c@, p as int, e as int) == Some((e + 1) as int));
            return Some((e, e + 1));
        }
        assert(service_start(c@, p as int, e as int) is None);
        e = e - 1;
    }
    assert forall|e2: int| #![auto] service_start(c@, p as int, e2) is None by {
        if e2 > e {
        } else {
        }
    }
    None
}

/// Splits `host:service` text into its host and service, as the pattern
/// `^\[?([^\]]+)\]?:(.+)$` captures them: an IPv6 host may stand in brackets, and the
/// service follows the last `:` that leaves a valid split.
///
/// Returns `None` when the text does not have that form.
pub fn split_host_service(s: &str) -> (r: Option<(String, String)>)
    ensures
        r is None <==> !splits_from(s@, 0) && !(bracketed(s@) && splits_from(s@, 1)),
        r matches Some((h, v)) ==> exists|p: int, e: int|
            #[trigger] chosen_split(s@, p, e) && h@ == s@.subrange(p, e) && v@ == s@.subrange(
                service_start(s@, p, e)->0,
                s@.len() as int,
            ),
{
    let c = chars_of(s);
    let n = c.len();
    if n > 0 && c[0] == '[' {
        match last_split(&c, 1) {
            Some((e, st)) => {
                let host = String::from_str(s.substring_char(1, e));
                let service = String::from_str(s.substring_char(st, n));
                assert(chosen_split(s@, 1, e as int));
                return Some((host, service));
            },
            None => {},
        }
    }
    match last_split(&c, 0) {
        Some((e, st)) => {
            let host = String::from_str(s.substring_char(0, e));
            let service = String::from_str(s.substring_char(st, n));
            assert(chosen_split(s@, 0, e as int));
            Some((host, service))
        },
        None => None,
    }
}

} // verus!
