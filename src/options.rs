//! Deployment settings: Wi-Fi credentials and the optional fixed address.
//!
//! Every setting arrives as optional text. The resolvers here validate it and
//! say, next to the value, which diagnostic (if any) the caller should log.
use vstd::prelude::*;

verus! {

/// An IPv4 address, as its four octets in network order.
#[derive(Clone, Copy, Debug, PartialEq, Eq, Structural)]
pub struct Ipv4Address {
    pub a: u8,
    pub b: u8,
    pub c: u8,
    pub d: u8,
}

/// The credentials of the access point that the station joins.
#[derive(Debug)]
pub struct StationCredentials {
    pub ssid: String,
    pub password: String,
}

/// What a resolver asks its caller to log.
#[derive(Clone, Copy, Debug, PartialEq, Eq, Structural)]
pub enum Diagnostic {
    /// The SSID or the password is missing: nothing can be joined.
    MissingCredentials,
    /// The device address is set but is no IPv4 address.
    InvalidStaticIp,
    /// The gateway address or the netmask prefix is missing or malformed.
    InvalidGateway,
}

pub open spec fn is_digit(c: char) -> bool {
    '0' <= c && c <= '9'
}

pub open spec fn digit_value(c: char) -> nat {
    (c as nat - '0' as nat) as nat
}

pub open spec fn all_digits(s: Seq<char>) -> bool {
    forall|i: int| 0 <= i < s.len() ==> is_digit(#[trigger] s[i])
}

/// The number that a string of decimal digits writes.
pub open spec fn decimal_value(s: Seq<char>) -> nat
    decreases s.len(),
{
    if s.len() == 0 {
        0
    } else {
        decimal_value(s.drop_last()) * 10 + digit_value(s.last())
    }
}

/// One octet of a dotted-quad address: one to three digits, no leading
/// zero unless the octet is `0` itself, and at most 255.
pub open spec fn is_octet_literal(g: Seq<char>) -> bool {
    &&& 1 <= g.len() <= 3
    &&& all_digits(g)
    &&& (g.len() > 1 ==> g[0] != '0')
    &&& decimal_value(g) <= 255
}

/// `s` splits at the dots `p1 < p2 < p3` into four octet literals.
pub open spec fn ipv4_parts(s: Seq<char>, p1: int, p2: int, p3: int) -> bool {
    &&& 0 <= p1 < p2 < p3 < s.len()
    &&& s[p1] == '.' && s[p2] == '.' && s[p3] == '.'
    &&& is_octet_literal(s.subrange(0, p1))
    &&& is_octet_literal(s.subrange(p1 + 1, p2))
    &&& is_octet_literal(s.subrange(p2 + 1, p3))
    &&& is_octet_literal(s.subrange(p3 + 1, s.len() as int))
}

pub open spec fn is_ipv4_literal(s: Seq<char>) -> bool {
    exists|p1: int, p2: int, p3: int| ipv4_parts(s, p1, p2, p3)
}

/// The address that `s` writes when it splits at `p1`, `p2` and `p3`.
pub open spec fn address_at(s: Seq<char>, p1: int, p2: int, p3: int) -> Ipv4Address {
    Ipv4Address {
        a: decimal_value(s.subrange(0, p1)) as u8,
        b: decimal_value(s.subrange(p1 + 1, p2)) as u8,
        c: decimal_value(s.subrange(p2 + 1, p3)) as u8,
        d: decimal_value(s.subrange(p3 + 1, s.len() as int)) as u8,
    }
}

/// The address that the dotted-quad text `s` writes, if it is one.
pub open spec fn ipv4_of(s: Seq<char>) -> Option<Ipv4Address> {
    if is_ipv4_literal(s) {
        let (p1, p2, p3) = choose|p1: int, p2: int, p3: int| ipv4_parts(s, p1, p2, p3);
        Some(address_at(s, p1, p2, p3))
    } else {
        None
    }
}

/// The digits of an unsigned decimal literal, after an optional `+`.
pub open spec fn unsigned_digits(s: Seq<char>) -> Seq<char> {
    if s.len() > 0 && s[0] == '+' {
        s.drop_first()
    } else {
        s
    }
}

/// The byte that the decimal text `s` writes: an optional `+`, then at least
/// one digit (leading zeros allowed), with a value of at most 255.
pub open spec fn u8_of(s: Seq<char>) -> Option<u8> {
    let d = unsigned_digits(s);
    if d.len() > 0 && all_digits(d) && decimal_value(d) <= 255 {
        Some(decimal_value(d) as u8)
    } else {
        None
    }
}

proof fn lemma_prefix_value_bounded(s: Seq<char>, k: int)
    requires
        0 <= k <= s.len(),
    ensures
        decimal_value(s.take(k)) <= decimal_value(s),
    decreases s.len(),
{
    if k < s.len() {
        assert(s.drop_last().take(k) =~= s.take(k));
        lemma_prefix_value_bounded(s.drop_last(), k);
    } else {
        assert(s.take(k) =~= s);
    }
}

/// The position of the first `.` in `s` at or after `from`.
fn find_dot(s: &str, from: usize) -> (r: Option<usize>)
    requires
        from <= s@.len(),
    ensures
        match r {
            Some(p) => from <= p < s@.len() && s@[p as int] == '.' && forall|i: int|
                from <= i < p ==> s@[i] != '.',
            None => forall|i: int| from <= i < s@.len() ==> s@[i] != '.',
        },
{
    let n = s.unicode_len();
    let mut i: usize = from;
    while i < n
        invariant
            n == s@.len(),
            from <= i <= n,
            forall|j: int| from <= j < i ==> s@[j] != '.',
        decreases n - i,
    {
        if s.get_char(i) == '.' {
            return Some(i);
        }
        i = i + 1;
    }
    None
}

/// Reads the octet literal `s[from..to]`.
fn parse_octet(s: &str, from: usize, to: usize) -> (r: Option<u8>)
    requires
        from <= to <= s@.len(),
    ensures
        r == (if is_octet_literal(s@.subrange(from as int, to as int)) {
            Some(decimal_value(s@.subrange(from as int, to as int)) as u8)
        } else {
            None
        }),
{
    let ghost g = s@.subrange(from as int, to as int);
    if to == from || to - from > 3 {
        return None;
    }
    if to - from > 1 && s.get_char(from) == '0' {
        return None;
    }
    let mut v: u32 = 0;
    let mut i: usize = from;
    while i < to
        invariant
            from <= i <= to <= s@.len(),
            to - from <= 3,
            g == s@.subrange(from as int, to as int),
            all_digits(s@.subrange(from as int, i as int)),
            v == decimal_value(s@.subrange(from as int, i as int)),
            i - from <= 1 ==> v < 10,
            i - from <= 2 ==> v < 100,
            v < 1000,
        decreases to - i,
    {
        let c = s.get_char(i);
        if !('0' <= c && c <= '9') {
            assert(g[i - from] == c);
            return None;
        }
        let ghost prev = s@.subrange(from as int, i as int);
        let ghost next = s@.subrange(from as int, i + 1);
        assert(next.drop_last() =~= prev);
        assert(next =~= prev.push(c));
        assert(all_digits(next)) by {
            assert forall|j: int| 0 <= j < next.len() implies is_digit(#[trigger] next[j]) by {
                if j < prev.len() {
                    assert(next[j] == prev[j]);
                }
            }
        }
        v = v * 10 + (c as u32 - '0' as u32);
        i = i + 1;
    }
    assert(s@.subrange(from as int, to as int) == g);
    if v > 255 {
        return None;
    }
    Some(v as u8)
}

/// Reads a dotted-quad IPv4 address.
pub fn parse_ipv4(s: &str) -> (r: Option<Ipv4Address>)
    ensures
        r == ipv4_of(s@),
{
    let n = s.unicode_len();
    let p1 = match find_dot(s, 0) {
        Some(p) => p,
        None => {
            assert(!is_ipv4_literal(s@));
            return None;
        },
    };
    let p2 = match find_dot(s, p1 + 1) {
        Some(p) => p,
        None => {
            assert forall|q1: int, q2: int, q3: int| !ipv4_parts(s@, q1, q2, q3) by {
                if ipv4_parts(s@, q1, q2, q3) {
                    assert(s@[q2] == '.');
                    lemma_first_dot(s@, 0, p1 as int, q1);
                }
            }
            return None;
        },
    };
    let p3 = match find_dot(s, p2 + 1) {
        Some(p) => p,
        None => {
            assert forall|q1: int, q2: int, q3: int| !ipv4_parts(s@, q1, q2, q3) by {
                if ipv4_parts(s@, q1, q2, q3) {
                    lemma_first_dot(s@, 0, p1 as int, q1);
                    lemma_first_dot(s@, p1 + 1, p2 as int, q2);
                    assert(s@[q3] == '.');
                }
            }
            return None;
        },
    };
    if let Some(p4) = find_dot(s, p3 + 1) {
        assert forall|q1: int, q2: int, q3: int| !ipv4_parts(s@, q1, q2, q3) by {
            if ipv4_parts(s@, q1, q2, q3) {
                lemma_first_dot(s@, 0, p1 as int, q1);
                lemma_first_dot(s@, p1 + 1, p2 as int, q2);
                lemma_first_dot(s@, p2 + 1, p3 as int, q3);
                let last = s@.subrange(q3 + 1, s@.len() as int);
                assert(last[p4 - q3 - 1] == s@[p4 as int]);
            }
        }
        return None;
    }
    let ghost whole = s@;
    let oa = parse_octet(s, 0, p1);
    let ob = parse_octet(s, p1 + 1, p2);
    let oc = parse_octet(s, p2 + 1, p3);
    let od = parse_octet(s, p3 + 1, n);
    proof {
        assert forall|q1: int, q2: int, q3: int| ipv4_parts(whole, q1, q2, q3) implies q1 == p1
            && q2 == p2 && q3 == p3 by {
            lemma_first_dot(whole, 0, p1 as int, q1);
            lemma_first_dot(whole, p1 + 1, p2 as int, q2);
            lemma_first_dot(whole, p2 + 1, p3 as int, q3);
        }
    }
    match (oa, ob, oc, od) {
        (Some(a), Some(b), Some(c), Some(d)) => {
            assert(ipv4_parts(whole, p1 as int, p2 as int, p3 as int));
            Some(Ipv4Address { a, b, c, d })
        },
        _ => {
            assert(!ipv4_parts(whole, p1 as int, p2 as int, p3 as int));
            None
        },
    }
}

/// Where `p` is the first dot at or after `from`, and an octet literal spans
/// `from..q` with a dot at `q`, then `q` is `p`.
proof fn lemma_first_dot(s: Seq<char>, from: int, p: int, q: int)
    requires
        0 <= from <= p < s.len(),
        s[p] == '.',
        forall|i: int| from <= i < p ==> s[i] != '.',
        from <= q < s.len(),
        s[q] == '.',
        all_digits(s.subrange(from, q)),
    ensures
        p == q,
{
    if p < q {
        assert(s.subrange(from, q)[p - from] == s[p]);
    }
}

/// Reads an unsigned decimal byte, as `u8::from_str` does.
pub fn parse_u8(s: &str) -> (r: Option<u8>)
    ensures
        r == u8_of(s@),
{
    let n = s.unicode_len();
    let start: usize = if n > 0 && s.get_char(0) == '+' {
        1
    } else {
        0
    };
    let ghost d = unsigned_digits(s@);
    assert(d =~= s@.subrange(start as int, n as int));
    if start == n {
        return None;
    }
    let mut v: u32 = 0;
    let mut i: usize = start;
    while i < n
        invariant
            start <= i <= n == s@.len(),
            d == s@.subrange(start as int, n as int),
            d == unsigned_digits(s@),
            all_digits(s@.subrange(start as int, i as int)),
            v == decimal_value(s@.subrange(start as int, i as int)),
            v <= 255,
        decreases n - i,
    {
        let c = s.get_char(i);
        if !('0' <= c && c <= '9') {
            assert(d[i - start] == c);
            assert(!all_digits(d));
            return None;
        }
        let ghost prev = s@.subrange(start as int, i as int);
        let ghost next = s@.subrange(start as int, i + 1);
        assert(next.drop_last() =~= prev);
        assert(next =~= prev.push(c));
        assert(all_digits(next)) by {
            assert forall|j: int| 0 <= j < next.len() implies is_digit(#[trigger] next[j]) by {
                if j < prev.len() {
                    assert(next[j] == prev[j]);
                }
            }
        }
        v = v * 10 + (c as u32 - '0' as u32);
        assert(decimal_value(next) == v);
        i = i + 1;
        if v > 255 {
            proof {
                assert(d.take(next.len() as int) =~= next);
                lemma_prefix_value_bounded(d, next.len() as int);
            }
            return None;
        }
    }
    assert(s@.subrange(start as int, n as int) == d);
    Some(v as u8)
}

/// A fixed address for the station interface: its own address, the gateway,
/// and the netmask as a prefix length.
#[derive(Clone, Copy, Debug, PartialEq, Eq, Structural)]
pub struct StaticNetworkConfig {
    pub device_ip: Ipv4Address,
    pub gateway_ip: Ipv4Address,
    pub netmask_prefix_length: u8,
}

/// The text of an optional setting.
pub open spec fn setting_view(s: Option<&str>) -> Option<Seq<char>> {
    match s {
        Some(t) => Some(t@),
        None => None,
    }
}

/// Credentials are given when both settings are present and the SSID is
/// not empty.
pub open spec fn credentials_given(ssid: Option<Seq<char>>, password: Option<Seq<char>>) -> bool {
    &&& ssid is Some
    &&& password is Some
    &&& ssid->Some_0.len() > 0
}

/// The device address and the diagnostic to log: an absent setting gives
/// neither, a malformed one gives only the diagnostic.
pub open spec fn static_ip_resolution(device_ip: Option<Seq<char>>) -> (Option<Ipv4Address>, Option<Diagnostic>) {
    match device_ip {
        None => (None, None),
        Some(s) => match ipv4_of(s) {
            Some(a) => (Some(a), None),
            None => (None, Some(Diagnostic::InvalidStaticIp)),
        },
    }
}

/// The gateway and prefix length, present only when both settings are given
/// and both parse; otherwise a diagnostic.
pub open spec fn gateway_resolution(gateway_ip: Option<Seq<char>>, netmask: Option<Seq<char>>) -> (
    Option<(Ipv4Address, u8)>,
    Option<Diagnostic>,
) {
    match (gateway_ip, netmask) {
        (Some(g), Some(m)) => match (ipv4_of(g), u8_of(m)) {
            (Some(a), Some(n)) => (Some((a, n)), None),
            _ => (None, Some(Diagnostic::InvalidGateway)),
        },
        _ => (None, Some(Diagnostic::InvalidGateway)),
    }
}

/// A fixed address needs all three parts; anything less means DHCP.
pub open spec fn static_config_of(device_ip: Option<Ipv4Address>, gateway: Option<(Ipv4Address, u8)>) -> Option<StaticNetworkConfig> {
    match (device_ip, gateway) {
        (Some(ip), Some((gw, prefix))) => Some(
            StaticNetworkConfig { device_ip: ip, gateway_ip: gw, netmask_prefix_length: prefix },
        ),
        _ => None,
    }
}

/// The station credentials, or `MissingCredentials` when the SSID or the
/// password is absent or the SSID is empty.
pub fn access_point_credentials(ssid: Option<&str>, password: Option<&str>) -> (r: Result<
    StationCredentials,
    Diagnostic,
>)
    ensures
        credentials_given(setting_view(ssid), setting_view(password)) <==> r is Ok,
        r is Ok ==> r->Ok_0.ssid@ == ssid->Some_0@ && r->Ok_0.password@ == password->Some_0@,
        r is Err ==> r->Err_0 == Diagnostic::MissingCredentials,
{
    match (ssid, password) {
        (Some(s), Some(p)) => {
            if s.unicode_len() == 0 {
                return Err(Diagnostic::MissingCredentials);
            }
            Ok(StationCredentials { ssid: s.to_owned(), password: p.to_owned() })
        },
        _ => Err(Diagnostic::MissingCredentials),
    }
}

/// The fixed device address, if it is set and well formed.
pub fn get_device_static_ip_addr(device_ip: Option<&str>) -> (r: (Option<Ipv4Address>, Option<Diagnostic>))
    ensures
        r == static_ip_resolution(setting_view(device_ip)),
        device_ip is Some && ipv4_of(device_ip->Some_0@) is None ==> r == (
            None::<Ipv4Address>,
            Some(Diagnostic::InvalidStaticIp),
        ),
{
    match device_ip {
        None => (None, None),
        Some(s) => match parse_ipv4(s) {
            Some(a) => (Some(a), None),
            None => (None, Some(Diagnostic::InvalidStaticIp)),
        },
    }
}

/// The gateway address and netmask prefix length, if both are set and well
/// formed.
pub fn get_gateway_info(gateway_ip: Option<&str>, netmask: Option<&str>) -> (r: (
    Option<(Ipv4Address, u8)>,
    Option<Diagnostic>,
))
    ensures
        r == gateway_resolution(setting_view(gateway_ip), setting_view(netmask)),
{
    if let (Some(g), Some(m)) = (gateway_ip, netmask) {
        if let (Some(a), Some(n)) = (parse_ipv4(g), parse_u8(m)) {
            return (Some((a, n)), None);
        }
    }
    (None, Some(Diagnostic::InvalidGateway))
}

/// Combines the resolved device address and gateway into a fixed-address
/// configuration, present only when both are.
pub fn static_network_config(device_ip: Option<Ipv4Address>, gateway: Option<(Ipv4Address, u8)>) -> (r: Option<StaticNetworkConfig>)
    ensures
        r == static_config_of(device_ip, gateway),
{
    match (device_ip, gateway) {
        (Some(ip), Some((gw, prefix))) => Some(
            StaticNetworkConfig { device_ip: ip, gateway_ip: gw, netmask_prefix_length: prefix },
        ),
        _ => None,
    }
}

} // verus!
