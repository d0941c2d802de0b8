use crate::net::{IpAddress, SocketAddress};
use vstd::prelude::*;

verus! {

/// Where the client's address is taken from.
#[derive(Clone, Copy, Debug, PartialEq, Eq, Structural)]
pub enum IpExtractor {
    /// The peer address of the connection; no header is trusted.
    ClientAddr,
    /// The first entry of the `x-forwarded-for` header.
    XForwardedFor,
    /// The whole of the `x-real-ip` header.
    XRealIp,
}

pub open spec fn is_blank(b: u8) -> bool {
    b == 0x20u8 || b == 0x09u8
}

/// The index of the first comma at or after `i`, or the length when there is none.
pub open spec fn comma_from(s: Seq<u8>, i: int) -> int
    decreases s.len() - i,
{
    if i < 0 || i >= s.len() {
        s.len() as int
    } else if s[i] == 0x2cu8 {
        i
    } else {
        comma_from(s, i + 1)
    }
}

/// The first index in `[i, e)` that holds no blank, or `e`.
pub open spec fn skip_blanks(s: Seq<u8>, i: int, e: int) -> int
    decreases e - i,
{
    if i >= e {
        e
    } else if is_blank(s[i]) {
        skip_blanks(s, i + 1, e)
    } else {
        i
    }
}

/// The end of `[lo, e)` once trailing blanks are dropped.
pub open spec fn drop_trailing_blanks(s: Seq<u8>, lo: int, e: int) -> int
    decreases e - lo,
{
    if e <= lo {
        lo
    } else if is_blank(s[e - 1]) {
        drop_trailing_blanks(s, lo, e - 1)
    } else {
        e
    }
}

/// `s` up to its first comma (all of it where `at_comma` is false), without
/// leading or trailing blanks.
pub open spec fn header_entry(s: Seq<u8>, at_comma: bool) -> Seq<u8> {
    let e = if at_comma {
        comma_from(s, 0)
    } else {
        s.len() as int
    };
    let lo = skip_blanks(s, 0, e);
    s.subrange(lo, drop_trailing_blanks(s, lo, e))
}

/// The candidate address text in a header value: the part before the first comma
/// where `at_comma` holds, else the whole value, with blanks trimmed on both sides.
pub fn header_entry_bytes(value: &[u8], at_comma: bool) -> (r: Vec<u8>)
    ensures
        r@ == header_entry(value@, at_comma),
{
    let ghost s = value@;
    let mut e: usize = 0;
    if at_comma {
        while e < value.len() && value[e] != 0x2cu8
            invariant
                e <= s.len(),
                s == value@,
                comma_from(s, e as int) == comma_from(s, 0),
            decreases s.len() - e,
        {
            e = e + 1;
        }
    } else {
        e = value.len();
    }
    let mut lo: usize = 0;
    while lo < e && (value[lo] == 0x20u8 || value[lo] == 0x09u8)
        invariant
            lo <= e <= s.len(),
            s == value@,
            e == (if at_comma { comma_from(s, 0) } else { s.len() as int }),
            skip_blanks(s, lo as int, e as int) == skip_blanks(s, 0, e as int),
        decreases e - lo,
    {
        lo = lo + 1;
    }
    let mut hi: usize = e;
    while hi > lo && (value[hi - 1] == 0x20u8 || value[hi - 1] == 0x09u8)
        invariant
            lo <= hi <= e <= s.len(),
            s == value@,
            lo == skip_blanks(s, 0, e as int),
            drop_trailing_blanks(s, lo as int, hi as int) == drop_trailing_blanks(
                s,
                lo as int,
                e as int,
            ),
        decreases hi - lo,
    {
        hi = hi - 1;
    }
    let mut r: Vec<u8> = Vec::new();
    let mut i: usize = lo;
    while i < hi
        invariant
            lo <= i <= hi <= s.len(),
            s == value@,
            r@ == s.subrange(lo as int, i as int),
        decreases hi - i,
    {
        r.push(value[i]);
        i = i + 1;
    }
    r
}

impl IpExtractor {
    /// The address of the client: the address read from the trusted header where
    /// this mode trusts one and `header_ip` holds it, else the connection's peer.
    pub open spec fn client_ip(self, header_ip: Option<IpAddress>, socket: SocketAddress) -> IpAddress {
        match (self, header_ip) {
            (IpExtractor::ClientAddr, _) => socket.ip,
            (_, Some(ip)) => ip,
            (_, None) => socket.ip,
        }
    }

    /// The header this mode reads, in lower case; none for `ClientAddr`.
    pub fn header_name(self) -> (r: Option<&'static str>)
        ensures
            self is ClientAddr <==> r is None,
            self is XForwardedFor ==> r->0@ == "x-forwarded-for"@,
            self is XRealIp ==> r->0@ == "x-real-ip"@,
    {
        match self {
            IpExtractor::ClientAddr => None,
            IpExtractor::XForwardedFor => Some("x-forwarded-for"),
            IpExtractor::XRealIp => Some("x-real-ip"),
        }
    }

    /// The text in the header's value that should hold the client's address: the
    /// first entry of a forwarded-for list, or the whole real-ip value, trimmed.
    pub fn header_candidate(self, value: &[u8]) -> (r: Vec<u8>)
        ensures
            r@ == header_entry(value@, self is XForwardedFor),
    {
        header_entry_bytes(value, self == IpExtractor::XForwardedFor)
    }

    /// Picks the client's address. `header_ip` is the address parsed from the
    /// header's candidate text, or none where the header is missing or malformed;
    /// then the peer address of `socket` is used instead.
    pub fn extract(self, header_ip: Option<IpAddress>, socket: SocketAddress) -> (r: IpAddress)
        ensures
            r == self.client_ip(header_ip, socket),
    {
        match (self, header_ip) {
            (IpExtractor::ClientAddr, _) => socket.ip,
            (_, Some(ip)) => ip,
            (_, None) => socket.ip,
        }
    }
}

/// Where no header is trusted, the client's address is the connection's peer
/// address, whatever a header held.
pub proof fn lemma_untrusted_uses_peer(header_ip: Option<IpAddress>, socket: SocketAddress)
    ensures
        IpExtractor::ClientAddr.client_ip(header_ip, socket) == socket.ip,
{
}

/// Where a header is trusted and yields an address, that address is the client's,
/// not the peer's.
pub proof fn lemma_trusted_header_wins(e: IpExtractor, ip: IpAddress, socket: SocketAddress)
    requires
        !(e is ClientAddr),
    ensures
        e.client_ip(Some(ip), socket) == ip,
{
}

} // verus!
