use crate::error::FaucetError;
use crate::net::{IpAddress, SocketAddress};
use vstd::prelude::*;

verus! {

pub const FNV_OFFSET: u64 = 0xcbf2_9ce4_8422_2325;

pub const FNV_PRIME: u64 = 0x0000_0100_0000_01b3;

/// The `n` bytes of `v`, most significant first.
pub open spec fn be_bytes(v: u128, n: nat) -> Seq<u8> {
    Seq::new(n, |j: int| ((v >> ((8 * (n - 1 - j)) as u128)) & 0xff) as u8)
}

/// The bytes of an address in network order: 4 for IPv4, 16 for IPv6.
pub open spec fn ip_octets(ip: IpAddress) -> Seq<u8> {
    match ip {
        IpAddress::V4(x) => be_bytes(x as u128, 4),
        IpAddress::V6(x) => be_bytes(x, 16),
    }
}

/// One round of 64-bit FNV-1a: xor in the byte, then multiply modulo 2^64.
pub open spec fn fnv_step(h: u64, b: u8) -> u64 {
    (h ^ (b as u64)).wrapping_mul(FNV_PRIME)
}

/// The 64-bit FNV-1a hash of a byte sequence.
pub open spec fn fnv1a(bytes: Seq<u8>) -> u64
    decreases bytes.len(),
{
    if bytes.len() == 0 {
        FNV_OFFSET
    } else {
        fnv_step(fnv1a(bytes.drop_last()), bytes.last())
    }
}

/// The hash of a client address: FNV-1a over its bytes in network order.
pub open spec fn ip_hash_of(ip: IpAddress) -> u64 {
    fnv1a(ip_octets(ip))
}

/// Computes `ip_hash_of(ip)`.
pub fn hash_ip(ip: IpAddress) -> (r: u64)
    ensures
        r == ip_hash_of(ip),
{
    let (v, n): (u128, u32) = match ip {
        IpAddress::V4(x) => (x as u128, 4),
        IpAddress::V6(x) => (x, 16),
    };
    let ghost bytes = be_bytes(v, n as nat);
    let mut h: u64 = FNV_OFFSET;
    let mut j: u32 = 0;
    while j < n
        invariant
            n == 4 || n == 16,
            j <= n,
            bytes == be_bytes(v, n as nat),
            h == fnv1a(bytes.take(j as int)),
        decreases n - j,
    {
        let shift: u32 = 8 * (n - 1 - j);
        assert((v >> shift) & 0xff <= 0xff) by (bit_vector);
        let b: u8 = ((v >> shift) & 0xff) as u8;
        assert(b == bytes[j as int]);
        assert(bytes.take(j as int + 1).drop_last() =~= bytes.take(j as int));
        h = (h ^ (b as u64)).wrapping_mul(FNV_PRIME);
        j = j + 1;
    }
    assert(bytes.take(n as int) =~= bytes);
    h
}

/// Sends each client address to one fixed target, chosen by its hash.
pub struct IpHash {
    targets: Vec<SocketAddress>,
}

impl IpHash {
    /// The targets, in the order they were given.
    pub closed spec fn targets(&self) -> Seq<SocketAddress> {
        self.targets@
    }

    pub open spec fn wf(&self) -> bool {
        self.targets().len() > 0
    }

    /// The target that `ip` is sent to: the hash of `ip` modulo the number of targets.
    pub open spec fn pick(&self, ip: IpAddress) -> SocketAddress {
        self.targets()[(ip_hash_of(ip) as int) % (self.targets().len() as int)]
    }

    /// Builds the strategy over a copy of `targets`; fails when there are none.
    pub fn new(targets: &[SocketAddress]) -> (r: Result<IpHash, FaucetError>)
        ensures
            targets@.len() == 0 <==> r == Err::<IpHash, FaucetError>(FaucetError::NoTargets),
            targets@.len() > 0 ==> r is Ok,
            r is Ok ==> r->Ok_0.wf() && r->Ok_0.targets() == targets@,
    {
        if targets.len() == 0 {
            return Err(FaucetError::NoTargets);
        }
        let mut copy: Vec<SocketAddress> = Vec::new();
        let mut i: usize = 0;
        while i < targets.len()
            invariant
                i <= targets@.len(),
                copy@ == targets@.subrange(0, i as int),
            decreases targets@.len() - i,
        {
            copy.push(targets[i]);
            i = i + 1;
        }
        assert(copy@ == targets@);
        Ok(IpHash { targets: copy })
    }

    /// The target for `ip`; the same address always gets the same target.
    pub fn entry(&self, ip: IpAddress) -> (r: SocketAddress)
        requires
            self.wf(),
        ensures
            r == self.pick(ip),
    {
        let h = hash_ip(ip);
        let i = (h % (self.targets.len() as u64)) as usize;
        self.targets[i]
    }
}

/// Repeated calls of one instance for the same address all return the same target.
pub proof fn lemma_ip_hash_sticky(h: IpHash, ip: IpAddress, results: Seq<SocketAddress>)
    requires
        h.wf(),
        forall|i: int| 0 <= i < results.len() ==> #[trigger] results[i] == h.pick(ip),
    ensures
        forall|i: int, j: int|
            0 <= i < results.len() && 0 <= j < results.len() ==> #[trigger] results[i]
                == #[trigger] results[j],
{
}

/// The target for an address does not depend on the calls made before: two runs
/// over the same targets, with the addresses in any order, send equal addresses
/// to equal targets.
pub proof fn lemma_ip_hash_order_free(
    a: IpHash,
    ips_a: Seq<IpAddress>,
    results_a: Seq<SocketAddress>,
    b: IpHash,
    ips_b: Seq<IpAddress>,
    results_b: Seq<SocketAddress>,
)
    requires
        a.wf(),
        b.targets() == a.targets(),
        results_a.len() == ips_a.len(),
        results_b.len() == ips_b.len(),
        forall|i: int| 0 <= i < ips_a.len() ==> #[trigger] results_a[i] == a.pick(ips_a[i]),
        forall|i: int| 0 <= i < ips_b.len() ==> #[trigger] results_b[i] == b.pick(ips_b[i]),
    ensures
        forall|i: int, j: int|
            0 <= i < ips_a.len() && 0 <= j < ips_b.len() && ips_a[i] == ips_b[j] ==> #[trigger] results_a[i]
                == #[trigger] results_b[j],
{
}

} // verus!
