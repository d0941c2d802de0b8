use crate::error::FaucetError;
use crate::ip_extractor::IpExtractor;
use crate::ip_hash::{ip_hash_of, IpHash};
use crate::net::{IpAddress, SocketAddress};
use crate::round_robin::RoundRobin;
use vstd::prelude::*;
use vstd::string::StrSliceExecFns;

verus! {

/// The ways a target can be chosen.
#[derive(Clone, Copy, Debug, PartialEq, Eq, Structural)]
pub enum Strategy {
    RoundRobin,
    IpHash,
}

/// The strategy that a configuration token names: `round_robin` or `ip_hash`.
pub open spec fn strategy_of(s: Seq<char>) -> Option<Strategy> {
    if s == "round_robin"@ {
        Some(Strategy::RoundRobin)
    } else if s == "ip_hash"@ {
        Some(Strategy::IpHash)
    } else {
        None
    }
}

/// Whether `s` and `t` hold the same characters.
fn same_text(s: &str, t: &str) -> (r: bool)
    ensures
        r == (s@ == t@),
{
    let n = s.unicode_len();
    if n != t.unicode_len() {
        return false;
    }
    let mut i: usize = 0;
    while i < n
        invariant
            n == s@.len() == t@.len(),
            i <= n,
            s@.subrange(0, i as int) == t@.subrange(0, i as int),
        decreases n - i,
    {
        if s.get_char(i) != t.get_char(i) {
            return false;
        }
        assert(s@.subrange(0, i + 1) =~= s@.subrange(0, i as int).push(s@[i as int]));
        assert(t@.subrange(0, i + 1) =~= t@.subrange(0, i as int).push(t@[i as int]));
        i = i + 1;
    }
    assert(s@ =~= s@.subrange(0, n as int));
    assert(t@ =~= t@.subrange(0, n as int));
    true
}

impl Strategy {
    /// Reads a configuration token; any token but the two names is refused.
    pub fn from_str(s: &str) -> (r: Result<Strategy, FaucetError>)
        ensures
            r == (match strategy_of(s@) {
                Some(k) => Ok::<Strategy, FaucetError>(k),
                None => Err(FaucetError::UnknownStrategy),
            }),
    {
        if same_text(s, "round_robin") {
            Ok(Strategy::RoundRobin)
        } else if same_text(s, "ip_hash") {
            Ok(Strategy::IpHash)
        } else {
            Err(FaucetError::UnknownStrategy)
        }
    }
}

/// A built strategy, with its targets and state.
pub enum Balancer {
    RoundRobin(RoundRobin),
    IpHash(IpHash),
}

impl Balancer {
    pub open spec fn kind(&self) -> Strategy {
        match self {
            Balancer::RoundRobin(_) => Strategy::RoundRobin,
            Balancer::IpHash(_) => Strategy::IpHash,
        }
    }

    pub open spec fn targets(&self) -> Seq<SocketAddress> {
        match self {
            Balancer::RoundRobin(b) => b.targets(),
            Balancer::IpHash(b) => b.targets(),
        }
    }

    pub open spec fn wf(&self) -> bool {
        match self {
            Balancer::RoundRobin(b) => b.wf(),
            Balancer::IpHash(b) => b.wf(),
        }
    }
}

/// Picks a backend for each connection: finds the client's address, then asks
/// the strategy for a target.
pub struct LoadBalancer {
    strategy: Balancer,
    extractor: IpExtractor,
}

impl LoadBalancer {
    pub closed spec fn balancer(&self) -> &Balancer {
        &self.strategy
    }

    pub closed spec fn extractor(&self) -> IpExtractor {
        self.extractor
    }

    pub open spec fn kind(&self) -> Strategy {
        self.balancer().kind()
    }

    /// The fixed list of targets the strategy chooses among.
    pub open spec fn targets(&self) -> Seq<SocketAddress> {
        self.balancer().targets()
    }

    pub open spec fn wf(&self) -> bool {
        self.balancer().wf()
    }

    /// The index of the target that the next call of `get_client` returns, for
    /// round robin.
    pub open spec fn next_index(&self) -> nat {
        match self.balancer() {
            Balancer::RoundRobin(b) => b.next(),
            Balancer::IpHash(_) => 0,
        }
    }

    /// Builds the balancer over the addresses of `workers`, in their order; fails
    /// when there are none.
    pub fn new(strategy: Strategy, extractor: IpExtractor, workers: &[SocketAddress]) -> (r: Result<
        LoadBalancer,
        FaucetError,
    >)
        ensures
            workers@.len() == 0 <==> r == Err::<LoadBalancer, FaucetError>(FaucetError::NoTargets),
            workers@.len() > 0 ==> r is Ok,
            r is Ok ==> {
                let lb = r->Ok_0;
                &&& lb.wf()
                &&& lb.kind() == strategy
                &&& lb.extractor() == extractor
                &&& lb.targets() == workers@
                &&& lb.next_index() == 0
            },
    {
        let strategy = match strategy {
            Strategy::RoundRobin => match RoundRobin::new(workers) {
                Ok(b) => Balancer::RoundRobin(b),
                Err(e) => return Err(e),
            },
            Strategy::IpHash => match IpHash::new(workers) {
                Ok(b) => Balancer::IpHash(b),
                Err(e) => return Err(e),
            },
        };
        Ok(LoadBalancer { strategy, extractor })
    }

    /// The target for a connection from `ip`. Round robin takes the targets in
    /// turn and ignores `ip`; ip hash sends each address to one fixed target.
    pub fn get_client(&mut self, ip: IpAddress) -> (r: SocketAddress)
        requires
            old(self).wf(),
        ensures
            final(self).wf(),
            final(self).kind() == old(self).kind(),
            final(self).targets() == old(self).targets(),
            final(self).extractor() == old(self).extractor(),
            old(self).kind() == Strategy::RoundRobin ==> {
                &&& r == old(self).targets()[old(self).next_index() as int]
                &&& final(self).next_index() == (old(self).next_index() + 1) % old(
                    self,
                ).targets().len()
            },
            old(self).kind() == Strategy::IpHash ==> r == old(self).targets()[(ip_hash_of(ip) as int)
                % (old(self).targets().len() as int)],
    {
        match &mut self.strategy {
            Balancer::RoundRobin(b) => b.entry(ip),
            Balancer::IpHash(b) => b.entry(ip),
        }
    }

    /// The client's address for a connection from `socket`, given what the
    /// extractor's header held (see `IpExtractor::extract`).
    pub fn extract_ip(&self, header_ip: Option<IpAddress>, socket: SocketAddress) -> (r: IpAddress)
        ensures
            r == self.extractor().client_ip(header_ip, socket),
    {
        self.extractor.extract(header_ip, socket)
    }

    /// The extractor this balancer reads client addresses with.
    pub fn ip_extractor(&self) -> (r: IpExtractor)
        ensures
            r == self.extractor(),
    {
        self.extractor
    }
}

} // verus!
