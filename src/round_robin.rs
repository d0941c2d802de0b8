use crate::error::FaucetError;
use crate::net::{IpAddress, SocketAddress};
use vstd::prelude::*;

verus! {

/// Hands out the targets in turn, whatever address the request came from.
pub struct RoundRobin {
    targets: Vec<SocketAddress>,
    next: usize,
}

impl RoundRobin {
    /// The targets, in the order they were given.
    pub closed spec fn targets(&self) -> Seq<SocketAddress> {
        self.targets@
    }

    /// The index of the target that the next call picks.
    pub closed spec fn next(&self) -> nat {
        self.next as nat
    }

    pub open spec fn wf(&self) -> bool {
        &&& self.targets().len() > 0
        &&& self.next() < self.targets().len()
    }

    /// Builds the strategy over a copy of `targets`; fails when there are none.
    pub fn new(targets: &[SocketAddress]) -> (r: Result<RoundRobin, FaucetError>)
        ensures
            targets@.len() == 0 <==> r == Err::<RoundRobin, FaucetError>(FaucetError::NoTargets),
            targets@.len() > 0 ==> r is Ok,
            r is Ok ==> r->Ok_0.wf() && r->Ok_0.targets() == targets@ && r->Ok_0.next() == 0,
    {
        if targets.len() == 0 {
            return Err(FaucetError::NoTargets);
        }
        let mut copy: Vec<SocketAddress> = Vec::new();
        let mut i: usize = 0;
        while i < targets.len()
            invariant
                i <= targets@.len(),
                copy@ == targets@.subrange(0, i as int),
            decreases targets@.len() - i,
        {
            copy.push(targets[i]);
            i = i + 1;
        }
        assert(copy@ == targets@);
        Ok(RoundRobin { targets: copy, next: 0 })
    }

    /// Picks the next target in turn; `ip` plays no part.
    pub fn entry(&mut self, _ip: IpAddress) -> (r: SocketAddress)
        requires
            old(self).wf(),
        ensures
            final(self).wf(),
            final(self).targets() == old(self).targets(),
            r == old(self).targets()[old(self).next() as int],
            final(self).next() == (old(self).next() + 1) % old(self).targets().len(),
    {
        let r = self.targets[self.next];
        if self.next == self.targets.len() - 1 {
            proof {
                vstd::arithmetic::div_mod::lemma_mod_self_0(self.targets@.len() as int);
            }
            self.next = 0;
        } else {
            proof {
                vstd::arithmetic::div_mod::lemma_small_mod((self.next + 1) as nat, self.targets@.len());
            }
            self.next = self.next + 1;
        }
        r
    }
}

/// Whether `states` is a run of round robin: each state follows from the one
/// before by a call of `entry`.
pub open spec fn is_round_robin_run(states: Seq<RoundRobin>) -> bool {
    forall|i: int|
        0 <= i < states.len() - 1 ==> {
            &&& (#[trigger] states[i + 1]).targets() == states[i].targets()
            &&& states[i + 1].next() == (states[i].next() + 1) % states[i].targets().len()
        }
}

proof fn lemma_round_robin_prefix(states: Seq<RoundRobin>, n: int)
    requires
        0 <= n < states.len(),
        states[0].wf(),
        states[0].next() == 0,
        is_round_robin_run(states),
    ensures
        forall|i: int|
            0 <= i <= n ==> (#[trigger] states[i]).targets() == states[0].targets() && states[i].next()
                == i % (states[0].targets().len() as int),
    decreases n,
{
    let k = states[0].targets().len() as int;
    if n == 0 {
        vstd::arithmetic::div_mod::lemma_small_mod(0, k as nat);
    } else {
        lemma_round_robin_prefix(states, n - 1);
        let p = n - 1;
        assert(states[p + 1].next() == (states[p].next() as int + 1) % k);
        vstd::arithmetic::div_mod::lemma_add_mod_noop_right(1, p, k);
    }
}

/// From a fresh instance over `k` targets, the call numbered `i` (from zero) picks
/// the target at index `i mod k`, whatever addresses the calls were made for.
/// `states[i]` is the instance before call `i`, and `picks[i]` what that call
/// returned.
pub proof fn lemma_round_robin_cycle(states: Seq<RoundRobin>, picks: Seq<SocketAddress>)
    requires
        states.len() == picks.len() + 1,
        states[0].wf(),
        states[0].next() == 0,
        is_round_robin_run(states),
        forall|i: int|
            0 <= i < picks.len() ==> #[trigger] picks[i] == states[i].targets()[states[i].next() as int],
    ensures
        forall|i: int|
            0 <= i < states.len() ==> (#[trigger] states[i]).targets() == states[0].targets()
                && states[i].next() == i % (states[0].targets().len() as int),
        forall|i: int|
            0 <= i < picks.len() ==> #[trigger] picks[i] == states[0].targets()[i % (states[0].targets().len() as int)],
{
    lemma_round_robin_prefix(states, states.len() - 1);
    assert forall|i: int| 0 <= i < picks.len() implies #[trigger] picks[i] == states[0].targets()[i
        % (states[0].targets().len() as int)] by {
        assert(states[i].targets() == states[0].targets());
    }
}

} // verus!
