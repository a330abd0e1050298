//! Message ids for the messages that the server originates: one counter per
//! peer IP address.

use crate::peer::{PeerAddr, PeerIp};
use vstd::prelude::*;

verus! {

/// The counters. A peer that has not been given an id yet has no counter.
#[derive(Debug)]
pub struct MidGen {
    counters: Vec<(PeerIp, u16)>,
}

/// The counters as a map, built from the list of pairs.
spec fn counters_map(pairs: Seq<(PeerIp, u16)>) -> Map<PeerIp, u16>
    decreases pairs.len(),
{
    if pairs.len() == 0 {
        Map::empty()
    } else {
        counters_map(pairs.drop_last()).insert(pairs.last().0, pairs.last().1)
    }
}

/// No IP address stands twice in the list.
spec fn distinct(pairs: Seq<(PeerIp, u16)>) -> bool {
    forall|i: int, j: int| 0 <= i < j < pairs.len() ==> pairs[i].0 != pairs[j].0
}

proof fn lemma_absent(pairs: Seq<(PeerIp, u16)>, ip: PeerIp)
    requires
        forall|i: int| 0 <= i < pairs.len() ==> pairs[i].0 != ip,
    ensures
        !counters_map(pairs).contains_key(ip),
    decreases pairs.len(),
{
    if pairs.len() > 0 {
        let front = pairs.drop_last();
        lemma_absent(front, ip);
    }
}

proof fn lemma_present(pairs: Seq<(PeerIp, u16)>, at: int)
    requires
        distinct(pairs),
        0 <= at < pairs.len(),
    ensures
        counters_map(pairs).contains_key(pairs[at].0),
        counters_map(pairs)[pairs[at].0] == pairs[at].1,
    decreases pairs.len(),
{
    let front = pairs.drop_last();
    if at < pairs.len() - 1 {
        lemma_present(front, at);
    }
}

proof fn lemma_update(pairs: Seq<(PeerIp, u16)>, at: int, value: u16)
    requires
        distinct(pairs),
        0 <= at < pairs.len(),
    ensures
        distinct(pairs.update(at, (pairs[at].0, value))),
        counters_map(pairs.update(at, (pairs[at].0, value))) == counters_map(pairs).insert(
            pairs[at].0,
            value,
        ),
    decreases pairs.len(),
{
    let ip = pairs[at].0;
    let changed = pairs.update(at, (ip, value));
    let front = pairs.drop_last();
    if at == pairs.len() - 1 {
        assert(changed.drop_last() =~= front);
    } else {
        lemma_update(front, at, value);
        assert(changed.drop_last() =~= front.update(at, (ip, value)));
    }
}

impl View for MidGen {
    type V = Map<PeerIp, u16>;

    closed spec fn view(&self) -> Map<PeerIp, u16> {
        counters_map(self.counters@)
    }
}

/// The id that follows `last`: one more, and 0 after 65535.
pub open spec fn spec_following(last: u16) -> u16 {
    if last == u16::MAX {
        0
    } else {
        (last + 1) as u16
    }
}

impl MidGen {
    #[verifier::type_invariant]
    spec fn well_formed(&self) -> bool {
        distinct(self.counters@)
    }

    /// The id that `next` gives for a peer at `ip`: 0 the first time, then
    /// the one that follows the last.
    pub open spec fn spec_next(counters: Map<PeerIp, u16>, ip: PeerIp) -> u16 {
        if counters.contains_key(ip) {
            spec_following(counters[ip])
        } else {
            0
        }
    }

    pub fn new() -> (gen: MidGen)
        ensures
            gen@ == Map::<PeerIp, u16>::empty(),
    {
        MidGen { counters: Vec::new() }
    }

    /// The next message id for the peer at `source`. The counter belongs to
    /// the IP address, whatever the port.
    pub fn next(&mut self, source: PeerAddr) -> (mid: u16)
        ensures
            mid == MidGen::spec_next(old(self)@, source.ip),
            final(self)@ == old(self)@.insert(source.ip, mid),
    {
        proof {
            use_type_invariant(&*self);
        }
        let ip = source.ip();
        let mut i: usize = 0;
        while i < self.counters.len()
            invariant
                i <= self.counters@.len(),
                self.counters@ == old(self).counters@,
                distinct(self.counters@),
                ip == source.ip,
                forall|k: int| 0 <= k < i ==> self.counters@[k].0 != ip,
            decreases self.counters@.len() - i,
        {
            if self.counters[i].0 == ip {
                let mid: u16 = self.counters[i].1.wrapping_add(1);
                proof {
                    lemma_present(self.counters@, i as int);
                    lemma_update(self.counters@, i as int, mid);
                }
                let mut counters: Vec<(PeerIp, u16)> = Vec::new();
                core::mem::swap(&mut self.counters, &mut counters);
                counters[i] = (ip, mid);
                self.counters = counters;
                return mid;
            }
            i += 1;
        }
        proof {
            lemma_absent(self.counters@, ip);
            assert(self.counters@.push((ip, 0u16)).drop_last() =~= self.counters@);
        }
        let mut counters: Vec<(PeerIp, u16)> = Vec::new();
        core::mem::swap(&mut self.counters, &mut counters);
        counters.push((ip, 0));
        self.counters = counters;
        0
    }
}

impl Default for MidGen {
    fn default() -> (gen: MidGen)
        ensures
            gen@ == Map::<PeerIp, u16>::empty(),
    {
        MidGen::new()
    }
}

} // verus!
