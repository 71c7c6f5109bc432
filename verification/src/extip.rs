//! Finding the address under which this host is seen from outside.

use vstd::prelude::*;
use vstd::string::StringExecFns;

verus! {

/// Kind of an ICE candidate.
#[derive(Clone, Copy, Debug, PartialEq, Eq, Structural)]
pub enum CandidateType {
    Unspecified,
    Host,
    ServerReflexive,
    PeerReflexive,
    Relay,
}

/// The mapping of the outside address `external` to the local address
/// `host`, as text.
pub open spec fn ip_map(external: Seq<char>, host: Seq<char>) -> Seq<char> {
    external + "/"@ + host
}

/// Collects the local addresses of this host as the ICE agent gathers them,
/// and pairs them with the outside address once that is known.
#[derive(Debug)]
pub struct ExternalIpResolver {
    hosts: Vec<String>,
}

impl ExternalIpResolver {
    /// The local addresses gathered so far, in the order in which they came.
    pub closed spec fn hosts(&self) -> Seq<Seq<char>> {
        self.hosts@.map_values(|host: String| host@)
    }

    /// A resolver that has seen no candidate.
    pub fn new() -> (resolver: ExternalIpResolver)
        ensures
            resolver.hosts().len() == 0,
    {
        ExternalIpResolver { hosts: Vec::new() }
    }

    /// Number of local addresses gathered so far.
    pub fn host_count(&self) -> (count: usize)
        ensures
            count == self.hosts().len(),
    {
        self.hosts.len()
    }

    /// Takes the address of one gathered candidate. A host candidate is
    /// remembered. A server reflexive candidate ends the search: its address
    /// is the outside address, and the result maps it to each local address
    /// remembered, in their order. Any other candidate is passed over.
    pub fn on_candidate(&mut self, address: String, candidate_type: CandidateType) -> (maps:
        Option<Vec<String>>)
        ensures
            match candidate_type {
                CandidateType::Host => maps is None && final(self).hosts() == old(
                    self,
                ).hosts().push(address@),
                CandidateType::ServerReflexive => {
                    &&& final(self).hosts() == old(self).hosts()
                    &&& maps is Some
                    &&& maps.unwrap()@.len() == old(self).hosts().len()
                    &&& forall|i: int|
                        0 <= i < old(self).hosts().len() ==> (#[trigger] maps.unwrap()@[i])@
                            == ip_map(address@, old(self).hosts()[i])
                },
                _ => maps is None && final(self).hosts() == old(self).hosts(),
            },
    {
        match candidate_type {
            CandidateType::Host => {
                self.hosts.push(address);
                assert(self.hosts() =~= old(self).hosts().push(address@));
                None
            },
            CandidateType::ServerReflexive => {
                let mut maps: Vec<String> = Vec::new();
                let mut i: usize = 0;
                while i < self.hosts.len()
                    invariant
                        i <= self.hosts@.len(),
                        maps@.len() == i,
                        forall|k: int|
                            0 <= k < i ==> (#[trigger] maps@[k])@ == ip_map(
                                address@,
                                self.hosts()[k],
                            ),
                    decreases self.hosts@.len() - i,
                {
                    let mut map = address.clone();
                    map.append("/");
                    map.append(self.hosts[i].as_str());
                    maps.push(map);
                    i += 1;
                }
                Some(maps)
            },
            _ => None,
        }
    }
}

} // verus!
