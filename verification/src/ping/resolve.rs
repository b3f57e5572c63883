//! Choosing the address to probe among the answers of a name lookup.

use vstd::prelude::*;
use vstd::string::*;

verus! {

/// Which IP version a run is held to.
#[derive(Clone, Copy, Debug, PartialEq, Eq, Structural)]
pub enum IPversion {
    V4,
    V6,
    /// No version is asked for: the first address found decides.
    Unconstrained,
}

/// A socket address as plain numbers: the IP address as one integer in
/// network order of significance, and the port.
#[allow(inconsistent_fields)]
#[derive(Clone, Copy, Debug, PartialEq, Eq, Structural)]
pub enum Destination {
    V4 { ip: u32, port: u16 },
    V6 { ip: u128, port: u16, flowinfo: u32, scope_id: u32 },
}

/// The port that stands in for an unset one.
pub const DEFAULT_PORT: u16 = 80;

impl Destination {
    /// The IP version of this address: never `Unconstrained`.
    pub open spec fn family(self) -> IPversion {
        match self {
            Destination::V4 { .. } => IPversion::V4,
            Destination::V6 { .. } => IPversion::V6,
        }
    }

    pub open spec fn spec_port(&self) -> u16 {
        match *self {
            Destination::V4 { port, .. } => port,
            Destination::V6 { port, .. } => port,
        }
    }

    /// This address with another port.
    pub open spec fn spec_with_port(self, port: u16) -> Destination {
        match self {
            Destination::V4 { ip, .. } => Destination::V4 { ip, port },
            Destination::V6 { ip, flowinfo, scope_id, .. } => Destination::V6 {
                ip,
                port,
                flowinfo,
                scope_id,
            },
        }
    }

    /// This address, with the default port where none is set.
    pub open spec fn or_default_port(self) -> Destination {
        if self.spec_port() == 0 {
            self.spec_with_port(DEFAULT_PORT)
        } else {
            self
        }
    }

    /// The IP version of this address.
    pub fn version(&self) -> (v: IPversion)
        ensures
            v == self.family(),
    {
        match self {
            Destination::V4 { .. } => IPversion::V4,
            Destination::V6 { .. } => IPversion::V6,
        }
    }

    #[verifier::when_used_as_spec(spec_port)]
    pub fn port(&self) -> (p: u16)
        ensures
            p == self.spec_port(),
    {
        match self {
            Destination::V4 { port, .. } => *port,
            Destination::V6 { port, .. } => *port,
        }
    }

    /// Replaces the port and keeps the rest of the address.
    pub fn set_port(&mut self, port: u16)
        ensures
            *final(self) == old(self).spec_with_port(port),
    {
        match *self {
            Destination::V4 { ip, .. } => {
                *self = Destination::V4 { ip, port };
            },
            Destination::V6 { ip, flowinfo, scope_id, .. } => {
                *self = Destination::V6 { ip, port, flowinfo, scope_id };
            },
        }
    }
}

/// Why no address was chosen.
#[derive(Clone, Copy, Debug, PartialEq, Eq, Structural)]
pub enum ResolveError {
    /// Neither form of the lookup was answered.
    InvalidDestination,
    /// The lookup was answered with no address at all.
    UnresolvableDestination,
    /// Addresses were found, none of them of the demanded version.
    NoAddressForFamily(IPversion),
}

/// Whether a run held to `preference` may probe `candidate`.
pub open spec fn admits(preference: IPversion, candidate: Destination) -> bool {
    preference == IPversion::Unconstrained || candidate.family() == preference
}

/// The first of `candidates` that `preference` admits.
pub open spec fn first_admitted(candidates: Seq<Destination>, preference: IPversion) -> Option<
    Destination,
>
    decreases candidates.len(),
{
    if candidates.len() == 0 {
        None
    } else if admits(preference, candidates[0]) {
        Some(candidates[0])
    } else {
        first_admitted(candidates.drop_first(), preference)
    }
}

/// The address to probe: the first candidate that the preference admits,
/// on the default port if it names none.
pub open spec fn chosen(candidates: Seq<Destination>, preference: IPversion) -> Result<
    Destination,
    ResolveError,
> {
    if candidates.len() == 0 {
        Err(ResolveError::UnresolvableDestination)
    } else {
        match first_admitted(candidates, preference) {
            Some(candidate) => Ok(candidate.or_default_port()),
            None => Err(ResolveError::NoAddressForFamily(preference)),
        }
    }
}

/// The preference once an address is chosen: the version of that address.
/// A failed choice leaves it as it was.
pub open spec fn settled(candidates: Seq<Destination>, preference: IPversion) -> IPversion {
    match chosen(candidates, preference) {
        Ok(destination) => destination.family(),
        Err(_) => preference,
    }
}

/// `first_admitted` picks the candidate at the least admitted index, and
/// finds none exactly when no candidate is admitted.
pub proof fn lemma_first_admitted(candidates: Seq<Destination>, preference: IPversion)
    ensures
        match first_admitted(candidates, preference) {
            Some(candidate) => exists|i: int|
                0 <= i < candidates.len() && #[trigger] candidates[i] == candidate && admits(
                    preference,
                    candidate,
                ) && forall|j: int| 0 <= j < i ==> !admits(preference, #[trigger] candidates[j]),
            None => forall|j: int|
                0 <= j < candidates.len() ==> !admits(preference, #[trigger] candidates[j]),
        },
    decreases candidates.len(),
{
    if candidates.len() == 0 {
    } else if admits(preference, candidates[0]) {
        assert(candidates[0] == candidates[0]);
    } else {
        let rest = candidates.drop_first();
        lemma_first_admitted(rest, preference);
        match first_admitted(rest, preference) {
            Some(candidate) => {
                let i = choose|i: int|
                    0 <= i < rest.len() && #[trigger] rest[i] == candidate && admits(
                        preference,
                        candidate,
                    ) && forall|j: int| 0 <= j < i ==> !admits(preference, #[trigger] rest[j]);
                assert(candidates[i + 1] == candidate);
                assert forall|j: int| 0 <= j < i + 1 implies !admits(
                    preference,
                    #[trigger] candidates[j],
                ) by {
                    if j > 0 {
                        assert(rest[j - 1] == candidates[j]);
                    }
                }
            },
            None => {
                assert forall|j: int| 0 <= j < candidates.len() implies !admits(
                    preference,
                    #[trigger] candidates[j],
                ) by {
                    if j > 0 {
                        assert(rest[j - 1] == candidates[j]);
                    }
                }
            },
        }
    }
}

/// A chosen address is one of the candidates, on the default port if it
/// named none; the preference admits it, its port is not 0, and the settled
/// preference is its version. A preference for one version stays as it
/// is. The choice fails exactly when the preference admits no candidate.
pub proof fn lemma_chosen_properties(candidates: Seq<Destination>, preference: IPversion)
    ensures
        chosen(candidates, preference) matches Ok(destination) ==> {
            &&& admits(preference, destination)
            &&& destination.spec_port() != 0
            &&& settled(candidates, preference) == destination.family()
            &&& settled(candidates, preference) != IPversion::Unconstrained
            &&& exists|i: int|
                0 <= i < candidates.len() && destination == (
                #[trigger] candidates[i]).or_default_port()
        },
        preference != IPversion::Unconstrained ==> settled(candidates, preference) == preference,
        chosen(candidates, preference) is Err <==> forall|i: int|
            0 <= i < candidates.len() ==> !admits(preference, #[trigger] candidates[i]),
{
    lemma_first_admitted(candidates, preference);
    if candidates.len() > 0 && preference == IPversion::Unconstrained {
        assert(admits(preference, candidates[0]));
    }
}

/// Picks the address to probe among the answers of a lookup, in the order
/// in which they came.
pub fn choose_destination(candidates: &Vec<Destination>, preference: IPversion) -> (r: Result<
    Destination,
    ResolveError,
>)
    ensures
        r == chosen(candidates@, preference),
{
    if candidates.len() == 0 {
        return Err(ResolveError::UnresolvableDestination);
    }
    let mut i: usize = 0;
    assert(candidates@.skip(0) =~= candidates@);
    while i < candidates.len()
        invariant
            0 <= i <= candidates.len(),
            first_admitted(candidates@, preference) == first_admitted(
                candidates@.skip(i as int),
                preference,
            ),
        decreases candidates.len() - i,
    {
        let candidate = candidates[i];
        let admitted = match preference {
            IPversion::Unconstrained => true,
            IPversion::V4 => candidate.version() == IPversion::V4,
            IPversion::V6 => candidate.version() == IPversion::V6,
        };
        assert(candidates@.skip(i as int)[0] == candidate);
        if admitted {
            let mut destination = candidate;
            if destination.port() == 0 {
                destination.set_port(DEFAULT_PORT);
            }
            return Ok(destination);
        }
        assert(candidates@.skip(i as int).drop_first() =~= candidates@.skip(i + 1));
        i = i + 1;
    }
    assert(candidates@.skip(i as int).len() == 0);
    Err(ResolveError::NoAddressForFamily(preference))
}

} // verus!
