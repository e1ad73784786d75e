//! The protocol-selection rule of a multistream-select exchange.
//!
//! The wire protocol itself — framing, the optimistic `V1Lazy` variant, the
//! byte-level exchange — runs outside over the socket. What is decided here
//! is which protocol the exchange settles on: the dialer proposes its
//! protocols in preference order and the first one the listener accepts
//! wins. [`select_protocol`] computes that choice from the two offered
//! lists; the lemmas pin down that the choice lies in both lists, that the
//! earliest acceptable proposal wins, and that an empty offer always fails.

use vstd::prelude::*;
use crate::protocol::Protocol;
use crate::protocol::names_of;

verus! {

/// Wire variant of the multistream-select exchange.
#[derive(Clone, Copy, Debug, PartialEq, Eq, Structural)]
pub enum Version {
    /// Full negotiation: every message is confirmed.
    V1,
    /// Lazy negotiation: the dialer optimistically settles on its first
    /// protocol and lets the handshake begin before confirmation.
    V1Lazy,
}

/// Role of the local peer in a negotiation: dialers run outbound upgrades,
/// listeners inbound ones.
#[derive(Clone, Copy, Debug, PartialEq, Eq, Structural)]
pub enum Endpoint {
    Dialer,
    Listener,
}

/// Failure of the negotiation step.
#[derive(Clone, Debug, PartialEq, Eq)]
pub enum NegotiationError {
    /// The peers share no protocol.
    Failed,
    /// Framing failure on the negotiation wire, carried as text.
    ProtocolError(String),
}

/// Whether `names` holds `name`.
pub open spec fn contains_name(names: Seq<Seq<char>>, name: Seq<char>) -> bool {
    exists|i: int| 0 <= i < names.len() && names[i] == name
}

/// The first name in `prefer` that `accept` also holds.
pub open spec fn first_common(prefer: Seq<Seq<char>>, accept: Seq<Seq<char>>) -> Option<Seq<char>>
    decreases prefer.len(),
{
    if prefer.len() == 0 {
        None
    } else if contains_name(accept, prefer[0]) {
        Some(prefer[0])
    } else {
        first_common(prefer.drop_first(), accept)
    }
}

/// The negotiated protocol, seen from the local peer: a dialer's proposals
/// are ranked by its own preference order, a listener takes the first of
/// the remote's proposals that it supports itself.
pub open spec fn spec_select(
    endpoint: Endpoint,
    local: Seq<Seq<char>>,
    remote: Seq<Seq<char>>,
) -> Option<Seq<char>> {
    match endpoint {
        Endpoint::Dialer => first_common(local, remote),
        Endpoint::Listener => first_common(remote, local),
    }
}

/// Whether `ps` holds a protocol with the same name as `p`.
pub fn contains_protocol(ps: &Vec<Protocol>, p: &Protocol) -> (r: bool)
    ensures
        r == contains_name(names_of(ps@), p@),
{
    let ghost names = names_of(ps@);
    let mut i: usize = 0;
    while i < ps.len()
        invariant
            i <= ps.len(),
            names == names_of(ps@),
            forall|j: int| 0 <= j < i ==> names[j] != p@,
        decreases ps.len() - i,
    {
        if ps[i] == *p {
            assert(names[i as int] == p@);
            return true;
        }
        i += 1;
    }
    false
}

/// Outcome of a completed negotiation: the protocol both peers settled on,
/// or failure because no proposal was acceptable.
pub fn select_protocol(endpoint: Endpoint, local: &Vec<Protocol>, remote: &Vec<Protocol>) -> (r:
    Result<Protocol, NegotiationError>)
    ensures
        (match spec_select(endpoint, names_of(local@), names_of(remote@)) {
            Some(name) => r matches Ok(p) && p@ == name,
            None => r matches Err(e) && e is Failed,
        }),
{
    match endpoint {
        Endpoint::Dialer => first_match(local, remote),
        Endpoint::Listener => first_match(remote, local),
    }
}

/// The first protocol of `prefer` whose name `accept` also holds.
fn first_match(prefer: &Vec<Protocol>, accept: &Vec<Protocol>) -> (r: Result<
    Protocol,
    NegotiationError,
>)
    ensures
        (match first_common(names_of(prefer@), names_of(accept@)) {
            Some(name) => r matches Ok(p) && p@ == name,
            None => r matches Err(e) && e is Failed,
        }),
{
    let ghost pnames = names_of(prefer@);
    let ghost anames = names_of(accept@);
    let mut i: usize = 0;
    while i < prefer.len()
        invariant
            i <= prefer.len(),
            pnames == names_of(prefer@),
            anames == names_of(accept@),
            forall|j: int| 0 <= j < i ==> !contains_name(anames, pnames[j]),
        decreases prefer.len() - i,
    {
        if contains_protocol(accept, &prefer[i]) {
            proof {
                assert(pnames[i as int] == prefer@[i as int]@);
                lemma_first_common_skip(pnames, anames, i as int);
                assert(pnames.skip(i as int)[0] == pnames[i as int]);
            }
            return Ok(prefer[i].clone());
        }
        i += 1;
    }
    proof {
        lemma_first_common_skip(pnames, anames, prefer.len() as int);
        assert(pnames.skip(prefer.len() as int).len() == 0);
    }
    Err(NegotiationError::Failed)
}

/// When none of the first `i` names of `prefer` is acceptable, the search
/// may as well start at position `i`.
proof fn lemma_first_common_skip(prefer: Seq<Seq<char>>, accept: Seq<Seq<char>>, i: int)
    requires
        0 <= i <= prefer.len(),
        forall|j: int| 0 <= j < i ==> !contains_name(accept, prefer[j]),
    ensures
        first_common(prefer.skip(i), accept) == first_common(prefer, accept),
    decreases i,
{
    if i == 0 {
        assert(prefer.skip(0) =~= prefer);
    } else {
        lemma_first_common_skip(prefer, accept, i - 1);
        let s = prefer.skip(i - 1);
        assert(s[0] == prefer[i - 1]);
        assert(!contains_name(accept, s[0]));
        assert(s.drop_first() =~= prefer.skip(i));
    }
}

/// Whatever the negotiation settles on lies in both offered lists; when it
/// settles on nothing, the two lists share no name at all.
pub proof fn lemma_select_in_offered(prefer: Seq<Seq<char>>, accept: Seq<Seq<char>>)
    ensures
        (match first_common(prefer, accept) {
            Some(name) => contains_name(prefer, name) && contains_name(accept, name),
            None => forall|name: Seq<char>|
                !(contains_name(prefer, name) && contains_name(accept, name)),
        }),
    decreases prefer.len(),
{
    if prefer.len() == 0 {
    } else if contains_name(accept, prefer[0]) {
        assert(contains_name(prefer, prefer[0]));
    } else {
        lemma_select_in_offered(prefer.drop_first(), accept);
        match first_common(prefer.drop_first(), accept) {
            Some(name) => {
                let i = choose|i: int|
                    0 <= i < prefer.drop_first().len() && prefer.drop_first()[i] == name;
                assert(prefer[i + 1] == name);
            },
            None => {
                assert forall|name: Seq<char>|
                    !(contains_name(prefer, name) && contains_name(accept, name)) by {
                    if contains_name(prefer, name) && contains_name(accept, name) {
                        let i = choose|i: int| 0 <= i < prefer.len() && prefer[i] == name;
                        if i == 0 {
                            assert(contains_name(accept, prefer[0]));
                        } else {
                            assert(prefer.drop_first()[i - 1] == name);
                            assert(contains_name(prefer.drop_first(), name));
                        }
                    }
                }
            },
        }
    }
}

/// The earliest acceptable proposal wins: when every name before position
/// `i` is unacceptable and the name at `i` is acceptable, the negotiation
/// settles on the name at `i`.
pub proof fn lemma_select_prefers_earliest(prefer: Seq<Seq<char>>, accept: Seq<Seq<char>>, i: int)
    requires
        0 <= i < prefer.len(),
        contains_name(accept, prefer[i]),
        forall|j: int| 0 <= j < i ==> !contains_name(accept, prefer[j]),
    ensures
        first_common(prefer, accept) == Some(prefer[i]),
{
    lemma_first_common_skip(prefer, accept, i);
    assert(prefer.skip(i)[0] == prefer[i]);
}

/// An empty offered list fails the negotiation outright, in either role.
pub proof fn lemma_empty_offer_fails(endpoint: Endpoint, remote: Seq<Seq<char>>)
    ensures
        spec_select(endpoint, Seq::<Seq<char>>::empty(), remote) is None,
{
    lemma_no_acceptable_name(remote, Seq::<Seq<char>>::empty());
}

/// With an empty acceptable list, no proposal can win.
proof fn lemma_no_acceptable_name(prefer: Seq<Seq<char>>, accept: Seq<Seq<char>>)
    requires
        accept.len() == 0,
    ensures
        first_common(prefer, accept) is None,
    decreases prefer.len(),
{
    if prefer.len() > 0 {
        lemma_no_acceptable_name(prefer.drop_first(), accept);
    }
}

} // verus!
