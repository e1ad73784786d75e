//! The upgrade trait surface and the negotiation driver's decisions.
//!
//! An upgrade is a value that enumerates the protocols it supports, in
//! preference order, and — once one of them has been negotiated — performs a
//! handshake over the socket. The handshake itself is asynchronous and runs
//! outside; what is decided here is everything around it: which protocols
//! are offered (malformed names are filtered out), which protocol the
//! negotiation settles on, and how the outcomes of the two steps combine
//! into the upgrade's result — a negotiation failure becomes
//! [`UpgradeError::Select`], a handshake failure [`UpgradeError::Apply`].

use vstd::prelude::*;
use crate::combinators::MapInboundUpgrade;
use crate::combinators::MapInboundUpgradeErr;
use crate::combinators::MapOutboundUpgrade;
use crate::combinators::MapOutboundUpgradeErr;
use crate::combinators::UpgradeProtocols;
use crate::negotiation::Endpoint;
use crate::negotiation::NegotiationError;
use crate::negotiation::Version;
use crate::negotiation::contains_name;
use crate::negotiation::contains_protocol;
use crate::negotiation::lemma_select_in_offered;
use crate::negotiation::select_protocol;
use crate::negotiation::spec_select;
use crate::protocol::Protocol;
use crate::protocol::names_of;
use crate::protocol::valid_protocol_name;

verus! {

/// Types serving as raw protocol names; the returned bytes are transmitted
/// on the network. A valid name starts with `/` and is at most
/// [`crate::protocol::MAX_PROTOCOL_LEN`] bytes long; an enumeration may
/// yield invalid names, which are filtered during an upgrade.
pub trait ProtocolName {
    /// The protocol name as bytes.
    fn protocol_name(&self) -> &[u8];
}

impl ProtocolName for Vec<u8> {
    fn protocol_name(&self) -> &[u8] {
        self.as_slice()
    }
}

impl ProtocolName for Protocol {
    fn protocol_name(&self) -> &[u8] {
        self.as_str().as_bytes()
    }
}

/// Common trait for upgrades that can be applied on inbound substreams,
/// outbound substreams, or both: the enumeration of candidate protocol
/// names, in preference order. The candidates may be malformed — the
/// negotiation driver offers only the ones that pass validation.
pub trait UpgradeInfo {
    /// The candidate names, in preference order.
    spec fn spec_protocol_info(&self) -> Seq<Seq<char>>;

    /// Returns the list of candidate protocols; used during negotiation.
    fn protocol_info(&self) -> (r: Vec<String>)
        ensures
            r@.len() == self.spec_protocol_info().len(),
            forall|i: int| 0 <= i < r@.len() ==> (#[trigger] r@[i])@ == self.spec_protocol_info()[i],
    ;
}

/// The views of a sequence of strings, in the same order.
pub open spec fn str_views(ss: Seq<String>) -> Seq<Seq<char>> {
    ss.map_values(|s: String| s@)
}

/// The simplest enumeration: a list of raw candidate names.
impl UpgradeInfo for Vec<String> {
    open spec fn spec_protocol_info(&self) -> Seq<Seq<char>> {
        str_views(self@)
    }

    fn protocol_info(&self) -> (r: Vec<String>) {
        let mut r: Vec<String> = Vec::new();
        let mut i: usize = 0;
        while i < self.len()
            invariant
                i <= self.len(),
                r@.len() == i,
                forall|j: int| 0 <= j < i ==> (#[trigger] r@[j])@ == str_views(self@)[j],
            decreases self.len() - i,
        {
            r.push(self[i].clone());
            i += 1;
        }
        r
    }
}

/// The candidate names that survive validation, in their original order.
pub open spec fn spec_filter_valid(names: Seq<Seq<char>>) -> Seq<Seq<char>>
    decreases names.len(),
{
    if names.len() == 0 {
        Seq::<Seq<char>>::empty()
    } else {
        let rest = spec_filter_valid(names.drop_last());
        if valid_protocol_name(names.last()) {
            rest.push(names.last())
        } else {
            rest
        }
    }
}

/// Build the list of offered protocols from an enumeration: names that fail
/// validation are dropped (emitting a diagnostic for them is the caller's
/// concern), the remaining ones keep their order.
pub fn filter_malformed_protocols(candidates: &Vec<String>) -> (r: Vec<Protocol>)
    ensures
        names_of(r@) == spec_filter_valid(str_views(candidates@)),
{
    let ghost all = str_views(candidates@);
    let mut r: Vec<Protocol> = Vec::new();
    let mut i: usize = 0;
    while i < candidates.len()
        invariant
            i <= candidates.len(),
            all == str_views(candidates@),
            names_of(r@) == spec_filter_valid(all.take(i as int)),
        decreases candidates.len() - i,
    {
        let ghost prefix = all.take(i as int);
        let candidate = candidates[i].clone();
        proof {
            assert(all.take(i + 1).drop_last() =~= prefix);
            assert(all.take(i + 1).last() == candidate@);
        }
        match Protocol::try_from_owned(candidate) {
            Ok(p) => {
                r.push(p);
                proof {
                    assert(names_of(r@) =~= spec_filter_valid(all.take(i + 1)));
                }
            },
            Err(_) => {
                proof {
                    assert(names_of(r@) == spec_filter_valid(all.take(i + 1)));
                }
            },
        }
        i += 1;
    }
    proof {
        assert(all.take(candidates.len() as int) =~= all);
    }
    r
}

/// The protocols an enumeration supports: its candidates, validated. Every
/// upgrade built on a legacy enumeration offers exactly these.
pub fn to_protocols<U: UpgradeInfo>(u: &U) -> (r: Vec<Protocol>)
    ensures
        names_of(r@) == spec_filter_valid(u.spec_protocol_info()),
{
    let candidates = u.protocol_info();
    proof {
        assert(str_views(candidates@) =~= u.spec_protocol_info());
    }
    filter_malformed_protocols(&candidates)
}

/// Filtering invents nothing: every name that survives validation was
/// among the candidates, and it is valid.
pub proof fn lemma_filtered_are_valid_candidates(names: Seq<Seq<char>>)
    ensures
        forall|n: Seq<char>| #[trigger]
            contains_name(spec_filter_valid(names), n) ==> contains_name(names, n)
                && valid_protocol_name(n),
    decreases names.len(),
{
    if names.len() > 0 {
        lemma_filtered_are_valid_candidates(names.drop_last());
        assert forall|n: Seq<char>| #[trigger]
            contains_name(spec_filter_valid(names), n) implies contains_name(names, n)
            && valid_protocol_name(n) by {
            let filtered = spec_filter_valid(names);
            let rest = spec_filter_valid(names.drop_last());
            let i = choose|i: int| 0 <= i < filtered.len() && filtered[i] == n;
            if valid_protocol_name(names.last()) && i == filtered.len() - 1 {
                assert(n == names.last());
                assert(names[names.len() - 1] == n);
            } else {
                assert(rest[i] == n);
                assert(contains_name(rest, n));
                let j = choose|j: int|
                    0 <= j < names.drop_last().len() && names.drop_last()[j] == n;
                assert(names[j] == n);
            }
        }
    }
}

/// The offered list with later duplicates dropped: each name keeps its
/// first occurrence only, so every name goes on the wire once.
pub open spec fn spec_dedup(names: Seq<Seq<char>>) -> Seq<Seq<char>>
    decreases names.len(),
{
    if names.len() == 0 {
        Seq::<Seq<char>>::empty()
    } else {
        let rest = spec_dedup(names.drop_last());
        if contains_name(rest, names.last()) {
            rest
        } else {
            rest.push(names.last())
        }
    }
}

/// The list of protocols as offered on the negotiation wire: a name offered
/// several times — for instance by both sides of a select — is offered
/// once, at the place of its first occurrence; the order is otherwise kept.
pub fn offered_protocols(protocols: &Vec<Protocol>) -> (r: Vec<Protocol>)
    ensures
        names_of(r@) == spec_dedup(names_of(protocols@)),
{
    let ghost all = names_of(protocols@);
    let mut r: Vec<Protocol> = Vec::new();
    let mut i: usize = 0;
    while i < protocols.len()
        invariant
            i <= protocols.len(),
            all == names_of(protocols@),
            names_of(r@) == spec_dedup(all.take(i as int)),
        decreases protocols.len() - i,
    {
        proof {
            assert(all.take(i + 1).drop_last() =~= all.take(i as int));
            assert(all.take(i + 1).last() == protocols@[i as int]@);
        }
        let seen = contains_protocol(&r, &protocols[i]);
        if !seen {
            let ghost r0 = r@;
            let p = protocols[i].clone();
            r.push(p);
            proof {
                assert(r@ == r0.push(p));
                assert forall|j: int| 0 <= j < r@.len() implies names_of(r@)[j] == spec_dedup(
                    all.take(i + 1),
                )[j] by {
                    if j < r0.len() {
                        assert(names_of(r0)[j] == spec_dedup(all.take(i as int))[j]);
                        assert(r@[j] == r0[j]);
                    } else {
                        assert(j == r0.len());
                        assert(r@[j] == p);
                        assert(spec_dedup(all.take(i + 1)) == spec_dedup(all.take(i as int)).push(
                            all.take(i + 1).last(),
                        ));
                    }
                }
                assert(names_of(r@) =~= spec_dedup(all.take(i + 1)));
            }
        }
        i += 1;
    }
    proof {
        assert(all.take(protocols.len() as int) =~= all);
    }
    r
}

/// Deduplication for the wire changes no memberships: a name is offered
/// after deduplication exactly when some protocol of the list carries it.
pub proof fn lemma_offered_once(names: Seq<Seq<char>>)
    ensures
        forall|name: Seq<char>| #[trigger]
            contains_name(spec_dedup(names), name) == contains_name(names, name),
    decreases names.len(),
{
    if names.len() > 0 {
        lemma_offered_once(names.drop_last());
        assert forall|name: Seq<char>| #[trigger]
            contains_name(spec_dedup(names), name) == contains_name(names, name) by {
            let rest = spec_dedup(names.drop_last());
            if contains_name(names, name) {
                let i = choose|i: int| 0 <= i < names.len() && names[i] == name;
                if i < names.len() - 1 {
                    assert(names.drop_last()[i] == name);
                    assert(contains_name(names.drop_last(), name));
                    lemma_contains_after_push(rest, names.last(), name);
                } else {
                    if contains_name(rest, name) {
                    } else {
                        assert(spec_dedup(names)[spec_dedup(names).len() - 1] == name);
                    }
                }
            } else {
                if contains_name(spec_dedup(names), name) {
                    let i = choose|i: int|
                        0 <= i < spec_dedup(names).len() && spec_dedup(names)[i] == name;
                    if contains_name(rest, names.last()) {
                        assert(contains_name(rest, name));
                    } else {
                        if i < rest.len() {
                            assert(rest[i] == name);
                            assert(contains_name(rest, name));
                        } else {
                            assert(name == names.last());
                            assert(names[names.len() - 1] == name);
                        }
                    }
                    assert(contains_name(names.drop_last(), name) || name == names.last());
                    if contains_name(names.drop_last(), name) {
                        let j = choose|j: int|
                            0 <= j < names.drop_last().len() && names.drop_last()[j] == name;
                        assert(names[j] == name);
                    } else {
                        assert(names[names.len() - 1] == name);
                    }
                }
            }
        }
    }
}

/// A name already offered stays offered when another name is appended.
proof fn lemma_contains_after_push(names: Seq<Seq<char>>, added: Seq<char>, name: Seq<char>)
    requires
        contains_name(names, name),
    ensures
        contains_name(names.push(added), name),
{
    let i = choose|i: int| 0 <= i < names.len() && names[i] == name;
    assert(names.push(added)[i] == name);
}

/// Error that can happen when upgrading a connection or substream.
#[derive(Clone, Debug, PartialEq, Eq)]
pub enum UpgradeError<E> {
    /// The negotiation step failed: no common protocol, or a framing
    /// failure on the negotiation wire.
    Select(NegotiationError),
    /// The handshake after a successful negotiation failed with the
    /// upgrade's own error.
    Apply(E),
}

/// Outcome of the negotiation step of an upgrade: a failure on the wire is
/// wrapped as [`UpgradeError::Select`].
pub fn settle_negotiation<E>(r: Result<Protocol, NegotiationError>) -> (out: Result<
    Protocol,
    UpgradeError<E>,
>)
    ensures
        r matches Ok(p) ==> out matches Ok(q) && q == p,
        r matches Err(e) ==> out == Err::<Protocol, UpgradeError<E>>(UpgradeError::Select(e)),
{
    match r {
        Ok(p) => Ok(p),
        Err(e) => Err(UpgradeError::Select(e)),
    }
}

/// Outcome of the handshake step of an upgrade: the handshake's own failure
/// is wrapped as [`UpgradeError::Apply`], its success is the upgrade's
/// output.
pub fn settle_handshake<O, E>(r: Result<O, E>) -> (out: Result<O, UpgradeError<E>>)
    ensures
        r matches Ok(o) ==> out matches Ok(o2) && o2 == o,
        r matches Err(e) ==> out matches Err(ue) && ue == UpgradeError::<E>::Apply(e),
{
    match r {
        Ok(o) => Ok(o),
        Err(e) => Err(UpgradeError::Apply(e)),
    }
}

/// The negotiation half of applying an upgrade: given the locally offered
/// protocols and the remote's, the protocol the exchange settles on, or a
/// [`UpgradeError::Select`] failure when the peers share none.
pub fn negotiate_upgrade<E>(endpoint: Endpoint, local: &Vec<Protocol>, remote: &Vec<Protocol>) -> (
    r: Result<Protocol, UpgradeError<E>>)
    ensures
        (match spec_select(endpoint, names_of(local@), names_of(remote@)) {
            Some(name) => r matches Ok(p) && p@ == name,
            None => r matches Err(e) && e matches UpgradeError::Select(ne) && ne is Failed,
        }),
{
    settle_negotiation(select_protocol(endpoint, local, remote))
}

/// Extension methods for inbound upgrades, available on every upgrade:
/// wrap it with a transformation of the handshake's output or error.
pub trait InboundUpgradeExt: UpgradeProtocols + Sized {
    /// Wrap `self` so that `f` is applied to the handshake's output.
    fn map_inbound<F>(self, f: F) -> (r: MapInboundUpgrade<Self, F>)
        ensures
            r.upgrade == self,
            r.fun == f,
    ;

    /// Wrap `self` so that `f` is applied to the handshake's error.
    fn map_inbound_err<F>(self, f: F) -> (r: MapInboundUpgradeErr<Self, F>)
        ensures
            r.upgrade == self,
            r.fun == f,
    ;
}

impl<U: UpgradeProtocols> InboundUpgradeExt for U {
    fn map_inbound<F>(self, f: F) -> MapInboundUpgrade<U, F> {
        MapInboundUpgrade::new(self, f)
    }

    fn map_inbound_err<F>(self, f: F) -> MapInboundUpgradeErr<U, F> {
        MapInboundUpgradeErr::new(self, f)
    }
}

/// Extension methods for outbound upgrades, available on every upgrade:
/// wrap it with a transformation of the handshake's output or error.
pub trait OutboundUpgradeExt: UpgradeProtocols + Sized {
    /// Wrap `self` so that `f` is applied to the handshake's output.
    fn map_outbound<F>(self, f: F) -> (r: MapOutboundUpgrade<Self, F>)
        ensures
            r.upgrade == self,
            r.fun == f,
    ;

    /// Wrap `self` so that `f` is applied to the handshake's error.
    fn map_outbound_err<F>(self, f: F) -> (r: MapOutboundUpgradeErr<Self, F>)
        ensures
            r.upgrade == self,
            r.fun == f,
    ;
}

impl<U: UpgradeProtocols> OutboundUpgradeExt for U {
    fn map_outbound<F>(self, f: F) -> MapOutboundUpgrade<U, F> {
        MapOutboundUpgrade::new(self, f)
    }

    fn map_outbound_err<F>(self, f: F) -> MapOutboundUpgradeErr<U, F> {
        MapOutboundUpgradeErr::new(self, f)
    }
}

/// The negotiation phase of applying an upgrade, end to end: the upgrade's
/// enumeration is consulted, malformed candidates are filtered away, the
/// surviving protocols are offered in enumeration order, and the outcome is
/// the protocol the exchange settles on — or a [`UpgradeError::Select`]
/// failure when the peers share none. The version only selects the wire
/// variant of the exchange; the settled protocol does not depend on it.
/// The handshake that follows a success is concluded by
/// [`settle_handshake`].
pub fn apply_negotiation<U: UpgradeInfo, E>(
    upgrade: &U,
    endpoint: Endpoint,
    _version: Version,
    remote: &Vec<Protocol>,
) -> (r: Result<Protocol, UpgradeError<E>>)
    ensures
        (match spec_select(
            endpoint,
            spec_filter_valid(upgrade.spec_protocol_info()),
            names_of(remote@),
        ) {
            Some(name) => r matches Ok(p) && p@ == name,
            None => r matches Err(e) && e matches UpgradeError::Select(ne) && ne is Failed,
        }),
{
    let local = to_protocols(upgrade);
    negotiate_upgrade(endpoint, &local, remote)
}

/// An applied upgrade negotiates only within its enumeration: whatever
/// protocol the exchange settles on is a valid name that the upgrade's
/// enumeration offered and that the remote offered too; otherwise the
/// upgrade fails at the selection step.
pub proof fn lemma_apply_within_enumeration(
    endpoint: Endpoint,
    candidates: Seq<Seq<char>>,
    remote: Seq<Seq<char>>,
)
    ensures
        (match spec_select(endpoint, spec_filter_valid(candidates), remote) {
            Some(name) => contains_name(candidates, name) && valid_protocol_name(name)
                && contains_name(remote, name),
            None => true,
        }),
{
    lemma_upgrade_within_offered(endpoint, spec_filter_valid(candidates), remote);
    lemma_filtered_are_valid_candidates(candidates);
}

/// An upgrade negotiates only within its offered set: whatever protocol the
/// exchange settles on is one the local peer offered (and one the remote
/// offered); otherwise the upgrade fails at the selection step.
pub proof fn lemma_upgrade_within_offered(
    endpoint: Endpoint,
    local: Seq<Seq<char>>,
    remote: Seq<Seq<char>>,
)
    ensures
        (match spec_select(endpoint, local, remote) {
            Some(name) => contains_name(local, name) && contains_name(remote, name),
            None => true,
        }),
{
    match endpoint {
        Endpoint::Dialer => lemma_select_in_offered(local, remote),
        Endpoint::Listener => lemma_select_in_offered(remote, local),
    }
}

} // verus!
