//! Combinators that build upgrade sets: denied, ready, pending, optional,
//! select, map and from-fn.
//!
//! Each combinator is a value-carrying wrapper. Its protocol enumeration is
//! fixed by [`UpgradeProtocols`]; the handshake side is expressed as what
//! the combinator does to a completed handshake's outcome — the asynchronous
//! exchange itself runs outside and its result enters as a plain value.

use vstd::prelude::*;
use crate::negotiation::contains_name;
use crate::negotiation::contains_protocol;
use crate::protocol::Protocol;
use crate::protocol::names_of;

verus! {

/// A value that enumerates the protocols it supports, in preference order.
/// The enumeration is deterministic: every call returns the same list,
/// namely the one described by `spec_protocols`.
pub trait UpgradeProtocols {
    /// The names of the supported protocols, in preference order.
    spec fn spec_protocols(&self) -> Seq<Seq<char>>;

    /// The supported protocols, in preference order.
    fn protocols(&self) -> (r: Vec<Protocol>)
        ensures
            names_of(r@) == self.spec_protocols(),
    ;
}

/// An upgrade that offers no protocol at all: negotiation over it always
/// fails with no common protocol.
#[derive(Clone, Copy, Debug, PartialEq, Eq, Structural)]
pub struct DeniedUpgrade;

impl UpgradeProtocols for DeniedUpgrade {
    open spec fn spec_protocols(&self) -> Seq<Seq<char>> {
        Seq::<Seq<char>>::empty()
    }

    fn protocols(&self) -> (r: Vec<Protocol>) {
        let r = Vec::<Protocol>::new();
        proof {
            assert(names_of(r@) =~= Seq::<Seq<char>>::empty());
        }
        r
    }
}

/// An upgrade that offers exactly one protocol and whose handshake is the
/// identity: it completes immediately with the carried output and never
/// fails.
#[derive(Clone, Debug, PartialEq, Eq)]
pub struct ReadyUpgrade<T> {
    /// The single offered protocol.
    pub protocol: Protocol,
    /// The output the handshake completes with.
    pub output: T,
}

impl<T> ReadyUpgrade<T> {
    pub fn new(protocol: Protocol, output: T) -> (r: ReadyUpgrade<T>)
        ensures
            r.protocol@ == protocol@,
            r.output == output,
    {
        ReadyUpgrade { protocol, output }
    }

    /// The handshake: nothing is exchanged, the carried output is the
    /// upgrade's output.
    pub fn into_output(self) -> (r: T)
        ensures
            r == self.output,
    {
        self.output
    }
}

impl<T> UpgradeProtocols for ReadyUpgrade<T> {
    open spec fn spec_protocols(&self) -> Seq<Seq<char>> {
        seq![self.protocol@]
    }

    fn protocols(&self) -> (r: Vec<Protocol>) {
        let mut r = Vec::<Protocol>::new();
        r.push(self.protocol.clone());
        proof {
            assert(names_of(r@) =~= seq![self.protocol@]);
        }
        r
    }
}

/// An upgrade that offers one protocol but whose handshake never completes:
/// it reserves a protocol name without committing to a handshake.
#[derive(Clone, Debug, PartialEq, Eq)]
pub struct PendingUpgrade {
    /// The single offered protocol.
    pub protocol: Protocol,
}

impl PendingUpgrade {
    pub fn new(protocol: Protocol) -> (r: PendingUpgrade)
        ensures
            r.protocol@ == protocol@,
    {
        PendingUpgrade { protocol }
    }
}

impl UpgradeProtocols for PendingUpgrade {
    open spec fn spec_protocols(&self) -> Seq<Seq<char>> {
        seq![self.protocol@]
    }

    fn protocols(&self) -> (r: Vec<Protocol>) {
        let mut r = Vec::<Protocol>::new();
        r.push(self.protocol.clone());
        proof {
            assert(names_of(r@) =~= seq![self.protocol@]);
        }
        r
    }
}

/// An upgrade that may be absent: present, it behaves as the wrapped
/// upgrade; absent, it offers nothing, like [`DeniedUpgrade`].
#[derive(Clone, Debug, PartialEq, Eq)]
pub struct OptionalUpgrade<U> {
    /// The wrapped upgrade, when present.
    pub inner: Option<U>,
}

impl<U> OptionalUpgrade<U> {
    pub fn some(inner: U) -> (r: OptionalUpgrade<U>)
        ensures
            r.inner == Some(inner),
    {
        OptionalUpgrade { inner: Some(inner) }
    }

    pub fn none() -> (r: OptionalUpgrade<U>)
        ensures
            r.inner is None,
    {
        OptionalUpgrade { inner: None }
    }
}

impl<U: UpgradeProtocols> UpgradeProtocols for OptionalUpgrade<U> {
    open spec fn spec_protocols(&self) -> Seq<Seq<char>> {
        match self.inner {
            Some(u) => u.spec_protocols(),
            None => Seq::<Seq<char>>::empty(),
        }
    }

    fn protocols(&self) -> (r: Vec<Protocol>) {
        match &self.inner {
            Some(u) => u.protocols(),
            None => {
                let r = Vec::<Protocol>::new();
                proof {
                    assert(names_of(r@) =~= Seq::<Seq<char>>::empty());
                }
                r
            },
        }
    }
}

/// Which side of a [`SelectUpgrade`] produced a value.
#[derive(Clone, Copy, Debug, PartialEq, Eq, Structural)]
pub enum Either<A, B> {
    Left(A),
    Right(B),
}

/// The biased disjunction of two upgrades: offers the left side's protocols
/// followed by the right side's, and dispatches the handshake to whichever
/// side the negotiated protocol belongs to — to the left side whenever both
/// would match. A protocol name offered by both sides is offered twice
/// here; deduplication for the wire is the negotiation driver's concern.
#[derive(Clone, Debug, PartialEq, Eq)]
pub struct SelectUpgrade<A, B> {
    /// The preferred upgrade.
    pub left: A,
    /// The fallback upgrade.
    pub right: B,
}

impl<A, B> SelectUpgrade<A, B> {
    pub fn new(left: A, right: B) -> (r: SelectUpgrade<A, B>)
        ensures
            r.left == left,
            r.right == right,
    {
        SelectUpgrade { left, right }
    }
}

impl<A: UpgradeProtocols, B: UpgradeProtocols> SelectUpgrade<A, B> {
    /// Whether the left side performs the handshake for the negotiated
    /// protocol: it does whenever it offers that protocol itself.
    pub fn negotiates_left(&self, selected: &Protocol) -> (left: bool)
        ensures
            left == contains_name(self.left.spec_protocols(), selected@),
    {
        let offered = self.left.protocols();
        contains_protocol(&offered, selected)
    }
}

impl<A: UpgradeProtocols, B: UpgradeProtocols> UpgradeProtocols for SelectUpgrade<A, B> {
    open spec fn spec_protocols(&self) -> Seq<Seq<char>> {
        self.left.spec_protocols() + self.right.spec_protocols()
    }

    fn protocols(&self) -> (r: Vec<Protocol>) {
        let mut r = self.left.protocols();
        let mut rest = self.right.protocols();
        r.append(&mut rest);
        proof {
            assert(names_of(r@) =~= self.left.spec_protocols() + self.right.spec_protocols());
        }
        r
    }
}

/// Select offers the union of both sides' protocols: the left side's list
/// followed by the right side's, each in its own order.
pub proof fn lemma_select_protocols<A: UpgradeProtocols, B: UpgradeProtocols>(
    s: &SelectUpgrade<A, B>,
)
    ensures
        s.spec_protocols() == s.left.spec_protocols() + s.right.spec_protocols(),
{
}

/// An upgrade that applies a transformation to the wrapped upgrade's output,
/// exactly once, when the handshake completes successfully. The protocol
/// set is unchanged.
#[derive(Clone, Debug, PartialEq, Eq)]
pub struct MapInboundUpgrade<U, F> {
    /// The wrapped upgrade.
    pub upgrade: U,
    /// The transformation applied to the output.
    pub fun: F,
}

impl<U, F> MapInboundUpgrade<U, F> {
    pub fn new(upgrade: U, fun: F) -> (r: MapInboundUpgrade<U, F>)
        ensures
            r.upgrade == upgrade,
            r.fun == fun,
    {
        MapInboundUpgrade { upgrade, fun }
    }

    /// Conclude the upgrade from the wrapped handshake's outcome: a success
    /// output passes through the transformation, a failure is untouched.
    pub fn settle<O, T, E>(self, outcome: Result<O, E>) -> (r: Result<T, E>) where F: FnOnce(O) -> T
        requires
            outcome matches Ok(o) ==> call_requires(self.fun, (o,)),
        ensures
            outcome matches Ok(o) ==> r matches Ok(t) && call_ensures(self.fun, (o,), t),
            outcome matches Err(e) ==> r == Err::<T, E>(e),
    {
        match outcome {
            Ok(o) => Ok((self.fun)(o)),
            Err(e) => Err(e),
        }
    }
}

impl<U: UpgradeProtocols, F> UpgradeProtocols for MapInboundUpgrade<U, F> {
    open spec fn spec_protocols(&self) -> Seq<Seq<char>> {
        self.upgrade.spec_protocols()
    }

    fn protocols(&self) -> (r: Vec<Protocol>) {
        self.upgrade.protocols()
    }
}

/// The outbound counterpart of [`MapInboundUpgrade`].
#[derive(Clone, Debug, PartialEq, Eq)]
pub struct MapOutboundUpgrade<U, F> {
    /// The wrapped upgrade.
    pub upgrade: U,
    /// The transformation applied to the output.
    pub fun: F,
}

impl<U, F> MapOutboundUpgrade<U, F> {
    pub fn new(upgrade: U, fun: F) -> (r: MapOutboundUpgrade<U, F>)
        ensures
            r.upgrade == upgrade,
            r.fun == fun,
    {
        MapOutboundUpgrade { upgrade, fun }
    }

    /// Conclude the upgrade from the wrapped handshake's outcome: a success
    /// output passes through the transformation, a failure is untouched.
    pub fn settle<O, T, E>(self, outcome: Result<O, E>) -> (r: Result<T, E>) where F: FnOnce(O) -> T
        requires
            outcome matches Ok(o) ==> call_requires(self.fun, (o,)),
        ensures
            outcome matches Ok(o) ==> r matches Ok(t) && call_ensures(self.fun, (o,), t),
            outcome matches Err(e) ==> r == Err::<T, E>(e),
    {
        match outcome {
            Ok(o) => Ok((self.fun)(o)),
            Err(e) => Err(e),
        }
    }
}

impl<U: UpgradeProtocols, F> UpgradeProtocols for MapOutboundUpgrade<U, F> {
    open spec fn spec_protocols(&self) -> Seq<Seq<char>> {
        self.upgrade.spec_protocols()
    }

    fn protocols(&self) -> (r: Vec<Protocol>) {
        self.upgrade.protocols()
    }
}

/// An upgrade that applies a transformation to the wrapped upgrade's error,
/// exactly once, when the handshake fails. The protocol set is unchanged.
#[derive(Clone, Debug, PartialEq, Eq)]
pub struct MapInboundUpgradeErr<U, F> {
    /// The wrapped upgrade.
    pub upgrade: U,
    /// The transformation applied to the error.
    pub fun: F,
}

impl<U, F> MapInboundUpgradeErr<U, F> {
    pub fn new(upgrade: U, fun: F) -> (r: MapInboundUpgradeErr<U, F>)
        ensures
            r.upgrade == upgrade,
            r.fun == fun,
    {
        MapInboundUpgradeErr { upgrade, fun }
    }

    /// Conclude the upgrade from the wrapped handshake's outcome: a failure
    /// passes through the transformation, a success output is untouched.
    pub fn settle<O, E, G>(self, outcome: Result<O, E>) -> (r: Result<O, G>) where F: FnOnce(E) -> G
        requires
            outcome matches Err(e) ==> call_requires(self.fun, (e,)),
        ensures
            outcome matches Ok(o) ==> r == Ok::<O, G>(o),
            outcome matches Err(e) ==> r matches Err(g) && call_ensures(self.fun, (e,), g),
    {
        match outcome {
            Ok(o) => Ok(o),
            Err(e) => Err((self.fun)(e)),
        }
    }
}

impl<U: UpgradeProtocols, F> UpgradeProtocols for MapInboundUpgradeErr<U, F> {
    open spec fn spec_protocols(&self) -> Seq<Seq<char>> {
        self.upgrade.spec_protocols()
    }

    fn protocols(&self) -> (r: Vec<Protocol>) {
        self.upgrade.protocols()
    }
}

/// The outbound counterpart of [`MapInboundUpgradeErr`].
#[derive(Clone, Debug, PartialEq, Eq)]
pub struct MapOutboundUpgradeErr<U, F> {
    /// The wrapped upgrade.
    pub upgrade: U,
    /// The transformation applied to the error.
    pub fun: F,
}

impl<U, F> MapOutboundUpgradeErr<U, F> {
    pub fn new(upgrade: U, fun: F) -> (r: MapOutboundUpgradeErr<U, F>)
        ensures
            r.upgrade == upgrade,
            r.fun == fun,
    {
        MapOutboundUpgradeErr { upgrade, fun }
    }

    /// Conclude the upgrade from the wrapped handshake's outcome: a failure
    /// passes through the transformation, a success output is untouched.
    pub fn settle<O, E, G>(self, outcome: Result<O, E>) -> (r: Result<O, G>) where F: FnOnce(E) -> G
        requires
            outcome matches Err(e) ==> call_requires(self.fun, (e,)),
        ensures
            outcome matches Ok(o) ==> r == Ok::<O, G>(o),
            outcome matches Err(e) ==> r matches Err(g) && call_ensures(self.fun, (e,), g),
    {
        match outcome {
            Ok(o) => Ok(o),
            Err(e) => Err((self.fun)(e)),
        }
    }
}

impl<U: UpgradeProtocols, F> UpgradeProtocols for MapOutboundUpgradeErr<U, F> {
    open spec fn spec_protocols(&self) -> Seq<Seq<char>> {
        self.upgrade.spec_protocols()
    }

    fn protocols(&self) -> (r: Vec<Protocol>) {
        self.upgrade.protocols()
    }
}

/// A transformation leaves the protocol set of the wrapped upgrade
/// unchanged, whether it maps the output or the error, inbound or outbound.
pub proof fn lemma_map_protocols<U: UpgradeProtocols, F>(
    mo: &MapInboundUpgrade<U, F>,
    mi: &MapOutboundUpgrade<U, F>,
    me: &MapInboundUpgradeErr<U, F>,
    mf: &MapOutboundUpgradeErr<U, F>,
)
    ensures
        mo.spec_protocols() == mo.upgrade.spec_protocols(),
        mi.spec_protocols() == mi.upgrade.spec_protocols(),
        me.spec_protocols() == me.upgrade.spec_protocols(),
        mf.spec_protocols() == mf.upgrade.spec_protocols(),
{
}

/// An adapter around an arbitrary handshake function: offers the given
/// protocols and hands the socket, the negotiated protocol and the endpoint
/// role to the carried function once one of them has been negotiated.
#[derive(Clone, Debug, PartialEq, Eq)]
pub struct FromFnUpgrade<F> {
    /// The offered protocols.
    pub protocols: Vec<Protocol>,
    /// The handshake function.
    pub fun: F,
}

/// Build a [`FromFnUpgrade`] from a protocol list and a handshake function.
pub fn from_fn<F>(protocols: Vec<Protocol>, fun: F) -> (r: FromFnUpgrade<F>)
    ensures
        r.protocols == protocols,
        r.fun == fun,
{
    FromFnUpgrade { protocols, fun }
}

impl<F> UpgradeProtocols for FromFnUpgrade<F> {
    open spec fn spec_protocols(&self) -> Seq<Seq<char>> {
        names_of(self.protocols@)
    }

    fn protocols(&self) -> (r: Vec<Protocol>) {
        let mut r = Vec::<Protocol>::new();
        let mut i: usize = 0;
        while i < self.protocols.len()
            invariant
                i <= self.protocols.len(),
                names_of(r@) == names_of(self.protocols@).take(i as int),
            decreases self.protocols.len() - i,
        {
            proof {
                assert(names_of(r@) == names_of(self.protocols@).take(i as int));
                assert(names_of(r@).len() == i as int);
                assert(r@.len() == i as int);
            }
            let ghost r0 = r@;
            let p = self.protocols[i].clone();
            r.push(p);
            proof {
                assert(r@ == r0.push(p));
                assert forall|j: int| 0 <= j < i + 1 implies names_of(r@)[j] == names_of(
                    self.protocols@,
                ).take(i + 1)[j] by {
                    if j < i {
                        assert(names_of(r0)[j] == names_of(self.protocols@).take(i as int)[j]);
                        assert(r@[j] == r0[j]);
                    } else {
                        assert(r@[j] == p);
                    }
                }
                assert(names_of(r@) =~= names_of(self.protocols@).take(i + 1));
            }
            i += 1;
        }
        proof {
            assert(names_of(self.protocols@).take(self.protocols.len() as int) =~= names_of(
                self.protocols@,
            ));
        }
        r
    }
}

} // verus!
