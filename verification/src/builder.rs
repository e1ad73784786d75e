//! Phase-typed assembly of a transport stack.
//!
//! A swarm is built by walking a fixed sequence of phases — provider, TCP,
//! QUIC, other transports, DNS, relay, websocket, behaviour — and choosing
//! at each phase whether to add the corresponding layer. The transports,
//! authentication handshakes and multiplexers themselves are outside work;
//! what is decided here, and what the phase types enforce, is which layers
//! the finished stack is made of and in which order dialing attempts them.
//! Each transition is proved to extend the stack description exactly as its
//! phase prescribes.

use vstd::prelude::*;
use core::marker::PhantomData;

verus! {

/// Authentication negotiated on a stream-oriented layer.
#[derive(Clone, Copy, Debug, PartialEq, Eq, Structural)]
pub enum Authentication {
    /// TLS alone.
    TlsOnly,
    /// Noise alone.
    NoiseOnly,
    /// TLS preferred, Noise as the fallback of a biased selection.
    TlsOrNoise,
}

/// One layer of the assembled transport stack.
#[derive(Clone, Copy, Debug, PartialEq, Eq, Structural)]
pub enum Layer {
    /// TCP, upgraded with the given authentication and a multiplexer.
    Tcp(Authentication),
    /// QUIC, which brings authentication and multiplexing of its own.
    Quic,
    /// A caller-supplied transport, already authenticated and multiplexed.
    Other,
    /// A relay client circuit, upgraded with the given authentication.
    Relay(Authentication),
    /// Websocket over DNS and TCP, upgraded with the given authentication.
    Websocket(Authentication),
}

/// Description of the transport stack assembled so far: the layers in the
/// order dialing attempts them, and whether addresses are resolved through
/// DNS first.
#[derive(Clone, Debug, PartialEq, Eq)]
pub struct TransportStack {
    /// The layers, in dialing order.
    pub layers: Vec<Layer>,
    /// Whether the stack resolves names through DNS.
    pub dns: bool,
}

impl TransportStack {
    /// A stack with no layers and no DNS resolution.
    pub fn empty() -> (r: TransportStack)
        ensures
            r.layers@ == Seq::<Layer>::empty(),
            !r.dns,
    {
        TransportStack { layers: Vec::new(), dns: false }
    }

    /// Append one layer at the back: dialing tries it after the present
    /// ones.
    fn push_layer(&mut self, layer: Layer)
        ensures
            final(self).layers@ == old(self).layers@.push(layer),
            final(self).dns == old(self).dns,
    {
        self.layers.push(layer);
    }

    /// Insert one layer at the front: dialing tries it before the present
    /// ones.
    fn prepend_layer(&mut self, layer: Layer)
        ensures
            final(self).layers@ == seq![layer] + old(self).layers@,
            final(self).dns == old(self).dns,
    {
        self.layers.insert(0, layer);
        proof {
            assert(self.layers@ =~= seq![layer] + old(self).layers@);
        }
    }
}

/// An assembled stack is authenticated and multiplexed as a whole: every
/// layer either negotiates an authentication of its own or brings one, so a
/// finished description can stand where such a transport is expected.
pub trait AuthenticatedMultiplexedTransport {
    /// The stack description.
    fn transport_stack(&self) -> &TransportStack;
}

impl AuthenticatedMultiplexedTransport for TransportStack {
    fn transport_stack(&self) -> &TransportStack {
        self
    }
}

/// Marker: no provider chosen yet.
pub enum NoProviderSpecified {
    /// The marker itself; the type is only ever used as a type argument.
    Marker,
}

/// Marker: the async-std runtime drives the transports.
pub enum AsyncStd {
    /// The marker itself; the type is only ever used as a type argument.
    Marker,
}

/// Marker: the tokio runtime drives the transports.
pub enum Tokio {
    /// The marker itself; the type is only ever used as a type argument.
    Marker,
}

/// Marker: TLS was chosen at the preceding phase.
pub enum Tls {
    /// The marker itself; the type is only ever used as a type argument.
    Marker,
}

/// Marker: TLS was skipped at the preceding phase.
pub enum WithoutTls {
    /// The marker itself; the type is only ever used as a type argument.
    Marker,
}

/// Builder for a swarm: the provider marker `P` and the current phase.
/// Identity handling lives outside; the builder tracks the stack being
/// assembled.
pub struct SwarmBuilder<P, Phase> {
    /// Marker for the provider choice.
    pub phantom: PhantomData<P>,
    /// The current phase, with what it has assembled so far.
    pub phase: Phase,
}

/// First phase: nothing chosen yet.
pub struct InitialPhase {}

/// Second phase: an identity exists, a provider must be chosen.
pub struct ProviderPhase {}

/// Third phase: TCP may be added.
pub struct TcpPhase {}

/// After TCP: choose whether TLS is offered for it.
pub struct TcpTlsPhase {}

/// After the TLS choice for TCP: choose Noise, completing the TCP layer.
pub struct TcpNoisePhase<A> {
    /// Marker for the TLS choice.
    pub phantom: PhantomData<A>,
}

/// QUIC may be added on top of what is assembled.
pub struct QuicPhase {
    /// The stack assembled so far.
    pub transport: TransportStack,
}

/// Further caller-supplied transports may be added.
pub struct OtherTransportPhase {
    /// The stack assembled so far.
    pub transport: TransportStack,
}

/// DNS resolution may be added around the stack.
pub struct DnsPhase {
    /// The stack assembled so far.
    pub transport: TransportStack,
}

/// A relay client may be added.
pub struct RelayPhase {
    /// The stack assembled so far.
    pub transport: TransportStack,
}

/// Marker: the builder carries no relay behaviour.
pub struct NoRelayBehaviour;

/// The relay client behaviour handed to the caller's behaviour once the
/// stack is finished; its network side lives outside.
pub struct RelayClientBehaviour {}

/// After choosing relay: choose whether TLS is offered for it.
pub struct RelayTlsPhase {
    /// The stack assembled so far.
    pub transport: TransportStack,
}

/// After the TLS choice for relay: choose Noise, completing the relay
/// layer.
pub struct RelayNoisePhase<A> {
    /// The stack assembled so far.
    pub transport: TransportStack,
    /// Marker for the TLS choice.
    pub phantom: PhantomData<A>,
}

/// Websocket may be added in front of the stack.
pub struct WebsocketPhase<R> {
    /// The stack assembled so far.
    pub transport: TransportStack,
    /// The relay behaviour assembled earlier, if any.
    pub relay_behaviour: R,
}

/// After choosing websocket: choose whether TLS is offered for it.
pub struct WebsocketTlsPhase<R> {
    /// The stack assembled so far.
    pub transport: TransportStack,
    /// The relay behaviour assembled earlier, if any.
    pub relay_behaviour: R,
}

/// After the TLS choice for websocket: choose Noise, completing the
/// websocket layer.
pub struct WebsocketNoisePhase<R, A> {
    /// The stack assembled so far.
    pub transport: TransportStack,
    /// The relay behaviour assembled earlier, if any.
    pub relay_behaviour: R,
    /// Marker for the TLS choice.
    pub phantom: PhantomData<A>,
}

/// The stack is finished; the caller's behaviour is attached next.
pub struct BehaviourPhase<R> {
    /// The relay behaviour assembled earlier, if any.
    pub relay_behaviour: R,
    /// The finished stack.
    pub transport: TransportStack,
}

/// Everything is chosen; the swarm can be built.
pub struct BuildPhase<B> {
    /// The caller's network behaviour.
    pub behaviour: B,
    /// The finished stack.
    pub transport: TransportStack,
}

impl SwarmBuilder<NoProviderSpecified, InitialPhase> {
    /// Start building: the identity is created and kept outside.
    pub fn with_new_identity() -> (r: SwarmBuilder<NoProviderSpecified, ProviderPhase>)
    {
        SwarmBuilder { phantom: PhantomData, phase: ProviderPhase {} }
    }
}

impl SwarmBuilder<NoProviderSpecified, ProviderPhase> {
    /// Drive the transports with the async-std runtime.
    pub fn with_async_std(self) -> (r: SwarmBuilder<AsyncStd, TcpPhase>)
    {
        SwarmBuilder { phantom: PhantomData, phase: TcpPhase {} }
    }

    /// Drive the transports with the tokio runtime.
    pub fn with_tokio(self) -> (r: SwarmBuilder<Tokio, TcpPhase>)
    {
        SwarmBuilder { phantom: PhantomData, phase: TcpPhase {} }
    }
}

impl<P> SwarmBuilder<P, TcpPhase> {
    /// Add TCP as the first layer; its authentication is chosen next.
    pub fn with_tcp(self) -> (r: SwarmBuilder<P, TcpTlsPhase>)
    {
        SwarmBuilder { phantom: PhantomData, phase: TcpTlsPhase {} }
    }

    /// Skip TCP: the stack starts empty.
    fn without_tcp(self) -> (r: SwarmBuilder<P, QuicPhase>)
        ensures
            r.phase.transport.layers@ == Seq::<Layer>::empty(),
            !r.phase.transport.dns,
    {
        SwarmBuilder { phantom: PhantomData, phase: QuicPhase { transport: TransportStack::empty() } }
    }

    /// Skip TCP and add QUIC as the first layer.
    pub fn with_quic(self) -> (r: SwarmBuilder<P, OtherTransportPhase>)
        ensures
            r.phase.transport.layers@ == seq![Layer::Quic],
            !r.phase.transport.dns,
    {
        let r = self.without_tcp().with_quic();
        proof {
            assert(r.phase.transport.layers@ =~= seq![Layer::Quic]);
        }
        r
    }

    /// Skip TCP and QUIC and add a caller-supplied transport as the first
    /// layer.
    pub fn with_other_transport(self) -> (r: SwarmBuilder<P, OtherTransportPhase>)
        ensures
            r.phase.transport.layers@ == seq![Layer::Other],
            !r.phase.transport.dns,
    {
        let r = self.without_tcp().without_quic().with_other_transport();
        proof {
            assert(r.phase.transport.layers@ =~= seq![Layer::Other]);
        }
        r
    }
}

impl<P> SwarmBuilder<P, TcpTlsPhase> {
    /// Offer TLS for the TCP layer; Noise may still be added beside it.
    pub fn with_tls(self) -> (r: SwarmBuilder<P, TcpNoisePhase<Tls>>)
    {
        SwarmBuilder { phantom: PhantomData, phase: TcpNoisePhase { phantom: PhantomData } }
    }

    /// Skip TLS for the TCP layer; Noise alone is chosen next.
    fn without_tls(self) -> (r: SwarmBuilder<P, TcpNoisePhase<WithoutTls>>)
    {
        SwarmBuilder { phantom: PhantomData, phase: TcpNoisePhase { phantom: PhantomData } }
    }

    /// Shortcut: skip TLS and authenticate TCP with Noise alone.
    pub fn with_noise(self) -> (r: SwarmBuilder<P, QuicPhase>)
        ensures
            r.phase.transport.layers@ == seq![Layer::Tcp(Authentication::NoiseOnly)],
            !r.phase.transport.dns,
    {
        self.without_tls().with_noise()
    }
}

impl<P> SwarmBuilder<P, TcpNoisePhase<Tls>> {
    /// Authenticate TCP with a biased selection: TLS first, Noise as the
    /// fallback.
    pub fn with_noise(self) -> (r: SwarmBuilder<P, QuicPhase>)
        ensures
            r.phase.transport.layers@ == seq![Layer::Tcp(Authentication::TlsOrNoise)],
            !r.phase.transport.dns,
    {
        let mut transport = TransportStack::empty();
        transport.push_layer(Layer::Tcp(Authentication::TlsOrNoise));
        proof {
            assert(transport.layers@ =~= seq![Layer::Tcp(Authentication::TlsOrNoise)]);
        }
        SwarmBuilder { phantom: PhantomData, phase: QuicPhase { transport } }
    }

    /// Authenticate TCP with TLS alone.
    pub fn without_noise(self) -> (r: SwarmBuilder<P, QuicPhase>)
        ensures
            r.phase.transport.layers@ == seq![Layer::Tcp(Authentication::TlsOnly)],
            !r.phase.transport.dns,
    {
        let mut transport = TransportStack::empty();
        transport.push_layer(Layer::Tcp(Authentication::TlsOnly));
        proof {
            assert(transport.layers@ =~= seq![Layer::Tcp(Authentication::TlsOnly)]);
        }
        SwarmBuilder { phantom: PhantomData, phase: QuicPhase { transport } }
    }
}

impl<P> SwarmBuilder<P, TcpNoisePhase<WithoutTls>> {
    /// Authenticate TCP with Noise alone.
    pub fn with_noise(self) -> (r: SwarmBuilder<P, QuicPhase>)
        ensures
            r.phase.transport.layers@ == seq![Layer::Tcp(Authentication::NoiseOnly)],
            !r.phase.transport.dns,
    {
        let mut transport = TransportStack::empty();
        transport.push_layer(Layer::Tcp(Authentication::NoiseOnly));
        proof {
            assert(transport.layers@ =~= seq![Layer::Tcp(Authentication::NoiseOnly)]);
        }
        SwarmBuilder { phantom: PhantomData, phase: QuicPhase { transport } }
    }
}

impl<P> SwarmBuilder<P, QuicPhase> {
    /// Add QUIC after the layers assembled so far.
    pub fn with_quic(self) -> (r: SwarmBuilder<P, OtherTransportPhase>)
        ensures
            r.phase.transport.layers@ == self.phase.transport.layers@.push(Layer::Quic),
            r.phase.transport.dns == self.phase.transport.dns,
    {
        let mut transport = self.phase.transport;
        transport.push_layer(Layer::Quic);
        SwarmBuilder { phantom: PhantomData, phase: OtherTransportPhase { transport } }
    }

    /// Skip QUIC.
    fn without_quic(self) -> (r: SwarmBuilder<P, OtherTransportPhase>)
        ensures
            r.phase.transport == self.phase.transport,
    {
        SwarmBuilder {
            phantom: PhantomData,
            phase: OtherTransportPhase { transport: self.phase.transport },
        }
    }

    /// Shortcut: skip QUIC and add a caller-supplied transport.
    pub fn with_other_transport(self) -> (r: SwarmBuilder<P, OtherTransportPhase>)
        ensures
            r.phase.transport.layers@ == self.phase.transport.layers@.push(Layer::Other),
            r.phase.transport.dns == self.phase.transport.dns,
    {
        self.without_quic().with_other_transport()
    }

    /// Shortcut: skip QUIC and the remaining optional layers and add a
    /// relay client.
    pub fn with_relay(self) -> (r: SwarmBuilder<P, RelayTlsPhase>)
        ensures
            r.phase.transport == self.phase.transport,
    {
        self.without_quic().without_any_other_transports().without_dns().with_relay()
    }

    /// Shortcut: skip QUIC and the remaining optional layers and add
    /// websocket.
    pub fn with_websocket(self) -> (r: SwarmBuilder<P, WebsocketTlsPhase<NoRelayBehaviour>>)
        ensures
            r.phase.transport == self.phase.transport,
    {
        self.without_quic()
            .without_any_other_transports()
            .without_dns()
            .without_relay()
            .with_websocket()
    }

    /// Shortcut: skip QUIC and the remaining optional layers and attach the
    /// behaviour.
    pub fn with_behaviour<B>(self, behaviour: B) -> (r: SwarmBuilder<P, BuildPhase<B>>)
        ensures
            r.phase.transport == self.phase.transport,
            r.phase.behaviour == behaviour,
    {
        self.without_quic()
            .without_any_other_transports()
            .without_dns()
            .without_relay()
            .without_websocket()
            .with_behaviour(behaviour)
    }
}

impl<P> SwarmBuilder<P, OtherTransportPhase> {
    /// Add one caller-supplied transport after the layers assembled so far.
    /// The transport itself is constructed outside; the stack records it.
    pub fn with_other_transport(self) -> (r: SwarmBuilder<P, OtherTransportPhase>)
        ensures
            r.phase.transport.layers@ == self.phase.transport.layers@.push(Layer::Other),
            r.phase.transport.dns == self.phase.transport.dns,
    {
        let mut transport = self.phase.transport;
        transport.push_layer(Layer::Other);
        SwarmBuilder { phantom: PhantomData, phase: OtherTransportPhase { transport } }
    }

    /// No further caller-supplied transports.
    fn without_any_other_transports(self) -> (r: SwarmBuilder<P, DnsPhase>)
        ensures
            r.phase.transport == self.phase.transport,
    {
        SwarmBuilder { phantom: PhantomData, phase: DnsPhase { transport: self.phase.transport } }
    }

    /// Shortcut: resolve names through DNS around what is assembled.
    pub fn with_dns(self) -> (r: SwarmBuilder<P, RelayPhase>)
        ensures
            r.phase.transport.layers@ == self.phase.transport.layers@,
            r.phase.transport.dns,
    {
        self.without_any_other_transports().with_dns()
    }

    /// Shortcut: skip DNS and add a relay client.
    pub fn with_relay(self) -> (r: SwarmBuilder<P, RelayTlsPhase>)
        ensures
            r.phase.transport == self.phase.transport,
    {
        self.without_any_other_transports().without_dns().with_relay()
    }

    /// Shortcut: skip the remaining optional layers and attach the
    /// behaviour.
    pub fn with_behaviour<B>(self, behaviour: B) -> (r: SwarmBuilder<P, BuildPhase<B>>)
        ensures
            r.phase.transport == self.phase.transport,
            r.phase.behaviour == behaviour,
    {
        self.without_any_other_transports()
            .without_dns()
            .without_relay()
            .without_websocket()
            .with_behaviour(behaviour)
    }
}

impl<P> SwarmBuilder<P, DnsPhase> {
    /// Resolve names through DNS around the whole stack.
    pub fn with_dns(self) -> (r: SwarmBuilder<P, RelayPhase>)
        ensures
            r.phase.transport.layers@ == self.phase.transport.layers@,
            r.phase.transport.dns,
    {
        let transport = TransportStack { layers: self.phase.transport.layers, dns: true };
        SwarmBuilder { phantom: PhantomData, phase: RelayPhase { transport } }
    }

    /// Skip DNS.
    fn without_dns(self) -> (r: SwarmBuilder<P, RelayPhase>)
        ensures
            r.phase.transport == self.phase.transport,
    {
        SwarmBuilder { phantom: PhantomData, phase: RelayPhase { transport: self.phase.transport } }
    }

    /// Shortcut: skip the remaining optional layers and attach the
    /// behaviour.
    pub fn with_behaviour<B>(self, behaviour: B) -> (r: SwarmBuilder<P, BuildPhase<B>>)
        ensures
            r.phase.transport == self.phase.transport,
            r.phase.behaviour == behaviour,
    {
        self.without_dns().without_relay().without_websocket().with_behaviour(behaviour)
    }
}

impl<P> SwarmBuilder<P, RelayPhase> {
    /// Add a relay client; its authentication is chosen next.
    pub fn with_relay(self) -> (r: SwarmBuilder<P, RelayTlsPhase>)
        ensures
            r.phase.transport == self.phase.transport,
    {
        SwarmBuilder {
            phantom: PhantomData,
            phase: RelayTlsPhase { transport: self.phase.transport },
        }
    }

    /// Skip the relay client.
    fn without_relay(self) -> (r: SwarmBuilder<P, WebsocketPhase<NoRelayBehaviour>>)
        ensures
            r.phase.transport == self.phase.transport,
    {
        SwarmBuilder {
            phantom: PhantomData,
            phase: WebsocketPhase {
                transport: self.phase.transport,
                relay_behaviour: NoRelayBehaviour,
            },
        }
    }

    /// Shortcut: skip the relay client and add websocket.
    pub fn with_websocket(self) -> (r: SwarmBuilder<P, WebsocketTlsPhase<NoRelayBehaviour>>)
        ensures
            r.phase.transport == self.phase.transport,
    {
        self.without_relay().with_websocket()
    }

    /// Shortcut: skip the remaining optional layers and attach the
    /// behaviour.
    pub fn with_behaviour<B>(self, behaviour: B) -> (r: SwarmBuilder<P, BuildPhase<B>>)
        ensures
            r.phase.transport == self.phase.transport,
            r.phase.behaviour == behaviour,
    {
        self.without_relay().without_websocket().with_behaviour(behaviour)
    }
}

impl<P> SwarmBuilder<P, RelayTlsPhase> {
    /// Offer TLS for the relay layer; Noise may still be added beside it.
    pub fn with_tls(self) -> (r: SwarmBuilder<P, RelayNoisePhase<Tls>>)
        ensures
            r.phase.transport == self.phase.transport,
    {
        SwarmBuilder {
            phantom: PhantomData,
            phase: RelayNoisePhase { transport: self.phase.transport, phantom: PhantomData },
        }
    }

    /// Skip TLS for the relay layer; Noise alone is chosen next.
    fn without_tls(self) -> (r: SwarmBuilder<P, RelayNoisePhase<WithoutTls>>)
        ensures
            r.phase.transport == self.phase.transport,
    {
        SwarmBuilder {
            phantom: PhantomData,
            phase: RelayNoisePhase { transport: self.phase.transport, phantom: PhantomData },
        }
    }

    /// Shortcut: skip TLS and authenticate the relay with Noise alone.
    pub fn with_noise(self) -> (r: SwarmBuilder<P, WebsocketPhase<RelayClientBehaviour>>)
        ensures
            r.phase.transport.layers@ == self.phase.transport.layers@.push(
                Layer::Relay(Authentication::NoiseOnly),
            ),
            r.phase.transport.dns == self.phase.transport.dns,
    {
        self.without_tls().with_noise()
    }
}

impl<P> SwarmBuilder<P, RelayNoisePhase<Tls>> {
    /// Authenticate the relay with a biased selection: TLS first, Noise as
    /// the fallback.
    pub fn with_noise(self) -> (r: SwarmBuilder<P, WebsocketPhase<RelayClientBehaviour>>)
        ensures
            r.phase.transport.layers@ == self.phase.transport.layers@.push(
                Layer::Relay(Authentication::TlsOrNoise),
            ),
            r.phase.transport.dns == self.phase.transport.dns,
    {
        let mut transport = self.phase.transport;
        transport.push_layer(Layer::Relay(Authentication::TlsOrNoise));
        SwarmBuilder {
            phantom: PhantomData,
            phase: WebsocketPhase { transport, relay_behaviour: RelayClientBehaviour {} },
        }
    }

    /// Authenticate the relay with TLS alone.
    pub fn without_noise(self) -> (r: SwarmBuilder<P, WebsocketPhase<RelayClientBehaviour>>)
        ensures
            r.phase.transport.layers@ == self.phase.transport.layers@.push(
                Layer::Relay(Authentication::TlsOnly),
            ),
            r.phase.transport.dns == self.phase.transport.dns,
    {
        let mut transport = self.phase.transport;
        transport.push_layer(Layer::Relay(Authentication::TlsOnly));
        SwarmBuilder {
            phantom: PhantomData,
            phase: WebsocketPhase { transport, relay_behaviour: RelayClientBehaviour {} },
        }
    }
}

impl<P> SwarmBuilder<P, RelayNoisePhase<WithoutTls>> {
    /// Authenticate the relay with Noise alone.
    pub fn with_noise(self) -> (r: SwarmBuilder<P, WebsocketPhase<RelayClientBehaviour>>)
        ensures
            r.phase.transport.layers@ == self.phase.transport.layers@.push(
                Layer::Relay(Authentication::NoiseOnly),
            ),
            r.phase.transport.dns == self.phase.transport.dns,
    {
        let mut transport = self.phase.transport;
        transport.push_layer(Layer::Relay(Authentication::NoiseOnly));
        SwarmBuilder {
            phantom: PhantomData,
            phase: WebsocketPhase { transport, relay_behaviour: RelayClientBehaviour {} },
        }
    }
}

impl<P, R> SwarmBuilder<P, WebsocketPhase<R>> {
    /// Add websocket; its authentication is chosen next.
    pub fn with_websocket(self) -> (r: SwarmBuilder<P, WebsocketTlsPhase<R>>)
        ensures
            r.phase.transport == self.phase.transport,
            r.phase.relay_behaviour == self.phase.relay_behaviour,
    {
        SwarmBuilder {
            phantom: PhantomData,
            phase: WebsocketTlsPhase {
                transport: self.phase.transport,
                relay_behaviour: self.phase.relay_behaviour,
            },
        }
    }

    /// Skip websocket.
    fn without_websocket(self) -> (r: SwarmBuilder<P, BehaviourPhase<R>>)
        ensures
            r.phase.transport == self.phase.transport,
            r.phase.relay_behaviour == self.phase.relay_behaviour,
    {
        SwarmBuilder {
            phantom: PhantomData,
            phase: BehaviourPhase {
                relay_behaviour: self.phase.relay_behaviour,
                transport: self.phase.transport,
            },
        }
    }

    /// Shortcut: skip websocket and attach the behaviour.
    pub fn with_behaviour<B>(self, behaviour: B) -> (r: SwarmBuilder<P, BuildPhase<B>>)
        ensures
            r.phase.transport == self.phase.transport,
            r.phase.behaviour == behaviour,
    {
        self.without_websocket().with_behaviour(behaviour)
    }
}

impl<P, R> SwarmBuilder<P, WebsocketTlsPhase<R>> {
    /// Offer TLS for the websocket layer; Noise may still be added beside
    /// it.
    pub fn with_tls(self) -> (r: SwarmBuilder<P, WebsocketNoisePhase<R, Tls>>)
        ensures
            r.phase.transport == self.phase.transport,
            r.phase.relay_behaviour == self.phase.relay_behaviour,
    {
        SwarmBuilder {
            phantom: PhantomData,
            phase: WebsocketNoisePhase {
                transport: self.phase.transport,
                relay_behaviour: self.phase.relay_behaviour,
                phantom: PhantomData,
            },
        }
    }

    /// Skip TLS for the websocket layer; Noise alone is chosen next.
    fn without_tls(self) -> (r: SwarmBuilder<P, WebsocketNoisePhase<R, WithoutTls>>)
        ensures
            r.phase.transport == self.phase.transport,
            r.phase.relay_behaviour == self.phase.relay_behaviour,
    {
        SwarmBuilder {
            phantom: PhantomData,
            phase: WebsocketNoisePhase {
                transport: self.phase.transport,
                relay_behaviour: self.phase.relay_behaviour,
                phantom: PhantomData,
            },
        }
    }

    /// Shortcut: skip TLS and authenticate websocket with Noise alone.
    pub fn with_noise(self) -> (r: SwarmBuilder<P, BehaviourPhase<R>>)
        ensures
            r.phase.transport.layers@ == seq![Layer::Websocket(Authentication::NoiseOnly)]
                + self.phase.transport.layers@,
            r.phase.transport.dns == self.phase.transport.dns,
            r.phase.relay_behaviour == self.phase.relay_behaviour,
    {
        self.without_tls().with_noise()
    }
}

impl<P, R> SwarmBuilder<P, WebsocketNoisePhase<R, Tls>> {
    /// Authenticate websocket with a biased selection — TLS first, Noise as
    /// the fallback — and put the websocket layer in front: dialing tries
    /// it before the rest of the stack.
    pub fn with_noise(self) -> (r: SwarmBuilder<P, BehaviourPhase<R>>)
        ensures
            r.phase.transport.layers@ == seq![Layer::Websocket(Authentication::TlsOrNoise)]
                + self.phase.transport.layers@,
            r.phase.transport.dns == self.phase.transport.dns,
            r.phase.relay_behaviour == self.phase.relay_behaviour,
    {
        let mut transport = self.phase.transport;
        transport.prepend_layer(Layer::Websocket(Authentication::TlsOrNoise));
        SwarmBuilder {
            phantom: PhantomData,
            phase: BehaviourPhase { relay_behaviour: self.phase.relay_behaviour, transport },
        }
    }

    /// Authenticate websocket with TLS alone, in front of the stack.
    pub fn without_noise(self) -> (r: SwarmBuilder<P, BehaviourPhase<R>>)
        ensures
            r.phase.transport.layers@ == seq![Layer::Websocket(Authentication::TlsOnly)]
                + self.phase.transport.layers@,
            r.phase.transport.dns == self.phase.transport.dns,
            r.phase.relay_behaviour == self.phase.relay_behaviour,
    {
        let mut transport = self.phase.transport;
        transport.prepend_layer(Layer::Websocket(Authentication::TlsOnly));
        SwarmBuilder {
            phantom: PhantomData,
            phase: BehaviourPhase { relay_behaviour: self.phase.relay_behaviour, transport },
        }
    }
}

impl<P, R> SwarmBuilder<P, WebsocketNoisePhase<R, WithoutTls>> {
    /// Authenticate websocket with Noise alone, in front of the stack.
    pub fn with_noise(self) -> (r: SwarmBuilder<P, BehaviourPhase<R>>)
        ensures
            r.phase.transport.layers@ == seq![Layer::Websocket(Authentication::NoiseOnly)]
                + self.phase.transport.layers@,
            r.phase.transport.dns == self.phase.transport.dns,
            r.phase.relay_behaviour == self.phase.relay_behaviour,
    {
        let mut transport = self.phase.transport;
        transport.prepend_layer(Layer::Websocket(Authentication::NoiseOnly));
        SwarmBuilder {
            phantom: PhantomData,
            phase: BehaviourPhase { relay_behaviour: self.phase.relay_behaviour, transport },
        }
    }
}

impl<P, R> SwarmBuilder<P, BehaviourPhase<R>> {
    /// Attach the caller's network behaviour; the relay behaviour, if any,
    /// was handed to the caller when it was created.
    pub fn with_behaviour<B>(self, behaviour: B) -> (r: SwarmBuilder<P, BuildPhase<B>>)
        ensures
            r.phase.transport == self.phase.transport,
            r.phase.behaviour == behaviour,
    {
        SwarmBuilder {
            phantom: PhantomData,
            phase: BuildPhase { behaviour, transport: self.phase.transport },
        }
    }
}

impl<P, B> SwarmBuilder<P, BuildPhase<B>> {
    /// Finish: the stack description and the behaviour, for the runtime
    /// outside to turn into a running swarm.
    pub fn build(self) -> (r: (TransportStack, B))
        ensures
            r.0 == self.phase.transport,
            r.1 == self.phase.behaviour,
    {
        (self.phase.transport, self.phase.behaviour)
    }
}

} // verus!
