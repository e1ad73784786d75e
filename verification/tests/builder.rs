use p2p_upgrade::builder::Authentication;
use p2p_upgrade::builder::Layer;
use p2p_upgrade::builder::SwarmBuilder;

#[test]
fn tcp_stack_with_tls_and_noise() {
    let (stack, behaviour) = SwarmBuilder::with_new_identity()
        .with_tokio()
        .with_tcp()
        .with_tls()
        .with_noise()
        .with_behaviour(7u8)
        .build();
    assert_eq!(stack.layers, vec![Layer::Tcp(Authentication::TlsOrNoise)]);
    assert!(!stack.dns);
    assert_eq!(behaviour, 7);
}

#[test]
fn tcp_without_noise_keeps_tls_only() {
    let (stack, _) = SwarmBuilder::with_new_identity()
        .with_async_std()
        .with_tcp()
        .with_tls()
        .without_noise()
        .with_behaviour(())
        .build();
    assert_eq!(stack.layers, vec![Layer::Tcp(Authentication::TlsOnly)]);
}

#[test]
fn tcp_skipping_tls_uses_noise_only() {
    let (stack, _) = SwarmBuilder::with_new_identity()
        .with_tokio()
        .with_tcp()
        .with_noise()
        .with_behaviour(())
        .build();
    assert_eq!(stack.layers, vec![Layer::Tcp(Authentication::NoiseOnly)]);
}

#[test]
fn quic_alone() {
    let (stack, _) = SwarmBuilder::with_new_identity()
        .with_tokio()
        .with_quic()
        .with_behaviour(())
        .build();
    assert_eq!(stack.layers, vec![Layer::Quic]);
}

#[test]
fn tcp_then_quic_dials_tcp_first() {
    let (stack, _) = SwarmBuilder::with_new_identity()
        .with_tokio()
        .with_tcp()
        .with_tls()
        .with_noise()
        .with_quic()
        .with_behaviour(())
        .build();
    assert_eq!(
        stack.layers,
        vec![Layer::Tcp(Authentication::TlsOrNoise), Layer::Quic]
    );
}

#[test]
fn dns_wraps_the_stack() {
    let (stack, _) = SwarmBuilder::with_new_identity()
        .with_tokio()
        .with_quic()
        .with_dns()
        .with_behaviour(())
        .build();
    assert_eq!(stack.layers, vec![Layer::Quic]);
    assert!(stack.dns);
}

#[test]
fn websocket_goes_in_front() {
    let (stack, _) = SwarmBuilder::with_new_identity()
        .with_tokio()
        .with_tcp()
        .with_tls()
        .with_noise()
        .with_websocket()
        .with_tls()
        .with_noise()
        .with_behaviour(())
        .build();
    assert_eq!(
        stack.layers,
        vec![
            Layer::Websocket(Authentication::TlsOrNoise),
            Layer::Tcp(Authentication::TlsOrNoise),
        ]
    );
}

#[test]
fn full_chain_keeps_every_layer_in_order() {
    let (stack, behaviour) = SwarmBuilder::with_new_identity()
        .with_tokio()
        .with_tcp()
        .with_tls()
        .with_noise()
        .with_quic()
        .with_other_transport()
        .with_dns()
        .with_relay()
        .with_tls()
        .with_noise()
        .with_websocket()
        .with_tls()
        .with_noise()
        .with_behaviour(99u32)
        .build();
    assert_eq!(
        stack.layers,
        vec![
            Layer::Websocket(Authentication::TlsOrNoise),
            Layer::Tcp(Authentication::TlsOrNoise),
            Layer::Quic,
            Layer::Other,
            Layer::Relay(Authentication::TlsOrNoise),
        ]
    );
    assert!(stack.dns);
    assert_eq!(behaviour, 99);
}

#[test]
fn relay_with_noise_only() {
    let (stack, _) = SwarmBuilder::with_new_identity()
        .with_async_std()
        .with_quic()
        .with_relay()
        .with_noise()
        .with_behaviour(())
        .build();
    assert_eq!(
        stack.layers,
        vec![Layer::Quic, Layer::Relay(Authentication::NoiseOnly)]
    );
}

#[test]
fn other_transports_append() {
    let (stack, _) = SwarmBuilder::with_new_identity()
        .with_tokio()
        .with_other_transport()
        .with_other_transport()
        .with_behaviour(())
        .build();
    assert_eq!(stack.layers, vec![Layer::Other, Layer::Other]);
}
