use p2p_upgrade::combinators::DeniedUpgrade;
use p2p_upgrade::combinators::Either;
use p2p_upgrade::combinators::MapInboundUpgrade;
use p2p_upgrade::combinators::MapInboundUpgradeErr;
use p2p_upgrade::combinators::OptionalUpgrade;
use p2p_upgrade::combinators::PendingUpgrade;
use p2p_upgrade::combinators::ReadyUpgrade;
use p2p_upgrade::combinators::SelectUpgrade;
use p2p_upgrade::combinators::UpgradeProtocols;
use p2p_upgrade::combinators::from_fn;
use p2p_upgrade::negotiation::Endpoint;
use p2p_upgrade::negotiation::NegotiationError;
use p2p_upgrade::negotiation::Version;
use p2p_upgrade::protocol::Protocol;
use p2p_upgrade::upgrade::InboundUpgradeExt;
use p2p_upgrade::upgrade::OutboundUpgradeExt;
use p2p_upgrade::upgrade::UpgradeError;
use p2p_upgrade::upgrade::filter_malformed_protocols;
use p2p_upgrade::upgrade::negotiate_upgrade;
use p2p_upgrade::upgrade::offered_protocols;
use p2p_upgrade::upgrade::settle_handshake;
use p2p_upgrade::upgrade::settle_negotiation;
use p2p_upgrade::upgrade::to_protocols;

fn names(ps: &[Protocol]) -> Vec<&str> {
    ps.iter().map(|p| p.as_str()).collect()
}

#[test]
fn malformed_names_are_filtered() {
    let candidates = vec![
        String::from("/ok"),
        String::from("bad"),
        String::from("/also"),
    ];
    let offered = filter_malformed_protocols(&candidates);
    assert_eq!(names(&offered), vec!["/ok", "/also"]);
}

#[test]
fn enumeration_to_protocols() {
    let enumeration = vec![String::from("/one"), String::from(""), String::from("/two")];
    let offered = to_protocols(&enumeration);
    assert_eq!(names(&offered), vec!["/one", "/two"]);
}

#[test]
fn duplicates_are_offered_once() {
    let list = vec![
        Protocol::from_static("/a"),
        Protocol::from_static("/b"),
        Protocol::from_static("/a"),
    ];
    let offered = offered_protocols(&list);
    assert_eq!(names(&offered), vec!["/a", "/b"]);
}

#[test]
fn denied_offers_nothing() {
    assert!(DeniedUpgrade.protocols().is_empty());
}

#[test]
fn denied_fails_negotiation_with_select() {
    let local = DeniedUpgrade.protocols();
    let remote = vec![Protocol::from_static("/b")];
    let r: Result<Protocol, UpgradeError<()>> =
        negotiate_upgrade(Endpoint::Dialer, &local, &remote);
    assert_eq!(r, Err(UpgradeError::Select(NegotiationError::Failed)));
}

#[test]
fn ready_offers_one_protocol_and_succeeds() {
    let listener = ReadyUpgrade::new(Protocol::from_static("/proto/1"), 42u32);
    let dialer = ReadyUpgrade::new(Protocol::from_static("/proto/1"), 42u32);

    let negotiated: Result<Protocol, UpgradeError<()>> = negotiate_upgrade(
        Endpoint::Listener,
        &listener.protocols(),
        &dialer.protocols(),
    );
    assert_eq!(negotiated.unwrap().as_str(), "/proto/1");
    assert_eq!(listener.into_output(), 42);
    assert_eq!(dialer.into_output(), 42);
}

#[test]
fn pending_reserves_a_name() {
    let u = PendingUpgrade::new(Protocol::from_static("/reserved"));
    assert_eq!(names(&u.protocols()), vec!["/reserved"]);
}

#[test]
fn optional_behaves_as_inner_or_denied() {
    let some = OptionalUpgrade::some(ReadyUpgrade::new(Protocol::from_static("/p"), 1u8));
    assert_eq!(names(&some.protocols()), vec!["/p"]);
    let none: OptionalUpgrade<ReadyUpgrade<u8>> = OptionalUpgrade::none();
    assert!(none.protocols().is_empty());
}

#[test]
fn select_concatenates_protocols_left_first() {
    let s = SelectUpgrade::new(
        ReadyUpgrade::new(Protocol::from_static("/a"), 1u8),
        ReadyUpgrade::new(Protocol::from_static("/b"), 2u8),
    );
    assert_eq!(names(&s.protocols()), vec!["/a", "/b"]);
}

#[test]
fn select_left_bias_resolves_right_when_only_right_matches() {
    let s = SelectUpgrade::new(
        ReadyUpgrade::new(Protocol::from_static("/a"), 1u8),
        ReadyUpgrade::new(Protocol::from_static("/b"), 2u8),
    );
    let remote = vec![Protocol::from_static("/b")];
    let negotiated: Protocol =
        negotiate_upgrade::<()>(Endpoint::Dialer, &s.protocols(), &remote).unwrap();
    assert_eq!(negotiated.as_str(), "/b");
    assert!(!s.negotiates_left(&negotiated));
    let out: Either<u8, u8> = Either::Right(s.right.into_output());
    assert_eq!(out, Either::Right(2));
}

#[test]
fn select_left_bias_prefers_left_when_both_match() {
    let s = SelectUpgrade::new(
        ReadyUpgrade::new(Protocol::from_static("/same"), 1u8),
        ReadyUpgrade::new(Protocol::from_static("/same"), 2u8),
    );
    let remote = vec![Protocol::from_static("/same")];
    let negotiated: Protocol =
        negotiate_upgrade::<()>(Endpoint::Dialer, &s.protocols(), &remote).unwrap();
    assert!(s.negotiates_left(&negotiated));
}

#[test]
fn settle_wraps_each_failure_in_its_own_variant() {
    let neg: Result<Protocol, UpgradeError<&str>> =
        settle_negotiation(Err(NegotiationError::Failed));
    assert_eq!(neg, Err(UpgradeError::Select(NegotiationError::Failed)));

    let hs: Result<u8, UpgradeError<&str>> = settle_handshake(Err("handshake broke"));
    assert_eq!(hs, Err(UpgradeError::Apply("handshake broke")));

    let ok: Result<u8, UpgradeError<&str>> = settle_handshake(Ok(9));
    assert_eq!(ok, Ok(9));
}

#[test]
fn map_transforms_the_output_exactly_once() {
    let inner = ReadyUpgrade::new(Protocol::from_static("/n"), 20u32);
    let mapped = MapInboundUpgrade::new(inner, |o: u32| o + 1);
    assert_eq!(names(&mapped.protocols()), vec!["/n"]);
    let out: Result<u32, &str> = mapped.settle(Ok(20u32));
    assert_eq!(out, Ok(21));
}

#[test]
fn map_leaves_errors_alone_and_map_err_transforms_them() {
    let inner = ReadyUpgrade::new(Protocol::from_static("/n"), 0u8);
    let mapped = MapInboundUpgrade::new(inner, |o: u8| o);
    let failed: Result<u8, &str> = mapped.settle(Err("boom"));
    assert_eq!(failed, Err("boom"));

    let inner = ReadyUpgrade::new(Protocol::from_static("/n"), 0u8);
    let mapped_err = MapInboundUpgradeErr::new(inner, |e: &str| e.len());
    let failed: Result<u8, usize> = mapped_err.settle(Err("boom"));
    assert_eq!(failed, Err(4));
    let fine: Result<u8, usize> = MapInboundUpgradeErr::new(
        ReadyUpgrade::new(Protocol::from_static("/n"), 0u8),
        |e: &str| e.len(),
    )
    .settle(Ok(7));
    assert_eq!(fine, Ok(7));
}

#[test]
fn extension_methods_wrap_without_changing_protocols() {
    let u = ReadyUpgrade::new(Protocol::from_static("/x"), 5u8);
    let wrapped = u.map_inbound(|o: u8| o as u16);
    assert_eq!(names(&wrapped.protocols()), vec!["/x"]);

    let u = ReadyUpgrade::new(Protocol::from_static("/x"), 5u8);
    let wrapped = u.map_outbound(|o: u8| o as u16);
    assert_eq!(names(&wrapped.protocols()), vec!["/x"]);

    let u = ReadyUpgrade::new(Protocol::from_static("/x"), 5u8);
    let wrapped = u.map_inbound_err(|e: &str| e.len());
    assert_eq!(names(&wrapped.protocols()), vec!["/x"]);

    let u = ReadyUpgrade::new(Protocol::from_static("/x"), 5u8);
    let wrapped = u.map_outbound_err(|e: &str| e.len());
    assert_eq!(names(&wrapped.protocols()), vec!["/x"]);
}

#[test]
fn apply_filters_then_negotiates() {
    let enumeration = vec![
        String::from("bad"),
        String::from("/ok"),
        String::from("/also"),
    ];
    let remote = vec![Protocol::from_static("/also")];
    let negotiated: Protocol = p2p_upgrade::upgrade::apply_negotiation::<_, ()>(
        &enumeration,
        Endpoint::Dialer,
        Version::V1Lazy,
        &remote,
    )
    .unwrap();
    assert_eq!(negotiated.as_str(), "/also");

    let no_overlap = vec![Protocol::from_static("/other")];
    let failed = p2p_upgrade::upgrade::apply_negotiation::<_, ()>(
        &enumeration,
        Endpoint::Dialer,
        Version::V1,
        &no_overlap,
    );
    assert_eq!(failed, Err(UpgradeError::Select(NegotiationError::Failed)));
}

#[test]
fn from_fn_offers_its_list() {
    let u = from_fn(
        vec![Protocol::from_static("/f/1"), Protocol::from_static("/f/2")],
        |x: u8| x,
    );
    assert_eq!(names(&u.protocols()), vec!["/f/1", "/f/2"]);
}
