use p2p_upgrade::protocol::InvalidProtocol;
use p2p_upgrade::protocol::Protocol;
use p2p_upgrade::protocol::MAX_PROTOCOL_LEN;

#[test]
fn valid_name_is_accepted() {
    let p = Protocol::try_from_owned(String::from("/proto/1")).unwrap();
    assert_eq!(p.as_str(), "/proto/1");
}

#[test]
fn round_trip_through_as_str() {
    let p = Protocol::try_from_owned(String::from("/foo/1.0.0")).unwrap();
    let again = Protocol::try_from_owned(String::from(p.as_str())).unwrap();
    assert_eq!(p, again);
    assert_eq!(again.as_str(), "/foo/1.0.0");
}

#[test]
fn missing_slash_is_rejected() {
    assert_eq!(
        Protocol::try_from_owned(String::from("proto")),
        Err(InvalidProtocol {})
    );
}

#[test]
fn empty_name_is_rejected() {
    assert!(Protocol::try_from_owned(String::new()).is_err());
}

#[test]
fn boundary_lengths() {
    assert_eq!(MAX_PROTOCOL_LEN, 140);
    let exactly = format!("/{}", "a".repeat(139));
    assert_eq!(exactly.len(), 140);
    assert!(Protocol::try_from_owned(exactly).is_ok());

    let too_long = format!("/{}", "a".repeat(140));
    assert_eq!(too_long.len(), 141);
    assert!(Protocol::try_from_owned(too_long).is_err());
}

#[test]
fn from_static_keeps_the_name() {
    let p = Protocol::from_static("/static/1");
    assert_eq!(p.as_str(), "/static/1");
}

#[test]
fn equality_is_on_the_name() {
    let a = Protocol::from_static("/x");
    let b = Protocol::try_from_owned(String::from("/x")).unwrap();
    let c = Protocol::from_static("/y");
    assert_eq!(a, b);
    assert_ne!(a, c);
    assert!(a.eq_str("/x"));
    assert!(!a.eq_str("/y"));
}

#[test]
fn clone_keeps_the_name() {
    let p = Protocol::from_static("/clone/me");
    let q = p.clone();
    assert_eq!(p, q);
    assert_eq!(q.as_str(), "/clone/me");
}
