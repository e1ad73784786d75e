use p2p_upgrade::negotiation::Endpoint;
use p2p_upgrade::negotiation::NegotiationError;
use p2p_upgrade::negotiation::contains_protocol;
use p2p_upgrade::negotiation::select_protocol;
use p2p_upgrade::protocol::Protocol;

fn protocols(names: &[&'static str]) -> Vec<Protocol> {
    names.iter().map(|n| Protocol::from_static(n)).collect()
}

#[test]
fn dialer_takes_its_own_first_acceptable() {
    let local = protocols(&["/a/1", "/b/1"]);
    let remote = protocols(&["/b/1", "/a/1"]);
    let p = select_protocol(Endpoint::Dialer, &local, &remote).unwrap();
    assert_eq!(p.as_str(), "/a/1");
}

#[test]
fn listener_follows_the_remote_order() {
    let local = protocols(&["/a/1", "/b/1"]);
    let remote = protocols(&["/b/1", "/a/1"]);
    let p = select_protocol(Endpoint::Listener, &local, &remote).unwrap();
    assert_eq!(p.as_str(), "/b/1");
}

#[test]
fn dialer_falls_back_to_a_later_protocol() {
    let local = protocols(&["/a", "/b"]);
    let remote = protocols(&["/b"]);
    let p = select_protocol(Endpoint::Dialer, &local, &remote).unwrap();
    assert_eq!(p.as_str(), "/b");
}

#[test]
fn no_overlap_fails() {
    let local = protocols(&["/a/1"]);
    let remote = protocols(&["/b/1"]);
    assert_eq!(
        select_protocol(Endpoint::Dialer, &local, &remote),
        Err(NegotiationError::Failed)
    );
    assert_eq!(
        select_protocol(Endpoint::Listener, &local, &remote),
        Err(NegotiationError::Failed)
    );
}

#[test]
fn empty_offer_fails_immediately() {
    let local: Vec<Protocol> = Vec::new();
    let remote = protocols(&["/b/1"]);
    assert_eq!(
        select_protocol(Endpoint::Dialer, &local, &remote),
        Err(NegotiationError::Failed)
    );
    assert_eq!(
        select_protocol(Endpoint::Listener, &local, &remote),
        Err(NegotiationError::Failed)
    );
}

#[test]
fn membership_test() {
    let ps = protocols(&["/a", "/b"]);
    assert!(contains_protocol(&ps, &Protocol::from_static("/a")));
    assert!(!contains_protocol(&ps, &Protocol::from_static("/c")));
}
