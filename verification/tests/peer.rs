use mde_kdc_host::PeerId;

#[test]
fn peer_id_keeps_its_text() {
    let peer = PeerId::from("dev-1");
    assert_eq!(peer.as_str(), "dev-1");
    assert_eq!(peer.to_string(), "dev-1");
    assert_eq!(peer, PeerId::from(String::from("dev-1")));
    assert_eq!(peer.clone(), peer);
    assert_ne!(peer, PeerId::from("dev-2"));
}
