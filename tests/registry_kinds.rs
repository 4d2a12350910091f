use mumble_protocol::registry::{PacketKind, KIND_COUNT, UDP_TUNNEL};

#[test]
fn ids_follow_declaration_order() {
    assert_eq!(PacketKind::Version.tag(), 0);
    assert_eq!(PacketKind::UDPTunnel.tag(), UDP_TUNNEL);
    assert_eq!(PacketKind::Authenticate.tag(), 2);
    assert_eq!(PacketKind::Ping.tag(), 3);
    assert_eq!(PacketKind::ACL.tag(), 13);
    assert_eq!(PacketKind::SuggestConfig.tag(), 25);
    assert_eq!(PacketKind::WebRTC.tag(), 26);
    assert_eq!(PacketKind::TalkingState.tag(), 28);
}

#[test]
fn every_id_leads_back_to_its_kind() {
    for t in 0..KIND_COUNT {
        let k = PacketKind::from_tag(t).unwrap();
        assert_eq!(k.tag(), t);
    }
    assert_eq!(PacketKind::from_tag(KIND_COUNT), None);
    assert_eq!(PacketKind::from_tag(u16::MAX), None);
}

#[test]
fn kind_names() {
    assert_eq!(PacketKind::UDPTunnel.name(), "UDPTunnel");
    assert_eq!(PacketKind::ContextActionModify.name(), "ContextActionModify");
}
