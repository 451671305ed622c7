use peerset_protocol::peer_set::{
    CollationVersion, IsAuthority, NonReservedPeerMode, PeerSet, PerPeerSet, ProtocolVersion,
    UnknownVersion, ValidationVersion, MAX_NOTIFICATION_SIZE,
};
use peerset_protocol::protocol_names::PeerSetProtocolNames;

#[test]
fn all_protocol_versions_have_labels() {
    for protocol in PeerSet::iter() {
        match protocol {
            PeerSet::Validation => {
                for version in ValidationVersion::iter() {
                    protocol
                        .get_protocol_label(version.to_protocol_version())
                        .expect("All validation protocol versions must have a label.");
                }
            },
            PeerSet::Collation => {
                for version in CollationVersion::iter() {
                    protocol
                        .get_protocol_label(version.to_protocol_version())
                        .expect("All collation protocol versions must have a label.");
                }
            },
        }
    }
}

#[test]
fn protocol_labels_are_exact() {
    assert_eq!(PeerSet::Validation.get_label(), "validation");
    assert_eq!(PeerSet::Collation.get_label(), "collation");
    assert_eq!(
        PeerSet::Validation.get_protocol_label(ProtocolVersion::from_u32(3)),
        Some("validation/3"),
    );
    assert_eq!(PeerSet::Validation.get_protocol_label(ProtocolVersion::from_u32(1)), None);
    assert_eq!(
        PeerSet::Collation.get_protocol_label(ProtocolVersion::from_u32(1)),
        Some("collation/1"),
    );
    assert_eq!(
        PeerSet::Collation.get_protocol_label(ProtocolVersion::from_u32(2)),
        Some("collation/2"),
    );
    assert_eq!(PeerSet::Collation.get_protocol_label(ProtocolVersion::from_u32(3)), None);
}

#[test]
fn main_versions_are_current() {
    assert_eq!(PeerSet::Validation.get_main_version().to_u32(), 3);
    assert_eq!(PeerSet::Collation.get_main_version().to_u32(), 2);
}

#[test]
fn version_classification_is_exact() {
    assert_eq!(ValidationVersion::try_from(ProtocolVersion::from_u32(3)), Ok(ValidationVersion::V3));
    assert_eq!(ValidationVersion::try_from(ProtocolVersion::from_u32(1)), Err(UnknownVersion));
    assert_eq!(CollationVersion::try_from(ProtocolVersion::from_u32(1)), Ok(CollationVersion::V1));
    assert_eq!(CollationVersion::try_from(ProtocolVersion::from_u32(2)), Ok(CollationVersion::V2));
    assert_eq!(CollationVersion::try_from(ProtocolVersion::from_u32(99)), Err(UnknownVersion));
}

#[test]
fn max_notification_size_is_constant() {
    assert_eq!(MAX_NOTIFICATION_SIZE, 100 * 1024);
    assert_eq!(
        PeerSet::Validation.get_max_notification_size(IsAuthority::Yes),
        MAX_NOTIFICATION_SIZE,
    );
    assert_eq!(
        PeerSet::Collation.get_max_notification_size(IsAuthority::No),
        MAX_NOTIFICATION_SIZE,
    );
}

#[test]
fn per_peer_set_indexes_by_peer_set() {
    let mut per_peer_set = PerPeerSet::new(1u64, 2u64);
    assert_eq!(*per_peer_set.index(PeerSet::Validation), 1);
    assert_eq!(*per_peer_set.index(PeerSet::Collation), 2);
    *per_peer_set.index_mut(PeerSet::Collation) = 20;
    assert_eq!(*per_peer_set.index(PeerSet::Validation), 1);
    assert_eq!(*per_peer_set.index(PeerSet::Collation), 20);
}

fn registry() -> PeerSetProtocolNames {
    PeerSetProtocolNames::new(peerset_protocol::protocol_names::Hash::from([7u8; 32]), None)
}

#[test]
fn collation_policy_depends_on_role() {
    let names = registry();
    let non_authority = PeerSet::Collation.get_info(IsAuthority::No, &names);
    assert_eq!(non_authority.set_config.in_peers, 0);
    assert_eq!(non_authority.set_config.out_peers, 0);
    assert_eq!(non_authority.set_config.non_reserved_mode, NonReservedPeerMode::Deny);

    let authority = PeerSet::Collation.get_info(IsAuthority::Yes, &names);
    assert_eq!(authority.set_config.in_peers, 100);
    assert_eq!(authority.set_config.out_peers, 0);
    assert_eq!(authority.set_config.non_reserved_mode, NonReservedPeerMode::Accept);
}

#[test]
fn validation_policy_ignores_role() {
    let names = registry();
    let authority = PeerSet::Validation.get_info(IsAuthority::Yes, &names);
    let non_authority = PeerSet::Validation.get_info(IsAuthority::No, &names);
    for info in [authority, non_authority] {
        assert_eq!(info.set_config.in_peers, 11);
        assert_eq!(info.set_config.out_peers, 11);
        assert_eq!(info.set_config.non_reserved_mode, NonReservedPeerMode::Accept);
        assert!(info.set_config.reserved_nodes.is_empty());
    }
}

#[test]
fn info_carries_names_and_fallbacks() {
    let names = registry();
    let validation = PeerSet::Validation.get_info(IsAuthority::Yes, &names);
    assert_eq!(validation.protocol_name, names.get_main_name(PeerSet::Validation));
    assert!(validation.fallback_names.is_empty());
    assert_eq!(validation.max_notification_size, MAX_NOTIFICATION_SIZE);

    let collation = PeerSet::Collation.get_info(IsAuthority::Yes, &names);
    assert_eq!(collation.protocol_name, names.get_main_name(PeerSet::Collation));
    assert_eq!(collation.fallback_names, vec!["/polkadot/collation/1".to_string()]);
}

#[test]
fn peer_sets_info_covers_both_sets() {
    let names = registry();
    let infos = peerset_protocol::protocol_names::peer_sets_info(IsAuthority::No, &names);
    assert_eq!(infos.len(), 2);
    assert_eq!(infos[0].0, PeerSet::Validation);
    assert_eq!(infos[1].0, PeerSet::Collation);
    assert_eq!(infos[1].1.set_config.in_peers, 0);
}
