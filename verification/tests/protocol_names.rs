use peerset_protocol::peer_set::{CollationVersion, PeerSet, ProtocolVersion, ValidationVersion};
use peerset_protocol::protocol_names::PeerSetProtocolNames;

fn test_genesis_hash() -> peerset_protocol::protocol_names::Hash {
    peerset_protocol::protocol_names::Hash::from([
        122, 200, 116, 29, 232, 183, 20, 109, 138, 86, 23, 253, 70, 41, 20, 85, 127, 230, 60, 38,
        90, 127, 28, 16, 231, 218, 227, 40, 88, 238, 187, 128,
    ])
}

#[test]
fn protocol_names_are_correctly_generated() {
    let genesis_hash = test_genesis_hash();
    let name = PeerSetProtocolNames::generate_name(
        &genesis_hash,
        None,
        PeerSet::Validation,
        ProtocolVersion::from_u32(3),
    );
    let expected = "/7ac8741de8b7146d8a5617fd462914557fe63c265a7f1c10e7dae32858eebb80/validation/3";
    assert_eq!(name, expected);

    let name = PeerSetProtocolNames::generate_name(
        &genesis_hash,
        None,
        PeerSet::Collation,
        ProtocolVersion::from_u32(5),
    );
    let expected = "/7ac8741de8b7146d8a5617fd462914557fe63c265a7f1c10e7dae32858eebb80/collation/5";
    assert_eq!(name, expected);

    let fork_id = Some("test-fork");
    let name = PeerSetProtocolNames::generate_name(
        &genesis_hash,
        fork_id,
        PeerSet::Validation,
        ProtocolVersion::from_u32(7),
    );
    let expected =
        "/7ac8741de8b7146d8a5617fd462914557fe63c265a7f1c10e7dae32858eebb80/test-fork/validation/7";
    assert_eq!(name, expected);

    let name = PeerSetProtocolNames::generate_name(
        &genesis_hash,
        fork_id,
        PeerSet::Collation,
        ProtocolVersion::from_u32(11),
    );
    let expected =
        "/7ac8741de8b7146d8a5617fd462914557fe63c265a7f1c10e7dae32858eebb80/test-fork/collation/11";
    assert_eq!(name, expected);
}

#[test]
fn all_protocol_names_are_known() {
    let genesis_hash = test_genesis_hash();
    let protocol_names = PeerSetProtocolNames::new(genesis_hash, None);

    let validation_main =
        "/7ac8741de8b7146d8a5617fd462914557fe63c265a7f1c10e7dae32858eebb80/validation/3";
    assert_eq!(
        protocol_names.try_get_protocol(validation_main),
        Some((PeerSet::Validation, ProtocolVersion::from_u32(3))),
    );

    let validation_legacy = "/polkadot/validation/1";
    assert!(protocol_names.try_get_protocol(validation_legacy).is_none());

    let collation_main =
        "/7ac8741de8b7146d8a5617fd462914557fe63c265a7f1c10e7dae32858eebb80/collation/1";
    assert_eq!(
        protocol_names.try_get_protocol(collation_main),
        Some((PeerSet::Collation, ProtocolVersion::from_u32(1))),
    );

    let collation_legacy = "/polkadot/collation/1";
    assert_eq!(
        protocol_names.try_get_protocol(collation_legacy),
        Some((PeerSet::Collation, ProtocolVersion::from_u32(1))),
    );
}

#[test]
fn all_protocol_versions_are_registered() {
    let genesis_hash = test_genesis_hash();
    let protocol_names = PeerSetProtocolNames::new(genesis_hash, None);

    for protocol in PeerSet::iter() {
        match protocol {
            PeerSet::Validation => {
                for version in ValidationVersion::iter() {
                    assert_eq!(
                        protocol_names.get_name(protocol, version.to_protocol_version()),
                        PeerSetProtocolNames::generate_name(
                            &genesis_hash,
                            None,
                            protocol,
                            version.to_protocol_version(),
                        ),
                    );
                }
            },
            PeerSet::Collation => {
                for version in CollationVersion::iter() {
                    assert_eq!(
                        protocol_names.get_name(protocol, version.to_protocol_version()),
                        PeerSetProtocolNames::generate_name(
                            &genesis_hash,
                            None,
                            protocol,
                            version.to_protocol_version(),
                        ),
                    );
                }
            },
        }
    }
}

#[test]
fn name_derivation_is_deterministic() {
    let genesis_hash = test_genesis_hash();
    let first = PeerSetProtocolNames::generate_name(
        &genesis_hash,
        Some("test-fork"),
        PeerSet::Validation,
        ProtocolVersion::from_u32(3),
    );
    let second = PeerSetProtocolNames::generate_name(
        &genesis_hash,
        Some("test-fork"),
        PeerSet::Validation,
        ProtocolVersion::from_u32(3),
    );
    assert_eq!(first, second);
}

#[test]
fn name_derivation_differs_per_input() {
    let genesis_hash = test_genesis_hash();
    let other_hash = peerset_protocol::protocol_names::Hash::from([0u8; 32]);
    let base = PeerSetProtocolNames::generate_name(
        &genesis_hash,
        None,
        PeerSet::Validation,
        ProtocolVersion::from_u32(3),
    );
    let other_set = PeerSetProtocolNames::generate_name(
        &genesis_hash,
        None,
        PeerSet::Collation,
        ProtocolVersion::from_u32(3),
    );
    let other_version = PeerSetProtocolNames::generate_name(
        &genesis_hash,
        None,
        PeerSet::Validation,
        ProtocolVersion::from_u32(4),
    );
    let other_genesis = PeerSetProtocolNames::generate_name(
        &other_hash,
        None,
        PeerSet::Validation,
        ProtocolVersion::from_u32(3),
    );
    let other_fork = PeerSetProtocolNames::generate_name(
        &genesis_hash,
        Some("test-fork"),
        PeerSet::Validation,
        ProtocolVersion::from_u32(3),
    );
    assert_ne!(base, other_set);
    assert_ne!(base, other_version);
    assert_ne!(base, other_genesis);
    assert_ne!(base, other_fork);
}

#[test]
fn registered_names_round_trip() {
    let genesis_hash = test_genesis_hash();
    let protocol_names = PeerSetProtocolNames::new(genesis_hash, Some("test-fork"));
    for protocol in PeerSet::iter() {
        match protocol {
            PeerSet::Validation => {
                for version in ValidationVersion::iter() {
                    let version = version.to_protocol_version();
                    let name = protocol_names.get_name(protocol, version);
                    assert_eq!(
                        protocol_names.try_get_protocol(name.as_str()),
                        Some((protocol, version)),
                    );
                }
            },
            PeerSet::Collation => {
                for version in CollationVersion::iter() {
                    let version = version.to_protocol_version();
                    let name = protocol_names.get_name(protocol, version);
                    assert_eq!(
                        protocol_names.try_get_protocol(name.as_str()),
                        Some((protocol, version)),
                    );
                }
            },
        }
    }
}

#[test]
fn unrelated_names_resolve_to_absence() {
    let genesis_hash = test_genesis_hash();
    let protocol_names = PeerSetProtocolNames::new(genesis_hash, None);
    assert!(protocol_names.try_get_protocol("/some/unrelated/protocol/name").is_none());
    assert!(protocol_names.try_get_protocol("").is_none());
}

#[test]
fn duplicate_name_registration_fails() {
    let mut protocols = Vec::new();
    let first = PeerSetProtocolNames::insert_protocol(
        &mut protocols,
        String::from("/polkadot/validation/1"),
        PeerSet::Validation,
        ProtocolVersion::from_u32(1),
    );
    assert!(first.is_ok());
    assert_eq!(protocols.len(), 1);

    let second = PeerSetProtocolNames::insert_protocol(
        &mut protocols,
        String::from("/polkadot/validation/1"),
        PeerSet::Collation,
        ProtocolVersion::from_u32(2),
    );
    let collision = second.unwrap_err();
    assert_eq!(collision.name, "/polkadot/validation/1");
    assert_eq!(collision.existing, (PeerSet::Validation, ProtocolVersion::from_u32(1)));
    assert_eq!(collision.attempted, (PeerSet::Collation, ProtocolVersion::from_u32(2)));
    assert_eq!(protocols.len(), 1);
}

#[test]
fn main_names_follow_main_versions() {
    let genesis_hash = test_genesis_hash();
    let protocol_names = PeerSetProtocolNames::new(genesis_hash, None);
    assert_eq!(
        protocol_names.get_main_name(PeerSet::Validation),
        "/7ac8741de8b7146d8a5617fd462914557fe63c265a7f1c10e7dae32858eebb80/validation/3",
    );
    assert_eq!(
        protocol_names.get_main_name(PeerSet::Collation),
        "/7ac8741de8b7146d8a5617fd462914557fe63c265a7f1c10e7dae32858eebb80/collation/2",
    );
}
