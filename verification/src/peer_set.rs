//! The peer sets and protocol versions used for the network, and the
//! connection policy attached to each of them.

use vstd::prelude::*;

verus! {

/// Max notification size is currently constant.
pub const MAX_NOTIFICATION_SIZE: u64 = 100 * 1024;

/// The minimum gossip-peer count the connection policy is sized for: together
/// with any reserved peers a node can always reach this many gossip peers.
/// Policy tuning, not load-bearing for correctness.
pub const MIN_GOSSIP_PEERS: usize = 25;

/// How non-reserved peers are admitted on a peer set.
#[derive(Debug, Clone, Copy, PartialEq, Eq, Structural)]
pub enum NonReservedPeerMode {
    /// Accept non-reserved peers.
    Accept,
    /// Deny non-reserved peers.
    Deny,
}

/// The connection-slot policy of one peer set: inbound and outbound slot
/// counts for non-reserved peers, the always-admitted reserved peers (empty
/// in the base policy), and the admission mode for the rest.
#[derive(Debug)]
pub struct SetConfig {
    /// Inbound connection slots for non-reserved peers.
    pub in_peers: u32,
    /// Outbound connection slots for non-reserved peers.
    pub out_peers: u32,
    /// Peers admitted regardless of slot exhaustion or admission mode.
    pub reserved_nodes: Vec<String>,
    /// Admission of non-reserved peers.
    pub non_reserved_mode: NonReservedPeerMode,
}

/// Inbound slot count of the base policy, per peer set and role.
pub open spec fn spec_in_peers(peer_set: PeerSet, is_authority: IsAuthority) -> u32 {
    match peer_set {
        PeerSet::Validation => ((MIN_GOSSIP_PEERS / 2 - 1) as u32),
        PeerSet::Collation => if is_authority == IsAuthority::Yes {
            100
        } else {
            0
        },
    }
}

/// Outbound slot count of the base policy, per peer set and role.
pub open spec fn spec_out_peers(peer_set: PeerSet, is_authority: IsAuthority) -> u32 {
    match peer_set {
        PeerSet::Validation => ((MIN_GOSSIP_PEERS / 2 - 1) as u32),
        PeerSet::Collation => 0,
    }
}

/// Admission mode of the base policy, per peer set and role.
pub open spec fn spec_non_reserved_mode(
    peer_set: PeerSet,
    is_authority: IsAuthority,
) -> NonReservedPeerMode {
    match peer_set {
        PeerSet::Validation => NonReservedPeerMode::Accept,
        PeerSet::Collation => if is_authority == IsAuthority::Yes {
            NonReservedPeerMode::Accept
        } else {
            NonReservedPeerMode::Deny
        },
    }
}

/// Non-authority nodes advertise no capacity on the collation peer set and
/// deny non-reserved peers; authority nodes accept non-reserved peers with a
/// positive inbound capacity.
pub proof fn lemma_collation_policy_by_role()
    ensures
        spec_in_peers(PeerSet::Collation, IsAuthority::No) == 0,
        spec_out_peers(PeerSet::Collation, IsAuthority::No) == 0,
        spec_non_reserved_mode(PeerSet::Collation, IsAuthority::No) == NonReservedPeerMode::Deny,
        spec_in_peers(PeerSet::Collation, IsAuthority::Yes) > 0,
        spec_non_reserved_mode(PeerSet::Collation, IsAuthority::Yes)
            == NonReservedPeerMode::Accept,
{
}

/// The validation peer set's slot counts do not depend on the role, inbound
/// and outbound counts coincide and are positive, and non-reserved peers are
/// always accepted.
pub proof fn lemma_validation_policy_role_independent(a1: IsAuthority, a2: IsAuthority)
    ensures
        spec_in_peers(PeerSet::Validation, a1) == spec_in_peers(PeerSet::Validation, a2),
        spec_out_peers(PeerSet::Validation, a1) == spec_out_peers(PeerSet::Validation, a2),
        spec_in_peers(PeerSet::Validation, a1) == spec_out_peers(PeerSet::Validation, a1),
        spec_in_peers(PeerSet::Validation, a1) > 0,
        spec_non_reserved_mode(PeerSet::Validation, a1) == NonReservedPeerMode::Accept,
{
}

/// The arguments this subsystem hands to the transport layer when a peer
/// set's protocol is registered: the main name, the fallback names, the
/// message size bound and the connection policy.  The transport layer itself
/// opens sockets and returns the notification channel.
#[derive(Debug)]
pub struct PeerSetInfo {
    /// The main protocol name, used for connection bookkeeping.
    pub protocol_name: String,
    /// Alternate wire names accepted for backward compatibility.
    pub fallback_names: Vec<String>,
    /// Maximum message size over the channel.
    pub max_notification_size: u64,
    /// The connection-slot policy.
    pub set_config: SetConfig,
}

/// The peer-sets and thus the protocols which are used for the network.
#[derive(Debug, Clone, Copy, PartialEq, Eq, Hash, Structural)]
pub enum PeerSet {
    /// The validation peer-set is responsible for all messages related to
    /// candidate validation and communication among validators.
    Validation,
    /// The collation peer-set is used for validator<>collator communication.
    Collation,
}

/// Whether a node is an authority or not.
///
/// Peer set configuration gets adjusted accordingly.
#[derive(Debug, Clone, Copy, PartialEq, Eq, Structural)]
pub enum IsAuthority {
    /// Node is authority.
    Yes,
    /// Node is not an authority.
    No,
}

/// A generic version of the protocol. This struct must not be created
/// directly from arbitrary numbers inside the subsystem; every value handed
/// out by the registry stems from one of the version enumerations. Values
/// built with [`ProtocolVersion::from_u32`] that match no enumerator fail
/// classification.
#[derive(Debug, Clone, Copy, PartialEq, Eq, Hash, Structural)]
pub struct ProtocolVersion(u32);

impl ProtocolVersion {
    /// The numeric value of the version.
    pub closed spec fn spec_u32(self) -> u32 {
        self.0
    }

    /// Wrap a raw version number.
    pub fn from_u32(version: u32) -> (r: Self)
        ensures
            r.spec_u32() == version,
    {
        ProtocolVersion(version)
    }

    /// The numeric value of the version.
    pub fn to_u32(self) -> (r: u32)
        ensures
            r == self.spec_u32(),
    {
        self.0
    }

    /// Two protocol versions are equal exactly when their numeric values are.
    pub proof fn lemma_eq_u32(a: Self, b: Self)
        ensures
            (a == b) <==> (a.spec_u32() == b.spec_u32()),
    {
    }
}

/// Supported validation protocol versions. Only versions defined here must be
/// used in the codebase.
#[derive(Debug, Clone, Copy, PartialEq, Eq, Hash, Structural)]
pub enum ValidationVersion {
    /// The third version.
    V3,
}

/// Supported collation protocol versions. Only versions defined here must be
/// used in the codebase.
#[derive(Debug, Clone, Copy, PartialEq, Eq, Hash, Structural)]
pub enum CollationVersion {
    /// The first version.
    V1,
    /// The second version.
    V2,
}

/// Marker indicating the version is unknown.
#[derive(Debug, Clone, Copy, PartialEq, Eq, Structural)]
pub struct UnknownVersion;

impl ValidationVersion {
    /// The wire-visible version number of the enumerator.
    pub open spec fn spec_u32(self) -> u32 {
        match self {
            ValidationVersion::V3 => 3,
        }
    }

    /// All supported validation versions, oldest first.
    pub fn iter() -> (r: Vec<ValidationVersion>)
        ensures
            r@ == seq![ValidationVersion::V3],
    {
        let r = vec![ValidationVersion::V3];
        proof {
            assert(r@ =~= seq![ValidationVersion::V3]);
        }
        r
    }

    /// The generic protocol version standing for this enumerator.
    pub fn to_protocol_version(self) -> (r: ProtocolVersion)
        ensures
            r.spec_u32() == self.spec_u32(),
    {
        match self {
            ValidationVersion::V3 => ProtocolVersion::from_u32(3),
        }
    }

    /// Classify a generic protocol version, failing on numbers that belong to
    /// no enumerator.
    pub fn try_from(p: ProtocolVersion) -> (r: Result<ValidationVersion, UnknownVersion>)
        ensures
            r == if p.spec_u32() == 3 {
                Ok::<ValidationVersion, UnknownVersion>(ValidationVersion::V3)
            } else {
                Err::<ValidationVersion, UnknownVersion>(UnknownVersion)
            },
    {
        if p.to_u32() == 3 {
            Ok(ValidationVersion::V3)
        } else {
            Err(UnknownVersion)
        }
    }
}

impl CollationVersion {
    /// The wire-visible version number of the enumerator.
    pub open spec fn spec_u32(self) -> u32 {
        match self {
            CollationVersion::V1 => 1,
            CollationVersion::V2 => 2,
        }
    }

    /// All supported collation versions, oldest first.
    pub fn iter() -> (r: Vec<CollationVersion>)
        ensures
            r@ == seq![CollationVersion::V1, CollationVersion::V2],
    {
        let r = vec![CollationVersion::V1, CollationVersion::V2];
        proof {
            assert(r@ =~= seq![CollationVersion::V1, CollationVersion::V2]);
        }
        r
    }

    /// The generic protocol version standing for this enumerator.
    pub fn to_protocol_version(self) -> (r: ProtocolVersion)
        ensures
            r.spec_u32() == self.spec_u32(),
    {
        match self {
            CollationVersion::V1 => ProtocolVersion::from_u32(1),
            CollationVersion::V2 => ProtocolVersion::from_u32(2),
        }
    }

    /// Classify a generic protocol version, failing on numbers that belong to
    /// no enumerator.
    pub fn try_from(p: ProtocolVersion) -> (r: Result<CollationVersion, UnknownVersion>)
        ensures
            r == if p.spec_u32() == 1 {
                Ok::<CollationVersion, UnknownVersion>(CollationVersion::V1)
            } else if p.spec_u32() == 2 {
                Ok::<CollationVersion, UnknownVersion>(CollationVersion::V2)
            } else {
                Err::<CollationVersion, UnknownVersion>(UnknownVersion)
            },
    {
        if p.to_u32() == 1 {
            Ok(CollationVersion::V1)
        } else if p.to_u32() == 2 {
            Ok(CollationVersion::V2)
        } else {
            Err(UnknownVersion)
        }
    }
}

/// Whether `version` is the wire version of a supported enumerator of the
/// peer set's version enumeration.
pub open spec fn supported_version(peer_set: PeerSet, version: u32) -> bool {
    match peer_set {
        PeerSet::Validation => version == 3,
        PeerSet::Collation => version == 1 || version == 2,
    }
}

/// The main protocol version of each peer set.
pub open spec fn spec_main_version(peer_set: PeerSet) -> u32 {
    match peer_set {
        PeerSet::Validation => 3,
        PeerSet::Collation => 2,
    }
}

impl PeerSet {
    /// Both peer sets.
    pub fn iter() -> (r: Vec<PeerSet>)
        ensures
            r@ == seq![PeerSet::Validation, PeerSet::Collation],
    {
        let r = vec![PeerSet::Validation, PeerSet::Collation];
        proof {
            assert(r@ =~= seq![PeerSet::Validation, PeerSet::Collation]);
        }
        r
    }

    /// Get the main protocol version for this peer set.
    ///
    /// Networking layer relies on `get_main_version()` being the version of
    /// the main protocol name reported by the registry's `get_main_name()`.
    pub fn get_main_version(self) -> (r: ProtocolVersion)
        ensures
            r.spec_u32() == spec_main_version(self),
    {
        match self {
            PeerSet::Validation => ValidationVersion::V3.to_protocol_version(),
            PeerSet::Collation => CollationVersion::V2.to_protocol_version(),
        }
    }

    /// Get the max notification size for this peer set.
    pub fn get_max_notification_size(self, _is_authority: IsAuthority) -> (r: u64)
        ensures
            r == MAX_NOTIFICATION_SIZE,
    {
        MAX_NOTIFICATION_SIZE
    }

    /// Get the peer set label for metrics reporting.
    pub fn get_label(self) -> (r: &'static str)
        ensures
            r@ == spec_peer_set_label(self),
    {
        match self {
            PeerSet::Validation => "validation",
            PeerSet::Collation => "collation",
        }
    }

    /// Get the protocol label for metrics reporting.
    pub fn get_protocol_label(self, version: ProtocolVersion) -> (r: Option<&'static str>)
        ensures
            match r {
                Some(label) => spec_protocol_label(self, version.spec_u32()) == Some(label@),
                None => spec_protocol_label(self, version.spec_u32()) is None,
            },
    {
        // Labels must be static strings, so all protocol versions are covered
        // one by one here.
        match self {
            PeerSet::Validation => {
                if version == ValidationVersion::V3.to_protocol_version() {
                    Some("validation/3")
                } else {
                    None
                }
            },
            PeerSet::Collation => {
                if version == CollationVersion::V1.to_protocol_version() {
                    Some("collation/1")
                } else if version == CollationVersion::V2.to_protocol_version() {
                    Some("collation/2")
                } else {
                    None
                }
            },
        }
    }
}

/// The metrics label of a peer set.
pub open spec fn spec_peer_set_label(peer_set: PeerSet) -> Seq<char> {
    match peer_set {
        PeerSet::Validation => "validation"@,
        PeerSet::Collation => "collation"@,
    }
}

/// The metrics label of a protocol version of a peer set, absent for
/// unsupported versions.
pub open spec fn spec_protocol_label(peer_set: PeerSet, version: u32) -> Option<Seq<char>> {
    match peer_set {
        PeerSet::Validation => if version == 3 {
            Some("validation/3"@)
        } else {
            None
        },
        PeerSet::Collation => if version == 1 {
            Some("collation/1"@)
        } else if version == 2 {
            Some("collation/2"@)
        } else {
            None
        },
    }
}

/// Every supported version of every peer set carries a metrics label.
pub proof fn lemma_all_supported_versions_have_labels(peer_set: PeerSet, version: u32)
    requires
        supported_version(peer_set, version),
    ensures
        spec_protocol_label(peer_set, version) is Some,
{
}

/// A small and nifty collection that allows to store data pertaining to each
/// peer set.
#[derive(Debug)]
pub struct PerPeerSet<T> {
    validation: T,
    collation: T,
}

impl<T> PerPeerSet<T> {
    /// The value stored for a peer set.
    pub closed spec fn spec_index(&self, index: PeerSet) -> T {
        match index {
            PeerSet::Validation => self.validation,
            PeerSet::Collation => self.collation,
        }
    }

    /// Store one value per peer set.
    pub fn new(validation: T, collation: T) -> (r: Self)
        ensures
            r.spec_index(PeerSet::Validation) == validation,
            r.spec_index(PeerSet::Collation) == collation,
    {
        PerPeerSet { validation, collation }
    }

    /// Borrow the value stored for a peer set.
    pub fn index(&self, index: PeerSet) -> (r: &T)
        ensures
            *r == self.spec_index(index),
    {
        match index {
            PeerSet::Validation => &self.validation,
            PeerSet::Collation => &self.collation,
        }
    }

    /// Mutably borrow the value stored for a peer set.
    pub fn index_mut(&mut self, index: PeerSet) -> (r: &mut T)
        ensures
            *r == old(self).spec_index(index),
            final(self).spec_index(index) == *final(r),
            forall|other: PeerSet|
                other != index ==> final(self).spec_index(other) == old(self).spec_index(other),
    {
        match index {
            PeerSet::Validation => &mut self.validation,
            PeerSet::Collation => &mut self.collation,
        }
    }
}

} // verus!
