//! On-the-wire protocol names: deterministic derivation from chain identity,
//! and the registry mapping names to `(PeerSet, ProtocolVersion)` pairs.

use vstd::prelude::*;
use vstd::string::StringExecFns;

use crate::encoding::{
    hex_encode, lemma_append_left_cancel, lemma_decimal_injective, lemma_decimal_len,
    lemma_hex_encode_injective, lemma_hex_encode_len, lemma_mid_segment_first_char,
    lemma_mid_segment_neq, spec_decimal, spec_hex_encode, u32_decimal,
};
use crate::peer_set::{
    spec_in_peers, spec_main_version, spec_non_reserved_mode, spec_out_peers, spec_peer_set_label,
    supported_version, IsAuthority, NonReservedPeerMode, PeerSet, PeerSetInfo, ProtocolVersion,
    SetConfig, MAX_NOTIFICATION_SIZE, MIN_GOSSIP_PEERS,
};

verus! {

/// The legacy protocol version. Is always 1 for collation.
pub const LEGACY_COLLATION_PROTOCOL_VERSION_V1: u32 = 1;

/// The legacy collation protocol name. Only supported on version = 1.
pub open spec fn spec_legacy_name() -> Seq<char> {
    "/polkadot/collation/1"@
}

/// The legacy collation protocol name. Only supported on version = 1.
pub fn legacy_collation_protocol_name() -> (r: &'static str)
    ensures
        r@ == spec_legacy_name(),
{
    "/polkadot/collation/1"
}

/// A chain's genesis hash: a fixed-size byte identifier used only as a
/// derivation input for protocol names.
#[derive(Debug, Clone, Copy)]
pub struct Hash {
    bytes: [u8; 32],
}

impl View for Hash {
    type V = Seq<u8>;

    closed spec fn view(&self) -> Seq<u8> {
        self.bytes@
    }
}

impl Hash {
    /// Wrap a 32-byte identifier.
    pub fn from(bytes: [u8; 32]) -> (r: Self)
        ensures
            r@ == bytes@,
            r@.len() == 32,
    {
        Hash { bytes }
    }

    /// Borrow the identifier's bytes.
    pub fn as_bytes(&self) -> (r: &[u8])
        ensures
            r@ == self@,
            r@.len() == 32,
    {
        vstd::array::array_as_slice(&self.bytes)
    }
}

/// The view of an optional fork identifier.
pub open spec fn opt_str_view(fork_id: Option<&str>) -> Option<Seq<char>> {
    match fork_id {
        Some(s) => Some(s@),
        None => None,
    }
}

/// The chain-identity prefix of every derived name: the genesis hash in
/// lowercase hexadecimal, followed by the fork identifier when the chain has
/// one, each segment led by `/`.
pub open spec fn spec_name_prefix(genesis: Seq<u8>, fork: Option<Seq<char>>) -> Seq<char> {
    match fork {
        Some(f) => seq!['/'] + spec_hex_encode(genesis) + seq!['/'] + f,
        None => seq!['/'] + spec_hex_encode(genesis),
    }
}

/// The wire name derived from chain identity, peer set and version: the
/// chain-identity prefix, the peer set label and the decimal version number,
/// separated by `/`.
pub open spec fn spec_generate_name(
    genesis: Seq<u8>,
    fork: Option<Seq<char>>,
    protocol: PeerSet,
    version: u32,
) -> Seq<char> {
    spec_name_prefix(genesis, fork) + seq!['/'] + spec_peer_set_label(protocol) + seq!['/']
        + spec_decimal(version as nat)
}

/// Derived names are deterministic in, and injective over, their inputs.
/// Holding chain identity fixed, distinct `(peer set, version)` pairs give
/// distinct names.
pub proof fn lemma_main_names_injective(
    genesis: Seq<u8>,
    fork: Option<Seq<char>>,
    ps1: PeerSet,
    v1: u32,
    ps2: PeerSet,
    v2: u32,
)
    requires
        ps1 != ps2 || v1 != v2,
    ensures
        spec_generate_name(genesis, fork, ps1, v1) != spec_generate_name(genesis, fork, ps2, v2),
{
    let p = spec_name_prefix(genesis, fork) + seq!['/'];
    let l1 = spec_peer_set_label(ps1);
    let l2 = spec_peer_set_label(ps2);
    let d1 = spec_decimal(v1 as nat);
    let d2 = spec_decimal(v2 as nat);
    assert(spec_generate_name(genesis, fork, ps1, v1) =~= p + l1 + (seq!['/'] + d1));
    assert(spec_generate_name(genesis, fork, ps2, v2) =~= p + l2 + (seq!['/'] + d2));
    if ps1 != ps2 {
        proof_labels_start_differently(ps1, ps2);
        lemma_mid_segment_first_char(p, l1, seq!['/'] + d1, l2, seq!['/'] + d2);
    } else {
        let q = p + l1 + seq!['/'];
        assert(p + l1 + (seq!['/'] + d1) =~= q + d1);
        assert(p + l2 + (seq!['/'] + d2) =~= q + d2);
        lemma_decimal_injective(v1 as nat, v2 as nat);
        lemma_append_left_cancel(q, d1, d2);
    }
}

/// The labels of distinct peer sets start with distinct characters.
proof fn proof_labels_start_differently(ps1: PeerSet, ps2: PeerSet)
    requires
        ps1 != ps2,
    ensures
        spec_peer_set_label(ps1).len() > 0,
        spec_peer_set_label(ps2).len() > 0,
        spec_peer_set_label(ps1)[0] != spec_peer_set_label(ps2)[0],
{
    reveal_strlit("validation");
    reveal_strlit("collation");
}

/// Holding everything else fixed, distinct genesis hashes of equal size give
/// distinct names.
pub proof fn lemma_name_distinct_genesis(
    g1: Seq<u8>,
    g2: Seq<u8>,
    fork: Option<Seq<char>>,
    protocol: PeerSet,
    version: u32,
)
    requires
        g1.len() == g2.len(),
        g1 != g2,
    ensures
        spec_generate_name(g1, fork, protocol, version) != spec_generate_name(
            g2,
            fork,
            protocol,
            version,
        ),
{
    let tail = match fork {
        Some(f) => seq!['/'] + f + seq!['/'] + spec_peer_set_label(protocol) + seq!['/']
            + spec_decimal(version as nat),
        None => seq!['/'] + spec_peer_set_label(protocol) + seq!['/'] + spec_decimal(
            version as nat,
        ),
    };
    assert(spec_generate_name(g1, fork, protocol, version) =~= seq!['/'] + spec_hex_encode(g1)
        + tail);
    assert(spec_generate_name(g2, fork, protocol, version) =~= seq!['/'] + spec_hex_encode(g2)
        + tail);
    lemma_hex_encode_len(g1);
    lemma_hex_encode_len(g2);
    lemma_hex_encode_injective(g1, g2);
    lemma_mid_segment_neq(seq!['/'], spec_hex_encode(g1), tail, spec_hex_encode(g2), tail);
}

/// Holding everything else fixed, distinct fork identifiers (including
/// presence against absence) give distinct names.
pub proof fn lemma_name_distinct_fork(
    genesis: Seq<u8>,
    f1: Option<Seq<char>>,
    f2: Option<Seq<char>>,
    protocol: PeerSet,
    version: u32,
)
    requires
        f1 != f2,
    ensures
        spec_generate_name(genesis, f1, protocol, version) != spec_generate_name(
            genesis,
            f2,
            protocol,
            version,
        ),
{
    let n1 = spec_generate_name(genesis, f1, protocol, version);
    let n2 = spec_generate_name(genesis, f2, protocol, version);
    let tail = seq!['/'] + spec_peer_set_label(protocol) + seq!['/'] + spec_decimal(
        version as nat,
    );
    match (f1, f2) {
        (None, None) => {
            assert(false);
        },
        (Some(a), None) => {
            assert(n1.len() == n2.len() + 1 + a.len());
        },
        (None, Some(b)) => {
            assert(n2.len() == n1.len() + 1 + b.len());
        },
        (Some(a), Some(b)) => {
            if a.len() != b.len() {
                assert(n1.len() != n2.len());
            } else {
                let p = seq!['/'] + spec_hex_encode(genesis) + seq!['/'];
                assert(n1 =~= p + a + tail);
                assert(n2 =~= p + b + tail);
                lemma_mid_segment_neq(p, a, tail, b, tail);
            }
        },
    }
}

/// The hardcoded legacy collation name is distinct from every name derived
/// from a 32-byte genesis hash, whatever the fork identifier, peer set and
/// version.
pub proof fn lemma_legacy_name_distinct(
    genesis: Seq<u8>,
    fork: Option<Seq<char>>,
    protocol: PeerSet,
    version: u32,
)
    requires
        genesis.len() == 32,
    ensures
        spec_legacy_name() != spec_generate_name(genesis, fork, protocol, version),
{
    reveal_strlit("/polkadot/collation/1");
    assert(spec_legacy_name().len() == 21);
    lemma_hex_encode_len(genesis);
    reveal_strlit("validation");
    reveal_strlit("collation");
    assert(spec_peer_set_label(protocol).len() >= 9);
    lemma_decimal_len(version as nat);
    assert(spec_generate_name(genesis, fork, protocol, version).len() >= 1 + 64 + 1 + 9 + 1 + 1);
}

/// The name-to-pair mapping held by a sequence of registry entries: later
/// entries win, as in repeated map insertion.
pub open spec fn protocol_entries_map(s: Seq<(String, (PeerSet, ProtocolVersion))>) -> Map<
    Seq<char>,
    (PeerSet, u32),
>
    decreases s.len(),
{
    if s.len() == 0 {
        Map::empty()
    } else {
        protocol_entries_map(s.drop_last()).insert(
            s.last().0@,
            (s.last().1.0, s.last().1.1.spec_u32()),
        )
    }
}

/// The pair-to-name mapping held by a sequence of registry entries.
pub open spec fn name_entries_map(s: Seq<((PeerSet, ProtocolVersion), String)>) -> Map<
    (PeerSet, u32),
    Seq<char>,
>
    decreases s.len(),
{
    if s.len() == 0 {
        Map::empty()
    } else {
        name_entries_map(s.drop_last()).insert(
            (s.last().0.0, s.last().0.1.spec_u32()),
            s.last().1@,
        )
    }
}

pub proof fn lemma_protocol_entries_domain(
    s: Seq<(String, (PeerSet, ProtocolVersion))>,
    k: Seq<char>,
)
    ensures
        protocol_entries_map(s).contains_key(k) <==> exists|j: int|
            0 <= j < s.len() && s[j].0@ == k,
    decreases s.len(),
{
    if s.len() > 0 {
        lemma_protocol_entries_domain(s.drop_last(), k);
        if s.last().0@ == k {
            assert(s[s.len() - 1].0@ == k);
        } else if protocol_entries_map(s).contains_key(k) {
            let j = choose|j: int| 0 <= j < s.drop_last().len() && s.drop_last()[j].0@ == k;
            assert(s[j].0@ == k);
        } else if exists|j: int| 0 <= j < s.len() && s[j].0@ == k {
            let j = choose|j: int| 0 <= j < s.len() && s[j].0@ == k;
            assert(s.drop_last()[j].0@ == k);
        }
    }
}

pub proof fn lemma_protocol_entries_index(s: Seq<(String, (PeerSet, ProtocolVersion))>, j: int)
    requires
        0 <= j < s.len(),
        forall|i: int| j < i < s.len() ==> s[i].0@ != s[j].0@,
    ensures
        protocol_entries_map(s).contains_key(s[j].0@),
        protocol_entries_map(s)[s[j].0@] == (s[j].1.0, s[j].1.1.spec_u32()),
    decreases s.len(),
{
    if j < s.len() - 1 {
        assert(s.drop_last()[j] == s[j]);
        lemma_protocol_entries_index(s.drop_last(), j);
    }
}

pub proof fn lemma_name_entries_domain(
    s: Seq<((PeerSet, ProtocolVersion), String)>,
    k: (PeerSet, u32),
)
    ensures
        name_entries_map(s).contains_key(k) <==> exists|j: int|
            0 <= j < s.len() && (s[j].0.0, s[j].0.1.spec_u32()) == k,
    decreases s.len(),
{
    if s.len() > 0 {
        lemma_name_entries_domain(s.drop_last(), k);
        if (s.last().0.0, s.last().0.1.spec_u32()) == k {
            assert((s[s.len() - 1].0.0, s[s.len() - 1].0.1.spec_u32()) == k);
        } else if name_entries_map(s).contains_key(k) {
            let j = choose|j: int|
                0 <= j < s.drop_last().len() && (
                s.drop_last()[j].0.0,
                s.drop_last()[j].0.1.spec_u32(),
                ) == k;
            assert((s[j].0.0, s[j].0.1.spec_u32()) == k);
        } else if exists|j: int| 0 <= j < s.len() && (s[j].0.0, s[j].0.1.spec_u32()) == k {
            let j = choose|j: int| 0 <= j < s.len() && (s[j].0.0, s[j].0.1.spec_u32()) == k;
            assert((s.drop_last()[j].0.0, s.drop_last()[j].0.1.spec_u32()) == k);
        }
    }
}

pub proof fn lemma_name_entries_index(s: Seq<((PeerSet, ProtocolVersion), String)>, j: int)
    requires
        0 <= j < s.len(),
        forall|i: int|
            j < i < s.len() ==> (s[i].0.0, s[i].0.1.spec_u32()) != (s[j].0.0, s[j].0.1.spec_u32()),
    ensures
        name_entries_map(s).contains_key((s[j].0.0, s[j].0.1.spec_u32())),
        name_entries_map(s)[(s[j].0.0, s[j].0.1.spec_u32())] == s[j].1@,
    decreases s.len(),
{
    if j < s.len() - 1 {
        assert(s.drop_last()[j] == s[j]);
        lemma_name_entries_index(s.drop_last(), j);
    }
}

/// The `(peer set, version)` pairs of the supported enumerations.
pub open spec fn supported_pairs() -> Set<(PeerSet, u32)> {
    set![
        (PeerSet::Validation, 3u32),
        (PeerSet::Collation, 1u32),
        (PeerSet::Collation, 2u32),
    ]
}

pub proof fn lemma_supported_pairs(ps: PeerSet, v: u32)
    ensures
        supported_version(ps, v) <==> supported_pairs().contains((ps, v)),
{
}

/// The pair-to-name mapping a registry built from the given chain identity
/// holds: one derived name per supported `(peer set, version)` pair.
pub open spec fn spec_names_map(genesis: Seq<u8>, fork: Option<Seq<char>>) -> Map<
    (PeerSet, u32),
    Seq<char>,
> {
    Map::empty().insert(
        (PeerSet::Validation, 3u32),
        spec_generate_name(genesis, fork, PeerSet::Validation, 3),
    ).insert(
        (PeerSet::Collation, 1u32),
        spec_generate_name(genesis, fork, PeerSet::Collation, 1),
    ).insert(
        (PeerSet::Collation, 2u32),
        spec_generate_name(genesis, fork, PeerSet::Collation, 2),
    )
}

/// The name-to-pair mapping a registry built from the given chain identity
/// holds: the derived name of every supported pair, and the hardcoded legacy
/// collation name.
pub open spec fn spec_protocols_map(genesis: Seq<u8>, fork: Option<Seq<char>>) -> Map<
    Seq<char>,
    (PeerSet, u32),
> {
    Map::empty().insert(
        spec_generate_name(genesis, fork, PeerSet::Validation, 3),
        (PeerSet::Validation, 3u32),
    ).insert(
        spec_generate_name(genesis, fork, PeerSet::Collation, 1),
        (PeerSet::Collation, 1u32),
    ).insert(
        spec_generate_name(genesis, fork, PeerSet::Collation, 2),
        (PeerSet::Collation, 2u32),
    ).insert(spec_legacy_name(), (PeerSet::Collation, LEGACY_COLLATION_PROTOCOL_VERSION_V1))
}

/// A name collision found while registering protocols: two distinct
/// registrations would be indistinguishable on the wire.  Identifies both
/// colliding registrations.
#[derive(Debug)]
pub struct ProtocolNameCollision {
    /// The wire name both registrations map to.
    pub name: String,
    /// The `(peer set, version)` pair already registered under the name.
    pub existing: (PeerSet, ProtocolVersion),
    /// The pair whose registration was refused.
    pub attempted: (PeerSet, ProtocolVersion),
}

/// On the wire protocol name to [`PeerSet`] mapping.
#[derive(Debug)]
pub struct PeerSetProtocolNames {
    protocols: Vec<(String, (PeerSet, ProtocolVersion))>,
    names: Vec<((PeerSet, ProtocolVersion), String)>,
    genesis_hash: Hash,
    fork_id: Option<String>,
}

impl PeerSetProtocolNames {
    /// The name-to-pair mapping of the registry.
    pub closed spec fn protocols_map(self) -> Map<Seq<char>, (PeerSet, u32)> {
        protocol_entries_map(self.protocols@)
    }

    /// The pair-to-name mapping of the registry.
    pub closed spec fn names_map(self) -> Map<(PeerSet, u32), Seq<char>> {
        name_entries_map(self.names@)
    }

    /// Well-formedness: wire names are unique, pair keys are unique, and the
    /// pair-to-name mapping is total exactly over the supported enumerations.
    pub closed spec fn wf(self) -> bool {
        &&& (forall|i: int, j: int|
            0 <= i < j < self.protocols@.len() ==> self.protocols@[i].0@ != self.protocols@[j].0@)
        &&& (forall|i: int, j: int|
            0 <= i < j < self.names@.len() ==> (
            self.names@[i].0.0,
            self.names@[i].0.1.spec_u32(),
            ) != (self.names@[j].0.0, self.names@[j].0.1.spec_u32()))
        &&& self.names_map().dom() == supported_pairs()
    }

    /// The protocol name of this protocol based on `genesis_hash` and
    /// `fork_id`.
    pub fn generate_name(
        genesis_hash: &Hash,
        fork_id: Option<&str>,
        protocol: PeerSet,
        version: ProtocolVersion,
    ) -> (r: String)
        ensures
            r@ == spec_generate_name(
                genesis_hash@,
                opt_str_view(fork_id),
                protocol,
                version.spec_u32(),
            ),
    {
        proof {
            reveal_strlit("/");
            assert("/"@ =~= seq!['/']);
        }
        let mut name = String::new();
        name.append("/");
        let hex = hex_encode(genesis_hash.as_bytes());
        name.append(hex.as_str());
        match fork_id {
            Some(fork) => {
                name.append("/");
                name.append(fork);
                proof {
                    assert(name@ =~= spec_name_prefix(genesis_hash@, opt_str_view(fork_id)));
                }
            },
            None => {
                proof {
                    assert(name@ =~= spec_name_prefix(genesis_hash@, opt_str_view(fork_id)));
                }
            },
        }
        name.append("/");
        name.append(protocol.get_label());
        name.append("/");
        let decimal = u32_decimal(version.to_u32());
        name.append(decimal.as_str());
        proof {
            assert(name@ =~= spec_generate_name(
                genesis_hash@,
                opt_str_view(fork_id),
                protocol,
                version.spec_u32(),
            ));
        }
        name
    }

    /// Register a name, refusing a name that is already present: succeeding
    /// would leave two registrations indistinguishable on the wire, so the
    /// caller must treat the error as a fatal configuration conflict.  On an
    /// error the entries are unchanged.
    pub fn insert_protocol(
        protocols: &mut Vec<(String, (PeerSet, ProtocolVersion))>,
        name: String,
        protocol: PeerSet,
        version: ProtocolVersion,
    ) -> (r: Result<(), ProtocolNameCollision>)
        ensures
            match r {
                Ok(()) => {
                    &&& (forall|i: int|
                        0 <= i < old(protocols)@.len() ==> old(protocols)@[i].0@ != name@)
                    &&& final(protocols)@.len() == old(protocols)@.len() + 1
                    &&& final(protocols)@.drop_last() == old(protocols)@
                    &&& final(protocols)@.last().0@ == name@
                    &&& final(protocols)@.last().1 == (protocol, version)
                },
                Err(e) => {
                    &&& final(protocols)@ == old(protocols)@
                    &&& e.name@ == name@
                    &&& e.attempted == (protocol, version)
                    &&& exists|i: int|
                        0 <= i < old(protocols)@.len() && old(protocols)@[i].0@ == name@
                            && e.existing == old(protocols)@[i].1
                },
            },
    {
        let n = protocols.len();
        let mut i: usize = 0;
        while i < n
            invariant
                i <= n,
                n == protocols@.len(),
                protocols@ == old(protocols)@,
                forall|j: int| 0 <= j < i ==> protocols@[j].0@ != name@,
            decreases n - i,
        {
            let entry = &protocols[i];
            if entry.0 == name {
                return Err(ProtocolNameCollision {
                    name,
                    existing: entry.1,
                    attempted: (protocol, version),
                });
            }
            i += 1;
        }
        let ghost prior = protocols@;
        protocols.push((name, (protocol, version)));
        proof {
            assert(protocols@.drop_last() =~= prior);
        }
        Ok(())
    }

    /// Helper function to register a main protocol, deriving its name from
    /// the chain identity.
    fn register_main_protocol(
        protocols: &mut Vec<(String, (PeerSet, ProtocolVersion))>,
        names: &mut Vec<((PeerSet, ProtocolVersion), String)>,
        protocol: PeerSet,
        version: ProtocolVersion,
        genesis_hash: &Hash,
        fork_id: Option<&str>,
    )
        requires
            forall|i: int|
                0 <= i < old(protocols)@.len() ==> old(protocols)@[i].0@ != spec_generate_name(
                    genesis_hash@,
                    opt_str_view(fork_id),
                    protocol,
                    version.spec_u32(),
                ),
        ensures
            final(protocols)@.len() == old(protocols)@.len() + 1,
            final(protocols)@.drop_last() == old(protocols)@,
            final(protocols)@.last().0@ == spec_generate_name(
                genesis_hash@,
                opt_str_view(fork_id),
                protocol,
                version.spec_u32(),
            ),
            final(protocols)@.last().1 == (protocol, version),
            final(names)@.len() == old(names)@.len() + 1,
            final(names)@.drop_last() == old(names)@,
            final(names)@.last().0 == (protocol, version),
            final(names)@.last().1@ == spec_generate_name(
                genesis_hash@,
                opt_str_view(fork_id),
                protocol,
                version.spec_u32(),
            ),
    {
        let protocol_name = Self::generate_name(genesis_hash, fork_id, protocol, version);
        let ghost names_prior = names@;
        names.push(((protocol, version), protocol_name.clone()));
        proof {
            assert(names@.drop_last() =~= names_prior);
        }
        match Self::insert_protocol(protocols, protocol_name, protocol, version) {
            Ok(()) => {},
            Err(_) => {
                proof {
                    assert(false);
                }
            },
        }
    }

    /// Helper function to register the legacy collation protocol under its
    /// hardcoded name.
    fn register_legacy_collation_protocol(
        protocols: &mut Vec<(String, (PeerSet, ProtocolVersion))>,
        protocol: PeerSet,
    )
        requires
            forall|i: int|
                0 <= i < old(protocols)@.len() ==> old(protocols)@[i].0@ != spec_legacy_name(),
        ensures
            final(protocols)@.len() == old(protocols)@.len() + 1,
            final(protocols)@.drop_last() == old(protocols)@,
            final(protocols)@.last().0@ == spec_legacy_name(),
            final(protocols)@.last().1.0 == protocol,
            final(protocols)@.last().1.1.spec_u32() == LEGACY_COLLATION_PROTOCOL_VERSION_V1,
    {
        let name = legacy_collation_protocol_name().to_owned();
        let version = ProtocolVersion::from_u32(LEGACY_COLLATION_PROTOCOL_VERSION_V1);
        match Self::insert_protocol(protocols, name, protocol, version) {
            Ok(()) => {},
            Err(_) => {
                proof {
                    assert(false);
                }
            },
        }
    }

    /// Construct [`PeerSetProtocolNames`] using `genesis_hash` and `fork_id`.
    ///
    /// Registers, for every peer set, the derived name of every supported
    /// version, and the hardcoded legacy collation name; those names are
    /// provably collision-free, so construction cannot fail.
    pub fn new(genesis_hash: Hash, fork_id: Option<&str>) -> (r: Self)
        ensures
            r.wf(),
            r.protocols_map() == spec_protocols_map(genesis_hash@, opt_str_view(fork_id)),
            r.names_map() == spec_names_map(genesis_hash@, opt_str_view(fork_id)),
    {
        let ghost g = genesis_hash@;
        let ghost f = opt_str_view(fork_id);
        let mut protocols: Vec<(String, (PeerSet, ProtocolVersion))> = Vec::new();
        let mut names: Vec<((PeerSet, ProtocolVersion), String)> = Vec::new();
        let v3 = crate::peer_set::ValidationVersion::V3.to_protocol_version();
        let c1 = crate::peer_set::CollationVersion::V1.to_protocol_version();
        let c2 = crate::peer_set::CollationVersion::V2.to_protocol_version();
        Self::register_main_protocol(
            &mut protocols,
            &mut names,
            PeerSet::Validation,
            v3,
            &genesis_hash,
            fork_id,
        );
        let ghost p1 = protocols@;
        let ghost n1 = names@;
        proof {
            lemma_main_names_injective(g, f, PeerSet::Validation, 3, PeerSet::Collation, 1);
        }
        Self::register_main_protocol(
            &mut protocols,
            &mut names,
            PeerSet::Collation,
            c1,
            &genesis_hash,
            fork_id,
        );
        let ghost p2 = protocols@;
        let ghost n2 = names@;
        proof {
            lemma_main_names_injective(g, f, PeerSet::Validation, 3, PeerSet::Collation, 2);
            lemma_main_names_injective(g, f, PeerSet::Collation, 1, PeerSet::Collation, 2);
        }
        Self::register_main_protocol(
            &mut protocols,
            &mut names,
            PeerSet::Collation,
            c2,
            &genesis_hash,
            fork_id,
        );
        let ghost p3 = protocols@;
        let ghost n3 = names@;
        proof {
            lemma_legacy_name_distinct(g, f, PeerSet::Validation, 3);
            lemma_legacy_name_distinct(g, f, PeerSet::Collation, 1);
            lemma_legacy_name_distinct(g, f, PeerSet::Collation, 2);
        }
        Self::register_legacy_collation_protocol(&mut protocols, PeerSet::Collation);
        let ghost p4 = protocols@;
        let fork_id_owned: Option<String> = match fork_id {
            Some(s) => Some(s.to_owned()),
            None => None,
        };
        let r = PeerSetProtocolNames { protocols, names, genesis_hash, fork_id: fork_id_owned };
        proof {
            assert(p1.drop_last() =~= Seq::<(String, (PeerSet, ProtocolVersion))>::empty());
            assert(n1.drop_last() =~= Seq::<((PeerSet, ProtocolVersion), String)>::empty());
            assert(protocol_entries_map(p1.drop_last()) =~= Map::<Seq<char>, (PeerSet, u32)>::empty());
            assert(name_entries_map(n1.drop_last()) =~= Map::<(PeerSet, u32), Seq<char>>::empty());
            assert(protocol_entries_map(p1) == Map::<Seq<char>, (PeerSet, u32)>::empty().insert(
                spec_generate_name(g, f, PeerSet::Validation, 3),
                (PeerSet::Validation, 3u32),
            ));
            assert(protocol_entries_map(p2) == protocol_entries_map(p1).insert(
                spec_generate_name(g, f, PeerSet::Collation, 1),
                (PeerSet::Collation, 1u32),
            ));
            assert(protocol_entries_map(p3) == protocol_entries_map(p2).insert(
                spec_generate_name(g, f, PeerSet::Collation, 2),
                (PeerSet::Collation, 2u32),
            ));
            assert(protocol_entries_map(p4) == protocol_entries_map(p3).insert(
                spec_legacy_name(),
                (PeerSet::Collation, 1u32),
            ));
            assert(name_entries_map(n1) == Map::<(PeerSet, u32), Seq<char>>::empty().insert(
                (PeerSet::Validation, 3u32),
                spec_generate_name(g, f, PeerSet::Validation, 3),
            ));
            assert(name_entries_map(n2) == name_entries_map(n1).insert(
                (PeerSet::Collation, 1u32),
                spec_generate_name(g, f, PeerSet::Collation, 1),
            ));
            assert(name_entries_map(n3) == name_entries_map(n2).insert(
                (PeerSet::Collation, 2u32),
                spec_generate_name(g, f, PeerSet::Collation, 2),
            ));
            assert(r.protocols_map() == spec_protocols_map(g, f));
            assert(r.names_map() == spec_names_map(g, f));
            assert(r.names_map().dom() =~= supported_pairs());
            assert forall|i: int, j: int|
                0 <= i < j < p4.len() implies p4[i].0@ != p4[j].0@ by {
                lemma_main_names_injective(g, f, PeerSet::Validation, 3, PeerSet::Collation, 1);
                lemma_main_names_injective(g, f, PeerSet::Validation, 3, PeerSet::Collation, 2);
                lemma_main_names_injective(g, f, PeerSet::Collation, 1, PeerSet::Collation, 2);
                lemma_legacy_name_distinct(g, f, PeerSet::Validation, 3);
                lemma_legacy_name_distinct(g, f, PeerSet::Collation, 1);
                lemma_legacy_name_distinct(g, f, PeerSet::Collation, 2);
            }
        }
        r
    }

    /// Lookup the protocol using its on the wire name.  Unrecognized names
    /// are an expected, non-exceptional occurrence and yield `None`.
    pub fn try_get_protocol(&self, name: &str) -> (r: Option<(PeerSet, ProtocolVersion)>)
        requires
            self.wf(),
        ensures
            match r {
                Some((ps, v)) => self.protocols_map().contains_key(name@)
                    && self.protocols_map()[name@] == (ps, v.spec_u32()),
                None => !self.protocols_map().contains_key(name@),
            },
    {
        let needle = name.to_owned();
        let n = self.protocols.len();
        let mut i: usize = 0;
        while i < n
            invariant
                i <= n,
                n == self.protocols@.len(),
                needle@ == name@,
                self.wf(),
                forall|j: int| 0 <= j < i ==> self.protocols@[j].0@ != name@,
            decreases n - i,
        {
            let entry = &self.protocols[i];
            if entry.0 == needle {
                proof {
                    lemma_protocol_entries_index(self.protocols@, i as int);
                }
                return Some(entry.1);
            }
            i += 1;
        }
        proof {
            lemma_protocol_entries_domain(self.protocols@, name@);
        }
        None
    }

    /// Get the main protocol name. It's used by the networking for keeping
    /// track of peersets and connections.
    pub fn get_main_name(&self, protocol: PeerSet) -> (r: String)
        requires
            self.wf(),
        ensures
            r@ == self.names_map()[(protocol, spec_main_version(protocol))],
    {
        let version = protocol.get_main_version();
        self.get_name(protocol, version)
    }

    /// Get the protocol name for a specific version.  Querying an
    /// unregistered pair is a programming error, so the pair is required to
    /// stem from the supported enumerations.
    pub fn get_name(&self, protocol: PeerSet, version: ProtocolVersion) -> (r: String)
        requires
            self.wf(),
            supported_version(protocol, version.spec_u32()),
        ensures
            self.names_map().contains_key((protocol, version.spec_u32())),
            r@ == self.names_map()[(protocol, version.spec_u32())],
    {
        proof {
            lemma_supported_pairs(protocol, version.spec_u32());
            lemma_name_entries_domain(self.names@, (protocol, version.spec_u32()));
        }
        let n = self.names.len();
        let mut i: usize = 0;
        while i < n
            invariant
                i <= n,
                n == self.names@.len(),
                self.wf(),
                exists|j: int|
                    0 <= j < self.names@.len() && (
                    self.names@[j].0.0,
                    self.names@[j].0.1.spec_u32(),
                    ) == (protocol, version.spec_u32()),
                forall|j: int|
                    0 <= j < i ==> (self.names@[j].0.0, self.names@[j].0.1.spec_u32()) != (
                    protocol,
                    version.spec_u32(),
                ),
            decreases n - i,
        {
            let entry = &self.names[i];
            proof {
                ProtocolVersion::lemma_eq_u32(entry.0.1, version);
            }
            if entry.0.0 == protocol && entry.0.1 == version {
                proof {
                    lemma_name_entries_index(self.names@, i as int);
                }
                return entry.1.clone();
            }
            i += 1;
        }
        // Not reached: the supported pair is registered by construction.
        proof {
            assert(false);
        }
        String::new()
    }

    /// Get the protocol fallback names. Currently, it only holds the legacy
    /// name for the collation protocol version 1.
    pub fn get_fallback_names(
        protocol: PeerSet,
        _genesis_hash: &Hash,
        _fork_id: Option<&str>,
    ) -> (r: Vec<String>)
        ensures
            match protocol {
                PeerSet::Validation => r@.len() == 0,
                PeerSet::Collation => r@.len() == 1 && r@[0]@ == spec_legacy_name(),
            },
    {
        let mut fallbacks: Vec<String> = Vec::new();
        match protocol {
            PeerSet::Validation => {
                // The validation protocol no longer supports protocol versions
                // 1 and 2, and only version 3 is used, so no fallback remains.
            },
            PeerSet::Collation => {
                fallbacks.push(legacy_collation_protocol_name().to_owned());
            },
        }
        fallbacks
    }
}

/// Whether a transport configuration record holds exactly what the subsystem
/// derives for the peer set and role from the given registry.
pub open spec fn info_matches(
    info: PeerSetInfo,
    peer_set: PeerSet,
    is_authority: IsAuthority,
    names: PeerSetProtocolNames,
) -> bool {
    &&& info.protocol_name@ == names.names_map()[(peer_set, spec_main_version(peer_set))]
    &&& match peer_set {
        PeerSet::Validation => info.fallback_names@.len() == 0,
        PeerSet::Collation => info.fallback_names@.len() == 1 && info.fallback_names@[0]@
            == spec_legacy_name(),
    }
    &&& info.max_notification_size == MAX_NOTIFICATION_SIZE
    &&& info.set_config.in_peers == spec_in_peers(peer_set, is_authority)
    &&& info.set_config.out_peers == spec_out_peers(peer_set, is_authority)
    &&& info.set_config.reserved_nodes@.len() == 0
    &&& info.set_config.non_reserved_mode == spec_non_reserved_mode(peer_set, is_authority)
}

impl PeerSet {
    /// Assemble the transport configuration for this peer set on the default
    /// version: the registry's main name, the fallback names, the size bound
    /// and the connection policy.  The transport layer consumes the record
    /// when it registers the protocol; the registration itself is outside
    /// this subsystem.
    ///
    /// The networking layer relies on `get_main_name()` being the main name
    /// of the protocol for peersets and connection management.
    pub fn get_info(
        self,
        is_authority: IsAuthority,
        peerset_protocol_names: &PeerSetProtocolNames,
    ) -> (r: PeerSetInfo)
        requires
            peerset_protocol_names.wf(),
        ensures
            info_matches(r, self, is_authority, *peerset_protocol_names),
    {
        let protocol_name = peerset_protocol_names.get_main_name(self);
        let fork_id: Option<&str> = match &peerset_protocol_names.fork_id {
            Some(s) => Some(s.as_str()),
            None => None,
        };
        let fallback_names = PeerSetProtocolNames::get_fallback_names(
            self,
            &peerset_protocol_names.genesis_hash,
            fork_id,
        );
        let max_notification_size = self.get_max_notification_size(is_authority);
        match self {
            PeerSet::Validation => PeerSetInfo {
                protocol_name,
                fallback_names,
                max_notification_size,
                set_config: SetConfig {
                    // Full nodes may connect to validators for gossip; the
                    // non-reserved slots stay below the gossip minimum so
                    // that reserved peers always fit within it.
                    in_peers: MIN_GOSSIP_PEERS as u32 / 2 - 1,
                    out_peers: MIN_GOSSIP_PEERS as u32 / 2 - 1,
                    reserved_nodes: Vec::new(),
                    non_reserved_mode: NonReservedPeerMode::Accept,
                },
            },
            PeerSet::Collation => PeerSetInfo {
                protocol_name,
                fallback_names,
                max_notification_size,
                set_config: SetConfig {
                    // Non-authority nodes don't need to accept incoming
                    // connections on this peer set.
                    in_peers: if is_authority == IsAuthority::Yes {
                        100
                    } else {
                        0
                    },
                    out_peers: 0,
                    reserved_nodes: Vec::new(),
                    non_reserved_mode: if is_authority == IsAuthority::Yes {
                        NonReservedPeerMode::Accept
                    } else {
                        NonReservedPeerMode::Deny
                    },
                },
            },
        }
    }
}

/// Assemble the transport configuration of every peer set, at its default
/// version, for registration with the network service.
pub fn peer_sets_info(
    is_authority: IsAuthority,
    peerset_protocol_names: &PeerSetProtocolNames,
) -> (r: Vec<(PeerSet, PeerSetInfo)>)
    requires
        peerset_protocol_names.wf(),
    ensures
        r@.len() == 2,
        r@[0].0 == PeerSet::Validation,
        info_matches(r@[0].1, PeerSet::Validation, is_authority, *peerset_protocol_names),
        r@[1].0 == PeerSet::Collation,
        info_matches(r@[1].1, PeerSet::Collation, is_authority, *peerset_protocol_names),
{
    let mut out: Vec<(PeerSet, PeerSetInfo)> = Vec::new();
    out.push(
        (
            PeerSet::Validation,
            PeerSet::Validation.get_info(is_authority, peerset_protocol_names),
        ),
    );
    out.push(
        (PeerSet::Collation, PeerSet::Collation.get_info(is_authority, peerset_protocol_names)),
    );
    out
}

/// Round trip: for every supported `(peer set, version)` pair, looking up the
/// name registered for the pair classifies back to exactly that pair.
pub proof fn lemma_registered_names_round_trip(
    genesis: Seq<u8>,
    fork: Option<Seq<char>>,
    ps: PeerSet,
    v: u32,
)
    requires
        genesis.len() == 32,
        supported_version(ps, v),
    ensures
        spec_names_map(genesis, fork).contains_key((ps, v)),
        spec_names_map(genesis, fork)[(ps, v)] == spec_generate_name(genesis, fork, ps, v),
        spec_protocols_map(genesis, fork).contains_key(spec_generate_name(genesis, fork, ps, v)),
        spec_protocols_map(genesis, fork)[spec_generate_name(genesis, fork, ps, v)] == (ps, v),
{
    lemma_main_names_injective(genesis, fork, PeerSet::Validation, 3, PeerSet::Collation, 1);
    lemma_main_names_injective(genesis, fork, PeerSet::Validation, 3, PeerSet::Collation, 2);
    lemma_main_names_injective(genesis, fork, PeerSet::Collation, 1, PeerSet::Collation, 2);
    lemma_legacy_name_distinct(genesis, fork, ps, v);
}

/// The hardcoded legacy collation name resolves to collation version 1, and
/// coincides with no registered main name.
pub proof fn lemma_legacy_name_resolution(genesis: Seq<u8>, fork: Option<Seq<char>>)
    requires
        genesis.len() == 32,
    ensures
        spec_protocols_map(genesis, fork).contains_key(spec_legacy_name()),
        spec_protocols_map(genesis, fork)[spec_legacy_name()] == (
            PeerSet::Collation,
            LEGACY_COLLATION_PROTOCOL_VERSION_V1,
        ),
        forall|ps: PeerSet, v: u32|
            supported_version(ps, v) ==> #[trigger] spec_names_map(genesis, fork)[(ps, v)]
                != spec_legacy_name(),
{
    assert forall|ps: PeerSet, v: u32|
        supported_version(ps, v) implies #[trigger] spec_names_map(genesis, fork)[(ps, v)]
        != spec_legacy_name() by {
        lemma_registered_names_round_trip(genesis, fork, ps, v);
        lemma_legacy_name_distinct(genesis, fork, ps, v);
    }
}

} // verus!
