//! Group membership and proximity proofs.
//!
//! Manages a bounded group of parties with unique identifiers and builds
//! group-level proximity proofs. The pairwise distance sweep over the
//! members' coordinates is floating-point geometry done by the caller; the
//! membership rules, the group identifier, and the content hash live here.

use vstd::prelude::*;
use vstd::multiset::Multiset;
use vstd::relations::{sorted_by, total_ordering};
use vstd::seq_lib::lemma_sorted_unique;
use crate::coord::CoordBits;
use crate::event::spec_bool_word;
use crate::hash::{fnv1a, spec_fnv1a};
use crate::query::spec_ordered_key;
use vstd::bytes::{spec_u32_to_le_bytes, spec_u64_to_le_bytes, u32_to_le_bytes, u64_to_le_bytes};

verus! {

broadcast use vstd::seq_lib::group_to_multiset_ensures;

/// Maximum group size (prevents quadratic blowup in proximity checks).
pub const MAX_GROUP_SIZE: usize = 64;

/// A member in a presence group.
#[derive(Debug, Clone, Copy, PartialEq, Eq, Structural)]
pub struct GroupMember {
    /// Compact party identifier.
    pub id: u32,
    /// Coordinate, as component bit patterns.
    pub coord: CoordBits,
    /// Timestamp (ns) when member joined the group.
    pub joined_ns: u64,
}

/// Group configuration.
#[derive(Debug, Clone, Copy, PartialEq, Eq, Structural)]
pub struct GroupConfig {
    /// Bit pattern of the maximum distance for "group proximity".
    pub proximity_threshold_bits: u64,
    /// Minimum members for a valid group proof.
    pub min_members: usize,
}

impl Default for GroupConfig {
    /// Defaults: threshold 10.0 (as its bit pattern), at least 2 members.
    fn default() -> (c: GroupConfig)
        ensures
            c == (GroupConfig {
                proximity_threshold_bits: 0x4024_0000_0000_0000u64,
                min_members: 2usize,
            }),
    {
        GroupConfig { proximity_threshold_bits: 0x4024_0000_0000_0000, min_members: 2 }
    }
}

/// Group proximity proof: evidence that all members were within threshold.
#[derive(Debug, Clone)]
pub struct GroupProximityProof {
    /// Group identifier (hash of sorted member IDs).
    pub group_id: u64,
    /// Number of members in the group.
    pub member_count: usize,
    /// Bit pattern of the maximum pairwise distance among all members.
    pub max_distance_bits: u64,
    /// Bit pattern of the proximity threshold used.
    pub threshold_bits: u64,
    /// True when every pair was within the threshold.
    pub all_proximate: bool,
    /// Deterministic content hash.
    pub content_hash: u64,
}

/// The identifiers of a member sequence, in member order.
pub open spec fn spec_member_ids(members: Seq<GroupMember>) -> Seq<u32> {
    members.map_values(|m: GroupMember| m.id)
}

/// Whether some member of the sequence carries the identifier.
pub open spec fn spec_has_id(members: Seq<GroupMember>, id: u32) -> bool {
    exists|i: int| 0 <= i < members.len() && members[i].id == id
}

/// Whether no two members share an identifier. Holds of every group built
/// by `new`, since `add_member` refuses duplicates.
pub open spec fn spec_ids_unique(members: Seq<GroupMember>) -> bool {
    forall|i: int, j: int|
        0 <= i < j < members.len() ==> #[trigger] members[i].id != #[trigger] members[j].id
}

/// Ascending order on identifiers.
pub open spec fn spec_id_le() -> spec_fn(u32, u32) -> bool {
    |a: u32, b: u32| a <= b
}

/// Little-endian bytes of a sequence of identifiers, concatenated in order.
pub open spec fn spec_ids_bytes(ids: Seq<u32>) -> Seq<u8>
    decreases ids.len(),
{
    if ids.len() == 0 {
        Seq::empty()
    } else {
        spec_ids_bytes(ids.drop_last()) + spec_u32_to_le_bytes(ids.last())
    }
}

/// Group identifier: FNV-1a over the members' identifiers sorted ascending.
/// Depends only on which identifiers are present, not on join order.
pub open spec fn spec_group_id(ids: Seq<u32>) -> u64 {
    spec_fnv1a(spec_ids_bytes(ids.sort_by(spec_id_le())))
}

/// Content hash of a group proximity proof.
pub open spec fn spec_group_proof_hash(
    group_id: u64,
    max_distance_bits: u64,
    threshold_bits: u64,
    count_byte: u8,
    all_proximate: bool,
) -> u64 {
    spec_fnv1a(
        spec_u64_to_le_bytes(group_id) + spec_u64_to_le_bytes(max_distance_bits)
            + spec_u64_to_le_bytes(threshold_bits) + seq![count_byte] + spec_u64_to_le_bytes(
            spec_bool_word(all_proximate),
        ),
    )
}

/// The proof that `PresenceGroup::prove_proximity` builds.
pub open spec fn spec_group_proof(
    members: Seq<GroupMember>,
    config: GroupConfig,
    max_distance_bits: u64,
    all_proximate: bool,
) -> GroupProximityProof {
    GroupProximityProof {
        group_id: spec_group_id(spec_member_ids(members)),
        member_count: members.len() as usize,
        max_distance_bits,
        threshold_bits: config.proximity_threshold_bits,
        all_proximate,
        content_hash: spec_group_proof_hash(
            spec_group_id(spec_member_ids(members)),
            max_distance_bits,
            config.proximity_threshold_bits,
            members.len() as u8,
            all_proximate,
        ),
    }
}

/// Presence group: manages members and builds proximity proofs.
#[derive(Debug, Clone)]
pub struct PresenceGroup {
    members: Vec<GroupMember>,
    config: GroupConfig,
}

impl View for PresenceGroup {
    type V = Seq<GroupMember>;

    closed spec fn view(&self) -> Seq<GroupMember> {
        self.members@
    }
}

/// Whether a vector of members holds the identifier.
fn find_id(members: &Vec<GroupMember>, id: u32) -> (found: bool)
    ensures
        found == spec_has_id(members@, id),
{
    let mut i: usize = 0;
    while i < members.len()
        invariant
            i <= members@.len(),
            forall|j: int| 0 <= j < i ==> members@[j].id != id,
        decreases members@.len() - i,
    {
        if members[i].id == id {
            return true;
        }
        i = i + 1;
    }
    false
}

/// Sort identifiers ascending; the result is the unique sorted arrangement
/// of the input's elements.
fn sort_ids(input: Vec<u32>) -> (out: Vec<u32>)
    ensures
        out@ == input@.sort_by(spec_id_le()),
{
    let ghost orig = input@;
    let mut rest = input;
    let mut out: Vec<u32> = Vec::new();
    while rest.len() > 0
        invariant
            out@.to_multiset().add(rest@.to_multiset()) == orig.to_multiset(),
            sorted_by(out@, spec_id_le()),
            forall|i: int, j: int|
                0 <= i < out@.len() && 0 <= j < rest@.len() ==> #[trigger] out@[i]
                    <= #[trigger] rest@[j],
        decreases rest@.len(),
    {
        let mut m: usize = 0;
        let mut k: usize = 1;
        while k < rest.len()
            invariant
                m < k <= rest@.len(),
                rest@.len() > 0,
                forall|j: int| 0 <= j < k ==> rest@[m as int] <= #[trigger] rest@[j],
            decreases rest@.len() - k,
        {
            if rest[k] < rest[m] {
                m = k;
            }
            k = k + 1;
        }
        let x = rest.remove(m);
        out.push(x);
        proof {
            assert(out@.to_multiset().add(rest@.to_multiset()) =~= orig.to_multiset());
        }
    }
    proof {
        assert(rest@.to_multiset() =~= Multiset::<u32>::empty());
        assert(out@.to_multiset() =~= orig.to_multiset());
        orig.lemma_sort_by_ensures(spec_id_le());
        assert(total_ordering(spec_id_le()));
        lemma_sorted_unique(out@, orig.sort_by(spec_id_le()), spec_id_le());
    }
    out
}

impl PresenceGroup {
    /// The group's configuration.
    pub closed spec fn spec_config(self) -> GroupConfig {
        self.config
    }

    /// Create a new empty group.
    pub fn new(config: GroupConfig) -> (g: PresenceGroup)
        ensures
            g@ == Seq::<GroupMember>::empty(),
            g.spec_config() == config,
    {
        PresenceGroup { members: Vec::new(), config }
    }

    /// Add a member. Returns false if the group is full or the ID is
    /// already present; the group is unchanged in that case.
    pub fn add_member(&mut self, id: u32, coord: CoordBits, timestamp_ns: u64) -> (added: bool)
        ensures
            added == (old(self)@.len() < MAX_GROUP_SIZE && !spec_has_id(old(self)@, id)),
            added ==> final(self)@ == old(self)@.push(
                GroupMember { id, coord, joined_ns: timestamp_ns },
            ),
            !added ==> *final(self) == *old(self),
            final(self).spec_config() == old(self).spec_config(),
            spec_ids_unique(old(self)@) ==> spec_ids_unique(final(self)@),
    {
        if self.members.len() >= MAX_GROUP_SIZE {
            return false;
        }
        if find_id(&self.members, id) {
            return false;
        }
        self.members.push(GroupMember { id, coord, joined_ns: timestamp_ns });
        true
    }

    /// Remove a member by ID. Returns true if found and removed; every
    /// member with that ID leaves, the others keep their order.
    pub fn remove_member(&mut self, id: u32) -> (removed: bool)
        ensures
            final(self)@ == old(self)@.filter(|m: GroupMember| m.id != id),
            removed == spec_has_id(old(self)@, id),
            !spec_has_id(final(self)@, id),
            final(self).spec_config() == old(self).spec_config(),
    {
        let removed = find_id(&self.members, id);
        let mut kept: Vec<GroupMember> = Vec::new();
        let mut i: usize = 0;
        proof {
            reveal(Seq::filter);
        }
        while i < self.members.len()
            invariant
                i <= self.members@.len(),
                kept@ == self.members@.subrange(0, i as int).filter(|m: GroupMember| m.id != id),
            decreases self.members@.len() - i,
        {
            let m = self.members[i];
            proof {
                reveal(Seq::filter);
                let pred = |m: GroupMember| m.id != id;
                let pre = self.members@.subrange(0, i as int);
                let prefix = self.members@.subrange(0, i + 1);
                assert(prefix.drop_last() =~= pre);
                assert(prefix.last() == m);
                assert(prefix.filter(pred) == if pred(m) {
                    pre.filter(pred).push(m)
                } else {
                    pre.filter(pred)
                });
            }
            if m.id != id {
                kept.push(m);
            }
            i = i + 1;
        }
        proof {
            assert(self.members@.subrange(0, self.members@.len() as int) =~= self.members@);
        }
        self.members = kept;
        removed
    }

    /// Current member count.
    pub fn member_count(&self) -> (n: usize)
        ensures
            n == self@.len(),
    {
        self.members.len()
    }

    /// Check if a member with the given ID exists.
    pub fn contains(&self, id: u32) -> (found: bool)
        ensures
            found == spec_has_id(self@, id),
    {
        find_id(&self.members, id)
    }

    /// Get the member IDs, sorted ascending.
    pub fn member_ids(&self) -> (ids: Vec<u32>)
        ensures
            ids@ == spec_member_ids(self@).sort_by(spec_id_le()),
    {
        let mut raw: Vec<u32> = Vec::new();
        let mut i: usize = 0;
        while i < self.members.len()
            invariant
                i <= self.members@.len(),
                raw@.len() == i,
                forall|j: int| 0 <= j < i ==> raw@[j] == self.members@[j].id,
            decreases self.members@.len() - i,
        {
            raw.push(self.members[i].id);
            i = i + 1;
        }
        proof {
            assert(raw@ =~= spec_member_ids(self@));
        }
        sort_ids(raw)
    }

    /// Generate a group proximity proof.
    ///
    /// The caller's geometry supplies the maximum pairwise distance among
    /// the members (its selection over the per-pair keys is
    /// `crate::query::max_key`) and its comparison against the configured
    /// threshold (`all_proximate`); this function fixes the group
    /// identifier and the content hash over them. Whenever both values are
    /// non-negative and not NaN — every value the distance model produces —
    /// their order is the unsigned order of their bit patterns, so on that
    /// domain the outcome is pinned to the key comparison. Returns `None`
    /// if the group has fewer than the configured minimum number of
    /// members.
    pub fn prove_proximity(&self, max_distance_bits: u64, all_proximate: bool) -> (r: Option<
        GroupProximityProof,
    >)
        requires
            spec_ordered_key(max_distance_bits) && spec_ordered_key(
                self.spec_config().proximity_threshold_bits,
            ) ==> all_proximate == (max_distance_bits
                <= self.spec_config().proximity_threshold_bits),
        ensures
            r is Some <==> self@.len() >= self.spec_config().min_members,
            r matches Some(p) ==> p == spec_group_proof(
                self@,
                self.spec_config(),
                max_distance_bits,
                all_proximate,
            ),
    {
        if self.members.len() < self.config.min_members {
            return None;
        }

        let group_id = self.compute_group_id();
        let count_byte = #[verifier::truncate] (self.members.len() as u8);
        let outcome: u64 = if all_proximate {
            1
        } else {
            0
        };

        let mut buf = u64_to_le_bytes(group_id);
        let mut part = u64_to_le_bytes(max_distance_bits);
        buf.append(&mut part);
        let mut part = u64_to_le_bytes(self.config.proximity_threshold_bits);
        buf.append(&mut part);
        buf.push(count_byte);
        let mut part = u64_to_le_bytes(outcome);
        buf.append(&mut part);
        proof {
            assert(buf@ =~= spec_u64_to_le_bytes(group_id) + spec_u64_to_le_bytes(
                max_distance_bits,
            ) + spec_u64_to_le_bytes(self.config.proximity_threshold_bits) + seq![count_byte]
                + spec_u64_to_le_bytes(spec_bool_word(all_proximate)));
        }
        let content_hash = fnv1a(buf.as_slice());

        Some(
            GroupProximityProof {
                group_id,
                member_count: self.members.len(),
                max_distance_bits,
                threshold_bits: self.config.proximity_threshold_bits,
                all_proximate,
                content_hash,
            },
        )
    }

    /// Compute the group ID as the hash of the sorted member IDs.
    fn compute_group_id(&self) -> (gid: u64)
        ensures
            gid == spec_group_id(spec_member_ids(self@)),
    {
        let ids = self.member_ids();
        let mut buf: Vec<u8> = Vec::new();
        let mut i: usize = 0;
        while i < ids.len()
            invariant
                i <= ids@.len(),
                buf@ == spec_ids_bytes(ids@.subrange(0, i as int)),
            decreases ids@.len() - i,
        {
            let mut part = u32_to_le_bytes(ids[i]);
            buf.append(&mut part);
            i = i + 1;
            proof {
                let prefix = ids@.subrange(0, i as int);
                assert(prefix.drop_last() =~= ids@.subrange(0, i - 1));
            }
        }
        proof {
            assert(ids@.subrange(0, ids@.len() as int) =~= ids@);
        }
        fnv1a(buf.as_slice())
    }
}

/// The group identifier depends only on which identifiers are in the group,
/// never on the order they joined in: two identifier sequences with the same
/// elements yield the same group ID.
pub proof fn lemma_group_id_ignores_join_order(ids1: Seq<u32>, ids2: Seq<u32>)
    requires
        ids1.to_multiset() == ids2.to_multiset(),
    ensures
        spec_group_id(ids1) == spec_group_id(ids2),
{
    ids1.lemma_sort_by_ensures(spec_id_le());
    ids2.lemma_sort_by_ensures(spec_id_le());
    assert(total_ordering(spec_id_le()));
    lemma_sorted_unique(ids1.sort_by(spec_id_le()), ids2.sort_by(spec_id_le()), spec_id_le());
}

} // verus!
