//! Presence exchange core: deterministic hashing, identity commitments,
//! wire-format presence events, crossing records, a session state machine,
//! and group membership bookkeeping.
//!
//! Geometry (coordinate arithmetic and the spatial index) is floating-point
//! and lives outside this library; here a coordinate appears only through the
//! IEEE-754 bit patterns of its components, which is all the hashing and
//! record-keeping logic ever reads.

pub mod coord;
pub mod event;
pub mod group;
pub mod hash;
pub mod identity;
pub mod protocol;
pub mod query;
pub mod session;

pub use event::CrossingRecord;
pub use event::CrossingStatus;
pub use event::PresenceEvent;
pub use event::ProximityProof;
pub use hash::fnv1a;
pub use identity::IdentityCommitment;
pub use identity::ZkProof;
pub use protocol::PartyInfo;
pub use protocol::PresenceConfig;
pub use protocol::execute_presence_protocol;
