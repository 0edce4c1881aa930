//! Session finite state machine.
//!
//! Models the lifecycle of a presence exchange session through five states:
//! Idle, Discovering, Exchanging, Verified, Closed. Enforces valid
//! transitions, tracks timeouts and retries, and keeps a content hash of the
//! session state for integrity.

use vstd::prelude::*;
use crate::hash::{fnv1a, spec_fnv1a};
use vstd::bytes::{spec_u32_to_le_bytes, spec_u64_to_le_bytes, u32_to_le_bytes, u64_to_le_bytes};

verus! {

/// Session state in the presence protocol state machine.
#[derive(Debug, Clone, Copy, PartialEq, Eq, Structural)]
pub enum SessionState {
    /// No active session; waiting for discovery.
    Idle,
    /// Peer discovered; proximity check in progress.
    Discovering,
    /// Identity exchange in progress.
    Exchanging,
    /// Both parties verified; crossing recorded.
    Verified,
    /// Session closed (success or timeout/cancel).
    Closed,
}

/// The byte a session state is hashed as.
pub open spec fn spec_state_code(state: SessionState) -> u8 {
    match state {
        SessionState::Idle => 0u8,
        SessionState::Discovering => 1u8,
        SessionState::Exchanging => 2u8,
        SessionState::Verified => 3u8,
        SessionState::Closed => 4u8,
    }
}

/// Reason a session was closed.
#[derive(Debug, Clone, Copy, PartialEq, Eq, Structural)]
pub enum CloseReason {
    /// Successfully completed (reached Verified, then closed).
    Success,
    /// Timed out waiting for the next step.
    Timeout,
    /// Cancelled by one party.
    Cancelled,
    /// Proximity check failed.
    ProximityFailed,
    /// Identity verification failed.
    VerificationFailed,
}

/// Session configuration.
#[derive(Debug, Clone, Copy, PartialEq, Eq, Structural)]
pub struct SessionConfig {
    /// Maximum time (ns) to stay in Discovering before timeout.
    pub discovery_timeout_ns: u64,
    /// Maximum time (ns) to stay in Exchanging before timeout.
    pub exchange_timeout_ns: u64,
    /// Maximum number of retry attempts per phase.
    pub max_retries: u32,
}

impl Default for SessionConfig {
    /// Defaults: 5 s discovery timeout, 10 s exchange timeout, 3 retries.
    fn default() -> (c: SessionConfig)
        ensures
            c == (SessionConfig {
                discovery_timeout_ns: 5_000_000_000u64,
                exchange_timeout_ns: 10_000_000_000u64,
                max_retries: 3u32,
            }),
    {
        SessionConfig {
            discovery_timeout_ns: 5_000_000_000,
            exchange_timeout_ns: 10_000_000_000,
            max_retries: 3,
        }
    }
}

/// A presence session tracking the machine state, timestamps, and retries.
#[derive(Debug, Clone)]
pub struct Session {
    /// Unique session identifier.
    pub session_id: u64,
    /// Current machine state.
    pub state: SessionState,
    /// Local party ID.
    pub local_id: u32,
    /// Remote party ID (set after discovery).
    pub remote_id: Option<u32>,
    /// Timestamp (ns) when session entered current state.
    pub state_entered_ns: u64,
    /// Timestamp (ns) when session was created.
    pub created_ns: u64,
    /// Number of retries used in current phase.
    pub retries: u32,
    /// Close reason (set when state == Closed).
    pub close_reason: Option<CloseReason>,
    /// Configuration for this session.
    pub config: SessionConfig,
    /// Content hash of session state for integrity.
    pub content_hash: u64,
}

/// Identifier of a session created by `local_id` at `timestamp_ns`.
pub open spec fn spec_session_id(local_id: u32, timestamp_ns: u64) -> u64 {
    spec_fnv1a(spec_u32_to_le_bytes(local_id) + spec_u64_to_le_bytes(timestamp_ns))
}

/// Content hash of a session: FNV-1a over the id, state code, local id,
/// state-entry timestamp, and retry count.
pub open spec fn spec_session_hash(s: Session) -> u64 {
    spec_fnv1a(
        spec_u64_to_le_bytes(s.session_id) + seq![spec_state_code(s.state)]
            + spec_u32_to_le_bytes(s.local_id) + spec_u64_to_le_bytes(s.state_entered_ns)
            + spec_u32_to_le_bytes(s.retries),
    )
}

/// Whether a session's stored content hash matches its fields.
pub open spec fn spec_hash_consistent(s: Session) -> bool {
    s.content_hash == spec_session_hash(s)
}

/// Nanoseconds from `entered` to `now`, zero when the clock ran backwards.
pub open spec fn spec_duration(entered: u64, now: u64) -> u64 {
    if now >= entered {
        (now - entered) as u64
    } else {
        0u64
    }
}

/// A session carries a close reason exactly when it is closed. Holds of
/// every session built by `new` and is preserved by every transition.
pub open spec fn spec_lifecycle_consistent(s: Session) -> bool {
    (s.state is Closed) <==> (s.close_reason is Some)
}

/// Whether a session's current phase has outlived its timeout at `now`.
pub open spec fn spec_timed_out(s: Session, now: u64) -> bool {
    match s.state {
        SessionState::Discovering => spec_duration(s.state_entered_ns, now)
            > s.config.discovery_timeout_ns,
        SessionState::Exchanging => spec_duration(s.state_entered_ns, now)
            > s.config.exchange_timeout_ns,
        _ => false,
    }
}

impl Session {
    /// Create a new session in Idle state.
    pub fn new(local_id: u32, timestamp_ns: u64, config: SessionConfig) -> (s: Session)
        ensures
            s == (Session {
                session_id: spec_session_id(local_id, timestamp_ns),
                state: SessionState::Idle,
                local_id,
                remote_id: None::<u32>,
                state_entered_ns: timestamp_ns,
                created_ns: timestamp_ns,
                retries: 0u32,
                close_reason: None::<CloseReason>,
                config,
                content_hash: s.content_hash,
            }),
            spec_hash_consistent(s),
            spec_lifecycle_consistent(s),
    {
        let mut buf = u32_to_le_bytes(local_id);
        let mut tail = u64_to_le_bytes(timestamp_ns);
        buf.append(&mut tail);
        let session_id = fnv1a(buf.as_slice());

        let mut s = Session {
            session_id,
            state: SessionState::Idle,
            local_id,
            remote_id: None,
            state_entered_ns: timestamp_ns,
            created_ns: timestamp_ns,
            retries: 0,
            close_reason: None,
            config,
            content_hash: 0,
        };
        s.update_hash();
        s
    }

    /// Transition: Idle to Discovering (peer found).
    pub fn discover(&mut self, remote_id: u32, timestamp_ns: u64) -> (ok: bool)
        ensures
            ok == (old(self).state is Idle),
            ok ==> *final(self) == (Session {
                state: SessionState::Discovering,
                remote_id: Some(remote_id),
                state_entered_ns: timestamp_ns,
                retries: 0u32,
                content_hash: final(self).content_hash,
                ..*old(self)
            }),
            ok ==> spec_hash_consistent(*final(self)),
            !ok ==> *final(self) == *old(self),
            spec_lifecycle_consistent(*old(self)) ==> spec_lifecycle_consistent(*final(self)),
    {
        if !matches!(self.state, SessionState::Idle) {
            return false;
        }
        self.remote_id = Some(remote_id);
        self.state = SessionState::Discovering;
        self.state_entered_ns = timestamp_ns;
        self.retries = 0;
        self.update_hash();
        true
    }

    /// Transition: Discovering to Exchanging (proximity confirmed).
    pub fn begin_exchange(&mut self, timestamp_ns: u64) -> (ok: bool)
        ensures
            ok == (old(self).state is Discovering),
            ok ==> *final(self) == (Session {
                state: SessionState::Exchanging,
                state_entered_ns: timestamp_ns,
                retries: 0u32,
                content_hash: final(self).content_hash,
                ..*old(self)
            }),
            ok ==> spec_hash_consistent(*final(self)),
            !ok ==> *final(self) == *old(self),
            spec_lifecycle_consistent(*old(self)) ==> spec_lifecycle_consistent(*final(self)),
    {
        if !matches!(self.state, SessionState::Discovering) {
            return false;
        }
        self.state = SessionState::Exchanging;
        self.state_entered_ns = timestamp_ns;
        self.retries = 0;
        self.update_hash();
        true
    }

    /// Transition: Exchanging to Verified (identity proofs accepted).
    pub fn verify(&mut self, timestamp_ns: u64) -> (ok: bool)
        ensures
            ok == (old(self).state is Exchanging),
            ok ==> *final(self) == (Session {
                state: SessionState::Verified,
                state_entered_ns: timestamp_ns,
                content_hash: final(self).content_hash,
                ..*old(self)
            }),
            ok ==> spec_hash_consistent(*final(self)),
            !ok ==> *final(self) == *old(self),
            spec_lifecycle_consistent(*old(self)) ==> spec_lifecycle_consistent(*final(self)),
    {
        if !matches!(self.state, SessionState::Exchanging) {
            return false;
        }
        self.state = SessionState::Verified;
        self.state_entered_ns = timestamp_ns;
        self.update_hash();
        true
    }

    /// Transition: any state but Closed to Closed.
    pub fn close(&mut self, reason: CloseReason, timestamp_ns: u64) -> (ok: bool)
        ensures
            ok == !(old(self).state is Closed),
            ok ==> *final(self) == (Session {
                state: SessionState::Closed,
                state_entered_ns: timestamp_ns,
                close_reason: Some(reason),
                content_hash: final(self).content_hash,
                ..*old(self)
            }),
            ok ==> spec_hash_consistent(*final(self)),
            !ok ==> *final(self) == *old(self),
            spec_lifecycle_consistent(*old(self)) ==> spec_lifecycle_consistent(*final(self)),
    {
        if matches!(self.state, SessionState::Closed) {
            return false;
        }
        self.state = SessionState::Closed;
        self.state_entered_ns = timestamp_ns;
        self.close_reason = Some(reason);
        self.update_hash();
        true
    }

    /// Check if the current phase has timed out.
    pub fn is_timed_out(&self, current_ns: u64) -> (b: bool)
        ensures
            b == spec_timed_out(*self, current_ns),
    {
        if matches!(self.state, SessionState::Idle) || matches!(self.state, SessionState::Closed) {
            return false;
        }
        let elapsed = current_ns.saturating_sub(self.state_entered_ns);
        match self.state {
            SessionState::Discovering => elapsed > self.config.discovery_timeout_ns,
            SessionState::Exchanging => elapsed > self.config.exchange_timeout_ns,
            _ => false,
        }
    }

    /// Increment the retry counter. Returns false once the configured
    /// maximum is reached, so the count never exceeds it.
    pub fn retry(&mut self) -> (ok: bool)
        ensures
            ok == (old(self).retries < old(self).config.max_retries),
            ok ==> *final(self) == (Session {
                retries: (old(self).retries + 1) as u32,
                content_hash: final(self).content_hash,
                ..*old(self)
            }),
            ok ==> spec_hash_consistent(*final(self)),
            !ok ==> *final(self) == *old(self),
            old(self).retries <= old(self).config.max_retries ==> final(self).retries <= old(
                self,
            ).config.max_retries,
            spec_lifecycle_consistent(*old(self)) ==> spec_lifecycle_consistent(*final(self)),
    {
        if self.retries >= self.config.max_retries {
            return false;
        }
        self.retries = self.retries + 1;
        self.update_hash();
        true
    }

    /// Duration (ns) spent in the current state.
    pub fn state_duration_ns(&self, current_ns: u64) -> (d: u64)
        ensures
            d == spec_duration(self.state_entered_ns, current_ns),
    {
        current_ns.saturating_sub(self.state_entered_ns)
    }

    /// Total session duration (ns) from creation.
    pub fn total_duration_ns(&self, current_ns: u64) -> (d: u64)
        ensures
            d == spec_duration(self.created_ns, current_ns),
    {
        current_ns.saturating_sub(self.created_ns)
    }

    /// Is this session still active (not Closed)?
    pub fn is_active(&self) -> (b: bool)
        ensures
            b == !(self.state is Closed),
    {
        !matches!(self.state, SessionState::Closed)
    }

    /// Recompute the content hash from the current fields.
    fn update_hash(&mut self)
        ensures
            *final(self) == (Session { content_hash: final(self).content_hash, ..*old(self) }),
            spec_hash_consistent(*final(self)),
    {
        let code = match self.state {
            SessionState::Idle => 0u8,
            SessionState::Discovering => 1u8,
            SessionState::Exchanging => 2u8,
            SessionState::Verified => 3u8,
            SessionState::Closed => 4u8,
        };
        let mut buf = u64_to_le_bytes(self.session_id);
        buf.push(code);
        let mut part = u32_to_le_bytes(self.local_id);
        buf.append(&mut part);
        let mut part = u64_to_le_bytes(self.state_entered_ns);
        buf.append(&mut part);
        let mut part = u32_to_le_bytes(self.retries);
        buf.append(&mut part);
        proof {
            assert(buf@ =~= spec_u64_to_le_bytes(self.session_id) + seq![
                spec_state_code(self.state),
            ] + spec_u32_to_le_bytes(self.local_id) + spec_u64_to_le_bytes(self.state_entered_ns)
                + spec_u32_to_le_bytes(self.retries));
        }
        self.content_hash = fnv1a(buf.as_slice());
    }
}

} // verus!
