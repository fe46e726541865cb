//! Decisions of the authenticated control connection: which signals are accepted, which
//! session may run, which peer a message reaches and when a reboot command may execute.
//! The connection loop performs the network work and hands each decoded signal here.
use crate::idset::IdSet;
use crate::text::text_eq;
use vstd::prelude::*;

verus! {

/// Largest control frame accepted, in bytes.
pub const MAX_SIGNAL_BYTES: usize = 65536;

/// Largest clock difference accepted between the server and the agent, in seconds.
pub const MAX_SIGNAL_AGE_SECONDS: i64 = 120;

/// Number of distinct reboot command identifiers remembered per connection.
pub const MAX_REBOOT_COMMANDS: usize = 64;

/// Latest accepted expiry of a reboot command, in nanoseconds from now.
pub const MAX_REBOOT_EXPIRY_NANOS: i64 = 60_000_000_000;

/// What a remote session asks for.
#[derive(Clone, Copy, PartialEq, Eq, Structural, Debug)]
pub enum SessionKind {
    Terminal,
    Desktop,
    Other,
}

/// The session kind a request's `kind` field names: `Terminal` or `Desktop`, anything
/// else is neither.
pub open spec fn session_kind_of(name: Seq<char>) -> SessionKind {
    if name == "Terminal"@ {
        SessionKind::Terminal
    } else if name == "Desktop"@ {
        SessionKind::Desktop
    } else {
        SessionKind::Other
    }
}

/// Reads the kind of a session request.
pub fn session_kind(name: &str) -> (k: SessionKind)
    ensures
        k == session_kind_of(name@),
{
    if text_eq(name, "Terminal") {
        SessionKind::Terminal
    } else if text_eq(name, "Desktop") {
        SessionKind::Desktop
    } else {
        SessionKind::Other
    }
}

/// The code that accompanies a session accept or reject.
#[derive(Clone, Copy, PartialEq, Eq, Structural, Debug)]
pub enum ReplyCode {
    Accepted,
    TerminalElevationUnavailable,
    SessionBusy,
    CapabilityUnavailable,
}

/// The wire form of a reply code.
pub open spec fn reply_code_text(c: ReplyCode) -> &'static str {
    match c {
        ReplyCode::Accepted => "OK",
        ReplyCode::TerminalElevationUnavailable => "TERMINAL_ELEVATION_UNAVAILABLE",
        ReplyCode::SessionBusy => "SESSION_BUSY",
        ReplyCode::CapabilityUnavailable => "CAPABILITY_UNAVAILABLE",
    }
}

impl ReplyCode {
    /// The wire form of the code.
    pub fn as_str(&self) -> (s: &'static str)
        ensures
            s == reply_code_text(*self),
    {
        match self {
            ReplyCode::Accepted => "OK",
            ReplyCode::TerminalElevationUnavailable => "TERMINAL_ELEVATION_UNAVAILABLE",
            ReplyCode::SessionBusy => "SESSION_BUSY",
            ReplyCode::CapabilityUnavailable => "CAPABILITY_UNAVAILABLE",
        }
    }
}

/// The answer to a `session.request`.
#[derive(Clone, Copy, PartialEq, Eq, Structural, Debug)]
pub struct SessionReply {
    pub accepted: bool,
    pub elevation: bool,
    pub code: ReplyCode,
}

/// The one session the server may currently drive.
#[derive(Clone, Copy, PartialEq, Eq, Structural, Debug)]
pub struct Grant {
    pub id: u128,
    pub desktop: bool,
    pub elevation: bool,
}

/// The capabilities this device opted into locally.
#[derive(Clone, Copy, PartialEq, Eq, Structural, Debug)]
pub struct Policy {
    pub allow_terminal: bool,
    pub allow_desktop: bool,
    pub allow_reboot: bool,
    pub elevation_available: bool,
}

/// Whether an accepted reboot command runs the fixed OS command.
#[derive(Clone, Copy, PartialEq, Eq, Structural, Debug)]
pub enum RebootStep {
    Denied,
    Execute,
}

/// The signal types the agent handles.
#[derive(Clone, Copy, PartialEq, Eq, Structural, Debug)]
pub enum SignalKind {
    Connected,
    Reboot,
    SessionRequest,
    Offer,
    IceCandidate,
    RelayStart,
    RelayData,
    SessionClose,
}

/// Reasons that end the control connection.
#[derive(Clone, Copy, PartialEq, Eq, Structural, Debug)]
pub enum ControlError {
    SignalTooLarge,
    UnsupportedProtocol,
    StaleSignal,
    MissingSession,
    UnexpectedSignal,
    InvalidCommandExpiry,
    CommandReplay,
    UnauthorizedOffer,
    UnauthorizedRelay,
    RelayAlreadyActive,
    SequenceExhausted,
}

/// Where a relay start leaves the data plane.
#[derive(Clone, Copy, PartialEq, Eq, Structural, Debug)]
pub struct RelayPlan {
    /// A direct peer for the session existed and must be closed.
    pub close_session: bool,
    pub grant: Grant,
}

/// The abstract state of the control connection.
pub struct ControlView {
    pub grant: Option<Grant>,
    pub sessions: Set<u128>,
    pub relays: Set<u128>,
    pub reboot_seen: Set<u128>,
    pub reboot_count: nat,
    pub relay_sequence: nat,
}

/// Identifier, grant, peer and command bookkeeping of one control connection.
pub struct ControlState {
    grant: Option<Grant>,
    sessions: IdSet,
    relays: IdSet,
    reboot_seen: IdSet,
    relay_sequence: u64,
}

impl View for ControlState {
    type V = ControlView;

    closed spec fn view(&self) -> ControlView {
        ControlView {
            grant: self.grant,
            sessions: self.sessions@,
            relays: self.relays@,
            reboot_seen: self.reboot_seen@,
            reboot_count: self.reboot_seen.size(),
            relay_sequence: self.relay_sequence as nat,
        }
    }
}

/// Whether `g` is a grant for `id`.
pub open spec fn granted(g: Option<Grant>, id: u128) -> bool {
    g matches Some(x) && x.id == id
}

/// The grant after removing the one for `id`, if any.
pub open spec fn without_grant(g: Option<Grant>, id: u128) -> Option<Grant> {
    if granted(g, id) {
        None
    } else {
        g
    }
}

/// Which signal type `kind` names, given whether it carries a session identifier.
pub open spec fn spec_classify(kind: Seq<char>, has_session: bool) -> Result<SignalKind, ControlError> {
    if kind == "agent.connected"@ {
        Ok(SignalKind::Connected)
    } else if kind == "device.reboot"@ && !has_session {
        Ok(SignalKind::Reboot)
    } else if !has_session {
        Err(ControlError::MissingSession)
    } else if kind == "session.request"@ {
        Ok(SignalKind::SessionRequest)
    } else if kind == "webrtc.offer"@ {
        Ok(SignalKind::Offer)
    } else if kind == "webrtc.iceCandidate"@ {
        Ok(SignalKind::IceCandidate)
    } else if kind == "relay.start"@ {
        Ok(SignalKind::RelayStart)
    } else if kind == "relay.data"@ {
        Ok(SignalKind::RelayData)
    } else if kind == "session.close"@ {
        Ok(SignalKind::SessionClose)
    } else {
        Err(ControlError::UnexpectedSignal)
    }
}

/// The reply to a session request in state `v`.
pub open spec fn spec_reply(v: ControlView, kind: SessionKind, elevation_requested: bool, policy: Policy) -> SessionReply {
    let elevation = kind == SessionKind::Terminal && elevation_requested;
    let blocked = elevation && !policy.elevation_available;
    let capable = (kind == SessionKind::Terminal && policy.allow_terminal) || (kind
        == SessionKind::Desktop && policy.allow_desktop);
    let accepted = !blocked && capable && v.grant is None;
    SessionReply {
        accepted,
        elevation,
        code: if accepted {
            ReplyCode::Accepted
        } else if blocked {
            ReplyCode::TerminalElevationUnavailable
        } else if v.grant is Some {
            ReplyCode::SessionBusy
        } else {
            ReplyCode::CapabilityUnavailable
        },
    }
}

/// The state after answering a session request for `id`.
pub open spec fn spec_after_request(
    v: ControlView,
    id: u128,
    kind: SessionKind,
    elevation_requested: bool,
    policy: Policy,
) -> ControlView {
    let r = spec_reply(v, kind, elevation_requested, policy);
    if r.accepted {
        ControlView {
            grant: Some(Grant { id, desktop: kind == SessionKind::Desktop, elevation: r.elevation }),
            ..v
        }
    } else {
        v
    }
}

/// The outcome of a reboot command in state `v`.
pub open spec fn spec_reboot(v: ControlView, command_id: u128, expiry_valid: bool, allow_reboot: bool) -> Result<RebootStep, ControlError> {
    if !expiry_valid {
        Err(ControlError::InvalidCommandExpiry)
    } else if v.reboot_count >= 64 || v.reboot_seen.contains(command_id) {
        Err(ControlError::CommandReplay)
    } else if allow_reboot {
        Ok(RebootStep::Execute)
    } else {
        Ok(RebootStep::Denied)
    }
}

/// The state after a reboot command.
pub open spec fn spec_after_reboot(v: ControlView, command_id: u128, expiry_valid: bool, allow_reboot: bool) -> ControlView {
    if spec_reboot(v, command_id, expiry_valid, allow_reboot) is Ok {
        ControlView {
            reboot_seen: v.reboot_seen.insert(command_id),
            reboot_count: v.reboot_count + 1,
            ..v
        }
    } else {
        v
    }
}

/// The state after a session ends, whether closed by the server or because its relay stopped.
pub open spec fn spec_after_end(v: ControlView, id: u128) -> ControlView {
    ControlView {
        grant: without_grant(v.grant, id),
        sessions: v.sessions.remove(id),
        relays: v.relays.remove(id),
        ..v
    }
}

impl ControlState {
    /// Every relay belongs to the current grant, and at most 64 reboot commands were seen.
    pub closed spec fn wf(self) -> bool {
        &&& self.sessions.wf()
        &&& self.relays.wf()
        &&& self.reboot_seen.wf()
        &&& self.reboot_seen.size() <= 64
        &&& forall|r: u128| #[trigger] self.relays@.contains(r) ==> granted(self.grant, r)
    }

    /// A fresh connection: nothing granted, no peers, no commands seen.
    pub fn new() -> (s: Self)
        ensures
            s.wf(),
            s@.grant is None,
            s@.sessions == Set::<u128>::empty(),
            s@.relays == Set::<u128>::empty(),
            s@.reboot_seen == Set::<u128>::empty(),
            s@.reboot_count == 0,
            s@.relay_sequence == 0,
    {
        ControlState {
            grant: None,
            sessions: IdSet::new(),
            relays: IdSet::new(),
            reboot_seen: IdSet::new(),
            relay_sequence: 0,
        }
    }

    /// Frames above 64 KiB end the connection.
    pub fn check_frame_size(len: usize) -> (r: Result<(), ControlError>)
        ensures
            r is Ok <==> len <= MAX_SIGNAL_BYTES,
            r is Err ==> r == Err::<(), ControlError>(ControlError::SignalTooLarge),
    {
        if len > MAX_SIGNAL_BYTES {
            Err(ControlError::SignalTooLarge)
        } else {
            Ok(())
        }
    }

    /// Only protocol version 1 is accepted, and the signal's timestamp may differ from the
    /// local clock by at most 120 whole seconds in either direction.
    pub fn check_signal(protocol_version: u32, age_seconds: i64) -> (r: Result<(), ControlError>)
        ensures
            protocol_version != 1 ==> r == Err::<(), ControlError>(ControlError::UnsupportedProtocol),
            protocol_version == 1 && (age_seconds < -120 || age_seconds > 120) ==> r == Err::<
                (),
                ControlError,
            >(ControlError::StaleSignal),
            protocol_version == 1 && -120 <= age_seconds <= 120 ==> r is Ok,
    {
        if protocol_version != 1 {
            Err(ControlError::UnsupportedProtocol)
        } else if age_seconds < -MAX_SIGNAL_AGE_SECONDS || age_seconds > MAX_SIGNAL_AGE_SECONDS {
            Err(ControlError::StaleSignal)
        } else {
            Ok(())
        }
    }

    /// Which signal type a frame of type `kind` is.
    pub fn classify(kind: &str, has_session: bool) -> (r: Result<SignalKind, ControlError>)
        ensures
            r == spec_classify(kind@, has_session),
    {
        if text_eq(kind, "agent.connected") {
            Ok(SignalKind::Connected)
        } else if text_eq(kind, "device.reboot") && !has_session {
            Ok(SignalKind::Reboot)
        } else if !has_session {
            Err(ControlError::MissingSession)
        } else if text_eq(kind, "session.request") {
            Ok(SignalKind::SessionRequest)
        } else if text_eq(kind, "webrtc.offer") {
            Ok(SignalKind::Offer)
        } else if text_eq(kind, "webrtc.iceCandidate") {
            Ok(SignalKind::IceCandidate)
        } else if text_eq(kind, "relay.start") {
            Ok(SignalKind::RelayStart)
        } else if text_eq(kind, "relay.data") {
            Ok(SignalKind::RelayData)
        } else if text_eq(kind, "session.close") {
            Ok(SignalKind::SessionClose)
        } else {
            Err(ControlError::UnexpectedSignal)
        }
    }

    /// A reboot command's expiry must lie after now and at most 60 seconds ahead;
    /// `nanos_until_expiry` is `None` when the distance does not fit in 64 bits.
    pub fn expiry_valid(nanos_until_expiry: Option<i64>) -> (r: bool)
        ensures
            r == (nanos_until_expiry matches Some(n) && 0 < n <= MAX_REBOOT_EXPIRY_NANOS),
    {
        match nanos_until_expiry {
            Some(n) => 0 < n && n <= MAX_REBOOT_EXPIRY_NANOS,
            None => false,
        }
    }

    /// Records a reboot command. An invalid expiry, a repeated identifier or a 65th
    /// command is refused; an accepted command executes only with the local opt-in.
    pub fn reboot(&mut self, command_id: u128, expiry_valid: bool, allow_reboot: bool) -> (r: Result<
        RebootStep,
        ControlError,
    >)
        requires
            old(self).wf(),
        ensures
            final(self).wf(),
            r == spec_reboot(old(self)@, command_id, expiry_valid, allow_reboot),
            final(self)@ == spec_after_reboot(old(self)@, command_id, expiry_valid, allow_reboot),
    {
        if !expiry_valid {
            return Err(ControlError::InvalidCommandExpiry);
        }
        if self.reboot_seen.len() >= MAX_REBOOT_COMMANDS {
            return Err(ControlError::CommandReplay);
        }
        if !self.reboot_seen.insert(command_id) {
            proof {
                assert(self.reboot_seen@ =~= old(self).reboot_seen@);
            }
            return Err(ControlError::CommandReplay);
        }
        if allow_reboot {
            Ok(RebootStep::Execute)
        } else {
            Ok(RebootStep::Denied)
        }
    }

    /// Answers a session request: one session at a time, only for a locally allowed kind,
    /// and a terminal that asks for privilege escalation only where escalation is available.
    pub fn request_session(
        &mut self,
        id: u128,
        kind: SessionKind,
        elevation_requested: bool,
        policy: Policy,
    ) -> (r: SessionReply)
        requires
            old(self).wf(),
        ensures
            final(self).wf(),
            r == spec_reply(old(self)@, kind, elevation_requested, policy),
            final(self)@ == spec_after_request(old(self)@, id, kind, elevation_requested, policy),
            r.accepted ==> final(self)@.grant == Some(
                Grant {
                    id,
                    desktop: kind == SessionKind::Desktop,
                    elevation: kind == SessionKind::Terminal && elevation_requested,
                },
            ),
            !r.accepted ==> final(self)@ == old(self)@,
    {
        let elevation = kind == SessionKind::Terminal && elevation_requested;
        let blocked = elevation && !policy.elevation_available;
        let capable = (kind == SessionKind::Terminal && policy.allow_terminal) || (kind
            == SessionKind::Desktop && policy.allow_desktop);
        let busy = self.grant.is_some();
        let accepted = !blocked && capable && !busy;
        if accepted {
            self.grant = Some(Grant { id, desktop: kind == SessionKind::Desktop, elevation });
        }
        let code = if accepted {
            ReplyCode::Accepted
        } else if blocked {
            ReplyCode::TerminalElevationUnavailable
        } else if busy {
            ReplyCode::SessionBusy
        } else {
            ReplyCode::CapabilityUnavailable
        };
        SessionReply { accepted, elevation, code }
    }

    /// An offer is answered only for the granted session and only once.
    pub fn authorize_offer(&self, id: u128) -> (r: Result<Grant, ControlError>)
        ensures
            r is Ok <==> granted(self@.grant, id) && !self@.sessions.contains(id),
            r matches Ok(g) ==> self@.grant == Some(g),
            r is Err ==> r == Err::<Grant, ControlError>(ControlError::UnauthorizedOffer),
    {
        match self.grant {
            Some(g) => {
                if g.id == id && !self.sessions.contains(id) {
                    Ok(g)
                } else {
                    Err(ControlError::UnauthorizedOffer)
                }
            },
            None => Err(ControlError::UnauthorizedOffer),
        }
    }

    /// Records the direct peer created for an authorized offer.
    pub fn offer_answered(&mut self, id: u128)
        requires
            old(self).wf(),
            granted(old(self)@.grant, id),
        ensures
            final(self).wf(),
            final(self)@ == (ControlView { sessions: old(self)@.sessions.insert(id), ..old(self)@ }),
    {
        self.sessions.insert(id);
    }

    /// ICE candidates flow only for a direct peer that has not been replaced by a relay.
    pub fn accepts_candidate(&self, id: u128) -> (r: bool)
        ensures
            r == (self@.sessions.contains(id) && !self@.relays.contains(id)),
    {
        self.sessions.contains(id) && !self.relays.contains(id)
    }

    /// Switches the granted session to the relay. A direct peer of the session is closed
    /// first; a second relay for the same session is refused.
    pub fn start_relay(&mut self, id: u128) -> (r: Result<RelayPlan, ControlError>)
        requires
            old(self).wf(),
        ensures
            final(self).wf(),
            !granted(old(self)@.grant, id) ==> r == Err::<RelayPlan, ControlError>(
                ControlError::UnauthorizedRelay,
            ) && final(self)@ == old(self)@,
            granted(old(self)@.grant, id) ==> final(self)@ == (ControlView {
                sessions: old(self)@.sessions.remove(id),
                ..old(self)@
            }),
            granted(old(self)@.grant, id) && old(self)@.relays.contains(id) ==> r == Err::<
                RelayPlan,
                ControlError,
            >(ControlError::RelayAlreadyActive),
            granted(old(self)@.grant, id) && !old(self)@.relays.contains(id) ==> r == Ok::<
                RelayPlan,
                ControlError,
            >(
                RelayPlan {
                    close_session: old(self)@.sessions.contains(id),
                    grant: old(self)@.grant->0,
                },
            ),
    {
        let g = match self.grant {
            Some(g) => {
                if g.id != id {
                    return Err(ControlError::UnauthorizedRelay);
                }
                g
            },
            None => {
                return Err(ControlError::UnauthorizedRelay);
            },
        };
        let close_session = self.sessions.remove(id);
        if self.relays.contains(id) {
            return Err(ControlError::RelayAlreadyActive);
        }
        Ok(RelayPlan { close_session, grant: g })
    }

    /// Records the relay started for the granted session.
    pub fn relay_started(&mut self, id: u128)
        requires
            old(self).wf(),
            granted(old(self)@.grant, id),
        ensures
            final(self).wf(),
            final(self)@ == (ControlView { relays: old(self)@.relays.insert(id), ..old(self)@ }),
    {
        self.relays.insert(id);
    }

    /// Whether relay traffic for `id` is delivered.
    pub fn has_relay(&self, id: u128) -> (r: bool)
        ensures
            r == self@.relays.contains(id),
    {
        self.relays.contains(id)
    }

    /// Invalid relay input ends the relay and the grant; a direct peer is left alone.
    pub fn relay_input_failed(&mut self, id: u128)
        requires
            old(self).wf(),
        ensures
            final(self).wf(),
            final(self)@ == (ControlView {
                grant: without_grant(old(self)@.grant, id),
                relays: old(self)@.relays.remove(id),
                ..old(self)@
            }),
    {
        self.relays.remove(id);
        if let Some(g) = self.grant {
            if g.id == id {
                self.grant = None;
            }
        }
    }

    /// Ends session `id`, whether the server closed it or its relay finished; returns
    /// whether a direct peer existed and must be closed.
    pub fn end_session(&mut self, id: u128) -> (close_peer: bool)
        requires
            old(self).wf(),
        ensures
            final(self).wf(),
            close_peer == old(self)@.sessions.contains(id),
            final(self)@ == spec_after_end(old(self)@, id),
    {
        self.relays.remove(id);
        if let Some(g) = self.grant {
            if g.id == id {
                self.grant = None;
            }
        }
        self.sessions.remove(id)
    }

    /// The sequence number of the next relay frame sent for `id`, or `None` when `id`
    /// has no relay; numbers increase by one per frame.
    pub fn next_relay_sequence(&mut self, id: u128) -> (r: Result<Option<u64>, ControlError>)
        requires
            old(self).wf(),
        ensures
            final(self).wf(),
            !old(self)@.relays.contains(id) ==> r == Ok::<Option<u64>, ControlError>(None)
                && final(self)@ == old(self)@,
            old(self)@.relays.contains(id) && old(self)@.relay_sequence == u64::MAX ==> r == Err::<
                Option<u64>,
                ControlError,
            >(ControlError::SequenceExhausted) && final(self)@ == old(self)@,
            old(self)@.relays.contains(id) && old(self)@.relay_sequence < u64::MAX ==> r
                == Ok::<Option<u64>, ControlError>(Some((old(self)@.relay_sequence + 1) as u64))
                && final(self)@ == (ControlView {
                relay_sequence: old(self)@.relay_sequence + 1,
                ..old(self)@
            }),
    {
        if !self.relays.contains(id) {
            return Ok(None);
        }
        if self.relay_sequence == u64::MAX {
            return Err(ControlError::SequenceExhausted);
        }
        self.relay_sequence = self.relay_sequence + 1;
        Ok(Some(self.relay_sequence))
    }
}

/// Each signal type names its own signal: `agent.connected` at any time, `device.reboot`
/// only without a session, and the session signals only with one; `Terminal` and
/// `Desktop` name those session kinds.
pub proof fn law_signal_types_keep_their_meaning(has_session: bool)
    ensures
        spec_classify("agent.connected"@, has_session) == Ok::<SignalKind, ControlError>(SignalKind::Connected),
        spec_classify("device.reboot"@, false) == Ok::<SignalKind, ControlError>(SignalKind::Reboot),
        spec_classify("device.reboot"@, true) == Err::<SignalKind, ControlError>(ControlError::UnexpectedSignal),
        spec_classify("session.request"@, true) == Ok::<SignalKind, ControlError>(SignalKind::SessionRequest),
        spec_classify("session.request"@, false) == Err::<SignalKind, ControlError>(ControlError::MissingSession),
        spec_classify("webrtc.offer"@, true) == Ok::<SignalKind, ControlError>(SignalKind::Offer),
        spec_classify("webrtc.offer"@, false) == Err::<SignalKind, ControlError>(ControlError::MissingSession),
        spec_classify("webrtc.iceCandidate"@, true) == Ok::<SignalKind, ControlError>(SignalKind::IceCandidate),
        spec_classify("webrtc.iceCandidate"@, false) == Err::<SignalKind, ControlError>(ControlError::MissingSession),
        spec_classify("relay.start"@, true) == Ok::<SignalKind, ControlError>(SignalKind::RelayStart),
        spec_classify("relay.start"@, false) == Err::<SignalKind, ControlError>(ControlError::MissingSession),
        spec_classify("relay.data"@, true) == Ok::<SignalKind, ControlError>(SignalKind::RelayData),
        spec_classify("relay.data"@, false) == Err::<SignalKind, ControlError>(ControlError::MissingSession),
        spec_classify("session.close"@, true) == Ok::<SignalKind, ControlError>(SignalKind::SessionClose),
        spec_classify("session.close"@, false) == Err::<SignalKind, ControlError>(ControlError::MissingSession),
        session_kind_of("Terminal"@) == SessionKind::Terminal,
        session_kind_of("Desktop"@) == SessionKind::Desktop,
{
    reveal_strlit("agent.connected");
    reveal_strlit("device.reboot");
    reveal_strlit("session.request");
    reveal_strlit("webrtc.offer");
    reveal_strlit("webrtc.iceCandidate");
    reveal_strlit("relay.start");
    reveal_strlit("relay.data");
    reveal_strlit("session.close");
    reveal_strlit("Terminal");
    reveal_strlit("Desktop");
    assert("agent.connected"@.len() == 15);
    assert("agent.connected"@[0] == 'a');
    assert("agent.connected"@[1] == 'g');
    assert("agent.connected"@[2] == 'e');
    assert("agent.connected"@[3] == 'n');
    assert("agent.connected"@[4] == 't');
    assert("agent.connected"@[5] == '.');
    assert("agent.connected"@[6] == 'c');
    assert("agent.connected"@[7] == 'o');
    assert("agent.connected"@[8] == 'n');
    assert("agent.connected"@[9] == 'n');
    assert("agent.connected"@[10] == 'e');
    assert("agent.connected"@[11] == 'c');
    assert("agent.connected"@[12] == 't');
    assert("agent.connected"@[13] == 'e');
    assert("agent.connected"@[14] == 'd');
    assert("device.reboot"@.len() == 13);
    assert("device.reboot"@[0] == 'd');
    assert("device.reboot"@[1] == 'e');
    assert("device.reboot"@[2] == 'v');
    assert("device.reboot"@[3] == 'i');
    assert("device.reboot"@[4] == 'c');
    assert("device.reboot"@[5] == 'e');
    assert("device.reboot"@[6] == '.');
    assert("device.reboot"@[7] == 'r');
    assert("device.reboot"@[8] == 'e');
    assert("device.reboot"@[9] == 'b');
    assert("device.reboot"@[10] == 'o');
    assert("device.reboot"@[11] == 'o');
    assert("device.reboot"@[12] == 't');
    assert("session.request"@.len() == 15);
    assert("session.request"@[0] == 's');
    assert("session.request"@[1] == 'e');
    assert("session.request"@[2] == 's');
    assert("session.request"@[3] == 's');
    assert("session.request"@[4] == 'i');
    assert("session.request"@[5] == 'o');
    assert("session.request"@[6] == 'n');
    assert("session.request"@[7] == '.');
    assert("session.request"@[8] == 'r');
    assert("session.request"@[9] == 'e');
    assert("session.request"@[10] == 'q');
    assert("session.request"@[11] == 'u');
    assert("session.request"@[12] == 'e');
    assert("session.request"@[13] == 's');
    assert("session.request"@[14] == 't');
    assert("webrtc.offer"@.len() == 12);
    assert("webrtc.offer"@[0] == 'w');
    assert("webrtc.offer"@[1] == 'e');
    assert("webrtc.offer"@[2] == 'b');
    assert("webrtc.offer"@[3] == 'r');
    assert("webrtc.offer"@[4] == 't');
    assert("webrtc.offer"@[5] == 'c');
    assert("webrtc.offer"@[6] == '.');
    assert("webrtc.offer"@[7] == 'o');
    assert("webrtc.offer"@[8] == 'f');
    assert("webrtc.offer"@[9] == 'f');
    assert("webrtc.offer"@[10] == 'e');
    assert("webrtc.offer"@[11] == 'r');
    assert("webrtc.iceCandidate"@.len() == 19);
    assert("webrtc.iceCandidate"@[0] == 'w');
    assert("webrtc.iceCandidate"@[1] == 'e');
    assert("webrtc.iceCandidate"@[2] == 'b');
    assert("webrtc.iceCandidate"@[3] == 'r');
    assert("webrtc.iceCandidate"@[4] == 't');
    assert("webrtc.iceCandidate"@[5] == 'c');
    assert("webrtc.iceCandidate"@[6] == '.');
    assert("webrtc.iceCandidate"@[7] == 'i');
    assert("webrtc.iceCandidate"@[8] == 'c');
    assert("webrtc.iceCandidate"@[9] == 'e');
    assert("webrtc.iceCandidate"@[10] == 'C');
    assert("webrtc.iceCandidate"@[11] == 'a');
    assert("webrtc.iceCandidate"@[12] == 'n');
    assert("webrtc.iceCandidate"@[13] == 'd');
    assert("webrtc.iceCandidate"@[14] == 'i');
    assert("webrtc.iceCandidate"@[15] == 'd');
    assert("webrtc.iceCandidate"@[16] == 'a');
    assert("webrtc.iceCandidate"@[17] == 't');
    assert("webrtc.iceCandidate"@[18] == 'e');
    assert("relay.start"@.len() == 11);
    assert("relay.start"@[0] == 'r');
    assert("relay.start"@[1] == 'e');
    assert("relay.start"@[2] == 'l');
    assert("relay.start"@[3] == 'a');
    assert("relay.start"@[4] == 'y');
    assert("relay.start"@[5] == '.');
    assert("relay.start"@[6] == 's');
    assert("relay.start"@[7] == 't');
    assert("relay.start"@[8] == 'a');
    assert("relay.start"@[9] == 'r');
    assert("relay.start"@[10] == 't');
    assert("relay.data"@.len() == 10);
    assert("relay.data"@[0] == 'r');
    assert("relay.data"@[1] == 'e');
    assert("relay.data"@[2] == 'l');
    assert("relay.data"@[3] == 'a');
    assert("relay.data"@[4] == 'y');
    assert("relay.data"@[5] == '.');
    assert("relay.data"@[6] == 'd');
    assert("relay.data"@[7] == 'a');
    assert("relay.data"@[8] == 't');
    assert("relay.data"@[9] == 'a');
    assert("session.close"@.len() == 13);
    assert("session.close"@[0] == 's');
    assert("session.close"@[1] == 'e');
    assert("session.close"@[2] == 's');
    assert("session.close"@[3] == 's');
    assert("session.close"@[4] == 'i');
    assert("session.close"@[5] == 'o');
    assert("session.close"@[6] == 'n');
    assert("session.close"@[7] == '.');
    assert("session.close"@[8] == 'c');
    assert("session.close"@[9] == 'l');
    assert("session.close"@[10] == 'o');
    assert("session.close"@[11] == 's');
    assert("session.close"@[12] == 'e');
    assert("Terminal"@.len() == 8);
    assert("Terminal"@[0] == 'T');
    assert("Terminal"@[1] == 'e');
    assert("Terminal"@[2] == 'r');
    assert("Terminal"@[3] == 'm');
    assert("Terminal"@[4] == 'i');
    assert("Terminal"@[5] == 'n');
    assert("Terminal"@[6] == 'a');
    assert("Terminal"@[7] == 'l');
    assert("Desktop"@.len() == 7);
    assert("Desktop"@[0] == 'D');
    assert("Desktop"@[1] == 'e');
    assert("Desktop"@[2] == 's');
    assert("Desktop"@[3] == 'k');
    assert("Desktop"@[4] == 't');
    assert("Desktop"@[5] == 'o');
    assert("Desktop"@[6] == 'p');
}

/// One remote session per agent: while a session is granted, every further request is
/// rejected and the grant is unchanged.
pub proof fn law_one_session_at_a_time(
    v: ControlView,
    id: u128,
    kind: SessionKind,
    elevation_requested: bool,
    policy: Policy,
)
    requires
        v.grant is Some,
    ensures
        !spec_reply(v, kind, elevation_requested, policy).accepted,
        spec_after_request(v, id, kind, elevation_requested, policy) == v,
{
}

/// An accepted request is granted exactly as asked: the grant names the request's
/// identifier, is a desktop session exactly when a desktop was requested, and escalates
/// privileges exactly for a terminal that asked to. A request is accepted only when no
/// session is granted and the device opted into its kind (and, for an escalating terminal,
/// escalation is available); nothing else changes.
pub proof fn law_grant_is_the_requested_session(
    v: ControlView,
    id: u128,
    kind: SessionKind,
    elevation_requested: bool,
    policy: Policy,
)
    ensures
        spec_reply(v, kind, elevation_requested, policy).accepted <==> v.grant is None && ((kind
            == SessionKind::Terminal && policy.allow_terminal && (!elevation_requested
            || policy.elevation_available)) || (kind == SessionKind::Desktop && policy.allow_desktop)),
        spec_reply(v, kind, elevation_requested, policy).accepted ==> spec_after_request(
            v,
            id,
            kind,
            elevation_requested,
            policy,
        ) == (ControlView {
            grant: Some(
                Grant {
                    id,
                    desktop: kind == SessionKind::Desktop,
                    elevation: kind == SessionKind::Terminal && elevation_requested,
                },
            ),
            ..v
        }),
        !spec_reply(v, kind, elevation_requested, policy).accepted ==> spec_after_request(
            v,
            id,
            kind,
            elevation_requested,
            policy,
        ) == v,
{
}

/// A session is granted only for a kind the device opted into, and a privilege-escalating
/// terminal only where escalation is available.
pub proof fn law_capabilities_are_local_opt_ins(
    v: ControlView,
    kind: SessionKind,
    elevation_requested: bool,
    policy: Policy,
)
    ensures
        spec_reply(v, kind, elevation_requested, policy).accepted ==> ((kind == SessionKind::Terminal
            && policy.allow_terminal) || (kind == SessionKind::Desktop && policy.allow_desktop)),
        spec_reply(v, kind, elevation_requested, policy).accepted && spec_reply(
            v,
            kind,
            elevation_requested,
            policy,
        ).elevation ==> policy.elevation_available,
{
}

/// A reboot command identifier is honoured at most once per connection.
pub proof fn law_reboot_commands_never_replay(
    v: ControlView,
    command_id: u128,
    first_expiry_valid: bool,
    second_expiry_valid: bool,
    allow_reboot: bool,
)
    requires
        spec_reboot(v, command_id, first_expiry_valid, allow_reboot) is Ok,
    ensures
        spec_reboot(
            spec_after_reboot(v, command_id, first_expiry_valid, allow_reboot),
            command_id,
            second_expiry_valid,
            allow_reboot,
        ) is Err,
{
}

/// Without the local opt-in a reboot command never executes.
pub proof fn law_reboot_requires_opt_in(v: ControlView, command_id: u128, expiry_valid: bool)
    ensures
        spec_reboot(v, command_id, expiry_valid, false) != Ok::<RebootStep, ControlError>(
            RebootStep::Execute,
        ),
{
}

/// Closing the granted session frees the agent: a following request of an allowed kind
/// without escalation is accepted.
pub proof fn law_close_frees_the_session(v: ControlView, id: u128, next: u128, kind: SessionKind, policy: Policy)
    requires
        granted(v.grant, id),
        (kind == SessionKind::Terminal && policy.allow_terminal) || (kind == SessionKind::Desktop
            && policy.allow_desktop),
    ensures
        spec_reply(spec_after_end(v, id), kind, false, policy).accepted,
{
}

} // verus!
