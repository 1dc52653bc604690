use vstd::prelude::*;

use crate::codec::{
    decode, description_line, encode, json_description, lemma_line_single_line, single_line, SdpKind,
    SessionDescription,
};
use crate::error::SessionError;

verus! {

/// Which side of the manual exchange this process plays.
#[derive(Clone, Copy, Debug, PartialEq, Eq, Structural)]
pub enum Role {
    Initiator,
    Responder,
}

/// Where a handshake stands.
#[derive(Clone, Copy, Debug, PartialEq, Eq, Structural)]
pub enum HandshakePhase {
    Idle,
    /// Waiting for the engine's local description after path discovery.
    PreparingLocal,
    /// The local description is set and its line is being emitted.
    LocalDescriptionSet,
    /// Waiting for the peer's line.
    AwaitingPeerDescription,
    /// Waiting for the engine to accept the peer's description.
    ApplyingRemote,
    Established,
    Aborted,
}

/// What the driver reports back to the handshake.
#[derive(Clone, Debug)]
pub enum HandshakeEvent {
    Start,
    /// Path discovery completed; the engine's local description, if it has one.
    LocalReady(Option<SessionDescription>),
    /// The local line was written out.
    Emitted,
    /// The one line read from input, or `None` at end of input.
    PeerLine(Option<String>),
    /// The engine accepted the remote description.
    RemoteApplied,
}

/// What the handshake asks the driver to do next.
#[derive(Clone, Debug)]
pub enum HandshakeAction {
    /// Create the offer, set it as local description, wait for path discovery, then
    /// report `LocalReady`.
    PrepareOffer,
    /// Read exactly one line from input and report `PeerLine`.
    ReadPeerLine,
    /// Write this line to output and report `Emitted`.
    Emit(String),
    /// Set this as remote description and report `RemoteApplied`.
    ApplyRemote(SessionDescription),
    /// Set this as remote description, create the answer, set it as local
    /// description, wait for path discovery, then report `LocalReady`.
    ApplyRemoteAndAnswer(SessionDescription),
    /// Both descriptions are set: hand over to the relay and the monitor.
    Finish,
    /// Stop the handshake with this error.
    Abort(SessionError),
    /// The event does not apply in this phase.
    Ignore,
}

pub enum EventModel {
    Start,
    LocalReady(Option<(SdpKind, Seq<char>)>),
    Emitted,
    PeerLine(Option<Seq<char>>),
    RemoteApplied,
}

pub enum ActionModel {
    PrepareOffer,
    ReadPeerLine,
    Emit(Seq<char>),
    ApplyRemote((SdpKind, Seq<char>)),
    ApplyRemoteAndAnswer((SdpKind, Seq<char>)),
    Finish,
    Abort(SessionError),
    Ignore,
}

impl View for HandshakeEvent {
    type V = EventModel;

    open spec fn view(&self) -> EventModel {
        match self {
            HandshakeEvent::Start => EventModel::Start,
            HandshakeEvent::LocalReady(d) => EventModel::LocalReady(
                match d {
                    Some(d) => Some(d@),
                    None => None,
                },
            ),
            HandshakeEvent::Emitted => EventModel::Emitted,
            HandshakeEvent::PeerLine(l) => EventModel::PeerLine(
                match l {
                    Some(l) => Some(l@),
                    None => None,
                },
            ),
            HandshakeEvent::RemoteApplied => EventModel::RemoteApplied,
        }
    }
}

impl View for HandshakeAction {
    type V = ActionModel;

    open spec fn view(&self) -> ActionModel {
        match self {
            HandshakeAction::PrepareOffer => ActionModel::PrepareOffer,
            HandshakeAction::ReadPeerLine => ActionModel::ReadPeerLine,
            HandshakeAction::Emit(l) => ActionModel::Emit(l@),
            HandshakeAction::ApplyRemote(d) => ActionModel::ApplyRemote(d@),
            HandshakeAction::ApplyRemoteAndAnswer(d) => ActionModel::ApplyRemoteAndAnswer(d@),
            HandshakeAction::Finish => ActionModel::Finish,
            HandshakeAction::Abort(e) => ActionModel::Abort(*e),
            HandshakeAction::Ignore => ActionModel::Ignore,
        }
    }
}

/// The signaling handshake of one role, driven one event at a time.
#[derive(Clone, Copy, Debug, PartialEq, Eq, Structural)]
pub struct Handshake {
    pub role: Role,
    pub phase: HandshakePhase,
    /// The local description has been set.
    pub local_set: bool,
    /// The remote description has been set (or handed to the engine to set).
    pub remote_set: bool,
    /// The peer's line has been read.
    pub line_read: bool,
}

pub open spec fn initial(role: Role) -> Handshake {
    Handshake {
        role,
        phase: HandshakePhase::Idle,
        local_set: false,
        remote_set: false,
        line_read: false,
    }
}

/// The phase and action after reading the peer's line.
pub open spec fn after_peer_line(h: Handshake, line: Option<Seq<char>>) -> (Handshake, ActionModel) {
    let h1 = Handshake { line_read: true, ..h };
    let bad = (
        Handshake { phase: HandshakePhase::Aborted, ..h1 },
        ActionModel::Abort(SessionError::MalformedDescription),
    );
    match line {
        None => bad,
        Some(l) => match json_description(l) {
            None => bad,
            Some(d) => match h.role {
                Role::Initiator => (
                    Handshake { phase: HandshakePhase::ApplyingRemote, ..h1 },
                    ActionModel::ApplyRemote(d),
                ),
                Role::Responder => (
                    Handshake { phase: HandshakePhase::PreparingLocal, remote_set: true, ..h1 },
                    ActionModel::ApplyRemoteAndAnswer(d),
                ),
            },
        },
    }
}

/// The phase and action once the engine's local description is known.
pub open spec fn after_local_ready(h: Handshake, d: Option<(SdpKind, Seq<char>)>) -> (
    Handshake,
    ActionModel,
) {
    match d {
        None => (
            Handshake { phase: HandshakePhase::Aborted, ..h },
            ActionModel::Abort(SessionError::DescriptionUnavailable),
        ),
        Some(d) => (
            Handshake { phase: HandshakePhase::LocalDescriptionSet, local_set: true, ..h },
            ActionModel::Emit(description_line(d)),
        ),
    }
}

/// One transition of the handshake.
pub open spec fn next(h: Handshake, e: EventModel) -> (Handshake, ActionModel) {
    match (h.phase, e) {
        (HandshakePhase::Idle, EventModel::Start) => match h.role {
            Role::Initiator => (
                Handshake { phase: HandshakePhase::PreparingLocal, ..h },
                ActionModel::PrepareOffer,
            ),
            Role::Responder => (
                Handshake { phase: HandshakePhase::AwaitingPeerDescription, ..h },
                ActionModel::ReadPeerLine,
            ),
        },
        (HandshakePhase::PreparingLocal, EventModel::LocalReady(d)) => after_local_ready(h, d),
        (HandshakePhase::LocalDescriptionSet, EventModel::Emitted) => match h.role {
            Role::Initiator => (
                Handshake { phase: HandshakePhase::AwaitingPeerDescription, ..h },
                ActionModel::ReadPeerLine,
            ),
            Role::Responder => (
                Handshake { phase: HandshakePhase::Established, ..h },
                ActionModel::Finish,
            ),
        },
        (HandshakePhase::AwaitingPeerDescription, EventModel::PeerLine(l)) => after_peer_line(h, l),
        (HandshakePhase::ApplyingRemote, EventModel::RemoteApplied) => (
            Handshake { phase: HandshakePhase::Established, remote_set: true, ..h },
            ActionModel::Finish,
        ),
        _ => (h, ActionModel::Ignore),
    }
}

/// The state and the actions after feeding `evs` in order.
pub open spec fn run(h: Handshake, evs: Seq<EventModel>) -> (Handshake, Seq<ActionModel>)
    decreases evs.len(),
{
    if evs.len() == 0 {
        (h, Seq::empty())
    } else {
        let (h1, a) = next(h, evs[0]);
        let (h2, rest) = run(h1, evs.drop_first());
        (h2, seq![a] + rest)
    }
}

/// A state in which `Established` implies that both descriptions are set.
pub open spec fn consistent(h: Handshake) -> bool {
    h.phase == HandshakePhase::Established ==> h.local_set && h.remote_set && h.line_read
}

/// The events of a role's handshake in the documented order, with `local` the
/// engine's local description and `peer_line` the line read from the peer.
pub open spec fn documented_events(role: Role, local: (SdpKind, Seq<char>), peer_line: Seq<char>) -> Seq<
    EventModel,
> {
    match role {
        Role::Initiator => seq![
            EventModel::Start,
            EventModel::LocalReady(Some(local)),
            EventModel::Emitted,
            EventModel::PeerLine(Some(peer_line)),
            EventModel::RemoteApplied,
        ],
        Role::Responder => seq![
            EventModel::Start,
            EventModel::PeerLine(Some(peer_line)),
            EventModel::LocalReady(Some(local)),
            EventModel::Emitted,
        ],
    }
}

/// The actions that the documented order asks for, with `line` the encoded local
/// description and `remote` the decoded peer description.
pub open spec fn documented_actions(role: Role, line: Seq<char>, remote: (SdpKind, Seq<char>)) -> Seq<
    ActionModel,
> {
    match role {
        Role::Initiator => seq![
            ActionModel::PrepareOffer,
            ActionModel::Emit(line),
            ActionModel::ReadPeerLine,
            ActionModel::ApplyRemote(remote),
            ActionModel::Finish,
        ],
        Role::Responder => seq![
            ActionModel::ReadPeerLine,
            ActionModel::ApplyRemoteAndAnswer(remote),
            ActionModel::Emit(line),
            ActionModel::Finish,
        ],
    }
}

proof fn lemma_run_cons(h: Handshake, e: EventModel, rest: Seq<EventModel>)
    ensures
        run(h, seq![e] + rest) == (
            run(next(h, e).0, rest).0,
            seq![next(h, e).1] + run(next(h, e).0, rest).1,
        ),
{
    assert((seq![e] + rest).drop_first() =~= rest);
    assert((seq![e] + rest)[0] == e);
}

/// Fed the documented events for its role, with a peer line that decodes, a
/// handshake reaches `Established` with both descriptions set, emits one line that
/// holds no newline, reads exactly one line, sets the remote description exactly
/// once, and asks for `Finish` exactly once, as its last action.
pub proof fn lemma_documented_order(role: Role, local: (SdpKind, Seq<char>), peer_line: Seq<char>)
    requires
        json_description(peer_line) is Some,
    ensures
        ({
            let (h, acts) = run(initial(role), documented_events(role, local, peer_line));
            &&& h.phase == HandshakePhase::Established
            &&& h.local_set && h.remote_set && h.line_read
            &&& acts == documented_actions(
                role,
                description_line(local),
                json_description(peer_line)->0,
            )
            &&& single_line(description_line(local))
        }),
{
    lemma_line_single_line(local);
    let empty = Seq::<EventModel>::empty();
    let line = description_line(local);
    let remote = json_description(peer_line)->0;
    let h0 = initial(role);
    match role {
        Role::Initiator => {
            let e1 = EventModel::Start;
            let e2 = EventModel::LocalReady(Some(local));
            let e3 = EventModel::Emitted;
            let e4 = EventModel::PeerLine(Some(peer_line));
            let e5 = EventModel::RemoteApplied;
            let h1 = next(h0, e1).0;
            let h2 = next(h1, e2).0;
            let h3 = next(h2, e3).0;
            let h4 = next(h3, e4).0;
            lemma_run_cons(h4, e5, empty);
            lemma_run_cons(h3, e4, seq![e5]);
            lemma_run_cons(h2, e3, seq![e4, e5]);
            lemma_run_cons(h1, e2, seq![e3, e4, e5]);
            lemma_run_cons(h0, e1, seq![e2, e3, e4, e5]);
            assert(seq![e5] + empty =~= seq![e5]);
            assert(seq![e4] + seq![e5] =~= seq![e4, e5]);
            assert(seq![e3] + seq![e4, e5] =~= seq![e3, e4, e5]);
            assert(seq![e2] + seq![e3, e4, e5] =~= seq![e2, e3, e4, e5]);
            assert(seq![e1] + seq![e2, e3, e4, e5] =~= documented_events(role, local, peer_line));
            let acts = run(h0, documented_events(role, local, peer_line)).1;
            assert(acts =~= documented_actions(role, line, remote));
        },
        Role::Responder => {
            let e1 = EventModel::Start;
            let e2 = EventModel::PeerLine(Some(peer_line));
            let e3 = EventModel::LocalReady(Some(local));
            let e4 = EventModel::Emitted;
            let h1 = next(h0, e1).0;
            let h2 = next(h1, e2).0;
            let h3 = next(h2, e3).0;
            lemma_run_cons(h3, e4, empty);
            lemma_run_cons(h2, e3, seq![e4]);
            lemma_run_cons(h1, e2, seq![e3, e4]);
            lemma_run_cons(h0, e1, seq![e2, e3, e4]);
            assert(seq![e4] + empty =~= seq![e4]);
            assert(seq![e3] + seq![e4] =~= seq![e3, e4]);
            assert(seq![e2] + seq![e3, e4] =~= seq![e2, e3, e4]);
            assert(seq![e1] + seq![e2, e3, e4] =~= documented_events(role, local, peer_line));
            let acts = run(h0, documented_events(role, local, peer_line)).1;
            assert(acts =~= documented_actions(role, line, remote));
        },
    }
}

/// A handshake that is established or aborted stays as it is whatever events
/// follow, and asks for nothing more: `Established` is reached at most once.
pub proof fn lemma_terminal_is_final(h: Handshake, evs: Seq<EventModel>)
    requires
        h.phase == HandshakePhase::Established || h.phase == HandshakePhase::Aborted,
    ensures
        run(h, evs).0 == h,
        run(h, evs).1 == Seq::new(evs.len(), |i: int| ActionModel::Ignore),
    decreases evs.len(),
{
    if evs.len() > 0 {
        lemma_terminal_is_final(h, evs.drop_first());
        assert(run(h, evs).1 =~= Seq::new(evs.len(), |i: int| ActionModel::Ignore));
    } else {
        assert(run(h, evs).1 =~= Seq::new(evs.len(), |i: int| ActionModel::Ignore));
    }
}

/// What each phase says of the descriptions and of the peer's line.
pub open spec fn wf(h: Handshake) -> bool {
    let init = h.role == Role::Initiator;
    match h.phase {
        HandshakePhase::Idle => !h.local_set && !h.remote_set && !h.line_read,
        HandshakePhase::PreparingLocal => !h.local_set && if init {
            !h.remote_set && !h.line_read
        } else {
            h.remote_set && h.line_read
        },
        HandshakePhase::LocalDescriptionSet => h.local_set && if init {
            !h.remote_set && !h.line_read
        } else {
            h.remote_set && h.line_read
        },
        HandshakePhase::AwaitingPeerDescription => !h.remote_set && !h.line_read && h.local_set
            == init,
        HandshakePhase::ApplyingRemote => init && h.local_set && h.line_read && !h.remote_set,
        HandshakePhase::Established => h.local_set && h.remote_set && h.line_read,
        HandshakePhase::Aborted => true,
    }
}

/// Every transition keeps `wf`, so no handshake reaches `Established` with only one
/// description set or before the peer's line was read.
pub proof fn lemma_next_wf(h: Handshake, e: EventModel)
    requires
        wf(h),
    ensures
        wf(next(h, e).0),
        consistent(next(h, e).0),
{
}

/// A peer line that is missing or does not decode aborts the handshake with
/// `MalformedDescription`, in either role.
pub proof fn lemma_malformed_line_aborts(h: Handshake, line: Option<Seq<char>>)
    requires
        h.phase == HandshakePhase::AwaitingPeerDescription,
        line is None || json_description(line->0) is None,
    ensures
        next(h, EventModel::PeerLine(line)).0.phase == HandshakePhase::Aborted,
        next(h, EventModel::PeerLine(line)).1 == ActionModel::Abort(
            SessionError::MalformedDescription,
        ),
{
}

impl Handshake {
    pub fn new(role: Role) -> (r: Self)
        ensures
            r == initial(role),
            wf(r),
    {
        Handshake {
            role,
            phase: HandshakePhase::Idle,
            local_set: false,
            remote_set: false,
            line_read: false,
        }
    }

    pub fn is_established(&self) -> (r: bool)
        ensures
            r == (self.phase == HandshakePhase::Established),
    {
        self.phase == HandshakePhase::Established
    }

    /// Applies one event and returns what the driver must do next.
    pub fn step(&mut self, event: HandshakeEvent) -> (action: HandshakeAction)
        ensures
            (*final(self), action@) == next(*old(self), event@),
            wf(*old(self)) ==> wf(*final(self)),
            action@ is Emit ==> single_line(action@->Emit_0),
            action@ is Emit ==> event@ is LocalReady && json_description(action@->Emit_0)
                == event@->LocalReady_0,
    {
        proof {
            if wf(*self) {
                lemma_next_wf(*self, event@);
            }
        }
        let h = *self;
        match event {
            HandshakeEvent::Start => {
                if h.phase == HandshakePhase::Idle {
                    match h.role {
                        Role::Initiator => {
                            self.phase = HandshakePhase::PreparingLocal;
                            HandshakeAction::PrepareOffer
                        },
                        Role::Responder => {
                            self.phase = HandshakePhase::AwaitingPeerDescription;
                            HandshakeAction::ReadPeerLine
                        },
                    }
                } else {
                    HandshakeAction::Ignore
                }
            },
            HandshakeEvent::LocalReady(d) => {
                if h.phase == HandshakePhase::PreparingLocal {
                    match d {
                        None => {
                            self.phase = HandshakePhase::Aborted;
                            HandshakeAction::Abort(SessionError::DescriptionUnavailable)
                        },
                        Some(d) => match encode(&d) {
                            Err(_) => {
                                self.phase = HandshakePhase::Aborted;
                                HandshakeAction::Abort(SessionError::EncodingError)
                            },
                            Ok(line) => {
                                self.phase = HandshakePhase::LocalDescriptionSet;
                                self.local_set = true;
                                HandshakeAction::Emit(line)
                            },
                        },
                    }
                } else {
                    HandshakeAction::Ignore
                }
            },
            HandshakeEvent::Emitted => {
                if h.phase == HandshakePhase::LocalDescriptionSet {
                    match h.role {
                        Role::Initiator => {
                            self.phase = HandshakePhase::AwaitingPeerDescription;
                            HandshakeAction::ReadPeerLine
                        },
                        Role::Responder => {
                            self.phase = HandshakePhase::Established;
                            HandshakeAction::Finish
                        },
                    }
                } else {
                    HandshakeAction::Ignore
                }
            },
            HandshakeEvent::PeerLine(l) => {
                if h.phase == HandshakePhase::AwaitingPeerDescription {
                    self.line_read = true;
                    let decoded = match l {
                        None => Err(SessionError::MalformedDescription),
                        Some(l) => decode(l.as_str()),
                    };
                    match decoded {
                        Err(_) => {
                            self.phase = HandshakePhase::Aborted;
                            HandshakeAction::Abort(SessionError::MalformedDescription)
                        },
                        Ok(d) => match h.role {
                            Role::Initiator => {
                                self.phase = HandshakePhase::ApplyingRemote;
                                HandshakeAction::ApplyRemote(d)
                            },
                            Role::Responder => {
                                self.phase = HandshakePhase::PreparingLocal;
                                self.remote_set = true;
                                HandshakeAction::ApplyRemoteAndAnswer(d)
                            },
                        },
                    }
                } else {
                    HandshakeAction::Ignore
                }
            },
            HandshakeEvent::RemoteApplied => {
                if h.phase == HandshakePhase::ApplyingRemote {
                    self.phase = HandshakePhase::Established;
                    self.remote_set = true;
                    HandshakeAction::Finish
                } else {
                    HandshakeAction::Ignore
                }
            },
        }
    }
}

} // verus!
