//! The session driver: which step follows which, from the first look at the
//! adapter to the status the process ends with.
//!
//! The driver performs nothing itself. Its caller reports each thing that
//! happened as a `SessionEvent`; the driver moves to the next state and
//! answers with the action to perform and the line to show.

use vstd::prelude::*;
use crate::error::SessionError;
use crate::first::{is_first, lemma_first_index, none_of};
use crate::matcher::{first_match, named, AdvertisementReport};
use crate::resolver::{
    is_pair_of, lemma_pair_choice, lemma_rx_and_tx_differ, pair_choice, select_characteristics,
    select_service, service_choice, ResolvedProfile,
};

verus! {

/// How a session ended.
#[derive(Clone, Copy, Debug, PartialEq, Eq, Structural)]
pub enum Outcome {
    /// The stream ended and the link was released.
    Clean,
    /// The scan ended without a match.
    NotFound,
    /// A step of the setup failed.
    Error(SessionError),
}

/// How far discovery has come.
#[derive(Clone, Copy, Debug, PartialEq, Eq, Structural)]
pub enum DiscoveryStage {
    /// The services of the device are being enumerated.
    Services,
    /// The service is chosen; its characteristics are being enumerated.
    Characteristics { service: usize },
    /// The profile is resolved; the subscription is being set up.
    Subscription { profile: ResolvedProfile },
}

/// The states of a session.
#[derive(Clone, Copy, Debug, PartialEq, Eq, Structural)]
pub enum SessionState {
    Idle,
    Scanning,
    Connecting { device: u64 },
    Discovering { device: u64, stage: DiscoveryStage },
    Streaming { device: u64, profile: ResolvedProfile },
    Disconnecting { device: u64 },
    Terminated(Outcome),
}

/// What happened, as the caller reports it.
#[derive(Clone, Debug, PartialEq, Eq)]
pub enum SessionEvent {
    /// The adapter is powered and ready.
    AdapterReady,
    /// There is no adapter, or it did not become available.
    AdapterFailed,
    /// The scan could not be started.
    ScanFailed,
    /// The scan delivered a report.
    Advertisement(AdvertisementReport),
    /// The scan stream ended.
    ScanEnded,
    /// The link to the device is up.
    Connected,
    /// The link could not be established.
    ConnectFailed,
    /// Service discovery finished with these identifiers, in discovery order.
    Services(Vec<String>),
    /// Characteristic discovery on the chosen service finished with these
    /// identifiers, in discovery order.
    Characteristics(Vec<String>),
    /// The subscription on the notify source is in place.
    Subscribed,
    /// Discovery or the subscription failed.
    DiscoveryFailed,
    /// The notification stream ended.
    NotifyEnded,
    /// The disconnect call returned.
    Disconnected,
    /// The disconnect call failed.
    DisconnectFailed,
}

/// What the caller is to do next.
#[derive(Clone, Copy, Debug, PartialEq, Eq, Structural)]
pub enum SessionAction {
    /// The event has no meaning in the present state: do nothing.
    Ignore,
    /// Start an unfiltered scan and report what it delivers.
    StartScan,
    /// Report the next item of the scan.
    NextAdvertisement,
    /// Stop scanning and connect to this device.
    Connect { device: u64 },
    /// Enumerate the services of the device.
    DiscoverServices { device: u64 },
    /// Enumerate the characteristics of the service at this position.
    DiscoverCharacteristics { service: usize },
    /// Subscribe to the characteristic at this position.
    Subscribe { tx: usize },
    /// Start the uplink loop on the characteristic at this position and
    /// the downlink loop on the subscribed stream; report the end of the stream.
    StartLoops { rx: usize },
    /// Disconnect from the device.
    Disconnect { device: u64 },
    /// Leave with this process status.
    Exit { status: i32 },
}

/// The line to show for a step, if any.
#[derive(Clone, Copy, Debug, PartialEq, Eq, Structural)]
pub enum Notice {
    Silent,
    ScanStarted,
    Connected,
    Disconnected,
    NoDeviceFound,
    Failed(SessionError),
}

/// The answer of the driver to one event.
#[derive(Clone, Copy, Debug, PartialEq, Eq, Structural)]
pub struct Step {
    pub action: SessionAction,
    pub notice: Notice,
}

impl Notice {
    /// The text of the line, if there is one.
    pub open spec fn line_of(self) -> Option<Seq<char>> {
        match self {
            Notice::Silent => None,
            Notice::ScanStarted => Some("Starting scan"@),
            Notice::Connected => Some("Connected to Device!"@),
            Notice::Disconnected => Some("Disconnected from device!"@),
            Notice::NoDeviceFound => Some(SessionError::NoMatchingDevice.message_of()),
            Notice::Failed(e) => Some(e.message_of()),
        }
    }

    /// Whether the line reports a failure, and so belongs on the error stream.
    pub open spec fn is_failure(self) -> bool {
        self is NoDeviceFound || self is Failed
    }

    /// The text of the line, if there is one.
    pub fn line(&self) -> (line: Option<&'static str>)
        ensures
            match line {
                Some(l) => self.line_of() == Some(l@),
                None => self.line_of() is None,
            },
    {
        match self {
            Notice::Silent => None,
            Notice::ScanStarted => Some("Starting scan"),
            Notice::Connected => Some("Connected to Device!"),
            Notice::Disconnected => Some("Disconnected from device!"),
            Notice::NoDeviceFound => Some(SessionError::NoMatchingDevice.message()),
            Notice::Failed(e) => Some(e.message()),
        }
    }

    /// Whether the line reports a failure, and so belongs on the error stream.
    pub fn is_error(&self) -> (yes: bool)
        ensures
            yes == self.is_failure(),
    {
        match self {
            Notice::NoDeviceFound | Notice::Failed(_) => true,
            _ => false,
        }
    }
}

impl Outcome {
    /// The process status of a session that ended this way.
    pub open spec fn status_of(self) -> int {
        match self {
            Outcome::Clean => 0,
            Outcome::NotFound => SessionError::NoMatchingDevice.code_of(),
            Outcome::Error(e) => e.code_of(),
        }
    }

    /// The error, in the terms of the taxonomy, of a session that ended this way.
    pub open spec fn error_of(self) -> Option<SessionError> {
        match self {
            Outcome::Clean => None,
            Outcome::NotFound => Some(SessionError::NoMatchingDevice),
            Outcome::Error(e) => Some(e),
        }
    }

    /// The process status of a session that ended this way: zero for a
    /// clean end and for nothing else.
    pub fn exit_status(&self) -> (status: i32)
        ensures
            status == self.status_of(),
            status == 0 <==> self == Outcome::Clean,
    {
        match self {
            Outcome::Clean => 0,
            Outcome::NotFound => SessionError::NoMatchingDevice.code(),
            Outcome::Error(e) => e.code(),
        }
    }

    /// The error, in the terms of the taxonomy, of a session that ended
    /// this way.
    pub fn error(&self) -> (e: Option<SessionError>)
        ensures
            e == self.error_of(),
    {
        match self {
            Outcome::Clean => None,
            Outcome::NotFound => Some(SessionError::NoMatchingDevice),
            Outcome::Error(e) => Some(*e),
        }
    }
}

impl SessionState {
    /// How far along the session is: each transition keeps or raises it.
    pub open spec fn rank(self) -> nat {
        match self {
            SessionState::Idle => 0,
            SessionState::Scanning => 1,
            SessionState::Connecting { .. } => 2,
            SessionState::Discovering { stage: DiscoveryStage::Services, .. } => 3,
            SessionState::Discovering { stage: DiscoveryStage::Characteristics { .. }, .. } => 4,
            SessionState::Discovering { stage: DiscoveryStage::Subscription { .. }, .. } => 5,
            SessionState::Streaming { .. } => 6,
            SessionState::Disconnecting { .. } => 7,
            SessionState::Terminated(_) => 8,
        }
    }

    /// The write target and the notify source, once chosen, are two
    /// different characteristics.
    pub open spec fn wf(self) -> bool {
        match self {
            SessionState::Discovering { stage: DiscoveryStage::Subscription { profile }, .. } => {
                profile.rx != profile.tx
            },
            SessionState::Streaming { profile, .. } => profile.rx != profile.tx,
            _ => true,
        }
    }
}

/// The step that ends a session on a failed setup.
pub open spec fn failed(e: SessionError) -> (SessionState, Step) {
    (
        SessionState::Terminated(Outcome::Error(e)),
        Step { action: SessionAction::Exit { status: e.code_of() as i32 }, notice: Notice::Failed(e) },
    )
}

/// The step that changes nothing.
pub open spec fn ignored(state: SessionState) -> (SessionState, Step) {
    (state, Step { action: SessionAction::Ignore, notice: Notice::Silent })
}

/// The state that follows `state` on `event` in a session that looks for
/// the peripheral called `target`, and the answer given to the caller.
pub open spec fn transition(state: SessionState, target: Seq<char>, event: SessionEvent) -> (
    SessionState,
    Step,
) {
    match state {
        SessionState::Idle => match event {
            SessionEvent::AdapterReady => (
                SessionState::Scanning,
                Step { action: SessionAction::StartScan, notice: Notice::ScanStarted },
            ),
            SessionEvent::AdapterFailed => failed(SessionError::AdapterUnavailable),
            _ => ignored(state),
        },
        SessionState::Scanning => match event {
            SessionEvent::ScanFailed => failed(SessionError::ScanFailed),
            SessionEvent::Advertisement(report) => if report.is_named(target) {
                (
                    SessionState::Connecting { device: report.device },
                    Step {
                        action: SessionAction::Connect { device: report.device },
                        notice: Notice::Silent,
                    },
                )
            } else {
                (
                    SessionState::Scanning,
                    Step { action: SessionAction::NextAdvertisement, notice: Notice::Silent },
                )
            },
            SessionEvent::ScanEnded => (
                SessionState::Terminated(Outcome::NotFound),
                Step {
                    action: SessionAction::Exit {
                        status: SessionError::NoMatchingDevice.code_of() as i32,
                    },
                    notice: Notice::NoDeviceFound,
                },
            ),
            _ => ignored(state),
        },
        SessionState::Connecting { device } => match event {
            SessionEvent::Connected => (
                SessionState::Discovering { device, stage: DiscoveryStage::Services },
                Step {
                    action: SessionAction::DiscoverServices { device },
                    notice: Notice::Connected,
                },
            ),
            SessionEvent::ConnectFailed => failed(SessionError::ConnectFailed),
            _ => ignored(state),
        },
        SessionState::Discovering { device, stage } => match (stage, event) {
            (_, SessionEvent::DiscoveryFailed) => failed(SessionError::DiscoveryFailed),
            (DiscoveryStage::Services, SessionEvent::Services(uuids)) => match service_choice(
                uuids@,
            ) {
                Ok(service) => (
                    SessionState::Discovering {
                        device,
                        stage: DiscoveryStage::Characteristics { service },
                    },
                    Step {
                        action: SessionAction::DiscoverCharacteristics { service },
                        notice: Notice::Silent,
                    },
                ),
                Err(e) => failed(e),
            },
            (
                DiscoveryStage::Characteristics { service },
                SessionEvent::Characteristics(uuids),
            ) => match pair_choice(uuids@) {
                Ok(pair) => (
                    SessionState::Discovering {
                        device,
                        stage: DiscoveryStage::Subscription {
                            profile: ResolvedProfile { service, rx: pair.rx, tx: pair.tx },
                        },
                    },
                    Step { action: SessionAction::Subscribe { tx: pair.tx }, notice: Notice::Silent },
                ),
                Err(e) => failed(e),
            },
            (DiscoveryStage::Subscription { profile }, SessionEvent::Subscribed) => (
                SessionState::Streaming { device, profile },
                Step { action: SessionAction::StartLoops { rx: profile.rx }, notice: Notice::Silent },
            ),
            _ => ignored(state),
        },
        SessionState::Streaming { device, .. } => match event {
            SessionEvent::NotifyEnded => (
                SessionState::Disconnecting { device },
                Step { action: SessionAction::Disconnect { device }, notice: Notice::Silent },
            ),
            _ => ignored(state),
        },
        SessionState::Disconnecting { .. } => match event {
            SessionEvent::Disconnected => (
                SessionState::Terminated(Outcome::Clean),
                Step { action: SessionAction::Exit { status: 0 }, notice: Notice::Disconnected },
            ),
            SessionEvent::DisconnectFailed => (
                SessionState::Terminated(Outcome::Clean),
                Step {
                    action: SessionAction::Exit { status: 0 },
                    notice: Notice::Failed(SessionError::DisconnectFailed),
                },
            ),
            _ => ignored(state),
        },
        SessionState::Terminated(_) => ignored(state),
    }
}

/// A session as plain values.
pub struct SessionView {
    /// The advertised name the session looks for.
    pub target: Seq<char>,
    /// Where the session stands.
    pub state: SessionState,
}

/// A session with one peripheral, from the first look at the adapter to
/// the process status.
pub struct Session {
    target: String,
    state: SessionState,
}

impl View for Session {
    type V = SessionView;

    closed spec fn view(&self) -> SessionView {
        SessionView { target: self.target@, state: self.state }
    }
}

impl Session {
    #[verifier::type_invariant]
    spec fn inv(self) -> bool {
        self.state.wf()
    }

    /// A session that will look for the peripheral called `target`.
    pub fn new(target: String) -> (session: Session)
        ensures
            session@ == (SessionView { target: target@, state: SessionState::Idle }),
    {
        Session { target, state: SessionState::Idle }
    }

    /// Where the session stands.
    pub fn state(&self) -> (state: SessionState)
        ensures
            state == self@.state,
            state.wf(),
    {
        proof {
            use_type_invariant(self);
        }
        self.state
    }

    /// The advertised name the session looks for.
    pub fn target(&self) -> (target: &str)
        ensures
            target@ == self@.target,
    {
        self.target.as_str()
    }

    /// Takes note of `event` and says what to do next.
    pub fn handle(&mut self, event: SessionEvent) -> (step: Step)
        ensures
            (final(self)@.state, step) == transition(old(self)@.state, old(self)@.target, event),
            final(self)@.target == old(self)@.target,
            final(self)@.state.wf(),
    {
        proof {
            use_type_invariant(&*self);
        }
        let state = self.state;
        let (next, step) = match state {
            SessionState::Idle => match event {
                SessionEvent::AdapterReady => (
                    SessionState::Scanning,
                    Step { action: SessionAction::StartScan, notice: Notice::ScanStarted },
                ),
                SessionEvent::AdapterFailed => fail(SessionError::AdapterUnavailable),
                _ => ignore(state),
            },
            SessionState::Scanning => match event {
                SessionEvent::ScanFailed => fail(SessionError::ScanFailed),
                SessionEvent::Advertisement(report) => if report.matches(self.target.as_str()) {
                    (
                        SessionState::Connecting { device: report.device },
                        Step {
                            action: SessionAction::Connect { device: report.device },
                            notice: Notice::Silent,
                        },
                    )
                } else {
                    (
                        SessionState::Scanning,
                        Step { action: SessionAction::NextAdvertisement, notice: Notice::Silent },
                    )
                },
                SessionEvent::ScanEnded => (
                    SessionState::Terminated(Outcome::NotFound),
                    Step {
                        action: SessionAction::Exit { status: SessionError::NoMatchingDevice.code() },
                        notice: Notice::NoDeviceFound,
                    },
                ),
                _ => ignore(state),
            },
            SessionState::Connecting { device } => match event {
                SessionEvent::Connected => (
                    SessionState::Discovering { device, stage: DiscoveryStage::Services },
                    Step {
                        action: SessionAction::DiscoverServices { device },
                        notice: Notice::Connected,
                    },
                ),
                SessionEvent::ConnectFailed => fail(SessionError::ConnectFailed),
                _ => ignore(state),
            },
            SessionState::Discovering { device, stage } => match (stage, event) {
                (_, SessionEvent::DiscoveryFailed) => fail(SessionError::DiscoveryFailed),
                (DiscoveryStage::Services, SessionEvent::Services(uuids)) => match select_service(
                    &uuids,
                ) {
                    Ok(service) => (
                        SessionState::Discovering {
                            device,
                            stage: DiscoveryStage::Characteristics { service },
                        },
                        Step {
                            action: SessionAction::DiscoverCharacteristics { service },
                            notice: Notice::Silent,
                        },
                    ),
                    Err(e) => fail(e),
                },
                (
                    DiscoveryStage::Characteristics { service },
                    SessionEvent::Characteristics(uuids),
                ) => match select_characteristics(&uuids) {
                    Ok(pair) => {
                        proof {
                            lemma_rx_and_tx_differ(uuids@, pair);
                        }
                        (
                            SessionState::Discovering {
                                device,
                                stage: DiscoveryStage::Subscription {
                                    profile: ResolvedProfile { service, rx: pair.rx, tx: pair.tx },
                                },
                            },
                            Step {
                                action: SessionAction::Subscribe { tx: pair.tx },
                                notice: Notice::Silent,
                            },
                        )
                    },
                    Err(e) => fail(e),
                },
                (DiscoveryStage::Subscription { profile }, SessionEvent::Subscribed) => (
                    SessionState::Streaming { device, profile },
                    Step {
                        action: SessionAction::StartLoops { rx: profile.rx },
                        notice: Notice::Silent,
                    },
                ),
                _ => ignore(state),
            },
            SessionState::Streaming { device, .. } => match event {
                SessionEvent::NotifyEnded => (
                    SessionState::Disconnecting { device },
                    Step { action: SessionAction::Disconnect { device }, notice: Notice::Silent },
                ),
                _ => ignore(state),
            },
            SessionState::Disconnecting { .. } => match event {
                SessionEvent::Disconnected => (
                    SessionState::Terminated(Outcome::Clean),
                    Step { action: SessionAction::Exit { status: 0 }, notice: Notice::Disconnected },
                ),
                SessionEvent::DisconnectFailed => (
                    SessionState::Terminated(Outcome::Clean),
                    Step {
                        action: SessionAction::Exit { status: 0 },
                        notice: Notice::Failed(SessionError::DisconnectFailed),
                    },
                ),
                _ => ignore(state),
            },
            SessionState::Terminated(_) => ignore(state),
        };
        self.state = next;
        step
    }
}

fn fail(e: SessionError) -> (r: (SessionState, Step))
    ensures
        r == failed(e),
{
    (
        SessionState::Terminated(Outcome::Error(e)),
        Step { action: SessionAction::Exit { status: e.code() }, notice: Notice::Failed(e) },
    )
}

fn ignore(state: SessionState) -> (r: (SessionState, Step))
    ensures
        r == ignored(state),
{
    (state, Step { action: SessionAction::Ignore, notice: Notice::Silent })
}

/// The state a session is in after `events`, reported in order from `state`.
pub open spec fn run(state: SessionState, target: Seq<char>, events: Seq<SessionEvent>) -> SessionState
    decreases events.len(),
{
    if events.len() == 0 {
        state
    } else {
        transition(run(state, target, events.drop_last()), target, events.last()).0
    }
}

/// The events by which a scan delivers `reports`.
pub open spec fn advertisements(reports: Seq<AdvertisementReport>) -> Seq<SessionEvent> {
    Seq::new(reports.len(), |i: int| SessionEvent::Advertisement(reports[i]))
}

/// A session that has ended stays as it is, whatever is reported to it.
pub proof fn lemma_terminated_absorbs(outcome: Outcome, target: Seq<char>, event: SessionEvent)
    ensures
        transition(SessionState::Terminated(outcome), target, event) == ignored(
            SessionState::Terminated(outcome),
        ),
{
}

/// A session never goes back: each event leaves it where it is or moves it on.
pub proof fn lemma_rank_never_falls(state: SessionState, target: Seq<char>, event: SessionEvent)
    ensures
        transition(state, target, event).0.rank() >= state.rank(),
        transition(state, target, event).1.action is Ignore ==> transition(state, target, event).0
            == state,
{
}

/// A connection is attempted only on a report that carries the wanted
/// name, and then to the device of that report.
pub proof fn lemma_connect_only_on_match(
    state: SessionState,
    target: Seq<char>,
    event: SessionEvent,
    device: u64,
)
    requires
        transition(state, target, event).1.action == (SessionAction::Connect { device }),
    ensures
        state == SessionState::Scanning,
        event matches SessionEvent::Advertisement(report) && report.is_named(target)
            && report.device == device,
        transition(state, target, event).0 == (SessionState::Connecting { device }),
{
}

/// A session that ends tells the caller to leave, with the status of its
/// outcome: zero after a clean end and for nothing else. It ends on an
/// error only where a step of the setup failed.
pub proof fn lemma_exit_status(state: SessionState, target: Seq<char>, event: SessionEvent)
    requires
        !(state is Terminated),
        transition(state, target, event).0 is Terminated,
    ensures
        ({
            let (next, step) = transition(state, target, event);
            let outcome = next->Terminated_0;
            &&& step.action == (SessionAction::Exit { status: outcome.status_of() as i32 })
            &&& i32::MIN <= outcome.status_of() <= i32::MAX
            &&& outcome.status_of() == 0 <==> outcome == Outcome::Clean
            &&& outcome matches Outcome::Error(e) ==> e.is_setup_error()
            &&& outcome == Outcome::Clean ==> state is Disconnecting
            &&& outcome == Outcome::NotFound ==> state == SessionState::Scanning && event
                == SessionEvent::ScanEnded
        }),
{
}

/// The loops start only on a whole profile: the service and both
/// characteristics, chosen in that order, with the subscription in place.
pub proof fn lemma_streaming_needs_whole_profile(
    state: SessionState,
    target: Seq<char>,
    event: SessionEvent,
)
    requires
        !(state is Streaming),
        transition(state, target, event).0 is Streaming,
    ensures
        ({
            let (next, step) = transition(state, target, event);
            &&& event == SessionEvent::Subscribed
            &&& state matches SessionState::Discovering {
                device,
                stage: DiscoveryStage::Subscription { profile },
            }
            &&& next == (SessionState::Streaming { device, profile })
            &&& step.action == (SessionAction::StartLoops { rx: profile.rx })
        }),
{
}

/// The profile a session subscribes on is the one that the resolver picks
/// from the characteristics reported to it.
pub proof fn lemma_subscription_is_resolved(
    state: SessionState,
    target: Seq<char>,
    event: SessionEvent,
)
    requires
        !(state matches SessionState::Discovering { stage: DiscoveryStage::Subscription { .. }, .. }),
        transition(state, target, event).0 matches SessionState::Discovering {
            stage: DiscoveryStage::Subscription { .. },
            ..
        },
    ensures
        ({
            let (next, step) = transition(state, target, event);
            &&& state matches SessionState::Discovering {
                device,
                stage: DiscoveryStage::Characteristics { service },
            }
            &&& event matches SessionEvent::Characteristics(uuids)
            &&& pair_choice(uuids@) matches Ok(pair)
            &&& is_pair_of(uuids@, pair)
            &&& next == (SessionState::Discovering {
                device,
                stage: DiscoveryStage::Subscription {
                    profile: ResolvedProfile { service, rx: pair.rx, tx: pair.tx },
                },
            })
            &&& step.action == (SessionAction::Subscribe { tx: pair.tx })
            &&& next.wf()
        }),
{
    if let SessionEvent::Characteristics(uuids) = event {
        assert(uuids.len() == uuids@.len());
        lemma_pair_choice(uuids@);
    }
}

/// Every transition keeps the write target and the notify source apart.
pub proof fn lemma_wf_kept(state: SessionState, target: Seq<char>, event: SessionEvent)
    requires
        state.wf(),
    ensures
        transition(state, target, event).0.wf(),
{
    if let SessionEvent::Characteristics(uuids) = event {
        assert(uuids.len() == uuids@.len());
        lemma_pair_choice(uuids@);
    }
}

/// The stream's end is answered by a disconnect, and the session ends
/// clean whether or not the disconnect succeeds.
pub proof fn lemma_stream_end_disconnects(device: u64, profile: ResolvedProfile, target: Seq<char>)
    ensures
        transition(SessionState::Streaming { device, profile }, target, SessionEvent::NotifyEnded)
            == (
            SessionState::Disconnecting { device },
            Step { action: SessionAction::Disconnect { device }, notice: Notice::Silent },
        ),
        transition(SessionState::Disconnecting { device }, target, SessionEvent::Disconnected).0
            == SessionState::Terminated(Outcome::Clean),
        transition(SessionState::Disconnecting { device }, target, SessionEvent::DisconnectFailed).0
            == SessionState::Terminated(Outcome::Clean),
{
}

/// A scanning session follows the matcher: fed the reports of a scan, it
/// is connecting to the device of the first match, whatever was reported
/// after it, or is still scanning where nothing matched, and then ends as
/// not found when the scan ends.
pub proof fn lemma_scan_follows_matcher(target: Seq<char>, reports: Seq<AdvertisementReport>)
    ensures
        match first_match(reports, target) {
            Some(i) => run(SessionState::Scanning, target, advertisements(reports)) == (
                SessionState::Connecting { device: reports[i].device }
            ),
            None => {
                &&& run(SessionState::Scanning, target, advertisements(reports))
                    == SessionState::Scanning
                &&& run(
                    SessionState::Scanning,
                    target,
                    advertisements(reports).push(SessionEvent::ScanEnded),
                ) == SessionState::Terminated(Outcome::NotFound)
            },
        },
    decreases reports.len(),
{
    let events = advertisements(reports);
    lemma_first_index(reports, named(target));
    if reports.len() == 0 {
        assert(events.push(SessionEvent::ScanEnded).drop_last() =~= events);
    } else {
        let front = reports.drop_last();
        lemma_scan_follows_matcher(target, front);
        lemma_first_index(front, named(target));
        assert(events.drop_last() =~= advertisements(front));
        assert(events.last() == SessionEvent::Advertisement(reports.last()));
        assert(events.push(SessionEvent::ScanEnded).drop_last() =~= events);
        match first_match(front, target) {
            Some(i) => {
                assert(front[i] == reports[i]);
                assert forall|j: int| 0 <= j < i implies !named(target)(#[trigger] reports[j]) by {
                    assert(front[j] == reports[j]);
                }
                assert(is_first(reports, named(target), i));
            },
            None => {
                assert forall|j: int| 0 <= j < reports.len() - 1 implies !named(target)(
                    #[trigger] reports[j],
                ) by {
                    assert(front[j] == reports[j]);
                }
                if reports.last().is_named(target) {
                    assert(is_first(reports, named(target), reports.len() - 1));
                } else {
                    assert(none_of(reports, named(target)));
                }
            },
        }
    }
}

} // verus!
