//! The discovery and connection manager: from a radio advertisement to a
//! connected peripheral whose characteristics are classified.
//!
//! The manager makes the decisions of a session and does none of its radio
//! work. It is driven in a loop: the caller performs the action that the
//! manager asked for last, and reports what came of it as the next event.

use crate::characteristic::{classify, CharacteristicDescriptor, ClassifiedCharacteristics};
use crate::error::ErrorKind;
use uuid::Uuid;
use vstd::prelude::*;

verus! {

/// Names one physical peripheral for the length of a scan session. Two
/// identities are the same peripheral exactly if their numbers are equal.
#[derive(Copy, Clone, Debug, PartialEq, Eq, Structural)]
pub struct DeviceIdentity(pub u128);

/// What the radio stack reports while a scan runs. Each event is about one
/// peripheral.
#[derive(Copy, Clone, Debug, PartialEq, Eq, Structural)]
pub enum DiscoveryEvent {
    DeviceDiscovered(DeviceIdentity),
    DeviceUpdated(DeviceIdentity),
    DeviceConnected(DeviceIdentity),
    DeviceDisconnected(DeviceIdentity),
    ManufacturerDataAdvertisement { id: DeviceIdentity },
    ServiceDataAdvertisement { id: DeviceIdentity },
    ServicesAdvertisement { id: DeviceIdentity },
}

impl DiscoveryEvent {
    /// The peripheral that the event is about.
    pub open spec fn device(self) -> DeviceIdentity {
        match self {
            DiscoveryEvent::DeviceDiscovered(id) => id,
            DiscoveryEvent::DeviceUpdated(id) => id,
            DiscoveryEvent::DeviceConnected(id) => id,
            DiscoveryEvent::DeviceDisconnected(id) => id,
            DiscoveryEvent::ManufacturerDataAdvertisement { id } => id,
            DiscoveryEvent::ServiceDataAdvertisement { id } => id,
            DiscoveryEvent::ServicesAdvertisement { id } => id,
        }
    }

    /// Whether the event advertises services or service data: the events
    /// after which a peripheral's local name is worth asking for.
    pub open spec fn advertises_services(self) -> bool {
        self is ServiceDataAdvertisement || self is ServicesAdvertisement
    }
}

/// Returns the identity of the peripheral that the event is about.
pub fn extract_device_id(e: &DiscoveryEvent) -> (id: &DeviceIdentity)
    ensures
        *id == e.device(),
{
    match e {
        DiscoveryEvent::DeviceDiscovered(id) => id,
        DiscoveryEvent::DeviceUpdated(id) => id,
        DiscoveryEvent::DeviceConnected(id) => id,
        DiscoveryEvent::DeviceDisconnected(id) => id,
        DiscoveryEvent::ManufacturerDataAdvertisement { id } => id,
        DiscoveryEvent::ServiceDataAdvertisement { id } => id,
        DiscoveryEvent::ServicesAdvertisement { id } => id,
    }
}

/// `str::starts_with` of the standard library, with a string as the pattern:
/// true exactly if the characters of `prefix` are the first characters of
/// `text`.
#[verifier::external_body]
fn starts_with(text: &str, prefix: &str) -> (b: bool)
    ensures
        b == prefix@.is_prefix_of(text@),
{
    text.starts_with(prefix)
}

/// Whether a peripheral has a local name and that name begins with `prefix`.
pub open spec fn name_has_prefix(name: Option<String>, prefix: Seq<char>) -> bool {
    name matches Some(n) && prefix.is_prefix_of(n@)
}

/// How the manager recognises the peripheral it looks for.
#[derive(Debug, PartialEq, Eq)]
pub enum MatchStrategy {
    /// The peripheral with this identity, as soon as it is discovered.
    Identity(DeviceIdentity),
    /// The first peripheral that advertises services under a local name
    /// beginning with this text.
    NamePrefix(String),
}

impl MatchStrategy {
    /// Whether the event alone shows the peripheral looked for.
    pub open spec fn spec_selects(&self, event: DiscoveryEvent) -> bool {
        self matches MatchStrategy::Identity(target) && event == DiscoveryEvent::DeviceDiscovered(
            *target,
        )
    }

    /// Whether the event makes its peripheral a candidate whose local name
    /// decides.
    pub open spec fn spec_asks_name(&self, event: DiscoveryEvent) -> bool {
        self is NamePrefix && event.advertises_services()
    }

    /// Whether a candidate with this local name is the peripheral looked
    /// for.
    pub open spec fn spec_accepts_name(&self, name: &Option<String>) -> bool {
        self matches MatchStrategy::NamePrefix(prefix) && name_has_prefix(*name, prefix@)
    }

    /// Tells whether the event alone shows the peripheral looked for: with
    /// an identity, the discovery of that very peripheral; with a name
    /// prefix, never.
    #[verifier::when_used_as_spec(spec_selects)]
    pub fn selects(&self, event: DiscoveryEvent) -> (b: bool)
        ensures
            b == self.spec_selects(event),
    {
        match self {
            MatchStrategy::Identity(target) => match event {
                DiscoveryEvent::DeviceDiscovered(id) => id == *target,
                _ => false,
            },
            MatchStrategy::NamePrefix(_) => false,
        }
    }

    /// Tells whether the event makes its peripheral a candidate whose local
    /// name decides: with a name prefix, an advertisement of services or of
    /// service data; with an identity, never.
    #[verifier::when_used_as_spec(spec_asks_name)]
    pub fn asks_name(&self, event: DiscoveryEvent) -> (b: bool)
        ensures
            b == self.spec_asks_name(event),
    {
        match self {
            MatchStrategy::Identity(_) => false,
            MatchStrategy::NamePrefix(_) => match event {
                DiscoveryEvent::ServiceDataAdvertisement { .. } => true,
                DiscoveryEvent::ServicesAdvertisement { .. } => true,
                _ => false,
            },
        }
    }

    /// Tells whether a candidate with this local name is the peripheral
    /// looked for: it has a name, and the name begins with the prefix.
    #[verifier::when_used_as_spec(spec_accepts_name)]
    pub fn accepts_name(&self, name: &Option<String>) -> (b: bool)
        ensures
            b == self.spec_accepts_name(name),
    {
        match self {
            MatchStrategy::Identity(_) => false,
            MatchStrategy::NamePrefix(prefix) => match name {
                Some(n) => starts_with(n.as_str(), prefix.as_str()),
                None => false,
            },
        }
    }
}

/// Where a session stands.
#[derive(Copy, Clone, Debug, PartialEq, Eq, Structural)]
pub enum ManagerState {
    /// Nothing has been asked of the radio stack yet.
    Idle,
    /// A scan runs, or is being started.
    Scanning(ScanStage),
    /// The peripheral is found and the scan is being stopped.
    Matched(DeviceIdentity),
    /// The link to the peripheral is being set up. `requested` tells whether
    /// a connect was asked for, or only whether the link exists already.
    Connecting { device: DeviceIdentity, requested: bool },
    /// The services and characteristics of the peripheral are being
    /// enumerated.
    ServiceDiscovery(DeviceIdentity),
    /// The peripheral is connected and its characteristics are classified.
    Ready(DeviceIdentity),
    /// The session has failed. Nothing leads out of this state.
    Disconnected,
}

/// What a scanning manager waits for.
#[derive(Copy, Clone, Debug, PartialEq, Eq, Structural)]
pub enum ScanStage {
    /// The scan to start.
    Starting,
    /// The next discovery event.
    Listening,
    /// The local name of a candidate.
    Resolving(DeviceIdentity),
}

impl ManagerState {
    /// The error with which a session fails in this state.
    pub open spec fn spec_failure(self) -> ErrorKind {
        match self {
            ManagerState::Idle => ErrorKind::AdapterError,
            ManagerState::Scanning(_) => ErrorKind::ScanError,
            ManagerState::Matched(_) => ErrorKind::ScanError,
            ManagerState::Connecting { .. } => ErrorKind::ConnectionError,
            ManagerState::ServiceDiscovery(_) => ErrorKind::DiscoveryError,
            ManagerState::Ready(_) => ErrorKind::ConnectionError,
            ManagerState::Disconnected => ErrorKind::ConnectionError,
        }
    }

    /// Returns the error with which a session fails in this state.
    #[verifier::when_used_as_spec(spec_failure)]
    pub fn failure(self) -> (e: ErrorKind)
        ensures
            e == self.spec_failure(),
    {
        match self {
            ManagerState::Idle => ErrorKind::AdapterError,
            ManagerState::Scanning(_) => ErrorKind::ScanError,
            ManagerState::Matched(_) => ErrorKind::ScanError,
            ManagerState::Connecting { .. } => ErrorKind::ConnectionError,
            ManagerState::ServiceDiscovery(_) => ErrorKind::DiscoveryError,
            ManagerState::Ready(_) => ErrorKind::ConnectionError,
            ManagerState::Disconnected => ErrorKind::ConnectionError,
        }
    }

    /// The peripheral that the session has settled on, once it has.
    pub open spec fn device(self) -> Option<DeviceIdentity> {
        match self {
            ManagerState::Matched(d) => Some(d),
            ManagerState::Connecting { device, .. } => Some(device),
            ManagerState::ServiceDiscovery(d) => Some(d),
            ManagerState::Ready(d) => Some(d),
            _ => None,
        }
    }
}

/// What the caller reports to the manager.
#[derive(Debug, PartialEq, Eq)]
pub enum ManagerEvent {
    /// An adapter is at hand: the session may begin.
    Begin,
    /// The scan has started.
    ScanStarted,
    /// The radio stack reported a discovery event.
    Discovery(DiscoveryEvent),
    /// The local name of the candidate, if it has one and it could be had.
    NameResolved(Option<String>),
    /// The scan has stopped.
    ScanStopped,
    /// Whether the peripheral reports a link.
    ConnectionState(bool),
    /// The connect succeeded.
    Connected,
    /// The enumeration succeeded and found these characteristics.
    ServicesDiscovered(Vec<CharacteristicDescriptor>),
    /// What the manager asked for last has failed, or the link is lost.
    Failed,
}

/// What the manager asks of the caller.
#[derive(Copy, Clone, Debug, PartialEq, Eq, Structural)]
pub enum ManagerAction {
    /// Start an unfiltered scan; report `ScanStarted`.
    StartScan,
    /// Wait for the next discovery event; report it as `Discovery`.
    AwaitEvent,
    /// Ask for the local name of the peripheral; report `NameResolved`.
    ResolveName(DeviceIdentity),
    /// Stop the scan; report `ScanStopped`.
    StopScan,
    /// Ask the peripheral whether it is connected; report
    /// `ConnectionState`.
    QueryConnected(DeviceIdentity),
    /// Connect to the peripheral; report `Connected`.
    Connect(DeviceIdentity),
    /// Enumerate services and characteristics; report `ServicesDiscovered`.
    DiscoverServices(DeviceIdentity),
    /// The peripheral is ready for use, with the manager's classification.
    Yield(DeviceIdentity),
    /// The session has failed with this error.
    Fail(ErrorKind),
    /// The session failed earlier: there is nothing left to do.
    Halt,
}

impl ManagerAction {
    /// The peripheral that the action is to be performed on, if it names
    /// one.
    pub open spec fn device(self) -> Option<DeviceIdentity> {
        match self {
            ManagerAction::ResolveName(d) => Some(d),
            ManagerAction::QueryConnected(d) => Some(d),
            ManagerAction::Connect(d) => Some(d),
            ManagerAction::DiscoverServices(d) => Some(d),
            ManagerAction::Yield(d) => Some(d),
            _ => None,
        }
    }
}

/// The manager's rule: the state and the action that follow from a state and
/// an event. An event that the state does not wait for, a reported failure
/// among them, ends the session with the error of that state.
pub open spec fn transition(strategy: &MatchStrategy, state: ManagerState, event: &ManagerEvent) -> (
    ManagerState,
    ManagerAction,
) {
    match (state, event) {
        (ManagerState::Idle, ManagerEvent::Begin) => (
            ManagerState::Scanning(ScanStage::Starting),
            ManagerAction::StartScan,
        ),
        (ManagerState::Scanning(ScanStage::Starting), ManagerEvent::ScanStarted) => (
            ManagerState::Scanning(ScanStage::Listening),
            ManagerAction::AwaitEvent,
        ),
        (ManagerState::Scanning(ScanStage::Listening), ManagerEvent::Discovery(e)) => {
            if strategy.spec_selects(*e) {
                (ManagerState::Matched(e.device()), ManagerAction::StopScan)
            } else if strategy.spec_asks_name(*e) {
                (
                    ManagerState::Scanning(ScanStage::Resolving(e.device())),
                    ManagerAction::ResolveName(e.device()),
                )
            } else {
                (ManagerState::Scanning(ScanStage::Listening), ManagerAction::AwaitEvent)
            }
        },
        (ManagerState::Scanning(ScanStage::Resolving(d)), ManagerEvent::NameResolved(name)) => {
            if strategy.spec_accepts_name(name) {
                (ManagerState::Matched(d), ManagerAction::StopScan)
            } else {
                (ManagerState::Scanning(ScanStage::Listening), ManagerAction::AwaitEvent)
            }
        },
        (ManagerState::Matched(d), ManagerEvent::ScanStopped) => (
            ManagerState::Connecting { device: d, requested: false },
            ManagerAction::QueryConnected(d),
        ),
        (
            ManagerState::Connecting { device, requested: false },
            ManagerEvent::ConnectionState(connected),
        ) => {
            if *connected {
                (ManagerState::ServiceDiscovery(device), ManagerAction::DiscoverServices(device))
            } else {
                (
                    ManagerState::Connecting { device, requested: true },
                    ManagerAction::Connect(device),
                )
            }
        },
        (ManagerState::Connecting { device, requested: true }, ManagerEvent::Connected) => (
            ManagerState::ServiceDiscovery(device),
            ManagerAction::DiscoverServices(device),
        ),
        (ManagerState::ServiceDiscovery(d), ManagerEvent::ServicesDiscovered(_)) => (
            ManagerState::Ready(d),
            ManagerAction::Yield(d),
        ),
        (ManagerState::Ready(d), ManagerEvent::ConnectionState(true)) => (
            ManagerState::Ready(d),
            ManagerAction::Yield(d),
        ),
        (ManagerState::Disconnected, _) => (ManagerState::Disconnected, ManagerAction::Halt),
        (s, _) => (ManagerState::Disconnected, ManagerAction::Fail(s.spec_failure())),
    }
}

/// How far a session has come: its state, and the reports that led there.
struct Progress {
    state: ManagerState,
    reports: Ghost<Seq<ManagerEvent>>,
}

/// A session of discovery and connection. It holds the way to recognise the
/// peripheral, the state of the session, and, while the session is ready,
/// the classified characteristics of the peripheral.
pub struct Manager {
    strategy: MatchStrategy,
    progress: Progress,
    roles: ClassifiedCharacteristics,
}

impl Manager {
    /// The state is the one that the reports taken so far lead to from the
    /// idle state. Only a ready session holds characteristics, and it holds
    /// each under the capabilities that the characteristic has.
    #[verifier::type_invariant]
    spec fn is_a_session(self) -> bool {
        &&& self.progress.state == state_after(&self.strategy, self.progress.reports@)
        &&& self.progress.state is Ready || self.roles.is_empty()
        &&& self.roles.well_sorted()
    }

    /// The reports that the session has taken since it was made, in order.
    pub closed spec fn history(&self) -> Seq<ManagerEvent> {
        self.progress.reports@
    }

    /// How the session recognises its peripheral.
    pub closed spec fn spec_strategy(&self) -> &MatchStrategy {
        &self.strategy
    }

    /// Where the session stands.
    pub closed spec fn spec_state(&self) -> ManagerState {
        self.progress.state
    }

    /// The classified characteristics of the peripheral.
    pub closed spec fn spec_roles(&self) -> &ClassifiedCharacteristics {
        &self.roles
    }

    /// Returns an idle session that looks for its peripheral by `strategy`.
    pub fn new(strategy: MatchStrategy) -> (m: Manager)
        ensures
            *m.strategy() == strategy,
            m.state() == ManagerState::Idle,
            m.history() == Seq::<ManagerEvent>::empty(),
            m.roles().is_empty(),
    {
        Manager {
            strategy,
            progress: Progress { state: ManagerState::Idle, reports: Ghost(Seq::empty()) },
            roles: ClassifiedCharacteristics::empty(),
        }
    }

    /// Returns the state of the session: the one that the reports taken so
    /// far lead to from the idle state.
    #[verifier::when_used_as_spec(spec_state)]
    pub fn state(&self) -> (s: ManagerState)
        ensures
            s == self.spec_state(),
            s == state_after(self.spec_strategy(), self.history()),
    {
        proof {
            use_type_invariant(self);
        }
        self.progress.state
    }

    /// Returns the way the session recognises its peripheral.
    #[verifier::when_used_as_spec(spec_strategy)]
    pub fn strategy(&self) -> (s: &MatchStrategy)
        ensures
            s == self.spec_strategy(),
    {
        &self.strategy
    }

    /// Returns the classified characteristics of the peripheral: empty
    /// lists unless the session is ready.
    #[verifier::when_used_as_spec(spec_roles)]
    pub fn roles(&self) -> (r: &ClassifiedCharacteristics)
        ensures
            r == self.spec_roles(),
            self.spec_state() is Ready || r.is_empty(),
            r.well_sorted(),
    {
        proof {
            use_type_invariant(self);
        }
        &self.roles
    }

    /// Takes the report of what came of the last action, moves the session
    /// on by [`transition`] and returns the action to perform next.
    ///
    /// When the enumeration of characteristics is reported, the session
    /// becomes ready and holds their classification. A session that is not
    /// ready holds no characteristics, and a session never holds a
    /// characteristic under a capability that the characteristic lacks.
    pub fn step(&mut self, event: &ManagerEvent) -> (action: ManagerAction)
        ensures
            final(self).strategy() == old(self).strategy(),
            final(self).history() == old(self).history().push(*event),
            (final(self).state(), action) == transition(
                old(self).strategy(),
                old(self).state(),
                event,
            ),
            final(self).state() == state_after(final(self).strategy(), final(self).history()),
            action == action_after(final(self).strategy(), final(self).history()),
            final(self).state() is Ready || final(self).roles().is_empty(),
            final(self).roles().well_sorted(),
            old(self).state() is ServiceDiscovery ==> (event matches ManagerEvent::ServicesDiscovered(chars)
                ==> final(self).roles().classifies(chars@)),
            old(self).state() is Ready && final(self).state() is Ready
                ==> final(self).roles() == old(self).roles(),
    {
        proof {
            use_type_invariant(&*self);
        }
        let state: ManagerState = self.progress.state;
        let failed: (ManagerState, ManagerAction) = (
            ManagerState::Disconnected,
            ManagerAction::Fail(state.failure()),
        );
        let (next, action): (ManagerState, ManagerAction) = match state {
            ManagerState::Idle => match event {
                ManagerEvent::Begin => (
                    ManagerState::Scanning(ScanStage::Starting),
                    ManagerAction::StartScan,
                ),
                _ => failed,
            },
            ManagerState::Scanning(ScanStage::Starting) => match event {
                ManagerEvent::ScanStarted => (
                    ManagerState::Scanning(ScanStage::Listening),
                    ManagerAction::AwaitEvent,
                ),
                _ => failed,
            },
            ManagerState::Scanning(ScanStage::Listening) => match event {
                ManagerEvent::Discovery(e) => {
                    let device: DeviceIdentity = *extract_device_id(e);
                    if self.strategy.selects(*e) {
                        (ManagerState::Matched(device), ManagerAction::StopScan)
                    } else if self.strategy.asks_name(*e) {
                        (
                            ManagerState::Scanning(ScanStage::Resolving(device)),
                            ManagerAction::ResolveName(device),
                        )
                    } else {
                        (ManagerState::Scanning(ScanStage::Listening), ManagerAction::AwaitEvent)
                    }
                },
                _ => failed,
            },
            ManagerState::Scanning(ScanStage::Resolving(device)) => match event {
                ManagerEvent::NameResolved(name) => {
                    if self.strategy.accepts_name(name) {
                        (ManagerState::Matched(device), ManagerAction::StopScan)
                    } else {
                        (ManagerState::Scanning(ScanStage::Listening), ManagerAction::AwaitEvent)
                    }
                },
                _ => failed,
            },
            ManagerState::Matched(device) => match event {
                ManagerEvent::ScanStopped => (
                    ManagerState::Connecting { device, requested: false },
                    ManagerAction::QueryConnected(device),
                ),
                _ => failed,
            },
            ManagerState::Connecting { device, requested } => match event {
                ManagerEvent::ConnectionState(connected) => {
                    if requested {
                        failed
                    } else if *connected {
                        (
                            ManagerState::ServiceDiscovery(device),
                            ManagerAction::DiscoverServices(device),
                        )
                    } else {
                        (
                            ManagerState::Connecting { device, requested: true },
                            ManagerAction::Connect(device),
                        )
                    }
                },
                ManagerEvent::Connected => {
                    if requested {
                        (
                            ManagerState::ServiceDiscovery(device),
                            ManagerAction::DiscoverServices(device),
                        )
                    } else {
                        failed
                    }
                },
                _ => failed,
            },
            ManagerState::ServiceDiscovery(device) => match event {
                ManagerEvent::ServicesDiscovered(_) => (
                    ManagerState::Ready(device),
                    ManagerAction::Yield(device),
                ),
                _ => failed,
            },
            ManagerState::Ready(device) => match event {
                ManagerEvent::ConnectionState(connected) => {
                    if *connected {
                        (ManagerState::Ready(device), ManagerAction::Yield(device))
                    } else {
                        failed
                    }
                },
                _ => failed,
            },
            ManagerState::Disconnected => (ManagerState::Disconnected, ManagerAction::Halt),
        };
        let ghost reports = self.progress.reports@.push(*event);
        proof {
            assert(reports.drop_last() =~= self.progress.reports@);
        }
        match next {
            ManagerState::Ready(_) => {
                self.progress = Progress { state: next, reports: Ghost(reports) };
                match event {
                    ManagerEvent::ServicesDiscovered(chars) => {
                        self.roles = classify(chars);
                    },
                    _ => {},
                }
            },
            _ => {
                self.roles = ClassifiedCharacteristics::empty();
                self.progress = Progress { state: next, reports: Ghost(reports) };
            },
        }
        action
    }
}

/// Returns an idle session that waits for the advertisement by which the
/// peripheral `target` is discovered.
pub fn wait_for_advertisement(target: DeviceIdentity) -> (session: Manager)
    ensures
        *session.strategy() == MatchStrategy::Identity(target),
        session.state() == ManagerState::Idle,
        session.history() == Seq::<ManagerEvent>::empty(),
        session.roles().is_empty(),
{
    Manager::new(MatchStrategy::Identity(target))
}

/// A session that has failed stays failed: whatever is reported to it, it
/// asks for nothing more.
pub proof fn lemma_failure_is_final(strategy: &MatchStrategy, event: &ManagerEvent)
    ensures
        transition(strategy, ManagerState::Disconnected, event) == (
            ManagerState::Disconnected,
            ManagerAction::Halt,
        ),
{
}

/// A failure reported to a session that has not failed yet ends it with the
/// error of the state it was in, and asks for no further work.
pub proof fn lemma_failure_ends_session(strategy: &MatchStrategy, state: ManagerState)
    requires
        state != ManagerState::Disconnected,
    ensures
        transition(strategy, state, &ManagerEvent::Failed) == (
            ManagerState::Disconnected,
            ManagerAction::Fail(state.spec_failure()),
        ),
{
}

/// A session settles on a peripheral only by a match: either the peripheral
/// has the identity looked for and was just discovered, or it was the
/// candidate and its local name begins with the prefix looked for.
pub proof fn lemma_match_is_by_strategy(
    strategy: &MatchStrategy,
    state: ManagerState,
    event: &ManagerEvent,
    device: DeviceIdentity,
)
    requires
        state.device() is None,
        transition(strategy, state, event).0.device() == Some(device),
    ensures
        transition(strategy, state, event) == (
            ManagerState::Matched(device),
            ManagerAction::StopScan,
        ),
        match strategy {
            MatchStrategy::Identity(target) => {
                &&& device == *target
                &&& state == ManagerState::Scanning(ScanStage::Listening)
                &&& event == ManagerEvent::Discovery(DiscoveryEvent::DeviceDiscovered(device))
            },
            MatchStrategy::NamePrefix(prefix) => {
                &&& state == ManagerState::Scanning(ScanStage::Resolving(device))
                &&& event matches ManagerEvent::NameResolved(name)
                &&& name_has_prefix(*name, prefix@)
            },
        },
{
}

/// Once a session has settled on a peripheral it keeps to it: the next state
/// is about the same peripheral or is the failed state, and an action that
/// names a peripheral names that one. So no connection is ever asked for to
/// a peripheral that did not match.
pub proof fn lemma_session_keeps_device(
    strategy: &MatchStrategy,
    state: ManagerState,
    event: &ManagerEvent,
    device: DeviceIdentity,
)
    requires
        state.device() == Some(device),
    ensures
        ({
            let (next, action) = transition(strategy, state, event);
            &&& next.device() == Some(device) || next == ManagerState::Disconnected
            &&& action.device() is Some ==> action.device() == Some(device)
        }),
{
}

/// The state of a session that began idle and has since taken the reports
/// `events`, in this order.
pub open spec fn state_after(strategy: &MatchStrategy, events: Seq<ManagerEvent>) -> ManagerState
    decreases events.len(),
{
    if events.len() == 0 {
        ManagerState::Idle
    } else {
        transition(strategy, state_after(strategy, events.drop_last()), &events.last()).0
    }
}

/// The action that such a session asked for on the last of `events`.
pub open spec fn action_after(strategy: &MatchStrategy, events: Seq<ManagerEvent>) -> ManagerAction
    recommends
        events.len() > 0,
{
    transition(strategy, state_after(strategy, events.drop_last()), &events.last()).1
}

/// Whatever is reported to a session that looks for an identity, it settles
/// on no other peripheral, and no action it asks for names another one.
pub proof fn lemma_identity_session_keeps_to_target(
    target: DeviceIdentity,
    events: Seq<ManagerEvent>,
)
    ensures
        state_after(&MatchStrategy::Identity(target), events).device() matches Some(d) ==> d
            == target,
        events.len() > 0 ==> (action_after(
            &MatchStrategy::Identity(target),
            events,
        ).device() matches Some(d) ==> d == target),
    decreases events.len(),
{
    let strategy = MatchStrategy::Identity(target);
    if events.len() > 0 {
        let before = state_after(&strategy, events.drop_last());
        lemma_identity_session_keeps_to_target(target, events.drop_last());
        match before.device() {
            Some(d) => {
                lemma_session_keeps_device(&strategy, before, &events.last(), d);
            },
            None => {
                let next = transition(&strategy, before, &events.last()).0;
                if next.device() is Some {
                    lemma_match_is_by_strategy(
                        &strategy,
                        before,
                        &events.last(),
                        next.device().unwrap(),
                    );
                }
            },
        }
    }
}

/// Whatever is reported to a session that looks for a name, it settles on a
/// peripheral only if that peripheral was its candidate at some point and
/// the name then reported for it begins with the prefix.
pub proof fn lemma_named_session_matched_by_prefix(
    prefix: String,
    events: Seq<ManagerEvent>,
    device: DeviceIdentity,
)
    requires
        state_after(&MatchStrategy::NamePrefix(prefix), events).device() == Some(device),
    ensures
        exists|i: int|
            {
                &&& 0 <= i < events.len()
                &&& #[trigger] state_after(&MatchStrategy::NamePrefix(prefix), events.take(i))
                    == ManagerState::Scanning(ScanStage::Resolving(device))
                &&& events[i] matches ManagerEvent::NameResolved(name)
                &&& name_has_prefix(name, prefix@)
            },
    decreases events.len(),
{
    let strategy = MatchStrategy::NamePrefix(prefix);
    let earlier = events.drop_last();
    let before = state_after(&strategy, earlier);
    match before.device() {
        Some(d) => {
            lemma_session_keeps_device(&strategy, before, &events.last(), d);
            lemma_named_session_matched_by_prefix(prefix, earlier, device);
            let i = choose|i: int|
                {
                    &&& 0 <= i < earlier.len()
                    &&& #[trigger] state_after(&strategy, earlier.take(i))
                        == ManagerState::Scanning(ScanStage::Resolving(device))
                    &&& earlier[i] matches ManagerEvent::NameResolved(name)
                    &&& name_has_prefix(name, prefix@)
                };
            assert(earlier.take(i) == events.take(i));
        },
        None => {
            lemma_match_is_by_strategy(&strategy, before, &events.last(), device);
            assert(events.take(events.len() - 1) == earlier);
        },
    }
}

/// A session that has failed has failed for good: no further reports lead
/// out of the failed state.
pub proof fn lemma_no_way_out_of_failure(
    strategy: &MatchStrategy,
    events: Seq<ManagerEvent>,
    more: Seq<ManagerEvent>,
)
    requires
        state_after(strategy, events) == ManagerState::Disconnected,
    ensures
        state_after(strategy, events + more) == ManagerState::Disconnected,
    decreases more.len(),
{
    if more.len() == 0 {
        assert(events + more == events);
    } else {
        lemma_no_way_out_of_failure(strategy, events, more.drop_last());
        assert((events + more).drop_last() == events + more.drop_last());
    }
}

/// What the library knows of one service of a connected peripheral.
#[derive(Copy, Clone, Debug, PartialEq, Eq)]
pub struct ServiceSummary {
    /// The service's identifier.
    pub uuid: Uuid,
    /// Whether the peripheral declares the service as primary.
    pub primary: bool,
}

/// Whether `i` is the place of the last primary service in `services`.
pub open spec fn is_last_primary(services: Seq<ServiceSummary>, i: int) -> bool {
    &&& 0 <= i < services.len()
    &&& services[i].primary
    &&& forall|j: int| i < j < services.len() ==> !services[j].primary
}

/// Returns the identifier of the last service in `services` that is declared
/// primary, or `None` if no service is.
pub fn find_primary_uuid_for(services: &Vec<ServiceSummary>) -> (found: Option<Uuid>)
    ensures
        match found {
            Some(uuid) => exists|i: int|
                #[trigger] is_last_primary(services@, i) && services[i].uuid == uuid,
            None => forall|i: int| 0 <= i < services.len() ==> !services[i].primary,
        },
{
    let mut i: usize = services.len();
    while i > 0
        invariant
            i <= services.len(),
            forall|j: int| i <= j < services.len() ==> !services[j].primary,
        decreases i,
    {
        i -= 1;
        if services[i].primary {
            assert(is_last_primary(services@, i as int));
            return Some(services[i].uuid);
        }
    }
    None
}

} // verus!
