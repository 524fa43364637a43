use ble_bled::characteristic::{CharacteristicDescriptor, ClassifiedCharacteristics};
use ble_bled::discovery::{
    extract_device_id, find_primary_uuid_for, wait_for_advertisement, DeviceIdentity,
    DiscoveryEvent, Manager, ManagerAction, ManagerEvent, ManagerState, MatchStrategy, ScanStage,
    ServiceSummary,
};
use ble_bled::error::ErrorKind;
use uuid::Uuid;

const A: DeviceIdentity = DeviceIdentity(0xA);
const B: DeviceIdentity = DeviceIdentity(0xB);

fn by_prefix(prefix: &str) -> Manager {
    Manager::new(MatchStrategy::NamePrefix(String::from(prefix)))
}

fn named(name: &str) -> ManagerEvent {
    ManagerEvent::NameResolved(Some(String::from(name)))
}

fn characteristic(n: u128, properties: u8) -> CharacteristicDescriptor {
    CharacteristicDescriptor {
        uuid: Uuid::from_u128(n),
        service_uuid: Uuid::from_u128(0xFFF0),
        properties,
    }
}

fn service(n: u128, primary: bool) -> ServiceSummary {
    ServiceSummary { uuid: Uuid::from_u128(n), primary }
}

/// Drives a session that looks for `B` by identity up to the state in which
/// the services are being enumerated.
fn enumerating() -> Manager {
    let mut m: Manager = Manager::new(MatchStrategy::Identity(B));
    assert_eq!(m.step(&ManagerEvent::Begin), ManagerAction::StartScan);
    assert_eq!(m.step(&ManagerEvent::ScanStarted), ManagerAction::AwaitEvent);
    assert_eq!(
        m.step(&ManagerEvent::Discovery(DiscoveryEvent::DeviceDiscovered(B))),
        ManagerAction::StopScan
    );
    assert_eq!(m.step(&ManagerEvent::ScanStopped), ManagerAction::QueryConnected(B));
    assert_eq!(m.step(&ManagerEvent::ConnectionState(false)), ManagerAction::Connect(B));
    assert_eq!(m.step(&ManagerEvent::Connected), ManagerAction::DiscoverServices(B));
    assert_eq!(m.state(), ManagerState::ServiceDiscovery(B));
    m
}

#[test]
fn a_new_session_is_idle_and_holds_nothing() {
    let m: Manager = by_prefix("ELK");
    assert_eq!(m.state(), ManagerState::Idle);
    assert_eq!(*m.strategy(), MatchStrategy::NamePrefix(String::from("ELK")));
    assert_eq!(*m.roles(), ClassifiedCharacteristics::empty());
}

#[test]
fn a_session_that_waits_for_an_advertisement_looks_for_the_identity() {
    let mut m: Manager = wait_for_advertisement(B);
    assert_eq!(m.state(), ManagerState::Idle);
    assert_eq!(*m.strategy(), MatchStrategy::Identity(B));
    assert_eq!(*m.roles(), ClassifiedCharacteristics::empty());
    assert_eq!(m.step(&ManagerEvent::Begin), ManagerAction::StartScan);
    assert_eq!(m.step(&ManagerEvent::ScanStarted), ManagerAction::AwaitEvent);
    assert_eq!(
        m.step(&ManagerEvent::Discovery(DiscoveryEvent::DeviceDiscovered(A))),
        ManagerAction::AwaitEvent
    );
    assert_eq!(
        m.step(&ManagerEvent::Discovery(DiscoveryEvent::DeviceDiscovered(B))),
        ManagerAction::StopScan
    );
}

#[test]
fn only_the_peripheral_whose_name_has_the_prefix_is_selected() {
    let mut m: Manager = by_prefix("ELK-");
    let mut actions: Vec<ManagerAction> = Vec::new();
    actions.push(m.step(&ManagerEvent::Begin));
    actions.push(m.step(&ManagerEvent::ScanStarted));
    actions.push(m.step(&ManagerEvent::Discovery(DiscoveryEvent::ServicesAdvertisement { id: A })));
    assert_eq!(m.state(), ManagerState::Scanning(ScanStage::Resolving(A)));
    actions.push(m.step(&named("Kitchen scale")));
    assert_eq!(m.state(), ManagerState::Scanning(ScanStage::Listening));
    actions.push(
        m.step(&ManagerEvent::Discovery(DiscoveryEvent::ServiceDataAdvertisement { id: B })),
    );
    actions.push(m.step(&named("ELK-BLEDOM")));
    assert_eq!(m.state(), ManagerState::Matched(B));
    actions.push(m.step(&ManagerEvent::ScanStopped));
    actions.push(m.step(&ManagerEvent::ConnectionState(false)));
    assert_eq!(m.state(), ManagerState::Connecting { device: B, requested: true });
    actions.push(m.step(&ManagerEvent::Connected));
    actions.push(m.step(&ManagerEvent::ServicesDiscovered(vec![characteristic(1, 0x04)])));
    assert_eq!(
        actions,
        vec![
            ManagerAction::StartScan,
            ManagerAction::AwaitEvent,
            ManagerAction::ResolveName(A),
            ManagerAction::AwaitEvent,
            ManagerAction::ResolveName(B),
            ManagerAction::StopScan,
            ManagerAction::QueryConnected(B),
            ManagerAction::Connect(B),
            ManagerAction::DiscoverServices(B),
            ManagerAction::Yield(B),
        ]
    );
    assert!(!actions.contains(&ManagerAction::Connect(A)));
    assert!(!actions.contains(&ManagerAction::QueryConnected(A)));
    assert!(!actions.contains(&ManagerAction::DiscoverServices(A)));
    assert_eq!(m.state(), ManagerState::Ready(B));
}

#[test]
fn a_failed_enumeration_is_a_discovery_error_and_is_not_retried() {
    let mut m: Manager = enumerating();
    assert_eq!(m.step(&ManagerEvent::Failed), ManagerAction::Fail(ErrorKind::DiscoveryError));
    assert_eq!(m.state(), ManagerState::Disconnected);
    assert_eq!(*m.roles(), ClassifiedCharacteristics::empty());
    let later: Vec<ManagerEvent> = vec![
        ManagerEvent::Begin,
        ManagerEvent::ScanStarted,
        ManagerEvent::Discovery(DiscoveryEvent::DeviceDiscovered(B)),
        named("ELK-BLEDOM"),
        ManagerEvent::ScanStopped,
        ManagerEvent::ConnectionState(true),
        ManagerEvent::ConnectionState(false),
        ManagerEvent::Connected,
        ManagerEvent::ServicesDiscovered(vec![characteristic(1, 0x04)]),
        ManagerEvent::Failed,
    ];
    for event in &later {
        assert_eq!(m.step(event), ManagerAction::Halt);
        assert_eq!(m.state(), ManagerState::Disconnected);
        assert_eq!(*m.roles(), ClassifiedCharacteristics::empty());
    }
}

#[test]
fn a_ready_session_holds_the_classification() {
    let mut m: Manager = enumerating();
    let reader: CharacteristicDescriptor = characteristic(1, 0x02);
    let writer: CharacteristicDescriptor = characteristic(2, 0x04);
    let both: CharacteristicDescriptor = characteristic(3, 0x04 | 0x10);
    let found: Vec<CharacteristicDescriptor> = vec![reader, writer, both];
    assert_eq!(m.step(&ManagerEvent::ServicesDiscovered(found)), ManagerAction::Yield(B));
    assert_eq!(m.state(), ManagerState::Ready(B));
    assert_eq!(m.roles().readable, vec![reader]);
    assert_eq!(m.roles().writable, vec![writer, both]);
    assert_eq!(m.roles().notifying, vec![both]);
    assert_eq!(m.step(&ManagerEvent::ConnectionState(true)), ManagerAction::Yield(B));
    assert_eq!(m.state(), ManagerState::Ready(B));
    assert_eq!(m.roles().writable, vec![writer, both]);
}

#[test]
fn a_lost_link_ends_a_ready_session() {
    let mut m: Manager = enumerating();
    m.step(&ManagerEvent::ServicesDiscovered(vec![characteristic(2, 0x04)]));
    assert_eq!(
        m.step(&ManagerEvent::ConnectionState(false)),
        ManagerAction::Fail(ErrorKind::ConnectionError)
    );
    assert_eq!(m.state(), ManagerState::Disconnected);
    assert_eq!(*m.roles(), ClassifiedCharacteristics::empty());
}

#[test]
fn a_failure_reported_to_a_ready_session_is_a_connection_error() {
    let mut m: Manager = enumerating();
    m.step(&ManagerEvent::ServicesDiscovered(vec![characteristic(2, 0x04)]));
    assert_eq!(m.step(&ManagerEvent::Failed), ManagerAction::Fail(ErrorKind::ConnectionError));
    assert_eq!(m.state(), ManagerState::Disconnected);
}

#[test]
fn a_peripheral_that_is_connected_already_is_not_connected_again() {
    let mut m: Manager = Manager::new(MatchStrategy::Identity(B));
    m.step(&ManagerEvent::Begin);
    m.step(&ManagerEvent::ScanStarted);
    m.step(&ManagerEvent::Discovery(DiscoveryEvent::DeviceDiscovered(B)));
    assert_eq!(m.step(&ManagerEvent::ScanStopped), ManagerAction::QueryConnected(B));
    assert_eq!(m.state(), ManagerState::Connecting { device: B, requested: false });
    assert_eq!(m.step(&ManagerEvent::ConnectionState(true)), ManagerAction::DiscoverServices(B));
    assert_eq!(m.state(), ManagerState::ServiceDiscovery(B));
}

#[test]
fn an_identity_is_matched_by_its_discovery_alone() {
    let others: Vec<DiscoveryEvent> = vec![
        DiscoveryEvent::DeviceDiscovered(A),
        DiscoveryEvent::DeviceUpdated(B),
        DiscoveryEvent::DeviceConnected(B),
        DiscoveryEvent::DeviceDisconnected(B),
        DiscoveryEvent::ManufacturerDataAdvertisement { id: B },
        DiscoveryEvent::ServiceDataAdvertisement { id: B },
        DiscoveryEvent::ServicesAdvertisement { id: B },
    ];
    let strategy: MatchStrategy = MatchStrategy::Identity(B);
    let mut m: Manager = Manager::new(MatchStrategy::Identity(B));
    m.step(&ManagerEvent::Begin);
    m.step(&ManagerEvent::ScanStarted);
    for event in others {
        assert!(!strategy.selects(event));
        assert!(!strategy.asks_name(event));
        assert_eq!(m.step(&ManagerEvent::Discovery(event)), ManagerAction::AwaitEvent);
        assert_eq!(m.state(), ManagerState::Scanning(ScanStage::Listening));
    }
    assert!(strategy.selects(DiscoveryEvent::DeviceDiscovered(B)));
    assert_eq!(
        m.step(&ManagerEvent::Discovery(DiscoveryEvent::DeviceDiscovered(B))),
        ManagerAction::StopScan
    );
    assert_eq!(m.state(), ManagerState::Matched(B));
}

#[test]
fn a_name_is_asked_for_only_after_an_advertisement_of_services() {
    let strategy: MatchStrategy = MatchStrategy::NamePrefix(String::from("ELK"));
    assert!(strategy.asks_name(DiscoveryEvent::ServiceDataAdvertisement { id: A }));
    assert!(strategy.asks_name(DiscoveryEvent::ServicesAdvertisement { id: A }));
    assert!(!strategy.asks_name(DiscoveryEvent::DeviceDiscovered(A)));
    assert!(!strategy.asks_name(DiscoveryEvent::DeviceUpdated(A)));
    assert!(!strategy.asks_name(DiscoveryEvent::DeviceConnected(A)));
    assert!(!strategy.asks_name(DiscoveryEvent::DeviceDisconnected(A)));
    assert!(!strategy.asks_name(DiscoveryEvent::ManufacturerDataAdvertisement { id: A }));
    assert!(!strategy.selects(DiscoveryEvent::DeviceDiscovered(A)));
    let mut m: Manager = by_prefix("ELK");
    m.step(&ManagerEvent::Begin);
    m.step(&ManagerEvent::ScanStarted);
    assert_eq!(
        m.step(&ManagerEvent::Discovery(DiscoveryEvent::DeviceDiscovered(A))),
        ManagerAction::AwaitEvent
    );
    assert_eq!(
        m.step(&ManagerEvent::Discovery(DiscoveryEvent::ManufacturerDataAdvertisement { id: A })),
        ManagerAction::AwaitEvent
    );
    assert_eq!(m.state(), ManagerState::Scanning(ScanStage::Listening));
}

#[test]
fn a_name_is_accepted_exactly_if_it_begins_with_the_prefix() {
    let strategy: MatchStrategy = MatchStrategy::NamePrefix(String::from("ELK-"));
    assert!(strategy.accepts_name(&Some(String::from("ELK-BLEDOM"))));
    assert!(strategy.accepts_name(&Some(String::from("ELK-"))));
    assert!(!strategy.accepts_name(&Some(String::from("ELK"))));
    assert!(!strategy.accepts_name(&Some(String::from("elk-bledom"))));
    assert!(!strategy.accepts_name(&Some(String::from("My ELK-BLEDOM"))));
    assert!(!strategy.accepts_name(&Some(String::new())));
    assert!(!strategy.accepts_name(&None));
}

#[test]
fn the_empty_prefix_accepts_every_name_but_no_missing_one() {
    let strategy: MatchStrategy = MatchStrategy::NamePrefix(String::new());
    assert!(strategy.accepts_name(&Some(String::from("anything"))));
    assert!(strategy.accepts_name(&Some(String::new())));
    assert!(!strategy.accepts_name(&None));
}

#[test]
fn a_prefix_is_compared_by_whole_characters() {
    let strategy: MatchStrategy = MatchStrategy::NamePrefix(String::from("Licht é"));
    assert!(strategy.accepts_name(&Some(String::from("Licht école"))));
    assert!(!strategy.accepts_name(&Some(String::from("Licht e"))));
}

#[test]
fn an_identity_accepts_no_name() {
    let strategy: MatchStrategy = MatchStrategy::Identity(B);
    assert!(!strategy.accepts_name(&Some(String::from("ELK-BLEDOM"))));
    assert!(!strategy.accepts_name(&None));
}

#[test]
fn a_candidate_without_a_name_is_passed_over() {
    let mut m: Manager = by_prefix("ELK");
    m.step(&ManagerEvent::Begin);
    m.step(&ManagerEvent::ScanStarted);
    assert_eq!(
        m.step(&ManagerEvent::Discovery(DiscoveryEvent::ServicesAdvertisement { id: A })),
        ManagerAction::ResolveName(A)
    );
    assert_eq!(m.step(&ManagerEvent::NameResolved(None)), ManagerAction::AwaitEvent);
    assert_eq!(m.state(), ManagerState::Scanning(ScanStage::Listening));
}

#[test]
fn no_adapter_is_an_adapter_error() {
    let mut m: Manager = by_prefix("ELK");
    assert_eq!(m.step(&ManagerEvent::Failed), ManagerAction::Fail(ErrorKind::AdapterError));
    assert_eq!(m.state(), ManagerState::Disconnected);
}

#[test]
fn a_scan_that_does_not_start_is_a_scan_error() {
    let mut m: Manager = by_prefix("ELK");
    m.step(&ManagerEvent::Begin);
    assert_eq!(m.state(), ManagerState::Scanning(ScanStage::Starting));
    assert_eq!(m.step(&ManagerEvent::Failed), ManagerAction::Fail(ErrorKind::ScanError));
    assert_eq!(m.state(), ManagerState::Disconnected);
}

#[test]
fn a_failure_while_listening_or_resolving_is_a_scan_error() {
    let mut listening: Manager = by_prefix("ELK");
    listening.step(&ManagerEvent::Begin);
    listening.step(&ManagerEvent::ScanStarted);
    assert_eq!(listening.step(&ManagerEvent::Failed), ManagerAction::Fail(ErrorKind::ScanError));
    let mut resolving: Manager = by_prefix("ELK");
    resolving.step(&ManagerEvent::Begin);
    resolving.step(&ManagerEvent::ScanStarted);
    resolving.step(&ManagerEvent::Discovery(DiscoveryEvent::ServicesAdvertisement { id: A }));
    assert_eq!(resolving.step(&ManagerEvent::Failed), ManagerAction::Fail(ErrorKind::ScanError));
    assert_eq!(resolving.state(), ManagerState::Disconnected);
}

#[test]
fn a_scan_that_does_not_stop_is_a_scan_error() {
    let mut m: Manager = Manager::new(MatchStrategy::Identity(B));
    m.step(&ManagerEvent::Begin);
    m.step(&ManagerEvent::ScanStarted);
    m.step(&ManagerEvent::Discovery(DiscoveryEvent::DeviceDiscovered(B)));
    assert_eq!(m.step(&ManagerEvent::Failed), ManagerAction::Fail(ErrorKind::ScanError));
    assert_eq!(m.state(), ManagerState::Disconnected);
}

#[test]
fn a_failed_connect_is_a_connection_error() {
    let mut asking: Manager = Manager::new(MatchStrategy::Identity(B));
    asking.step(&ManagerEvent::Begin);
    asking.step(&ManagerEvent::ScanStarted);
    asking.step(&ManagerEvent::Discovery(DiscoveryEvent::DeviceDiscovered(B)));
    asking.step(&ManagerEvent::ScanStopped);
    assert_eq!(asking.step(&ManagerEvent::Failed), ManagerAction::Fail(ErrorKind::ConnectionError));
    let mut connecting: Manager = Manager::new(MatchStrategy::Identity(B));
    connecting.step(&ManagerEvent::Begin);
    connecting.step(&ManagerEvent::ScanStarted);
    connecting.step(&ManagerEvent::Discovery(DiscoveryEvent::DeviceDiscovered(B)));
    connecting.step(&ManagerEvent::ScanStopped);
    connecting.step(&ManagerEvent::ConnectionState(false));
    assert_eq!(
        connecting.step(&ManagerEvent::Failed),
        ManagerAction::Fail(ErrorKind::ConnectionError)
    );
    assert_eq!(connecting.state(), ManagerState::Disconnected);
}

#[test]
fn an_event_that_is_not_waited_for_ends_the_session() {
    let mut idle: Manager = by_prefix("ELK");
    assert_eq!(idle.step(&ManagerEvent::Connected), ManagerAction::Fail(ErrorKind::AdapterError));
    assert_eq!(idle.state(), ManagerState::Disconnected);
    let mut starting: Manager = by_prefix("ELK");
    starting.step(&ManagerEvent::Begin);
    assert_eq!(
        starting.step(&ManagerEvent::Discovery(DiscoveryEvent::DeviceDiscovered(A))),
        ManagerAction::Fail(ErrorKind::ScanError)
    );
    let mut connecting: Manager = Manager::new(MatchStrategy::Identity(B));
    connecting.step(&ManagerEvent::Begin);
    connecting.step(&ManagerEvent::ScanStarted);
    connecting.step(&ManagerEvent::Discovery(DiscoveryEvent::DeviceDiscovered(B)));
    connecting.step(&ManagerEvent::ScanStopped);
    assert_eq!(
        connecting.step(&ManagerEvent::Connected),
        ManagerAction::Fail(ErrorKind::ConnectionError)
    );
    let mut asked: Manager = Manager::new(MatchStrategy::Identity(B));
    asked.step(&ManagerEvent::Begin);
    asked.step(&ManagerEvent::ScanStarted);
    asked.step(&ManagerEvent::Discovery(DiscoveryEvent::DeviceDiscovered(B)));
    asked.step(&ManagerEvent::ScanStopped);
    asked.step(&ManagerEvent::ConnectionState(false));
    assert_eq!(
        asked.step(&ManagerEvent::ConnectionState(true)),
        ManagerAction::Fail(ErrorKind::ConnectionError)
    );
    let mut enumerating_session: Manager = enumerating();
    assert_eq!(
        enumerating_session.step(&ManagerEvent::Connected),
        ManagerAction::Fail(ErrorKind::DiscoveryError)
    );
}

#[test]
fn the_error_of_each_state() {
    assert_eq!(ManagerState::Idle.failure(), ErrorKind::AdapterError);
    assert_eq!(ManagerState::Scanning(ScanStage::Starting).failure(), ErrorKind::ScanError);
    assert_eq!(ManagerState::Scanning(ScanStage::Listening).failure(), ErrorKind::ScanError);
    assert_eq!(ManagerState::Scanning(ScanStage::Resolving(A)).failure(), ErrorKind::ScanError);
    assert_eq!(ManagerState::Matched(A).failure(), ErrorKind::ScanError);
    assert_eq!(
        ManagerState::Connecting { device: A, requested: false }.failure(),
        ErrorKind::ConnectionError
    );
    assert_eq!(ManagerState::ServiceDiscovery(A).failure(), ErrorKind::DiscoveryError);
    assert_eq!(ManagerState::Ready(A).failure(), ErrorKind::ConnectionError);
}

#[test]
fn every_event_names_its_peripheral() {
    assert_eq!(*extract_device_id(&DiscoveryEvent::DeviceDiscovered(A)), A);
    assert_eq!(*extract_device_id(&DiscoveryEvent::DeviceUpdated(B)), B);
    assert_eq!(*extract_device_id(&DiscoveryEvent::DeviceConnected(A)), A);
    assert_eq!(*extract_device_id(&DiscoveryEvent::DeviceDisconnected(B)), B);
    assert_eq!(*extract_device_id(&DiscoveryEvent::ManufacturerDataAdvertisement { id: A }), A);
    assert_eq!(*extract_device_id(&DiscoveryEvent::ServiceDataAdvertisement { id: B }), B);
    assert_eq!(*extract_device_id(&DiscoveryEvent::ServicesAdvertisement { id: A }), A);
}

#[test]
fn the_last_primary_service_is_found() {
    let services: Vec<ServiceSummary> = vec![
        service(1, true),
        service(2, false),
        service(3, true),
        service(4, false),
    ];
    assert_eq!(find_primary_uuid_for(&services), Some(Uuid::from_u128(3)));
}

#[test]
fn a_single_primary_service_is_found_wherever_it_stands() {
    assert_eq!(
        find_primary_uuid_for(&vec![service(1, true), service(2, false)]),
        Some(Uuid::from_u128(1))
    );
    assert_eq!(
        find_primary_uuid_for(&vec![service(1, false), service(2, true)]),
        Some(Uuid::from_u128(2))
    );
    assert_eq!(find_primary_uuid_for(&vec![service(9, true)]), Some(Uuid::from_u128(9)));
}

#[test]
fn without_a_primary_service_none_is_found() {
    assert_eq!(find_primary_uuid_for(&Vec::new()), None);
    assert_eq!(find_primary_uuid_for(&vec![service(1, false), service(2, false)]), None);
}
