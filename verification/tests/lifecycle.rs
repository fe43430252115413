use veth_pair::config::VethConfig;
use veth_pair::error::{ChannelError, SetupError};
use veth_pair::setup::{SetupAction, SetupEvent, SetupState};

/// Drive a machine through a fully successful provisioning sequence with
/// the given kernel-reported attributes.
fn provision(
    config: &VethConfig,
    index1: u32,
    index2: u32,
    mac1: [u8; 6],
    mac2: [u8; 6],
) -> SetupState {
    let s = SetupState::initial();
    let s = s.step(config, SetupEvent::Acked);
    let s = s.step(config, SetupEvent::Index(index1));
    let s = s.step(config, SetupEvent::Index(index2));
    let s = s.step(config, SetupEvent::Acked);
    let s = s.step(config, SetupEvent::Acked);
    let s = s.step(config, SetupEvent::Address(mac1));
    s.step(config, SetupEvent::Address(mac2))
}

#[test]
fn successful_provision_reports_configured_names() {
    let config = VethConfig::new(String::from("left0"), String::from("right0"));
    let s = provision(&config, 5, 6, [2, 0, 0, 0, 0, 1], [2, 0, 0, 0, 0, 2]);
    match s {
        SetupState::Ready { dev1, dev2 } => {
            assert_eq!(dev1.ifname(), "left0");
            assert_eq!(dev2.ifname(), "right0");
        }
        other => panic!("expected Ready, got {:?}", other),
    }
}

#[test]
fn successful_provision_reports_kernel_indices() {
    let config = VethConfig::default();
    let s = provision(&config, 17, 18, [2, 0, 0, 0, 0, 1], [2, 0, 0, 0, 0, 2]);
    match s {
        SetupState::Ready { dev1, dev2 } => {
            assert_eq!(dev1.index(), 17);
            assert_eq!(dev2.index(), 18);
            assert!(dev1.index() != 0 && dev2.index() != 0);
            assert_ne!(dev1.index(), dev2.index());
        }
        other => panic!("expected Ready, got {:?}", other),
    }
}

#[test]
fn successful_provision_reports_hardware_addresses() {
    let config = VethConfig::default();
    let mac1 = [0x02, 0xab, 0xcd, 0xef, 0x00, 0x01];
    let mac2 = [0x02, 0xab, 0xcd, 0xef, 0x00, 0x02];
    let s = provision(&config, 3, 4, mac1, mac2);
    match s {
        SetupState::Ready { dev1, dev2 } => {
            assert_eq!(dev1.mac_addr(), &mac1);
            assert_eq!(dev2.mac_addr(), &mac2);
            assert!(dev1.mac_addr().iter().any(|b| *b != 0));
            assert!(dev2.mac_addr().iter().any(|b| *b != 0));
        }
        other => panic!("expected Ready, got {:?}", other),
    }
}

#[test]
fn default_config_provisions_veth0_and_veth1() {
    let config = VethConfig::default();
    assert_eq!(config.dev1_ifname(), "veth0");
    assert_eq!(config.dev2_ifname(), "veth1");
    let s = provision(&config, 9, 10, [2, 0, 0, 0, 0, 9], [2, 0, 0, 0, 0, 10]);
    let (dev1, dev2) = match &s {
        SetupState::Ready { dev1, dev2 } => (dev1.clone(), dev2.clone()),
        other => panic!("expected Ready, got {:?}", other),
    };
    assert_eq!(dev1.ifname(), "veth0");
    assert_eq!(dev2.ifname(), "veth1");
    assert!(dev1.index() > 0);
    assert!(dev2.index() > 0);
    // End of the owning scope: one deletion request, then the pair is gone.
    let s = s.step(&config, SetupEvent::Teardown);
    match s.next_action(&config) {
        Some(SetupAction::Delete { index }) => assert_eq!(index, dev1.index()),
        other => panic!("expected Delete, got {:?}", other),
    }
    let s = s.step(&config, SetupEvent::Acked);
    assert!(matches!(s, SetupState::Deleted));
    assert!(s.next_action(&config).is_none());
}

#[test]
fn provisioning_sequence_requests_in_order() {
    let config = VethConfig::new(String::from("a0"), String::from("b0"));
    let s = SetupState::initial();
    match s.next_action(&config) {
        Some(SetupAction::CreatePair { dev1_ifname, dev2_ifname }) => {
            assert_eq!(dev1_ifname, "a0");
            assert_eq!(dev2_ifname, "b0");
        }
        other => panic!("expected CreatePair, got {:?}", other),
    }
    let s = s.step(&config, SetupEvent::Acked);
    match s.next_action(&config) {
        Some(SetupAction::ResolveIndex { ifname }) => assert_eq!(ifname, "a0"),
        other => panic!("expected ResolveIndex, got {:?}", other),
    }
    let s = s.step(&config, SetupEvent::Index(21));
    match s.next_action(&config) {
        Some(SetupAction::ResolveIndex { ifname }) => assert_eq!(ifname, "b0"),
        other => panic!("expected ResolveIndex, got {:?}", other),
    }
    let s = s.step(&config, SetupEvent::Index(22));
    match s.next_action(&config) {
        Some(SetupAction::SetUp { index }) => assert_eq!(index, 21),
        other => panic!("expected SetUp, got {:?}", other),
    }
    let s = s.step(&config, SetupEvent::Acked);
    match s.next_action(&config) {
        Some(SetupAction::SetUp { index }) => assert_eq!(index, 22),
        other => panic!("expected SetUp, got {:?}", other),
    }
    let s = s.step(&config, SetupEvent::Acked);
    match s.next_action(&config) {
        Some(SetupAction::ResolveAddress { ifname }) => assert_eq!(ifname, "a0"),
        other => panic!("expected ResolveAddress, got {:?}", other),
    }
    let s = s.step(&config, SetupEvent::Address([2, 0, 0, 0, 0, 1]));
    match s.next_action(&config) {
        Some(SetupAction::ResolveAddress { ifname }) => assert_eq!(ifname, "b0"),
        other => panic!("expected ResolveAddress, got {:?}", other),
    }
    let s = s.step(&config, SetupEvent::Address([2, 0, 0, 0, 0, 2]));
    assert!(matches!(s, SetupState::Ready { .. }));
    assert!(s.next_action(&config).is_none());
}

#[test]
fn rejected_creation_fails_with_channel_error_and_no_interface() {
    // Two identical names are rejected by the kernel channel at the
    // creation request; nothing was created, so nothing can linger.
    let config = VethConfig::new(String::from("same0"), String::from("same0"));
    let s = SetupState::initial();
    let s = s.step(&config, SetupEvent::ChannelFailed(ChannelError::Rejected));
    match s {
        SetupState::Failed { error, pair_created } => {
            assert_eq!(error, SetupError::Channel(ChannelError::Rejected));
            assert!(!pair_created);
        }
        other => panic!("expected Failed, got {:?}", other),
    }
    assert!(s.next_action(&config).is_none());
}

#[test]
fn second_provision_with_same_names_fails_without_disturbing_first() {
    let config = VethConfig::default();
    let first = provision(&config, 7, 8, [2, 0, 0, 0, 0, 7], [2, 0, 0, 0, 0, 8]);
    assert!(matches!(first, SetupState::Ready { .. }));
    // The names are already in use, so the kernel rejects the second
    // creation request; the second machine fails with nothing created.
    let second = SetupState::initial()
        .step(&config, SetupEvent::ChannelFailed(ChannelError::Rejected));
    assert!(matches!(
        second,
        SetupState::Failed { error: SetupError::Channel(ChannelError::Rejected), pair_created: false }
    ));
    // The first pair is untouched and still fully usable.
    match first {
        SetupState::Ready { dev1, dev2 } => {
            assert_eq!(dev1.ifname(), "veth0");
            assert_eq!(dev1.index(), 7);
            assert_eq!(dev2.ifname(), "veth1");
            assert_eq!(dev2.index(), 8);
        }
        other => panic!("expected Ready, got {:?}", other),
    }
}

#[test]
fn index_resolution_failure_records_lingering_pair() {
    let config = VethConfig::default();
    let s = SetupState::initial();
    let s = s.step(&config, SetupEvent::Acked);
    let s = s.step(&config, SetupEvent::ChannelFailed(ChannelError::NotFound));
    match s {
        SetupState::Failed { error, pair_created } => {
            assert_eq!(error, SetupError::Channel(ChannelError::NotFound));
            assert!(pair_created);
        }
        other => panic!("expected Failed, got {:?}", other),
    }
}

#[test]
fn missing_address_fails_provisioning() {
    let config = VethConfig::default();
    let s = SetupState::initial();
    let s = s.step(&config, SetupEvent::Acked);
    let s = s.step(&config, SetupEvent::Index(1));
    let s = s.step(&config, SetupEvent::Index(2));
    let s = s.step(&config, SetupEvent::Acked);
    let s = s.step(&config, SetupEvent::Acked);
    let s = s.step(&config, SetupEvent::NoAddress);
    assert!(matches!(
        s,
        SetupState::Failed { error: SetupError::AddressMissing, pair_created: true }
    ));
}

#[test]
fn address_lookup_error_fails_provisioning() {
    let config = VethConfig::default();
    let s = SetupState::initial();
    let s = s.step(&config, SetupEvent::Acked);
    let s = s.step(&config, SetupEvent::Index(1));
    let s = s.step(&config, SetupEvent::Index(2));
    let s = s.step(&config, SetupEvent::Acked);
    let s = s.step(&config, SetupEvent::Acked);
    let s = s.step(&config, SetupEvent::Address([2, 0, 0, 0, 0, 1]));
    let s = s.step(&config, SetupEvent::LookupFailed);
    assert!(matches!(
        s,
        SetupState::Failed { error: SetupError::AddressLookup, pair_created: true }
    ));
}

#[test]
fn activation_failure_fails_provisioning() {
    let config = VethConfig::default();
    let s = SetupState::initial();
    let s = s.step(&config, SetupEvent::Acked);
    let s = s.step(&config, SetupEvent::Index(1));
    let s = s.step(&config, SetupEvent::Index(2));
    let s = s.step(&config, SetupEvent::ChannelFailed(ChannelError::NotFound));
    assert!(matches!(
        s,
        SetupState::Failed { error: SetupError::Channel(ChannelError::NotFound), pair_created: true }
    ));
}

#[test]
fn failed_deletion_is_terminal() {
    let config = VethConfig::default();
    let s = provision(&config, 5, 6, [2, 0, 0, 0, 0, 5], [2, 0, 0, 0, 0, 6]);
    let s = s.step(&config, SetupEvent::Teardown);
    let s = s.step(&config, SetupEvent::ChannelFailed(ChannelError::NotFound));
    assert!(matches!(s, SetupState::TeardownFailed));
    assert!(s.next_action(&config).is_none());
}

#[test]
fn deleted_pair_stays_deleted() {
    let config = VethConfig::default();
    let s = provision(&config, 5, 6, [2, 0, 0, 0, 0, 5], [2, 0, 0, 0, 0, 6]);
    let s = s.step(&config, SetupEvent::Teardown);
    let s = s.step(&config, SetupEvent::Acked);
    assert!(matches!(s, SetupState::Deleted));
    // No stray response revives the pair, and no request is issued again.
    let s = s.step(&config, SetupEvent::Teardown);
    assert!(matches!(s, SetupState::Deleted));
    let s = s.step(&config, SetupEvent::Acked);
    assert!(matches!(s, SetupState::Deleted));
    assert!(s.next_action(&config).is_none());
}

#[test]
fn stray_response_leaves_state_unchanged() {
    let config = VethConfig::default();
    let s = SetupState::initial();
    // A teardown event before anything exists has nothing to delete.
    let s = s.step(&config, SetupEvent::Teardown);
    assert!(matches!(s, SetupState::AwaitingCreate));
    // An address response cannot answer a pending creation request.
    let s = s.step(&config, SetupEvent::Address([2, 0, 0, 0, 0, 1]));
    assert!(matches!(s, SetupState::AwaitingCreate));
    match s.next_action(&config) {
        Some(SetupAction::CreatePair { dev1_ifname, dev2_ifname }) => {
            assert_eq!(dev1_ifname, "veth0");
            assert_eq!(dev2_ifname, "veth1");
        }
        other => panic!("expected CreatePair, got {:?}", other),
    }
}

#[test]
fn config_accessors_return_given_names() {
    let config = VethConfig::new(String::from("up0"), String::from("down0"));
    assert_eq!(config.dev1_ifname(), "up0");
    assert_eq!(config.dev2_ifname(), "down0");
}
