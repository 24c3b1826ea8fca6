use wallet_core::anticounterfeit::AntiCounterfeitError;
use wallet_core::session::SessionGuard;

#[test]
fn second_initialize_reports_already_initialized() {
    let mut guard = SessionGuard::new();
    assert!(!guard.begin_initialize());
    guard.finish_initialize(true);
    assert!(guard.is_initialized());
    assert!(guard.begin_initialize());
    assert!(guard.is_initialized());
}

#[test]
fn initialize_while_starting_does_not_start_again() {
    let mut guard = SessionGuard::new();
    assert!(!guard.begin_initialize());
    assert!(guard.begin_initialize());
    assert!(!guard.is_initialized());
}

#[test]
fn failed_start_can_be_retried() {
    let mut guard = SessionGuard::new();
    assert!(!guard.begin_initialize());
    guard.finish_initialize(false);
    assert!(!guard.is_initialized());
    assert!(!guard.begin_initialize());
    guard.finish_initialize(true);
    assert!(guard.is_initialized());
}

#[test]
fn anticounterfeit_messages() {
    assert_eq!(AntiCounterfeitError::NoNfcDevice.message(), "No NFC device found");
    assert_eq!(
        AntiCounterfeitError::NfcDeviceNotSupported.message(),
        "NFC device not supported"
    );
}
