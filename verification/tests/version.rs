use kinterface::registry::RequestKind;
use kinterface::requests::{
    RequestInitialize, ResponseInitialize, INIT_STATUS_CONTROLLER_OUTDATED,
    INIT_STATUS_DRIVER_OUTDATED, INIT_STATUS_SUCCESS,
};
use kinterface::version::{negotiate, InterfaceVersion, Session};
use kinterface::KINTERFACE_MIN_VERSION;

fn handshake(target_version: u32) -> RequestInitialize {
    RequestInitialize {
        target_version,
        controller_info: 0,
        controller_info_length: 0,
        driver_info: 0,
        driver_info_length: 0,
    }
}

fn version(major: u8, minor: u8, patch: u8, build: u8) -> u32 {
    InterfaceVersion { major, minor, patch, build }.pack()
}

#[test]
fn minimum_version_is_0_2_1_0() {
    assert_eq!(KINTERFACE_MIN_VERSION, 0x0002_0100);
    assert_eq!(version(0, 2, 1, 0), KINTERFACE_MIN_VERSION);
    assert_eq!(
        InterfaceVersion::unpack(KINTERFACE_MIN_VERSION),
        InterfaceVersion { major: 0, minor: 2, patch: 1, build: 0 }
    );
}

#[test]
fn fields_are_packed_high_to_low() {
    assert_eq!(version(0x12, 0x34, 0x56, 0x78), 0x1234_5678);
    assert_eq!(version(1, 0, 0, 0), 0x0100_0000);
    assert_eq!(version(0, 0, 0, 1), 1);
    assert_eq!(version(255, 255, 255, 255), u32::MAX);
    assert_eq!(version(0, 0, 0, 0), 0);
}

#[test]
fn packed_value_is_taken_apart() {
    assert_eq!(
        InterfaceVersion::unpack(0x1234_5678),
        InterfaceVersion { major: 0x12, minor: 0x34, patch: 0x56, build: 0x78 }
    );
    assert_eq!(
        InterfaceVersion::unpack(u32::MAX),
        InterfaceVersion { major: 255, minor: 255, patch: 255, build: 255 }
    );
}

#[test]
fn packing_round_trips() {
    for value in [0u32, 1, 0xFF, 0x100, 0x0002_0100, 0x00FF_FFFF, 0x0100_0000, 0xDEAD_BEEF, u32::MAX]
    {
        assert_eq!(InterfaceVersion::unpack(value).pack(), value);
    }
    let fields = InterfaceVersion { major: 3, minor: 1, patch: 4, build: 15 };
    assert_eq!(InterfaceVersion::unpack(fields.pack()), fields);
}

#[test]
fn packed_versions_order_as_their_fields() {
    assert!(version(0, 2, 1, 0) < version(0, 2, 1, 1));
    assert!(version(0, 2, 255, 255) < version(0, 3, 0, 0));
    assert!(version(0, 255, 255, 255) < version(1, 0, 0, 0));
    assert!(version(1, 0, 0, 0) > version(0, 9, 9, 9));
}

#[test]
fn handshake_older_than_minimum_is_controller_outdated() {
    let driver_version = version(0, 3, 2, 7);
    let response = negotiate(&handshake(version(0, 2, 0, 9)), driver_version, KINTERFACE_MIN_VERSION);
    assert_eq!(response.status_code, INIT_STATUS_CONTROLLER_OUTDATED);
    assert_eq!(response.driver_version, driver_version);
    assert_eq!(
        response,
        ResponseInitialize { driver_version: 0x0003_0207, status_code: 0x03 }
    );
}

#[test]
fn handshake_newer_than_driver_is_driver_outdated() {
    let driver_version = version(0, 3, 2, 7);
    let response = negotiate(&handshake(version(0, 3, 2, 8)), driver_version, KINTERFACE_MIN_VERSION);
    assert_eq!(response.status_code, INIT_STATUS_DRIVER_OUTDATED);
    assert_eq!(response.driver_version, driver_version);
}

#[test]
fn handshake_within_the_served_versions_succeeds() {
    let driver_version = version(0, 3, 2, 7);
    for target in [KINTERFACE_MIN_VERSION, version(0, 3, 0, 0), driver_version] {
        let response = negotiate(&handshake(target), driver_version, KINTERFACE_MIN_VERSION);
        assert_eq!(
            response,
            ResponseInitialize { driver_version, status_code: INIT_STATUS_SUCCESS }
        );
    }
}

#[test]
fn handshake_just_outside_the_served_versions_fails() {
    let driver_version = version(0, 3, 2, 7);
    let below = negotiate(&handshake(KINTERFACE_MIN_VERSION - 1), driver_version, KINTERFACE_MIN_VERSION);
    assert_eq!(below.status_code, INIT_STATUS_CONTROLLER_OUTDATED);
    let above = negotiate(&handshake(driver_version + 1), driver_version, KINTERFACE_MIN_VERSION);
    assert_eq!(above.status_code, INIT_STATUS_DRIVER_OUTDATED);
}

#[test]
fn too_old_controller_is_reported_first() {
    // A driver that serves nothing it runs: the controller is told that it
    // is outdated, with the driver's version.
    let response = negotiate(&handshake(5), 3, 9);
    assert_eq!(response, ResponseInitialize { driver_version: 3, status_code: 0x03 });
}

#[test]
fn status_codes_are_fixed() {
    assert_eq!(INIT_STATUS_SUCCESS, 1);
    assert_eq!(INIT_STATUS_DRIVER_OUTDATED, 2);
    assert_eq!(INIT_STATUS_CONTROLLER_OUTDATED, 3);
}

#[test]
fn only_the_handshake_is_sent_before_it_succeeded() {
    let session = Session::Unverified;
    assert!(session.permits(RequestKind::Initialize));
    assert!(!session.permits(RequestKind::Read));
    assert!(!session.permits(RequestKind::HealthCheck));
    assert!(!session.permits(RequestKind::Write));
}

#[test]
fn successful_handshake_opens_the_session() {
    let response = ResponseInitialize { driver_version: 0x0003_0207, status_code: INIT_STATUS_SUCCESS };
    let session = Session::established(&response);
    assert_eq!(session, Session::Compatible { driver_version: 0x0003_0207 });
    for kind in [
        RequestKind::HealthCheck,
        RequestKind::CSModule,
        RequestKind::Read,
        RequestKind::ProtectionToggle,
        RequestKind::MouseMove,
        RequestKind::KeyboardState,
        RequestKind::Initialize,
        RequestKind::ReportSend,
        RequestKind::Write,
        RequestKind::ProcessModules,
    ] {
        assert!(session.permits(kind));
    }
}

#[test]
fn failed_handshake_keeps_the_session_closed() {
    for status_code in [0, INIT_STATUS_DRIVER_OUTDATED, INIT_STATUS_CONTROLLER_OUTDATED, 4, u32::MAX] {
        let response = ResponseInitialize { driver_version: 0x0003_0207, status_code };
        let session = Session::established(&response);
        assert_eq!(session, Session::Incompatible { driver_version: 0x0003_0207, status_code });
        assert!(session.permits(RequestKind::Initialize));
        assert!(!session.permits(RequestKind::Read));
        assert!(!session.permits(RequestKind::ProcessModules));
    }
}

#[test]
fn unpopulated_handshake_result_opens_nothing() {
    let session = Session::established(&ResponseInitialize::default());
    assert!(!session.permits(RequestKind::Read));
}
