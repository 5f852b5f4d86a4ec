use kinterface::registry::{RequestKind, ResultKind, FUNCTION_CODE_MAX};
use kinterface::requests::{
    DriverRequest, RequestCSModule, RequestHealthCheck, RequestInitialize, RequestKeyboardState,
    RequestMouseMove, RequestProcessModules, RequestProtectionToggle, RequestRead,
    RequestReportSend, RequestWrite,
};

const ALL_KINDS: [RequestKind; 10] = [
    RequestKind::HealthCheck,
    RequestKind::CSModule,
    RequestKind::Read,
    RequestKind::ProtectionToggle,
    RequestKind::MouseMove,
    RequestKind::KeyboardState,
    RequestKind::Initialize,
    RequestKind::ReportSend,
    RequestKind::Write,
    RequestKind::ProcessModules,
];

#[test]
fn request_types_carry_their_assigned_codes() {
    assert_eq!(RequestHealthCheck::function_code(), 0x01);
    assert_eq!(RequestCSModule::function_code(), 0x02);
    assert_eq!(RequestRead::function_code(), 0x03);
    assert_eq!(RequestProtectionToggle::function_code(), 0x04);
    assert_eq!(RequestMouseMove::function_code(), 0x05);
    assert_eq!(RequestKeyboardState::function_code(), 0x06);
    assert_eq!(RequestInitialize::function_code(), 0x07);
    assert_eq!(RequestReportSend::function_code(), 0x08);
    assert_eq!(RequestWrite::function_code(), 0x09);
    assert_eq!(RequestProcessModules::function_code(), 0x0A);
}

#[test]
fn kinds_carry_the_codes_of_their_request_types() {
    assert_eq!(RequestKind::HealthCheck.function_code(), RequestHealthCheck::function_code());
    assert_eq!(RequestKind::CSModule.function_code(), RequestCSModule::function_code());
    assert_eq!(RequestKind::Read.function_code(), RequestRead::function_code());
    assert_eq!(
        RequestKind::ProtectionToggle.function_code(),
        RequestProtectionToggle::function_code()
    );
    assert_eq!(RequestKind::MouseMove.function_code(), RequestMouseMove::function_code());
    assert_eq!(RequestKind::KeyboardState.function_code(), RequestKeyboardState::function_code());
    assert_eq!(RequestKind::Initialize.function_code(), RequestInitialize::function_code());
    assert_eq!(RequestKind::ReportSend.function_code(), RequestReportSend::function_code());
    assert_eq!(RequestKind::Write.function_code(), RequestWrite::function_code());
    assert_eq!(RequestKind::ProcessModules.function_code(), RequestProcessModules::function_code());
}

#[test]
fn every_code_fits_ten_bits() {
    assert_eq!(FUNCTION_CODE_MAX, 1023);
    for kind in ALL_KINDS {
        assert!(kind.function_code() <= FUNCTION_CODE_MAX);
    }
}

#[test]
fn lookup_inverts_the_code_of_every_kind() {
    for kind in ALL_KINDS {
        assert_eq!(RequestKind::from_function_code(kind.function_code()), Some(kind));
    }
}

#[test]
fn codes_of_distinct_kinds_differ() {
    for (i, first) in ALL_KINDS.iter().enumerate() {
        for (j, second) in ALL_KINDS.iter().enumerate() {
            assert_eq!(i == j, first.function_code() == second.function_code());
        }
    }
}

#[test]
fn exactly_the_assigned_codes_are_known() {
    for code in 0u16..=1023 {
        let known = RequestKind::from_function_code(code);
        if (0x01..=0x0A).contains(&code) {
            assert_eq!(known.map(|kind| kind.function_code()), Some(code));
        } else {
            assert_eq!(known, None);
        }
    }
}

#[test]
fn reserved_codes_are_unknown() {
    assert_eq!(RequestKind::from_function_code(0), None);
    assert_eq!(RequestKind::from_function_code(0x0B), None);
    assert_eq!(RequestKind::from_function_code(1023), None);
    assert_eq!(RequestKind::from_function_code(1024), None);
    assert_eq!(RequestKind::from_function_code(u16::MAX), None);
}

#[test]
fn lookup_names_the_kind_of_each_code() {
    assert_eq!(RequestKind::from_function_code(0x01), Some(RequestKind::HealthCheck));
    assert_eq!(RequestKind::from_function_code(0x03), Some(RequestKind::Read));
    assert_eq!(RequestKind::from_function_code(0x07), Some(RequestKind::Initialize));
    assert_eq!(RequestKind::from_function_code(0x0A), Some(RequestKind::ProcessModules));
}

#[test]
fn both_module_requests_share_one_result() {
    assert_eq!(RequestKind::CSModule.result_kind(), ResultKind::ProcessModules);
    assert_eq!(RequestKind::ProcessModules.result_kind(), ResultKind::ProcessModules);
    assert_eq!(RequestKind::Read.result_kind(), ResultKind::Read);
    assert_eq!(RequestKind::Write.result_kind(), ResultKind::Write);
    assert_eq!(RequestKind::HealthCheck.result_kind(), ResultKind::HealthCheck);
    assert_eq!(RequestKind::ProtectionToggle.result_kind(), ResultKind::ProtectionToggle);
    assert_eq!(RequestKind::MouseMove.result_kind(), ResultKind::MouseMove);
    assert_eq!(RequestKind::KeyboardState.result_kind(), ResultKind::KeyboardState);
    assert_eq!(RequestKind::Initialize.result_kind(), ResultKind::Initialize);
    assert_eq!(RequestKind::ReportSend.result_kind(), ResultKind::ReportSend);
}

fn code_of<R: DriverRequest>(_request: &R) -> u16 {
    R::function_code()
}

fn unpopulated<R: DriverRequest>(_request: &R) -> R::Result {
    R::Result::default()
}

#[test]
fn code_is_known_from_the_request_type_alone() {
    assert_eq!(code_of(&RequestHealthCheck), 0x01);
    let toggle = RequestProtectionToggle { enabled: true };
    assert_eq!(code_of(&toggle), 0x04);
    let legacy = RequestCSModule { module_buffer_length: 0, module_buffer: 0 };
    assert_eq!(code_of(&legacy), 0x02);
}

#[test]
fn every_request_has_an_unpopulated_result() {
    assert!(!unpopulated(&RequestHealthCheck).success);
    let legacy = RequestCSModule { module_buffer_length: 0, module_buffer: 0 };
    assert_eq!(
        unpopulated(&legacy),
        kinterface::requests::ResponseProcessModules::NoProcess
    );
    let toggle = RequestProtectionToggle { enabled: false };
    assert_eq!(unpopulated(&toggle), kinterface::requests::ResponseProtectionToggle);
}
