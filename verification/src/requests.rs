use vstd::prelude::*;
use crate::registry::{RequestKind, FUNCTION_CODE_MAX};
use crate::{ProcessId, ProcessModuleInfo, IO_MAX_DEREF_COUNT};

verus! {

/// A request that the controller sends to the driver.
///
/// Each request shape has one result shape and one function code.
pub trait DriverRequest: Sized + Copy {
    /// The shape of the driver's answer.
    type Result: Send + Sync + Sized + Copy + Default;

    /// The entry of the registry that this request shape is.
    spec fn kind() -> RequestKind;

    /// The 10 bit user function code for the request
    fn function_code() -> (code: u16)
        ensures
            code == Self::kind().code(),
            code <= FUNCTION_CODE_MAX,
    ;
}

/// Asks whether the driver is alive.
#[derive(Debug, Clone, Copy)]
pub struct RequestHealthCheck;

/// Whether the driver is alive. The unpopulated result says that it is not.
#[derive(Debug, Clone, Copy, PartialEq, Eq, Structural)]
pub struct ResponseHealthCheck {
    pub success: bool,
}

impl Default for ResponseHealthCheck {
    fn default() -> (response: Self)
        ensures
            !response.success,
    {
        ResponseHealthCheck { success: false }
    }
}

impl DriverRequest for RequestHealthCheck {
    type Result = ResponseHealthCheck;

    open spec fn kind() -> RequestKind {
        RequestKind::HealthCheck
    }

    fn function_code() -> (code: u16) {
        0x01
    }
}

/// Lists the modules of a process without a filter. Superseded by
/// `RequestProcessModules`, which says which process is meant.
#[derive(Debug, Clone, Copy)]
pub struct RequestCSModule {
    /// Number of elements module_buffer can hold
    pub module_buffer_length: usize,
    /// Address of the buffer that receives the modules.
    pub module_buffer: usize,
}

#[derive(Debug, Clone, Copy, PartialEq, Eq, Structural)]
pub enum ResponseProcessModules {
    /// The buffer holds the modules that the summary counts.
    Success(ProcessModuleInfo),
    /// Nothing was written: the buffer must hold `expected` modules.
    BufferTooSmall { expected: usize },
    /// The filter fits this many processes, so none was chosen.
    UbiquitousProcesses(usize),
    NoProcess,
}

impl Default for ResponseProcessModules {
    fn default() -> (response: Self)
        ensures
            response == ResponseProcessModules::NoProcess,
    {
        ResponseProcessModules::NoProcess
    }
}

impl DriverRequest for RequestCSModule {
    type Result = ResponseProcessModules;

    open spec fn kind() -> RequestKind {
        RequestKind::CSModule
    }

    fn function_code() -> (code: u16) {
        0x02
    }
}

/// How the driver reaches the memory of a process. One strategy serves a
/// whole call.
#[derive(Debug, Clone, Copy, PartialEq, Eq, Structural)]
pub enum MemoryAccessMode {
    /// Attach to the process, then read or write.
    AttachProcess,
    /// Copy between the address spaces.
    CopyVirtualMemory,
    /// Resolve the physical address, then read or write physical memory.
    Physical,
}

/// Reads memory of a process at the end of a dereference chain.
#[derive(Debug, Clone, Copy)]
pub struct RequestRead {
    pub process_id: ProcessId,
    pub mode: MemoryAccessMode,
    pub offsets: [u64; IO_MAX_DEREF_COUNT],
    pub offset_count: usize,
    /// Address of the destination buffer.
    pub buffer: usize,
    /// Number of bytes to read.
    pub count: usize,
}

#[derive(Debug, Clone, Copy, PartialEq, Eq)]
pub enum ResponseRead {
    /// The destination buffer holds the bytes at the end of the chain.
    Success,
    /// The chain could not be followed to its end, or the bytes at its end
    /// could not be read. `resolved_offsets` are the offsets of the
    /// request, `resolved_offset_count` is the number of links that were
    /// resolved before the one that failed.
    InvalidAddress { resolved_offsets: [u64; IO_MAX_DEREF_COUNT], resolved_offset_count: usize },
    UnknownProcess,
    /// The driver does not offer the access mode asked for.
    AccessModeUnavailable,
}

impl Default for ResponseRead {
    fn default() -> (response: Self)
        ensures
            response matches ResponseRead::InvalidAddress { resolved_offsets, resolved_offset_count }
                && resolved_offset_count == 0 && resolved_offsets@ == Seq::new(
                IO_MAX_DEREF_COUNT as nat,
                |i: int| 0u64,
            ),
            response != ResponseRead::Success,
    {
        ResponseRead::InvalidAddress { resolved_offsets: [0u64; 31], resolved_offset_count: 0 }
    }
}

impl DriverRequest for RequestRead {
    type Result = ResponseRead;

    open spec fn kind() -> RequestKind {
        RequestKind::Read
    }

    fn function_code() -> (code: u16) {
        0x03
    }
}

/// Switches the driver's protection of the controller on or off.
#[derive(Debug, Clone, Copy)]
pub struct RequestProtectionToggle {
    pub enabled: bool,
}

#[derive(Debug, Default, Clone, Copy, PartialEq, Eq, Structural)]
pub struct ResponseProtectionToggle;

impl DriverRequest for RequestProtectionToggle {
    type Result = ResponseProtectionToggle;

    open spec fn kind() -> RequestKind {
        RequestKind::ProtectionToggle
    }

    fn function_code() -> (code: u16) {
        0x04
    }
}

/// Replays mouse events, in the order of the buffer.
#[derive(Debug, Clone, Copy)]
pub struct RequestMouseMove {
    /// Address of the first `MouseState`.
    pub buffer: usize,
    pub state_count: usize,
}

#[derive(Debug, Default, Clone, Copy, PartialEq, Eq, Structural)]
pub struct ResponseMouseMove;

impl DriverRequest for RequestMouseMove {
    type Result = ResponseMouseMove;

    open spec fn kind() -> RequestKind {
        RequestKind::MouseMove
    }

    fn function_code() -> (code: u16) {
        0x05
    }
}

/// Replays keyboard events, in the order of the buffer.
#[derive(Debug, Clone, Copy)]
pub struct RequestKeyboardState {
    /// Address of the first `KeyboardState`.
    pub buffer: usize,
    pub state_count: usize,
}

#[derive(Debug, Default, Clone, Copy, PartialEq, Eq, Structural)]
pub struct ResponseKeyboardState;

impl DriverRequest for RequestKeyboardState {
    type Result = ResponseKeyboardState;

    open spec fn kind() -> RequestKind {
        RequestKind::KeyboardState
    }

    fn function_code() -> (code: u16) {
        0x06
    }
}

/// Success
pub const INIT_STATUS_SUCCESS: u32 = 0x01;

/// The requested driver version is newer then supported
pub const INIT_STATUS_DRIVER_OUTDATED: u32 = 0x02;

/// The requested driver version is older then supported
pub const INIT_STATUS_CONTROLLER_OUTDATED: u32 = 0x03;

/// Additional information provided by the controller, which can be changed depending on the version.
pub struct ControllerInfo {}

/// Additional driver information, which can be changed depending on the version.
pub struct DriverInfo {}

/// Opens a session: the controller names the interface version it was built
/// for.
#[derive(Debug, Clone, Copy)]
pub struct RequestInitialize {
    pub target_version: u32,
    /// Address of the `ControllerInfo`.
    pub controller_info: usize,
    pub controller_info_length: usize,
    /// Address of the `DriverInfo` that the driver fills.
    pub driver_info: usize,
    pub driver_info_length: usize,
}

/// Driver initialisation response.
///
/// These two fields are all there will ever be: a controller of any age must
/// be able to read them from a driver of any age. Anything else travels in
/// `ControllerInfo` and `DriverInfo`, once the versions are known to agree.
#[derive(Debug, Clone, Copy, PartialEq, Eq, Structural)]
pub struct ResponseInitialize {
    pub driver_version: u32,
    pub status_code: u32,
}

impl Default for ResponseInitialize {
    fn default() -> (response: Self)
        ensures
            response == (ResponseInitialize { driver_version: 0, status_code: 0 }),
            response.status_code != INIT_STATUS_SUCCESS,
    {
        ResponseInitialize { driver_version: 0, status_code: 0 }
    }
}

impl DriverRequest for RequestInitialize {
    type Result = ResponseInitialize;

    open spec fn kind() -> RequestKind {
        RequestKind::Initialize
    }

    fn function_code() -> (code: u16) {
        0x07
    }
}

/// Hands a report to the driver: a type name and a payload.
#[derive(Debug, Clone, Copy)]
pub struct RequestReportSend {
    /// Address of the report type's name.
    pub report_type: usize,
    pub report_type_length: usize,
    /// Address of the payload.
    pub report_payload: usize,
    pub report_payload_length: usize,
}

#[derive(Debug, Default, Clone, Copy, PartialEq, Eq, Structural)]
pub struct ResponseReportSend;

impl DriverRequest for RequestReportSend {
    type Result = ResponseReportSend;

    open spec fn kind() -> RequestKind {
        RequestKind::ReportSend
    }

    fn function_code() -> (code: u16) {
        0x08
    }
}

/// Writes the source buffer to one address of a process.
#[derive(Debug, Clone, Copy)]
pub struct RequestWrite {
    pub process_id: ProcessId,
    pub mode: MemoryAccessMode,
    pub address: usize,
    /// Address of the source buffer.
    pub buffer: usize,
    /// Number of bytes to write.
    pub count: usize,
}

#[derive(Debug, Clone, Copy, PartialEq, Eq, Structural)]
pub enum ResponseWrite {
    /// All bytes were written.
    Success,
    /// The bytes could not be stored at the address; none was written.
    InvalidAddress,
    UnknownProcess,
    UnsupportedAccessMode,
}

impl Default for ResponseWrite {
    fn default() -> (response: Self)
        ensures
            response == ResponseWrite::InvalidAddress,
    {
        ResponseWrite::InvalidAddress
    }
}

impl DriverRequest for RequestWrite {
    type Result = ResponseWrite;

    open spec fn kind() -> RequestKind {
        RequestKind::Write
    }

    fn function_code() -> (code: u16) {
        0x09
    }
}

/// Lists the modules of the process that the filter selects.
#[derive(Debug, Clone, Copy)]
pub struct RequestProcessModules {
    pub filter: ProcessFilter,
    /// Number of elements module_buffer can hold
    pub module_buffer_length: usize,
    /// Address of the buffer that receives the modules.
    pub module_buffer: usize,
}

impl DriverRequest for RequestProcessModules {
    type Result = ResponseProcessModules;

    open spec fn kind() -> RequestKind {
        RequestKind::ProcessModules
    }

    fn function_code() -> (code: u16) {
        0x0A
    }
}

/// Selects a process by its identifier or by its name.
#[derive(Debug, Clone, Copy, PartialEq, Eq, Structural)]
pub enum ProcessFilter {
    Id { id: ProcessId },
    /// The name is lent for the call: its address and its length in bytes.
    Name { name: usize, name_length: usize },
}

} // verus!
