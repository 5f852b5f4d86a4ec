use vstd::prelude::*;

verus! {

/// Largest value of the 10-bit function code space.
pub const FUNCTION_CODE_MAX: u16 = 0x3FF;

/// The request shapes of the interface, one per assigned function code.
///
/// A code, once assigned, stays with its request shape: new shapes are
/// appended with new codes.
#[derive(Debug, Clone, Copy, PartialEq, Eq, Structural)]
pub enum RequestKind {
    HealthCheck,
    CSModule,
    Read,
    ProtectionToggle,
    MouseMove,
    KeyboardState,
    Initialize,
    ReportSend,
    Write,
    ProcessModules,
}

/// The result shapes of the interface.
#[derive(Debug, Clone, Copy, PartialEq, Eq, Structural)]
pub enum ResultKind {
    HealthCheck,
    ProcessModules,
    Read,
    ProtectionToggle,
    MouseMove,
    KeyboardState,
    Initialize,
    ReportSend,
    Write,
}

/// `code` is one of the function codes in use; 0 and the codes above 0x0A
/// are reserved.
pub open spec fn is_assigned(code: u16) -> bool {
    0x01 <= code <= 0x0A
}

impl RequestKind {
    /// The function code of a request shape.
    pub open spec fn code(self) -> u16 {
        match self {
            RequestKind::HealthCheck => 0x01,
            RequestKind::CSModule => 0x02,
            RequestKind::Read => 0x03,
            RequestKind::ProtectionToggle => 0x04,
            RequestKind::MouseMove => 0x05,
            RequestKind::KeyboardState => 0x06,
            RequestKind::Initialize => 0x07,
            RequestKind::ReportSend => 0x08,
            RequestKind::Write => 0x09,
            RequestKind::ProcessModules => 0x0A,
        }
    }

    /// The request shape that a function code stands for, if it is assigned.
    pub open spec fn of_code(code: u16) -> Option<RequestKind> {
        if code == 0x01 {
            Some(RequestKind::HealthCheck)
        } else if code == 0x02 {
            Some(RequestKind::CSModule)
        } else if code == 0x03 {
            Some(RequestKind::Read)
        } else if code == 0x04 {
            Some(RequestKind::ProtectionToggle)
        } else if code == 0x05 {
            Some(RequestKind::MouseMove)
        } else if code == 0x06 {
            Some(RequestKind::KeyboardState)
        } else if code == 0x07 {
            Some(RequestKind::Initialize)
        } else if code == 0x08 {
            Some(RequestKind::ReportSend)
        } else if code == 0x09 {
            Some(RequestKind::Write)
        } else if code == 0x0A {
            Some(RequestKind::ProcessModules)
        } else {
            None
        }
    }

    /// The result shape that answers a request shape.
    pub open spec fn result(self) -> ResultKind {
        match self {
            RequestKind::HealthCheck => ResultKind::HealthCheck,
            RequestKind::CSModule => ResultKind::ProcessModules,
            RequestKind::Read => ResultKind::Read,
            RequestKind::ProtectionToggle => ResultKind::ProtectionToggle,
            RequestKind::MouseMove => ResultKind::MouseMove,
            RequestKind::KeyboardState => ResultKind::KeyboardState,
            RequestKind::Initialize => ResultKind::Initialize,
            RequestKind::ReportSend => ResultKind::ReportSend,
            RequestKind::Write => ResultKind::Write,
            RequestKind::ProcessModules => ResultKind::ProcessModules,
        }
    }

    /// The function code under which a request of this shape travels.
    pub fn function_code(self) -> (code: u16)
        ensures
            code == self.code(),
            is_assigned(code),
            code <= FUNCTION_CODE_MAX,
    {
        match self {
            RequestKind::HealthCheck => 0x01,
            RequestKind::CSModule => 0x02,
            RequestKind::Read => 0x03,
            RequestKind::ProtectionToggle => 0x04,
            RequestKind::MouseMove => 0x05,
            RequestKind::KeyboardState => 0x06,
            RequestKind::Initialize => 0x07,
            RequestKind::ReportSend => 0x08,
            RequestKind::Write => 0x09,
            RequestKind::ProcessModules => 0x0A,
        }
    }

    /// Looks a function code up: the request shape it is assigned to, and
    /// `None` for a reserved code.
    pub fn from_function_code(code: u16) -> (kind: Option<RequestKind>)
        ensures
            kind == RequestKind::of_code(code),
            kind is Some <==> is_assigned(code),
            kind matches Some(k) ==> k.code() == code,
    {
        match code {
            0x01 => Some(RequestKind::HealthCheck),
            0x02 => Some(RequestKind::CSModule),
            0x03 => Some(RequestKind::Read),
            0x04 => Some(RequestKind::ProtectionToggle),
            0x05 => Some(RequestKind::MouseMove),
            0x06 => Some(RequestKind::KeyboardState),
            0x07 => Some(RequestKind::Initialize),
            0x08 => Some(RequestKind::ReportSend),
            0x09 => Some(RequestKind::Write),
            0x0A => Some(RequestKind::ProcessModules),
            _ => None,
        }
    }

    /// The result shape with which the driver answers a request of this shape.
    pub fn result_kind(self) -> (result: ResultKind)
        ensures
            result == self.result(),
    {
        match self {
            RequestKind::HealthCheck => ResultKind::HealthCheck,
            RequestKind::CSModule => ResultKind::ProcessModules,
            RequestKind::Read => ResultKind::Read,
            RequestKind::ProtectionToggle => ResultKind::ProtectionToggle,
            RequestKind::MouseMove => ResultKind::MouseMove,
            RequestKind::KeyboardState => ResultKind::KeyboardState,
            RequestKind::Initialize => ResultKind::Initialize,
            RequestKind::ReportSend => ResultKind::ReportSend,
            RequestKind::Write => ResultKind::Write,
            RequestKind::ProcessModules => ResultKind::ProcessModules,
        }
    }
}

/// Every function code lies in the 10-bit code space, and the request shapes
/// and the assigned codes correspond one to one: a code belongs to a shape
/// exactly if the shape's code is that code, and exactly the assigned codes
/// belong to a shape.
pub proof fn function_codes_are_a_bijection(kind: RequestKind, code: u16)
    ensures
        kind.code() <= FUNCTION_CODE_MAX,
        is_assigned(kind.code()),
        RequestKind::of_code(code) == Some(kind) <==> kind.code() == code,
        RequestKind::of_code(code) is Some <==> is_assigned(code),
{
}

/// Two request shapes with one function code are the same shape.
pub proof fn function_codes_are_distinct(first: RequestKind, second: RequestKind)
    requires
        first.code() == second.code(),
    ensures
        first == second,
{
}

} // verus!
