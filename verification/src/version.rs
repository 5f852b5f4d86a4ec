use vstd::prelude::*;
use crate::registry::RequestKind;
use crate::requests::{
    RequestInitialize, ResponseInitialize, INIT_STATUS_CONTROLLER_OUTDATED,
    INIT_STATUS_DRIVER_OUTDATED, INIT_STATUS_SUCCESS,
};

verus! {

/// An interface version by its four fields. The major field weighs most,
/// the build field least.
#[derive(Debug, Clone, Copy, PartialEq, Eq, Structural)]
pub struct InterfaceVersion {
    pub major: u8,
    pub minor: u8,
    pub patch: u8,
    pub build: u8,
}

impl InterfaceVersion {
    /// The version as one 32-bit value: a byte for each field, the major
    /// field in the highest byte.
    pub open spec fn packed(self) -> u32 {
        (self.major * 0x100_0000 + self.minor * 0x1_0000 + self.patch * 0x100 + self.build) as u32
    }

    /// The version that a 32-bit value holds.
    pub open spec fn unpacked(value: u32) -> InterfaceVersion {
        InterfaceVersion {
            major: (value / 0x100_0000) as u8,
            minor: (value / 0x1_0000 % 0x100) as u8,
            patch: (value / 0x100 % 0x100) as u8,
            build: (value % 0x100) as u8,
        }
    }

    /// This version is older than `other`: at the first field in which they
    /// differ, it has the smaller number.
    pub open spec fn precedes(self, other: InterfaceVersion) -> bool {
        ||| self.major < other.major
        ||| self.major == other.major && self.minor < other.minor
        ||| self.major == other.major && self.minor == other.minor && self.patch < other.patch
        ||| self.major == other.major && self.minor == other.minor && self.patch == other.patch
            && self.build < other.build
    }

    /// Packs the four fields into one value.
    pub fn pack(&self) -> (value: u32)
        ensures
            value == self.packed(),
            InterfaceVersion::unpacked(value) == *self,
    {
        let major: u32 = self.major as u32;
        let minor: u32 = self.minor as u32;
        let patch: u32 = self.patch as u32;
        let build: u32 = self.build as u32;
        proof {
            fields_survive_packing(self.major, self.minor, self.patch, self.build);
        }
        major * 0x100_0000 + minor * 0x1_0000 + patch * 0x100 + build
    }

    /// Takes a packed version apart.
    pub fn unpack(value: u32) -> (version: InterfaceVersion)
        ensures
            version == InterfaceVersion::unpacked(value),
            version.packed() == value,
    {
        proof {
            value_survives_unpacking(value);
        }
        InterfaceVersion {
            major: (value / 0x100_0000) as u8,
            minor: (value / 0x1_0000 % 0x100) as u8,
            patch: (value / 0x100 % 0x100) as u8,
            build: (value % 0x100) as u8,
        }
    }
}

proof fn fields_survive_packing(major: u8, minor: u8, patch: u8, build: u8)
    by (bit_vector)
    ensures
        major * 0x100_0000 + minor * 0x1_0000 + patch * 0x100 + build <= 0xFFFF_FFFF,
        (major * 0x100_0000 + minor * 0x1_0000 + patch * 0x100 + build) / 0x100_0000 == major,
        (major * 0x100_0000 + minor * 0x1_0000 + patch * 0x100 + build) / 0x1_0000 % 0x100
            == minor,
        (major * 0x100_0000 + minor * 0x1_0000 + patch * 0x100 + build) / 0x100 % 0x100 == patch,
        (major * 0x100_0000 + minor * 0x1_0000 + patch * 0x100 + build) % 0x100 == build,
{
}

proof fn value_survives_unpacking(value: u32)
    by (bit_vector)
    ensures
        value / 0x100_0000 <= 0xFF,
        (value / 0x100_0000) * 0x100_0000 + (value / 0x1_0000 % 0x100) * 0x1_0000 + (value / 0x100
            % 0x100) * 0x100 + value % 0x100 == value,
{
}

/// Packing loses nothing: a version packed and taken apart is the version,
/// and a value taken apart and packed is the value.
pub proof fn packing_round_trips(version: InterfaceVersion, value: u32)
    ensures
        InterfaceVersion::unpacked(version.packed()) == version,
        InterfaceVersion::unpacked(value).packed() == value,
{
    fields_survive_packing(version.major, version.minor, version.patch, version.build);
    value_survives_unpacking(value);
}

/// Packed versions compare as the versions do, field by field.
pub proof fn packing_keeps_order(older: InterfaceVersion, newer: InterfaceVersion)
    ensures
        older.precedes(newer) <==> older.packed() < newer.packed(),
        older == newer <==> older.packed() == newer.packed(),
{
}

/// The status of a handshake. A controller that asks for a version older
/// than the oldest that the driver serves is outdated. Else a driver that
/// runs an older version than the one asked for is outdated. Else they
/// agree.
pub open spec fn handshake_status(target_version: u32, driver_version: u32, minimum_version: u32)
    -> u32 {
    if target_version < minimum_version {
        INIT_STATUS_CONTROLLER_OUTDATED
    } else if target_version > driver_version {
        INIT_STATUS_DRIVER_OUTDATED
    } else {
        INIT_STATUS_SUCCESS
    }
}

/// Answers a handshake. `driver_version` is the version that the driver
/// runs, `minimum_version` the oldest interface version that it serves.
/// The answer carries the driver's version whatever the status is.
pub fn negotiate(request: &RequestInitialize, driver_version: u32, minimum_version: u32) -> (response:
    ResponseInitialize)
    ensures
        response.driver_version == driver_version,
        response.status_code == handshake_status(
            request.target_version,
            driver_version,
            minimum_version,
        ),
        response.status_code == INIT_STATUS_SUCCESS <==> minimum_version <= request.target_version
            <= driver_version,
{
    let status_code: u32 = if request.target_version < minimum_version {
        INIT_STATUS_CONTROLLER_OUTDATED
    } else if request.target_version > driver_version {
        INIT_STATUS_DRIVER_OUTDATED
    } else {
        INIT_STATUS_SUCCESS
    };
    ResponseInitialize { driver_version, status_code }
}

/// What a controller knows of the driver it talks to.
#[derive(Debug, Clone, Copy, PartialEq, Eq, Structural)]
pub enum Session {
    /// No handshake was answered yet.
    Unverified,
    /// The handshake succeeded with a driver of this version.
    Compatible { driver_version: u32 },
    /// The handshake was answered with a status other than success.
    Incompatible { driver_version: u32, status_code: u32 },
}

impl Session {
    /// The session after a handshake was answered with `response`.
    pub open spec fn after(response: ResponseInitialize) -> Session {
        if response.status_code == INIT_STATUS_SUCCESS {
            Session::Compatible { driver_version: response.driver_version }
        } else {
            Session::Incompatible {
                driver_version: response.driver_version,
                status_code: response.status_code,
            }
        }
    }

    /// The session may send a request of this shape: the handshake at any
    /// time, everything else once the handshake has succeeded.
    pub open spec fn admits(self, kind: RequestKind) -> bool {
        kind == RequestKind::Initialize || self is Compatible
    }

    /// Reads the answer to a handshake. Only the status of success makes
    /// the session compatible.
    pub fn established(response: &ResponseInitialize) -> (session: Session)
        ensures
            session == Session::after(*response),
    {
        if response.status_code == INIT_STATUS_SUCCESS {
            Session::Compatible { driver_version: response.driver_version }
        } else {
            Session::Incompatible {
                driver_version: response.driver_version,
                status_code: response.status_code,
            }
        }
    }

    /// Whether the session may send a request of this shape.
    pub fn permits(&self, kind: RequestKind) -> (permitted: bool)
        ensures
            permitted == self.admits(kind),
    {
        match kind {
            RequestKind::Initialize => true,
            _ => match self {
                Session::Compatible { .. } => true,
                _ => false,
            },
        }
    }
}

} // verus!
