//! The contract between a controller and the driver it talks to: the
//! requests and their results, the function codes under which they travel,
//! and the rules by which the driver answers them.
//!
//! A controller opens a session with a handshake ([`version`]). It then
//! reads and writes the memory of a process ([`memory`]), lists the modules
//! of a process ([`modules`]), replays input and toggles the driver's
//! protection ([`requests`]). [`registry`] holds the function codes, and
//! [`buffer`] the test that a buffer must pass before the driver touches it.
//!
//! Where an answer depends on the target system, the functions here take
//! what the system gave as arguments, or take the means to ask it.

use std::borrow::Cow;
use vstd::prelude::*;
use vstd::slice::slice_subrange;
use vstd::utf8::{
    decode_utf8, encode_utf8, encode_utf8_decode_utf8, encode_utf8_valid_utf8, is_ascii_chars,
    is_ascii_chars_encode_utf8, valid_utf8,
};

pub mod buffer;
pub mod memory;
pub mod modules;
pub mod registry;
pub mod requests;
pub mod version;

verus! {

/// Number of offsets a dereference chain can hold.
pub const IO_MAX_DEREF_COUNT: usize = 31;

/// Oldest interface version a driver still serves: 0.2.1.0.
pub const KINTERFACE_MIN_VERSION: u32 = 0x0002_0100;

/// Identifier of a process of the target system.
pub type ProcessId = i32;

/// The text that `String::from_utf8_lossy` makes of a byte sequence.
pub uninterp spec fn utf8_lossy(bytes: Seq<u8>) -> Seq<char>;

/// Calls `String::from_utf8_lossy`. Trusted: the text depends on the bytes
/// alone, and bytes that are valid UTF-8 are decoded as they stand.
#[verifier::external_body]
fn decode_lossy(bytes: &[u8]) -> (text: Cow<'_, str>)
    ensures
        text@ == utf8_lossy(bytes@),
        valid_utf8(bytes@) ==> text@ == decode_utf8(bytes@),
{
    String::from_utf8_lossy(bytes)
}

/// `n` is the position of the first zero byte of `bytes`.
pub open spec fn is_first_zero(bytes: Seq<u8>, n: int) -> bool {
    &&& 0 <= n < bytes.len()
    &&& bytes[n] == 0
    &&& forall|i: int| 0 <= i < n ==> bytes[i] != 0
}

/// Length of the name held in a zero-padded buffer: the position of the
/// first zero byte, and 0 where the buffer holds no zero byte.
pub open spec fn name_length(bytes: Seq<u8>) -> int {
    if exists|n: int| is_first_zero(bytes, n) {
        choose|n: int| is_first_zero(bytes, n)
    } else {
        0
    }
}

/// The bytes of the name held in a zero-padded buffer.
pub open spec fn name_bytes(bytes: Seq<u8>) -> Seq<u8> {
    bytes.take(name_length(bytes))
}

/// A buffer has at most one first zero byte, so `name_length` is that position.
pub proof fn name_length_unique(bytes: Seq<u8>, n: int)
    requires
        is_first_zero(bytes, n),
    ensures
        name_length(bytes) == n,
{
    let m = choose|m: int| is_first_zero(bytes, m);
    assert(is_first_zero(bytes, m));
    if m < n {
        assert(bytes[m] != 0);
    } else if n < m {
        assert(bytes[n] != 0);
    }
}

/// The text of bytes that are all ASCII: a character for each byte.
pub open spec fn ascii_text(bytes: Seq<u8>) -> Seq<char> {
    Seq::new(bytes.len(), |i: int| bytes[i] as char)
}

/// Bytes that are all ASCII are valid UTF-8, and decode to a character for
/// each byte.
pub proof fn ascii_decodes_bytewise(bytes: Seq<u8>)
    requires
        forall|i: int| 0 <= i < bytes.len() ==> bytes[i] < 0x80,
    ensures
        valid_utf8(bytes),
        decode_utf8(bytes) == ascii_text(bytes),
{
    let text = ascii_text(bytes);
    assert(is_ascii_chars(text));
    is_ascii_chars_encode_utf8(text);
    assert(encode_utf8(text) =~= bytes);
    encode_utf8_valid_utf8(text);
    encode_utf8_decode_utf8(text);
}

/// Snapshot of one loaded module of a process.
#[derive(Debug, Clone, Copy, PartialEq, Eq)]
pub struct ModuleInfo {
    /// Name of the module, zero-padded.
    pub base_dll_name: [u8; 0xFF],
    pub base_address: usize,
    pub module_size: usize,
}

impl ModuleInfo {
    /// Number of bytes of the name buffer that belong to the name.
    pub fn base_dll_name_length(&self) -> (length: usize)
        ensures
            length == name_length(self.base_dll_name@),
            length < 0xFF,
    {
        let mut index: usize = 0;
        while index < 0xFF
            invariant
                index <= 0xFF,
                forall|i: int| 0 <= i < index ==> self.base_dll_name@[i] != 0,
            decreases 0xFF - index,
        {
            if self.base_dll_name[index] == 0 {
                proof {
                    name_length_unique(self.base_dll_name@, index as int);
                }
                return index;
            }
            index += 1;
        }
        assert(!exists|n: int| is_first_zero(self.base_dll_name@, n));
        0
    }

    /// The module's name: the bytes before the first zero byte of the name
    /// buffer, read as UTF-8 the lossy way. Empty where the buffer starts
    /// with a zero byte, and where it holds none.
    pub fn base_dll_name(&self) -> (name: Cow<'_, str>)
        ensures
            name@ == utf8_lossy(name_bytes(self.base_dll_name@)),
            valid_utf8(name_bytes(self.base_dll_name@)) ==> name@ == decode_utf8(
                name_bytes(self.base_dll_name@),
            ),
            (forall|i: int|
                0 <= i < name_length(self.base_dll_name@) ==> self.base_dll_name@[i] < 0x80)
                ==> name@ == ascii_text(name_bytes(self.base_dll_name@)),
            name_length(self.base_dll_name@) == 0 ==> name@ == Seq::<char>::empty(),
    {
        let length: usize = self.base_dll_name_length();
        proof {
            let bytes = name_bytes(self.base_dll_name@);
            if forall|i: int| 0 <= i < bytes.len() ==> bytes[i] < 0x80 {
                ascii_decodes_bytewise(bytes);
            }
        }
        decode_lossy(slice_subrange(&self.base_dll_name, 0, length))
    }
}

impl Default for ModuleInfo {
    fn default() -> (info: Self)
        ensures
            info.base_dll_name@ == Seq::new(0xFF, |i: int| 0u8),
            info.base_address == 0,
            info.module_size == 0,
    {
        ModuleInfo { base_dll_name: [0u8; 0xFF], base_address: 0, module_size: 0 }
    }
}

/// Summary of one module enumeration: whose modules, and how many were found.
#[derive(Debug, Clone, Copy, PartialEq, Eq, Structural)]
pub struct ProcessModuleInfo {
    pub process_id: ProcessId,
    pub module_count: usize,
}

impl Default for ProcessModuleInfo {
    fn default() -> (info: Self)
        ensures
            info == (ProcessModuleInfo { process_id: 0, module_count: 0 }),
    {
        ProcessModuleInfo { process_id: 0, module_count: 0 }
    }
}

/// One mouse event: what changes, and by how much the cursor moves.
#[derive(Debug, Clone, Copy, PartialEq, Eq)]
pub struct MouseState {
    /// Per button: pressed, released, or left as it is.
    pub buttons: [Option<bool>; 0x05],
    pub hwheel: bool,
    pub wheel: bool,
    pub last_x: i32,
    pub last_y: i32,
}

impl Default for MouseState {
    fn default() -> (state: Self)
        ensures
            state.buttons@ == Seq::new(0x05, |i: int| None::<bool>),
            !state.hwheel,
            !state.wheel,
            state.last_x == 0,
            state.last_y == 0,
    {
        MouseState { buttons: [None; 0x05], hwheel: false, wheel: false, last_x: 0, last_y: 0 }
    }
}

/// One keyboard event: a scan code, pressed or released.
#[derive(Debug, Clone, Copy, PartialEq, Eq, Structural)]
pub struct KeyboardState {
    pub scane_code: u16,
    pub down: bool,
}

impl Default for KeyboardState {
    fn default() -> (state: Self)
        ensures
            state == (KeyboardState { scane_code: 0, down: false }),
    {
        KeyboardState { scane_code: 0, down: false }
    }
}

} // verus!
