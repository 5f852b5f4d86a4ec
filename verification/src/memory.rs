use vstd::prelude::*;
use crate::requests::{MemoryAccessMode, RequestRead, RequestWrite, ResponseRead, ResponseWrite};
use crate::IO_MAX_DEREF_COUNT;

verus! {

/// The access strategies that a driver build offers.
#[derive(Debug, Clone, Copy, PartialEq, Eq, Structural)]
pub struct AccessModes {
    pub attach_process: bool,
    pub copy_virtual_memory: bool,
    pub physical: bool,
}

impl AccessModes {
    /// The build offers `mode`.
    pub open spec fn offers(self, mode: MemoryAccessMode) -> bool {
        match mode {
            MemoryAccessMode::AttachProcess => self.attach_process,
            MemoryAccessMode::CopyVirtualMemory => self.copy_virtual_memory,
            MemoryAccessMode::Physical => self.physical,
        }
    }

    /// Whether the build offers `mode`.
    pub fn supports(&self, mode: MemoryAccessMode) -> (supported: bool)
        ensures
            supported == self.offers(mode),
    {
        match mode {
            MemoryAccessMode::AttachProcess => self.attach_process,
            MemoryAccessMode::CopyVirtualMemory => self.copy_virtual_memory,
            MemoryAccessMode::Physical => self.physical,
        }
    }
}

/// The address `offset` bytes after `address`. Addresses have 64 bits and
/// the sum is taken modulo 2^64, so that an offset can stand for a step
/// backwards.
pub open spec fn offset_address(address: u64, offset: u64) -> u64 {
    ((address + offset) % 0x1_0000_0000_0000_0000) as u64
}

/// What a dereference chain asks for next.
#[derive(Debug, Clone, Copy, PartialEq, Eq, Structural)]
pub enum WalkStep {
    /// Read a pointer-sized value at this address of the process; the walk
    /// goes on from the value read.
    Dereference(u64),
    /// Every link is resolved: the chain ends at this address.
    Resolved(u64),
}

/// A dereference chain in the course of its resolution, as a value.
pub struct WalkView {
    /// The offsets as the request holds them, populated or not.
    pub offsets: [u64; IO_MAX_DEREF_COUNT],
    /// Number of populated offsets.
    pub count: nat,
    /// Number of links resolved so far.
    pub resolved: nat,
    /// The address that the next offset is applied to.
    pub current: u64,
}

impl WalkView {
    /// The chain fits its capacity, and the walk has not run past its last
    /// link.
    pub open spec fn wf(self) -> bool {
        &&& self.count <= IO_MAX_DEREF_COUNT
        &&& (self.resolved < self.count || self.resolved == 0)
    }

    /// The walk of the chain `offsets[..count]` at its start from `base`.
    pub open spec fn initial(base: u64, offsets: [u64; IO_MAX_DEREF_COUNT], count: nat) -> WalkView {
        WalkView { offsets, count, resolved: 0, current: base }
    }

    /// What the walk asks for next. An empty chain ends where it starts. The
    /// last offset is added and not followed; every offset before it is
    /// added and the pointer found there is followed.
    pub open spec fn step(self) -> WalkStep {
        if self.count == 0 {
            WalkStep::Resolved(self.current)
        } else {
            let address = offset_address(self.current, self.offsets@[self.resolved as int]);
            if self.resolved + 1 < self.count {
                WalkStep::Dereference(address)
            } else {
                WalkStep::Resolved(address)
            }
        }
    }

    /// The walk after the pointer asked for was read as `pointer`. A walk
    /// that asks for no pointer stays as it is.
    pub open spec fn advance(self, pointer: u64) -> WalkView {
        if self.step() is Dereference {
            WalkView { resolved: self.resolved + 1, current: pointer, ..self }
        } else {
            self
        }
    }

    /// The walk after it took the pointers of `pointers`, one after the
    /// other.
    pub open spec fn after(self, pointers: Seq<u64>) -> WalkView
        decreases pointers.len(),
    {
        if pointers.len() == 0 {
            self
        } else {
            self.after(pointers.drop_last()).advance(pointers.last())
        }
    }

    /// `read_pointer` can have read `pointers`, one after the other, for a
    /// walk that starts here: each is an answer that it can give at the
    /// address that the walk asked for.
    pub open spec fn follows<F: Fn(u64) -> Option<u64>>(
        self,
        read_pointer: F,
        pointers: Seq<u64>,
    ) -> bool {
        forall|i: int|
            0 <= i < pointers.len() ==> ({
                let before = #[trigger] self.after(pointers.take(i));
                before.step() matches WalkStep::Dereference(address) && call_ensures(
                    read_pointer,
                    (address,),
                    Some(pointers[i]),
                )
            })
    }

    /// The answer to a read whose walk came to a halt here: the offsets of
    /// the request, and the number of links that were resolved.
    pub open spec fn failure(self) -> ResponseRead {
        ResponseRead::InvalidAddress {
            resolved_offsets: self.offsets,
            resolved_offset_count: self.resolved as usize,
        }
    }

    /// Where the walk comes to rest in a process whose memory answers a
    /// pointer read at an address with `memory(address)`, `None` standing
    /// for an address that cannot be read: at the end of the chain, or at
    /// the first pointer that cannot be read.
    pub open spec fn run(self, memory: spec_fn(u64) -> Option<u64>) -> WalkView
        decreases self.count - self.resolved,
    {
        match self.step() {
            WalkStep::Resolved(_) => self,
            WalkStep::Dereference(address) => match memory(address) {
                Some(pointer) => self.advance(pointer).run(memory),
                None => self,
            },
        }
    }

    /// What the resolution of the chain gives in such a process: the target
    /// address, or the answer that reports the link at which it failed.
    pub open spec fn resolution(self, memory: spec_fn(u64) -> Option<u64>) -> Result<
        u64,
        ResponseRead,
    > {
        match self.run(memory).step() {
            WalkStep::Resolved(target) => Ok(target),
            WalkStep::Dereference(_) => Err(self.run(memory).failure()),
        }
    }
}

/// Every answer that `read_pointer` can give at an address is the one that
/// `memory` gives.
pub open spec fn reads_as<F: Fn(u64) -> Option<u64>>(
    read_pointer: F,
    memory: spec_fn(u64) -> Option<u64>,
) -> bool {
    forall|address: u64, pointer: Option<u64>|
        call_ensures(read_pointer, (address,), pointer) ==> pointer == memory(address)
}

/// A dereference chain in the course of its resolution.
///
/// The walk decides; its user reads the memory. `step` says which pointer to
/// read or where the chain ends, `advance` takes the pointer that was read,
/// and `failure` is the answer when a read could not be made.
pub struct ChainWalk {
    offsets: [u64; IO_MAX_DEREF_COUNT],
    count: usize,
    resolved: usize,
    current: u64,
}

impl View for ChainWalk {
    type V = WalkView;

    closed spec fn view(&self) -> WalkView {
        WalkView {
            offsets: self.offsets,
            count: self.count as nat,
            resolved: self.resolved as nat,
            current: self.current,
        }
    }
}

impl ChainWalk {
    #[verifier::type_invariant]
    spec fn well_formed(self) -> bool {
        self@.wf()
    }

    /// Starts the walk of the chain `offsets[..count]` from `base`.
    pub fn start(base: u64, offsets: [u64; IO_MAX_DEREF_COUNT], count: usize) -> (walk: ChainWalk)
        requires
            count <= IO_MAX_DEREF_COUNT,
        ensures
            walk@ == WalkView::initial(base, offsets, count as nat),
            walk@.wf(),
    {
        ChainWalk { offsets, count, resolved: 0, current: base }
    }

    /// What the walk asks for next.
    pub fn step(&self) -> (step: WalkStep)
        ensures
            step == self@.step(),
            self@.wf(),
    {
        proof {
            use_type_invariant(self);
        }
        if self.count == 0 {
            WalkStep::Resolved(self.current)
        } else {
            let address: u64 = self.current.wrapping_add(self.offsets[self.resolved]);
            if self.resolved + 1 < self.count {
                WalkStep::Dereference(address)
            } else {
                WalkStep::Resolved(address)
            }
        }
    }

    /// Takes the pointer that was read at the address asked for.
    pub fn advance(self, pointer: u64) -> (next: ChainWalk)
        ensures
            next@ == self@.advance(pointer),
            next@.wf(),
    {
        proof {
            use_type_invariant(&self);
        }
        if self.count != 0 && self.resolved + 1 < self.count {
            ChainWalk {
                offsets: self.offsets,
                count: self.count,
                resolved: self.resolved + 1,
                current: pointer,
            }
        } else {
            self
        }
    }

    /// Walks the rest of the chain. `read_pointer` reads a pointer-sized
    /// value at an address of the process, and gives `None` where that
    /// address cannot be read. The walk stops at the end of the chain, or at
    /// the first pointer that could not be read.
    pub fn run<F: Fn(u64) -> Option<u64>>(self, read_pointer: &F) -> (rest: ChainWalk)
        requires
            forall|address: u64| call_requires(*read_pointer, (address,)),
        ensures
            rest@.wf(),
            rest@.offsets == self@.offsets,
            rest@.count == self@.count,
            self@.resolved <= rest@.resolved,
            exists|pointers: Seq<u64>|
                self@.follows(*read_pointer, pointers) && rest@ == #[trigger] self@.after(pointers),
            rest@.step() matches WalkStep::Dereference(address) ==> call_ensures(
                *read_pointer,
                (address,),
                None,
            ),
            forall|memory: spec_fn(u64) -> Option<u64>|
                reads_as(*read_pointer, memory) ==> rest@ == self@.run(memory),
    {
        proof {
            use_type_invariant(&self);
        }
        let mut walk = self;
        let ghost mut pointers: Seq<u64> = Seq::empty();
        loop
            invariant
                forall|address: u64| call_requires(*read_pointer, (address,)),
                walk@.wf(),
                walk@.offsets == self@.offsets,
                walk@.count == self@.count,
                self@.resolved <= walk@.resolved,
                self@.follows(*read_pointer, pointers),
                walk@ == self@.after(pointers),
                forall|memory: spec_fn(u64) -> Option<u64>|
                    reads_as(*read_pointer, memory) ==> walk@.run(memory) == self@.run(memory),
            decreases walk@.count - walk@.resolved,
        {
            match walk.step() {
                WalkStep::Resolved(_) => {
                    return walk;
                },
                WalkStep::Dereference(address) => {
                    match read_pointer(address) {
                        Some(pointer) => {
                            proof {
                                let longer = pointers.push(pointer);
                                assert(longer.drop_last() =~= pointers);
                                assert(longer.take(pointers.len() as int) =~= pointers);
                                assert forall|i: int| 0 <= i < pointers.len() implies longer.take(i)
                                    == pointers.take(i) by {
                                    assert(longer.take(i) =~= pointers.take(i));
                                }
                                pointers = longer;
                            }
                            walk = walk.advance(pointer);
                        },
                        None => {
                            return walk;
                        },
                    }
                },
            }
        }
    }

    /// Resolves the rest of the chain, reading pointers with `read_pointer`
    /// as `run` does: the target address, or the answer that reports the
    /// first link whose pointer could not be read.
    pub fn resolve<F: Fn(u64) -> Option<u64>>(self, read_pointer: &F) -> (resolution: Result<
        u64,
        ResponseRead,
    >)
        requires
            forall|address: u64| call_requires(*read_pointer, (address,)),
        ensures
            forall|memory: spec_fn(u64) -> Option<u64>|
                reads_as(*read_pointer, memory) ==> resolution == self@.resolution(memory),
            resolution matches Err(response) ==> response matches ResponseRead::InvalidAddress {
                resolved_offsets,
                resolved_offset_count,
            } && resolved_offsets == self@.offsets && self@.resolved <= resolved_offset_count
                < self@.count,
            exists|pointers: Seq<u64>|
                self@.follows(*read_pointer, pointers) && match (#[trigger] self@.after(
                    pointers,
                )).step() {
                    WalkStep::Resolved(target) => resolution == Ok::<u64, ResponseRead>(target),
                    WalkStep::Dereference(address) => call_ensures(
                        *read_pointer,
                        (address,),
                        None,
                    ) && resolution == Err::<u64, ResponseRead>(self@.after(pointers).failure()),
                },
    {
        let rest = self.run(read_pointer);
        match rest.step() {
            WalkStep::Resolved(target) => Ok(target),
            WalkStep::Dereference(_) => Err(rest.failure()),
        }
    }

    /// The answer to the read when the walk came to a halt: at the pointer
    /// asked for, or at the target itself. It is `InvalidAddress` with the
    /// request's offsets and the index of the link that failed.
    pub fn failure(&self) -> (response: ResponseRead)
        ensures
            response == self@.failure(),
            response matches ResponseRead::InvalidAddress { resolved_offsets, resolved_offset_count }
                && resolved_offsets == self@.offsets && resolved_offset_count == self@.resolved
                && resolved_offset_count <= self@.count,
    {
        proof {
            use_type_invariant(self);
        }
        ResponseRead::InvalidAddress {
            resolved_offsets: self.offsets,
            resolved_offset_count: self.resolved,
        }
    }
}

impl RequestRead {
    /// The chain fits its capacity.
    pub open spec fn well_formed(self) -> bool {
        self.offset_count <= IO_MAX_DEREF_COUNT
    }

    /// Whether the chain fits its capacity. A request that fails this test
    /// is malformed and gets no answer of the protocol.
    pub fn is_well_formed(&self) -> (ok: bool)
        ensures
            ok == self.well_formed(),
    {
        self.offset_count <= IO_MAX_DEREF_COUNT
    }
}

/// Every answer that `read_bytes` can give for a range of addresses is the
/// one that `content` gives.
pub open spec fn fetches_as<F: Fn(u64, usize) -> Option<Vec<u8>>>(
    read_bytes: F,
    content: spec_fn(u64, usize) -> Option<Seq<u8>>,
) -> bool {
    forall|address: u64, count: usize, bytes: Option<Vec<u8>>|
        call_ensures(read_bytes, (address, count), bytes) ==> match bytes {
            Some(bytes) => content(address, count) == Some(bytes@),
            None => content(address, count) is None,
        }
}

/// The answer to a read, and the bytes that it puts into the destination
/// buffer, if any.
///
/// `process_base` is the base context of the process, `None` where the
/// process is not known. `memory` answers a pointer read at an address and
/// `content` a read of so many bytes from an address; `None` stands for
/// what cannot be read. An unknown process is reported first, then an
/// access mode that the driver does not offer. Then the chain is resolved
/// and the bytes at its end are read. A read of another length than was
/// asked for counts as unreadable.
pub open spec fn read_result(
    request: RequestRead,
    modes: AccessModes,
    process_base: Option<u64>,
    memory: spec_fn(u64) -> Option<u64>,
    content: spec_fn(u64, usize) -> Option<Seq<u8>>,
) -> (ResponseRead, Option<Seq<u8>>) {
    match process_base {
        None => (ResponseRead::UnknownProcess, None),
        Some(base) => if !modes.offers(request.mode) {
            (ResponseRead::AccessModeUnavailable, None)
        } else {
            let rest = WalkView::initial(base, request.offsets, request.offset_count as nat).run(
                memory,
            );
            match rest.step() {
                WalkStep::Dereference(_) => (rest.failure(), None),
                WalkStep::Resolved(target) => match content(target, request.count) {
                    Some(bytes) => if bytes.len() == request.count {
                        (ResponseRead::Success, Some(bytes))
                    } else {
                        (rest.failure(), None)
                    },
                    None => (rest.failure(), None),
                },
            }
        }
    }
}

/// A read of a known process in an offered mode took `pointers` and then
/// `bytes` from the process, and came to `response` with `after` in the
/// destination buffer that held `before`.
///
/// The pointers are answers that `read_pointer` can give along the chain.
/// Where the walk then asks for one more pointer, that one could not be
/// read. Where it stands at its target, `bytes` is an answer that
/// `read_bytes` can give there: bytes of the length asked for are the
/// success, and go to the destination. Every failure is answered with the
/// link at which the walk stands, and leaves the destination as it was.
pub open spec fn read_took<P: Fn(u64) -> Option<u64>, B: Fn(u64, usize) -> Option<Vec<u8>>>(
    request: RequestRead,
    base: u64,
    read_pointer: P,
    read_bytes: B,
    pointers: Seq<u64>,
    bytes: Option<Vec<u8>>,
    response: ResponseRead,
    before: Seq<u8>,
    after: Seq<u8>,
) -> bool {
    let start = WalkView::initial(base, request.offsets, request.offset_count as nat);
    let rest = start.after(pointers);
    &&& start.follows(read_pointer, pointers)
    &&& match rest.step() {
        WalkStep::Dereference(address) => {
            &&& call_ensures(read_pointer, (address,), None)
            &&& response == rest.failure()
            &&& after == before
        },
        WalkStep::Resolved(target) => {
            &&& call_ensures(read_bytes, (target, request.count), bytes)
            &&& match bytes {
                Some(found) => if found@.len() == request.count {
                    response == ResponseRead::Success && after == found@
                } else {
                    response == rest.failure() && after == before
                },
                None => response == rest.failure() && after == before,
            }
        },
    }
}

/// Serves a read request.
///
/// `process_base` is the base context of the process that the request
/// names, `None` where there is no such process. `read_pointer` reads a
/// pointer-sized value at an address of the process, `read_bytes` so many
/// bytes from an address; both give `None` where the process cannot be read
/// there, for whatever reason. `destination` is the buffer that the request
/// lends.
///
/// On `Success` the destination holds the bytes read at the end of the
/// chain. On every other answer it is left as it was.
pub fn read<P: Fn(u64) -> Option<u64>, B: Fn(u64, usize) -> Option<Vec<u8>>>(
    request: &RequestRead,
    modes: &AccessModes,
    process_base: Option<u64>,
    read_pointer: P,
    read_bytes: B,
    destination: &mut [u8],
) -> (response: ResponseRead)
    requires
        request.well_formed(),
        old(destination)@.len() == request.count,
        forall|address: u64| call_requires(read_pointer, (address,)),
        forall|address: u64, count: usize| call_requires(read_bytes, (address, count)),
    ensures
        final(destination)@.len() == old(destination)@.len(),
        response != ResponseRead::Success ==> final(destination)@ == old(destination)@,
        process_base is None ==> response == ResponseRead::UnknownProcess,
        process_base is Some && !modes.offers(request.mode) ==> response
            == ResponseRead::AccessModeUnavailable,
        process_base is Some && modes.offers(request.mode) ==> response == ResponseRead::Success
            || (response matches ResponseRead::InvalidAddress {
            resolved_offsets,
            resolved_offset_count,
        } && resolved_offsets == request.offsets && resolved_offset_count
            <= request.offset_count),
        process_base matches Some(base) ==> modes.offers(request.mode) ==> exists|
            pointers: Seq<u64>,
            bytes: Option<Vec<u8>>,
        |
            read_took(
                *request,
                base,
                read_pointer,
                read_bytes,
                pointers,
                bytes,
                response,
                old(destination)@,
                final(destination)@,
            ),
        forall|memory: spec_fn(u64) -> Option<u64>, content: spec_fn(u64, usize) -> Option<Seq<u8>>|
            reads_as(read_pointer, memory) && fetches_as(read_bytes, content) ==> {
                let (answer, written) = #[trigger] read_result(
                    *request,
                    *modes,
                    process_base,
                    memory,
                    content,
                );
                &&& response == answer
                &&& final(destination)@ == match written {
                    Some(bytes) => bytes,
                    None => old(destination)@,
                }
            },
{
    let base: u64 = match process_base {
        Some(base) => base,
        None => {
            return ResponseRead::UnknownProcess;
        },
    };
    if !modes.supports(request.mode) {
        return ResponseRead::AccessModeUnavailable;
    }
    let walk = ChainWalk::start(base, request.offsets, request.offset_count).run(&read_pointer);
    let ghost start = WalkView::initial(base, request.offsets, request.offset_count as nat);
    let ghost pointers = choose|pointers: Seq<u64>|
        start.follows(read_pointer, pointers) && walk@ == #[trigger] start.after(pointers);
    let target: u64 = match walk.step() {
        WalkStep::Resolved(target) => target,
        WalkStep::Dereference(_) => {
            let response = walk.failure();
            assert(read_took(
                *request,
                base,
                read_pointer,
                read_bytes,
                pointers,
                None,
                response,
                old(destination)@,
                destination@,
            ));
            return response;
        },
    };
    let data = read_bytes(target, request.count);
    let ghost taken = data;
    match data {
        Some(bytes) => {
            if bytes.len() != request.count {
                let response = walk.failure();
                assert(read_took(
                    *request,
                    base,
                    read_pointer,
                    read_bytes,
                    pointers,
                    taken,
                    response,
                    old(destination)@,
                    destination@,
                ));
                return response;
            }
            let mut index: usize = 0;
            while index < bytes.len()
                invariant
                    index <= bytes.len(),
                    bytes.len() == destination@.len(),
                    forall|i: int| 0 <= i < index ==> destination@[i] == bytes@[i],
                decreases bytes.len() - index,
            {
                destination[index] = bytes[index];
                index += 1;
            }
            assert(destination@ =~= bytes@);
            assert(read_took(
                *request,
                base,
                read_pointer,
                read_bytes,
                pointers,
                taken,
                ResponseRead::Success,
                old(destination)@,
                destination@,
            ));
            ResponseRead::Success
        },
        None => {
            let response = walk.failure();
            assert(read_took(
                *request,
                base,
                read_pointer,
                read_bytes,
                pointers,
                taken,
                response,
                old(destination)@,
                destination@,
            ));
            response
        },
    }
}

/// What a write request asks of the driver.
#[derive(Debug, Clone, Copy, PartialEq, Eq, Structural)]
pub enum WriteStep {
    /// Nothing is written; this is the answer.
    Finished(ResponseWrite),
    /// Store the `count` bytes of the source buffer at `address` of the
    /// process, all of them or none, and answer by `finish_write`.
    Store { address: u64, count: usize },
}

/// What a write request asks for.
///
/// `process_base` is the base context of the process, `None` where the
/// process is not known. A request without bytes is done at once. Else an
/// unknown process is reported first, then an access mode that the driver
/// does not offer. Else the bytes go to the request's address, resolved
/// against the base of the process.
pub open spec fn write_step(request: RequestWrite, modes: AccessModes, process_base: Option<u64>)
    -> WriteStep {
    if request.count == 0 {
        WriteStep::Finished(ResponseWrite::Success)
    } else {
        match process_base {
            None => WriteStep::Finished(ResponseWrite::UnknownProcess),
            Some(base) => if !modes.offers(request.mode) {
                WriteStep::Finished(ResponseWrite::UnsupportedAccessMode)
            } else {
                WriteStep::Store {
                    address: offset_address(base, request.address as u64),
                    count: request.count,
                }
            },
        }
    }
}

/// Decides a write request before anything is written.
///
/// Every answer but `Store` leaves the process as it is. A request with an
/// empty source buffer succeeds so.
pub fn begin_write(request: &RequestWrite, modes: &AccessModes, process_base: Option<u64>) -> (step:
    WriteStep)
    ensures
        step == write_step(*request, *modes, process_base),
        request.count == 0 ==> step == WriteStep::Finished(ResponseWrite::Success),
        step matches WriteStep::Store { count, .. } ==> count == request.count && count > 0,
{
    if request.count == 0 {
        return WriteStep::Finished(ResponseWrite::Success);
    }
    match process_base {
        None => WriteStep::Finished(ResponseWrite::UnknownProcess),
        Some(base) => {
            if !modes.supports(request.mode) {
                WriteStep::Finished(ResponseWrite::UnsupportedAccessMode)
            } else {
                WriteStep::Store {
                    address: base.wrapping_add(request.address as u64),
                    count: request.count,
                }
            }
        },
    }
}

/// The answer to a write after the store was tried: `Success` if the bytes
/// were stored, `InvalidAddress` if they could not be, in which case
/// nothing was.
pub fn finish_write(stored: bool) -> (response: ResponseWrite)
    ensures
        response == if stored {
            ResponseWrite::Success
        } else {
            ResponseWrite::InvalidAddress
        },
{
    if stored {
        ResponseWrite::Success
    } else {
        ResponseWrite::InvalidAddress
    }
}

/// A chain without offsets ends at the base address, whatever the memory
/// of the process holds.
pub proof fn empty_chain_ends_at_base(
    base: u64,
    offsets: [u64; IO_MAX_DEREF_COUNT],
    memory: spec_fn(u64) -> Option<u64>,
)
    ensures
        WalkView::initial(base, offsets, 0).step() == WalkStep::Resolved(base),
        WalkView::initial(base, offsets, 0).resolution(memory) == Ok::<u64, ResponseRead>(base),
{
}

/// A walk comes to rest within its chain, with the offsets it started with.
pub proof fn walk_rests_within_chain(walk: WalkView, memory: spec_fn(u64) -> Option<u64>)
    requires
        walk.wf(),
    ensures
        walk.run(memory).wf(),
        walk.run(memory).offsets == walk.offsets,
        walk.run(memory).count == walk.count,
        walk.resolved <= walk.run(memory).resolved,
        walk.run(memory).step() matches WalkStep::Dereference(address) ==> memory(address) is None,
    decreases walk.count - walk.resolved,
{
    match walk.step() {
        WalkStep::Resolved(_) => {},
        WalkStep::Dereference(address) => match memory(address) {
            Some(pointer) => {
                walk_rests_within_chain(walk.advance(pointer), memory);
            },
            None => {},
        },
    }
}

/// The walk reads the populated offsets only: two walks that stand at the
/// same link and address, over chains of one length with the same populated
/// offsets, come to rest at the same link and address, and ask for the same
/// there.
pub proof fn walk_reads_populated_offsets_only(
    first: WalkView,
    second: WalkView,
    memory: spec_fn(u64) -> Option<u64>,
)
    requires
        first.wf(),
        second.wf(),
        first.count == second.count,
        first.resolved == second.resolved,
        first.current == second.current,
        forall|i: int| 0 <= i < first.count ==> first.offsets@[i] == second.offsets@[i],
    ensures
        first.run(memory).resolved == second.run(memory).resolved,
        first.run(memory).current == second.run(memory).current,
        first.run(memory).step() == second.run(memory).step(),
    decreases first.count - first.resolved,
{
    match first.step() {
        WalkStep::Resolved(_) => {},
        WalkStep::Dereference(address) => match memory(address) {
            Some(pointer) => {
                walk_reads_populated_offsets_only(
                    first.advance(pointer),
                    second.advance(pointer),
                    memory,
                );
            },
            None => {},
        },
    }
}

/// A read of a known process in an offered mode that fails at the link
/// with index `k`, at a pointer of the chain or at the bytes at its end, is
/// answered with `InvalidAddress`, the request's offsets and `k`. `k` is
/// the number of pointers that were read, so it is less than the number of
/// offsets of a chain that has any. Nothing is written, and the answer is
/// not `Success`.
pub proof fn failed_read_reports_its_link(
    request: RequestRead,
    modes: AccessModes,
    base: u64,
    memory: spec_fn(u64) -> Option<u64>,
    content: spec_fn(u64, usize) -> Option<Seq<u8>>,
)
    requires
        request.well_formed(),
        modes.offers(request.mode),
        read_result(request, modes, Some(base), memory, content).0 != ResponseRead::Success,
    ensures
        ({
            let rest = WalkView::initial(base, request.offsets, request.offset_count as nat).run(
                memory,
            );
            let (answer, written) = read_result(request, modes, Some(base), memory, content);
            &&& answer == (ResponseRead::InvalidAddress {
                resolved_offsets: request.offsets,
                resolved_offset_count: rest.resolved as usize,
            })
            &&& written is None
            &&& request.offset_count > 0 ==> rest.resolved < request.offset_count
            &&& request.offset_count == 0 ==> rest.resolved == 0
            &&& match rest.step() {
                WalkStep::Dereference(address) => memory(address) is None,
                WalkStep::Resolved(target) => !(content(target, request.count) matches Some(bytes)
                    && bytes.len() == request.count),
            }
        }),
{
    walk_rests_within_chain(
        WalkView::initial(base, request.offsets, request.offset_count as nat),
        memory,
    );
}

} // verus!
