use vstd::prelude::*;
use crate::requests::{ProcessFilter, ResponseProcessModules};
use crate::{ModuleInfo, ProcessId, ProcessModuleInfo};

verus! {

/// A process of the target system: its identifier and the bytes of its name.
#[derive(Debug, PartialEq, Eq)]
pub struct ProcessEntry {
    pub id: ProcessId,
    pub name: Vec<u8>,
}

impl Clone for ProcessEntry {
    fn clone(&self) -> (copy: Self)
        ensures
            copy.id == self.id,
            copy.name@ == self.name@,
    {
        ProcessEntry { id: self.id, name: self.name.clone() }
    }
}

/// Which processes a module enumeration is about.
#[derive(Debug, Clone, Copy, PartialEq, Eq)]
pub enum Selector<'a> {
    /// No filter: every process is a candidate.
    Unfiltered,
    /// The process with this identifier.
    Id(ProcessId),
    /// The processes whose name is exactly these bytes.
    Name(&'a [u8]),
}

impl<'a> Selector<'a> {
    /// The selector fits `process`.
    pub open spec fn selects(self, process: ProcessEntry) -> bool {
        match self {
            Selector::Unfiltered => true,
            Selector::Id(id) => process.id == id,
            Selector::Name(name) => process.name@ == name@,
        }
    }

    /// The selector that a filter of a request stands for. `name` holds the
    /// bytes that a filter by name lends; a filter by identifier lends none.
    pub open spec fn of_filter(filter: ProcessFilter, name: &'a [u8]) -> Option<Selector<'a>> {
        match filter {
            ProcessFilter::Id { id } => Some(Selector::Id(id)),
            ProcessFilter::Name { name: _, name_length } => if name@.len() == name_length {
                Some(Selector::Name(name))
            } else {
                None
            },
        }
    }

    /// Reads the filter of a request against the name bytes that came with
    /// it. A name of another length than the filter declares is refused.
    pub fn from_filter(filter: &ProcessFilter, name: &'a [u8]) -> (selector: Option<Selector<'a>>)
        ensures
            selector == Selector::of_filter(*filter, name),
    {
        match filter {
            ProcessFilter::Id { id } => Some(Selector::Id(*id)),
            ProcessFilter::Name { name: _, name_length } => {
                if name.len() == *name_length {
                    Some(Selector::Name(name))
                } else {
                    None
                }
            },
        }
    }

    /// Whether the selector fits `process`.
    pub fn fits(&self, process: &ProcessEntry) -> (fits: bool)
        ensures
            fits == self.selects(*process),
    {
        match self {
            Selector::Unfiltered => true,
            Selector::Id(id) => process.id == *id,
            Selector::Name(name) => same_bytes(process.name.as_slice(), name),
        }
    }
}

/// Whether two byte strings are equal.
fn same_bytes(left: &[u8], right: &[u8]) -> (same: bool)
    ensures
        same == (left@ == right@),
{
    if left.len() != right.len() {
        return false;
    }
    let mut index: usize = 0;
    while index < left.len()
        invariant
            index <= left.len(),
            left.len() == right.len(),
            forall|i: int| 0 <= i < index ==> left@[i] == right@[i],
        decreases left.len() - index,
    {
        if left[index] != right[index] {
            return false;
        }
        index += 1;
    }
    assert(left@ =~= right@);
    true
}

/// The processes that a selector fits, in the order of the list.
pub open spec fn candidates(selector: Selector, processes: Seq<ProcessEntry>) -> Seq<ProcessEntry> {
    processes.filter(|process: ProcessEntry| selector.selects(process))
}

/// The process that a selector picks from a list: the one process that it
/// fits. Where it fits none the answer is `NoProcess`, and where it fits
/// several the answer is `UbiquitousProcesses` with their number.
pub open spec fn selection(selector: Selector, processes: Seq<ProcessEntry>) -> Result<
    ProcessId,
    ResponseProcessModules,
> {
    let found = candidates(selector, processes);
    if found.len() == 0 {
        Err(ResponseProcessModules::NoProcess)
    } else if found.len() == 1 {
        Ok(found[0].id)
    } else {
        Err(ResponseProcessModules::UbiquitousProcesses(found.len() as usize))
    }
}

/// Picks the process that a module enumeration is about.
pub fn select_process(selector: &Selector, processes: &[ProcessEntry]) -> (picked: Result<
    ProcessId,
    ResponseProcessModules,
>)
    ensures
        picked == selection(*selector, processes@),
{
    let ghost fits = |process: ProcessEntry| selector.selects(process);
    let mut count: usize = 0;
    let mut first: ProcessId = 0;
    let mut index: usize = 0;
    while index < processes.len()
        invariant
            index <= processes.len(),
            fits == |process: ProcessEntry| selector.selects(process),
            count == processes@.take(index as int).filter(fits).len(),
            count <= index,
            count > 0 ==> first == processes@.take(index as int).filter(fits)[0].id,
        decreases processes.len() - index,
    {
        proof {
            let longer = processes@.take(index + 1);
            assert(longer.drop_last() =~= processes@.take(index as int));
            assert(longer.last() == processes@[index as int]);
            reveal(Seq::filter);
        }
        if selector.fits(&processes[index]) {
            if count == 0 {
                first = processes[index].id;
            }
            count += 1;
        }
        index += 1;
    }
    assert(processes@.take(index as int) =~= processes@);
    if count == 0 {
        Err(ResponseProcessModules::NoProcess)
    } else if count == 1 {
        Ok(first)
    } else {
        Err(ResponseProcessModules::UbiquitousProcesses(count))
    }
}

/// The answer to an enumeration of the modules of one process, and what the
/// caller's buffer holds after it.
///
/// Where the buffer can hold the modules, they are written to its start, in
/// order, and the answer counts them. Where it cannot, nothing is written,
/// and the answer is the number of modules that the buffer must hold.
pub open spec fn enumeration(process_id: ProcessId, modules: Seq<ModuleInfo>, buffer: Seq<ModuleInfo>)
    -> (ResponseProcessModules, Seq<ModuleInfo>) {
    if modules.len() <= buffer.len() {
        (
            ResponseProcessModules::Success(
                ProcessModuleInfo { process_id, module_count: modules.len() as usize },
            ),
            modules + buffer.skip(modules.len() as int),
        )
    } else {
        (ResponseProcessModules::BufferTooSmall { expected: modules.len() as usize }, buffer)
    }
}

/// Hands the modules of a process to the caller's buffer, which keeps its
/// length.
pub fn enumerate_modules(process_id: ProcessId, modules: &[ModuleInfo], buffer: &mut [ModuleInfo])
    -> (response: ResponseProcessModules)
    ensures
        (response, final(buffer)@) == enumeration(process_id, modules@, old(buffer)@),
        final(buffer)@.len() == old(buffer)@.len(),
        response matches ResponseProcessModules::Success(info) ==> info.process_id == process_id
            && info.module_count == modules@.len() && modules@.len() <= old(buffer)@.len(),
        response matches ResponseProcessModules::BufferTooSmall { expected } ==> expected
            == modules@.len() && modules@.len() > old(buffer)@.len() && final(buffer)@ == old(
            buffer,
        )@,
        response is Success || response is BufferTooSmall,
{
    if modules.len() > buffer.len() {
        return ResponseProcessModules::BufferTooSmall { expected: modules.len() };
    }
    let mut index: usize = 0;
    while index < modules.len()
        invariant
            index <= modules.len() <= buffer@.len(),
            buffer@.len() == old(buffer)@.len(),
            forall|i: int| 0 <= i < index ==> buffer@[i] == modules@[i],
            forall|i: int| index <= i < buffer@.len() ==> buffer@[i] == old(buffer)@[i],
        decreases modules.len() - index,
    {
        buffer[index] = modules[index];
        index += 1;
    }
    assert(buffer@ =~= modules@ + old(buffer)@.skip(modules@.len() as int));
    ResponseProcessModules::Success(
        ProcessModuleInfo { process_id, module_count: modules.len() },
    )
}

/// Every list that `list_modules` can give for a process is the one that
/// `modules_of` gives.
pub open spec fn lists_as<L: Fn(ProcessId) -> Vec<ModuleInfo>>(
    list_modules: L,
    modules_of: spec_fn(ProcessId) -> Seq<ModuleInfo>,
) -> bool {
    forall|id: ProcessId, modules: Vec<ModuleInfo>|
        call_ensures(list_modules, (id,), modules) ==> modules@ == modules_of(id)
}

/// The answer to a module enumeration, and what the caller's buffer holds
/// after it: the selector picks the process, and the modules of that
/// process are handed over. Where no process is picked the buffer stays as
/// it is.
pub open spec fn modules_result(
    selector: Selector,
    processes: Seq<ProcessEntry>,
    modules_of: spec_fn(ProcessId) -> Seq<ModuleInfo>,
    buffer: Seq<ModuleInfo>,
) -> (ResponseProcessModules, Seq<ModuleInfo>) {
    match selection(selector, processes) {
        Err(answer) => (answer, buffer),
        Ok(id) => enumeration(id, modules_of(id), buffer),
    }
}

/// Serves a module enumeration.
///
/// `processes` are the processes of the target system, `list_modules`
/// lists the loaded modules of one of them, and `buffer` is the buffer that
/// the request lends. The buffer keeps its length, and only `Success`
/// changes what it holds.
pub fn process_modules<L: Fn(ProcessId) -> Vec<ModuleInfo>>(
    selector: &Selector,
    processes: &[ProcessEntry],
    list_modules: L,
    buffer: &mut [ModuleInfo],
) -> (response: ResponseProcessModules)
    requires
        forall|id: ProcessId| call_requires(list_modules, (id,)),
    ensures
        final(buffer)@.len() == old(buffer)@.len(),
        response is Success || final(buffer)@ == old(buffer)@,
        response matches ResponseProcessModules::Success(info) ==> info.module_count <= old(
            buffer,
        )@.len(),
        response matches ResponseProcessModules::BufferTooSmall { expected } ==> expected > old(
            buffer,
        )@.len(),
        selection(*selector, processes@) matches Err(answer) ==> response == answer,
        selection(*selector, processes@) matches Ok(id) ==> exists|modules: Vec<ModuleInfo>|
            #[trigger] call_ensures(list_modules, (id,), modules) && (response, final(buffer)@)
                == enumeration(id, modules@, old(buffer)@),
        forall|modules_of: spec_fn(ProcessId) -> Seq<ModuleInfo>|
            lists_as(list_modules, modules_of) ==> (response, final(buffer)@)
                == #[trigger] modules_result(*selector, processes@, modules_of, old(buffer)@),
{
    match select_process(selector, processes) {
        Err(answer) => answer,
        Ok(id) => {
            let modules = list_modules(id);
            enumerate_modules(id, modules.as_slice(), buffer)
        },
    }
}

/// A buffer without room, asked to take the modules of a process that has
/// some, is answered with the number of those modules, and not with a
/// success that holds fewer.
pub proof fn empty_buffer_learns_module_count(process_id: ProcessId, modules: Seq<ModuleInfo>)
    requires
        1 <= modules.len() <= usize::MAX,
    ensures
        enumeration(process_id, modules, Seq::empty()) == (
            ResponseProcessModules::BufferTooSmall { expected: modules.len() as usize },
            Seq::<ModuleInfo>::empty(),
        ),
{
}

/// An enumeration never outgrows the buffer. And a caller that was told how
/// many modules the buffer must hold, and comes back with a buffer of that
/// size, gets all of them.
pub proof fn retry_with_room_succeeds(
    process_id: ProcessId,
    modules: Seq<ModuleInfo>,
    small: Seq<ModuleInfo>,
    large: Seq<ModuleInfo>,
)
    requires
        modules.len() <= usize::MAX,
        enumeration(process_id, modules, small).0 matches ResponseProcessModules::BufferTooSmall {
            expected,
        } && large.len() == expected,
    ensures
        enumeration(process_id, modules, small).1 == small,
        enumeration(process_id, modules, large) == (
            ResponseProcessModules::Success(
                ProcessModuleInfo { process_id, module_count: large.len() as usize },
            ),
            modules,
        ),
{
    assert(modules + large.skip(modules.len() as int) =~= modules);
}

/// A filter by name that fits no process is answered with `NoProcess`, and
/// one that fits `n` processes, `n` above one, with
/// `UbiquitousProcesses(n)`. One that fits exactly one process is answered
/// with `Success` and the modules of that process, where the buffer can
/// hold them.
pub proof fn name_filter_picks_single_match(
    name: &[u8],
    processes: Seq<ProcessEntry>,
    modules_of: spec_fn(ProcessId) -> Seq<ModuleInfo>,
    buffer: Seq<ModuleInfo>,
)
    requires
        processes.len() <= usize::MAX,
    ensures
        ({
            let found = candidates(Selector::Name(name), processes);
            let (answer, written) = modules_result(
                Selector::Name(name),
                processes,
                modules_of,
                buffer,
            );
            &&& found.len() == 0 ==> answer == ResponseProcessModules::NoProcess
            &&& found.len() > 1 ==> answer == ResponseProcessModules::UbiquitousProcesses(
                found.len() as usize,
            ) && found.len() as usize == found.len()
            &&& found.len() == 1 && modules_of(found[0].id).len() <= buffer.len() ==> answer == (
                ResponseProcessModules::Success(
                    ProcessModuleInfo {
                        process_id: found[0].id,
                        module_count: modules_of(found[0].id).len() as usize,
                    },
                )
            ) && written.take(modules_of(found[0].id).len() as int) == modules_of(found[0].id)
            &&& found.len() != 1 ==> written == buffer
            &&& forall|i: int| 0 <= i < found.len() ==> found[i].name@ == name@
        }),
{
    let fits = |process: ProcessEntry| Selector::Name(name).selects(process);
    processes.lemma_filter_len(fits);
    let found = candidates(Selector::Name(name), processes);
    assert forall|i: int| 0 <= i < found.len() implies found[i].name@ == name@ by {
        processes.lemma_filter_pred(fits, i);
    }
    if found.len() == 1 && modules_of(found[0].id).len() <= buffer.len() {
        let modules = modules_of(found[0].id);
        assert((modules + buffer.skip(modules.len() as int)).take(modules.len() as int) =~= modules);
    }
}

} // verus!
