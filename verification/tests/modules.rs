use kinterface::modules::{
    enumerate_modules, process_modules, select_process, ProcessEntry, Selector,
};
use kinterface::requests::{ProcessFilter, ResponseProcessModules};
use kinterface::{ModuleInfo, ProcessModuleInfo};

fn module(name: &[u8], base_address: usize, module_size: usize) -> ModuleInfo {
    let mut info = ModuleInfo::default();
    info.base_dll_name[..name.len()].copy_from_slice(name);
    info.base_address = base_address;
    info.module_size = module_size;
    info
}

fn same(left: &ModuleInfo, right: &ModuleInfo) -> bool {
    left.base_dll_name == right.base_dll_name
        && left.base_address == right.base_address
        && left.module_size == right.module_size
}

fn entry(id: i32, name: &str) -> ProcessEntry {
    ProcessEntry { id, name: name.as_bytes().to_vec() }
}

fn processes() -> Vec<ProcessEntry> {
    vec![
        entry(4, "System"),
        entry(812, "svchost.exe"),
        entry(1234, "game.exe"),
        entry(2020, "svchost.exe"),
        entry(3000, "svchost.exe"),
    ]
}

fn modules_of(id: i32) -> Vec<ModuleInfo> {
    match id {
        1234 => vec![
            module(b"game.exe", 0x4000_0000, 0x20_0000),
            module(b"kernel32.dll", 0x7FF0_0000, 0x10_0000),
            module(b"ntdll.dll", 0x7FF8_0000, 0x8_0000),
        ],
        4 => Vec::new(),
        _ => vec![module(b"svchost.exe", 0x1000_0000, 0x1000)],
    }
}

#[test]
fn empty_buffer_learns_the_module_count() {
    let modules = modules_of(1234);
    let mut buffer: [ModuleInfo; 0] = [];
    let response = enumerate_modules(1234, &modules, &mut buffer);
    assert_eq!(response, ResponseProcessModules::BufferTooSmall { expected: 3 });
    let single = modules_of(812);
    assert_eq!(
        enumerate_modules(812, &single, &mut buffer),
        ResponseProcessModules::BufferTooSmall { expected: 1 }
    );
}

#[test]
fn too_small_buffer_is_left_untouched() {
    let modules = modules_of(1234);
    let marker = module(b"marker", 1, 2);
    let mut buffer = [marker; 2];
    let response = enumerate_modules(1234, &modules, &mut buffer);
    assert_eq!(response, ResponseProcessModules::BufferTooSmall { expected: 3 });
    assert!(buffer.iter().all(|held| same(held, &marker)));
}

#[test]
fn probe_then_retry_succeeds() {
    let modules = modules_of(1234);
    let mut probe: [ModuleInfo; 0] = [];
    let expected = match enumerate_modules(1234, &modules, &mut probe) {
        ResponseProcessModules::BufferTooSmall { expected } => expected,
        other => panic!("expected a size, got {:?}", other),
    };
    let mut buffer = vec![ModuleInfo::default(); expected];
    let response = enumerate_modules(1234, &modules, &mut buffer);
    assert_eq!(
        response,
        ResponseProcessModules::Success(ProcessModuleInfo { process_id: 1234, module_count: 3 })
    );
    assert_eq!(buffer[1].base_dll_name(), "kernel32.dll");
}

#[test]
fn modules_fill_the_start_of_a_larger_buffer() {
    let modules = modules_of(1234);
    let marker = module(b"marker", 1, 2);
    let mut buffer = [marker; 5];
    let response = enumerate_modules(1234, &modules, &mut buffer);
    assert_eq!(
        response,
        ResponseProcessModules::Success(ProcessModuleInfo { process_id: 1234, module_count: 3 })
    );
    for (held, listed) in buffer.iter().zip(modules.iter()) {
        assert!(same(held, listed));
    }
    assert!(same(&buffer[3], &marker));
    assert!(same(&buffer[4], &marker));
}

#[test]
fn process_without_modules_succeeds_with_an_empty_buffer() {
    let mut buffer: [ModuleInfo; 0] = [];
    assert_eq!(
        enumerate_modules(4, &[], &mut buffer),
        ResponseProcessModules::Success(ProcessModuleInfo { process_id: 4, module_count: 0 })
    );
}

#[test]
fn name_with_one_match_selects_it() {
    let picked = select_process(&Selector::Name(b"game.exe"), &processes());
    assert_eq!(picked, Ok(1234));
}

#[test]
fn name_without_match_finds_no_process() {
    let picked = select_process(&Selector::Name(b"absent.exe"), &processes());
    assert_eq!(picked, Err(ResponseProcessModules::NoProcess));
    let picked = select_process(&Selector::Name(b"game.exe"), &[]);
    assert_eq!(picked, Err(ResponseProcessModules::NoProcess));
}

#[test]
fn name_with_several_matches_reports_their_number() {
    let picked = select_process(&Selector::Name(b"svchost.exe"), &processes());
    assert_eq!(picked, Err(ResponseProcessModules::UbiquitousProcesses(3)));
}

#[test]
fn names_match_byte_for_byte() {
    let all = processes();
    assert_eq!(
        select_process(&Selector::Name(b"GAME.EXE"), &all),
        Err(ResponseProcessModules::NoProcess)
    );
    assert_eq!(
        select_process(&Selector::Name(b"game"), &all),
        Err(ResponseProcessModules::NoProcess)
    );
    assert_eq!(
        select_process(&Selector::Name(b"game.exe\0"), &all),
        Err(ResponseProcessModules::NoProcess)
    );
    assert!(Selector::Name(b"game.exe").fits(&all[2]));
    assert!(!Selector::Name(b"game.exe").fits(&all[1]));
}

#[test]
fn identifier_selects_its_process() {
    let all = processes();
    assert_eq!(select_process(&Selector::Id(2020), &all), Ok(2020));
    assert_eq!(select_process(&Selector::Id(7), &all), Err(ResponseProcessModules::NoProcess));
}

#[test]
fn no_filter_takes_every_process() {
    let all = processes();
    assert_eq!(
        select_process(&Selector::Unfiltered, &all),
        Err(ResponseProcessModules::UbiquitousProcesses(5))
    );
    assert_eq!(select_process(&Selector::Unfiltered, &all[2..3]), Ok(1234));
    assert_eq!(
        select_process(&Selector::Unfiltered, &[]),
        Err(ResponseProcessModules::NoProcess)
    );
}

#[test]
fn filter_is_checked_against_the_lent_name() {
    let by_name = ProcessFilter::Name { name: 0x5000, name_length: 8 };
    assert_eq!(Selector::from_filter(&by_name, b"game.exe"), Some(Selector::Name(b"game.exe")));
    assert_eq!(Selector::from_filter(&by_name, b"game"), None);
    assert_eq!(Selector::from_filter(&by_name, b"game.exe\0"), None);
    let by_id = ProcessFilter::Id { id: 1234 };
    assert_eq!(Selector::from_filter(&by_id, b""), Some(Selector::Id(1234)));
}

#[test]
fn enumeration_by_name_lists_the_single_match() {
    let mut buffer = [ModuleInfo::default(); 4];
    let response =
        process_modules(&Selector::Name(b"game.exe"), &processes(), modules_of, &mut buffer);
    assert_eq!(
        response,
        ResponseProcessModules::Success(ProcessModuleInfo { process_id: 1234, module_count: 3 })
    );
    assert_eq!(buffer[0].base_dll_name(), "game.exe");
    assert_eq!(buffer[2].base_dll_name(), "ntdll.dll");
    assert_eq!(buffer[3].base_dll_name(), "");
}

#[test]
fn enumeration_by_ambiguous_name_lists_nothing() {
    let marker = module(b"marker", 1, 2);
    let mut buffer = [marker; 4];
    let response = process_modules(
        &Selector::Name(b"svchost.exe"),
        &processes(),
        |_| -> Vec<ModuleInfo> { panic!("no process was chosen") },
        &mut buffer,
    );
    assert_eq!(response, ResponseProcessModules::UbiquitousProcesses(3));
    assert!(buffer.iter().all(|held| same(held, &marker)));
}

#[test]
fn enumeration_by_unknown_name_finds_no_process() {
    let mut buffer = [ModuleInfo::default(); 4];
    let response = process_modules(
        &Selector::Name(b"absent.exe"),
        &processes(),
        |_| -> Vec<ModuleInfo> { panic!("no process was chosen") },
        &mut buffer,
    );
    assert_eq!(response, ResponseProcessModules::NoProcess);
}

#[test]
fn enumeration_with_empty_buffer_asks_for_room() {
    let mut buffer: [ModuleInfo; 0] = [];
    let response =
        process_modules(&Selector::Id(1234), &processes(), modules_of, &mut buffer);
    assert_eq!(response, ResponseProcessModules::BufferTooSmall { expected: 3 });
}

#[test]
fn process_entry_clones_to_its_equal() {
    let original = entry(1234, "game.exe");
    let copy = original.clone();
    assert_eq!(copy, original);
    assert_eq!(copy.id, 1234);
    assert_eq!(copy.name, b"game.exe");
}

#[test]
fn module_lister_is_asked_for_the_chosen_process_only() {
    let asked = std::cell::Cell::new(0);
    let mut buffer = [ModuleInfo::default(); 1];
    let response = process_modules(
        &Selector::Id(812),
        &processes(),
        |id| {
            asked.set(id);
            modules_of(id)
        },
        &mut buffer,
    );
    assert_eq!(
        response,
        ResponseProcessModules::Success(ProcessModuleInfo { process_id: 812, module_count: 1 })
    );
    assert_eq!(asked.get(), 812);
    assert_eq!(buffer[0].base_dll_name(), "svchost.exe");
}
