use libafl::inputs::BytesInput;
use qemu_fuzz_hooks::filesystem::QemuFilesystemBytesHelper;
use qemu_fuzz_hooks::hook::{
    syscall_hook, syscall_hook_without_file, HookAction, Syscall, SyscallNumbers,
};

const AARCH64: SyscallNumbers = SyscallNumbers {
    mmap: 222,
    munmap: 215,
    read: 63,
    exit: 93,
    exit_group: 94,
};

fn helper() -> QemuFilesystemBytesHelper {
    let mut helper = QemuFilesystemBytesHelper::new(0x5000);
    helper.pre_exec(&BytesInput::new(vec![10, 11, 12, 13, 14]));
    helper
}

fn deliver(action: HookAction) -> (u64, Vec<u8>, u64) {
    match action {
        HookAction::Deliver { addr, bytes, retval } => (addr, bytes, retval),
        other => panic!("not a delivery: {:?}", other),
    }
}

#[test]
fn every_hooked_call_is_told_apart() {
    assert_eq!(AARCH64.classify(222), Syscall::Mmap);
    assert_eq!(AARCH64.classify(215), Syscall::Munmap);
    assert_eq!(AARCH64.classify(63), Syscall::Read);
    assert_eq!(AARCH64.classify(93), Syscall::Exit);
    assert_eq!(AARCH64.classify(94), Syscall::Exit);
    assert_eq!(AARCH64.classify(64), Syscall::Other);
    assert_eq!(AARCH64.classify(-1), Syscall::Other);
    assert_eq!(AARCH64.classify(i32::MIN), Syscall::Other);
}

#[test]
fn first_named_call_wins() {
    let same = SyscallNumbers { mmap: 1, munmap: 1, read: 1, exit: 1, exit_group: 1 };
    assert_eq!(same.classify(1), Syscall::Mmap);
    let later = SyscallNumbers { mmap: 0, munmap: 2, read: 2, exit: 2, exit_group: 2 };
    assert_eq!(later.classify(2), Syscall::Munmap);
}

#[test]
fn numbers_beyond_the_call_range_match_nothing() {
    let wide = SyscallNumbers { mmap: 1 << 32, munmap: -1, read: 63, exit: 93, exit_group: 94 };
    assert_eq!(wide.classify(0), Syscall::Other);
    assert_eq!(wide.classify(-1), Syscall::Munmap);
}

#[test]
fn mmap_returns_the_managed_address() {
    let mut fs = helper();
    let action = syscall_hook(&AARCH64, &mut fs, 222, 0, 4096, 3);
    assert!(matches!(action, HookAction::Finish(Some(0x5000))));
    assert_eq!(fs.read(100), vec![10, 11, 12, 13, 14]);
}

#[test]
fn mapped_address_can_be_unmapped() {
    let mut fs = helper();
    let addr = match syscall_hook(&AARCH64, &mut fs, 222, 0, 4096, 3) {
        HookAction::Finish(Some(addr)) => addr,
        other => panic!("no address: {:?}", other),
    };
    let _ = syscall_hook(&AARCH64, &mut fs, 63, 3, 0x100, 4);
    let action = syscall_hook(&AARCH64, &mut fs, 215, addr, 4096, 0);
    assert!(matches!(action, HookAction::Finish(Some(0))));
    assert_eq!(fs.read(100), vec![14]);
}

#[test]
fn munmap_elsewhere_is_let_through() {
    let mut fs = helper();
    let action = syscall_hook(&AARCH64, &mut fs, 215, 0x5001, 4096, 0);
    assert!(matches!(action, HookAction::Finish(None)));
    assert_eq!(fs.read(100), vec![10, 11, 12, 13, 14]);
}

#[test]
fn read_delivers_to_the_given_buffer() {
    let mut fs = helper();
    let first = deliver(syscall_hook(&AARCH64, &mut fs, 63, 3, 0x9000, 2));
    assert_eq!(first, (0x9000, vec![10, 11], 2));
    let second = deliver(syscall_hook(&AARCH64, &mut fs, 63, 3, 0x9002, 8));
    assert_eq!(second, (0x9002, vec![12, 13, 14], 3));
    let end = deliver(syscall_hook(&AARCH64, &mut fs, 63, 3, 0x9005, 8));
    assert_eq!(end, (0x9005, vec![], 0));
}

#[test]
fn read_of_nothing_gets_nothing() {
    let mut fs = helper();
    let none = deliver(syscall_hook(&AARCH64, &mut fs, 63, 3, 0x9000, 0));
    assert_eq!(none, (0x9000, vec![], 0));
    let all = deliver(syscall_hook(&AARCH64, &mut fs, 63, 3, 0x9000, 5));
    assert_eq!(all, (0x9000, vec![10, 11, 12, 13, 14], 5));
}

#[test]
fn read_of_the_largest_count_gets_all() {
    let mut fs = helper();
    let all = deliver(syscall_hook(&AARCH64, &mut fs, 63, 3, 0, u64::MAX));
    assert_eq!(all, (0, vec![10, 11, 12, 13, 14], 5));
}

#[test]
fn exit_calls_abort() {
    let mut fs = helper();
    assert!(matches!(syscall_hook(&AARCH64, &mut fs, 93, 0, 0, 0), HookAction::Abort));
    assert!(matches!(syscall_hook(&AARCH64, &mut fs, 94, 7, 7, 7), HookAction::Abort));
    assert_eq!(fs.read(100), vec![10, 11, 12, 13, 14]);
}

#[test]
fn other_calls_are_let_through() {
    let mut fs = helper();
    for syscall in [0, 56, 57, 64, 214, 221, 223, -1, i32::MAX] {
        let action = syscall_hook(&AARCH64, &mut fs, syscall, 0x5000, 2, 3);
        assert!(matches!(action, HookAction::Finish(None)));
    }
    assert_eq!(fs.read(100), vec![10, 11, 12, 13, 14]);
}

#[test]
fn whole_test_case_arrives_through_the_hook() {
    let input: Vec<u8> = (0..100).collect();
    let mut fs = QemuFilesystemBytesHelper::new(0x5000);
    fs.pre_exec(&BytesInput::new(vec![255; 64]));
    let _ = syscall_hook(&AARCH64, &mut fs, 63, 3, 0, 10);
    fs.pre_exec(&BytesInput::new(input.clone()));
    let mut got: Vec<u8> = Vec::new();
    for count in [1u64, 0, 30, 9, 60, 60] {
        let _ = syscall_hook(&AARCH64, &mut fs, 222, 0, 0, 0);
        let (_, bytes, retval) = deliver(syscall_hook(&AARCH64, &mut fs, 63, 3, 0, count));
        assert_eq!(retval, bytes.len() as u64);
        got.extend_from_slice(&bytes);
    }
    assert_eq!(got, input);
}

#[test]
fn exit_calls_abort_without_a_file() {
    for syscall in [93, 94] {
        let action = syscall_hook_without_file(&AARCH64, syscall);
        assert!(matches!(action, Some(HookAction::Abort)));
    }
}

#[test]
fn other_calls_are_let_through_without_a_file() {
    for syscall in [0, 56, 57, 64, 214, 221, 223, -1, i32::MIN, i32::MAX] {
        let action = syscall_hook_without_file(&AARCH64, syscall);
        assert!(matches!(action, Some(HookAction::Finish(None))));
    }
}

#[test]
fn calls_on_the_file_need_one() {
    for syscall in [222, 215, 63] {
        assert!(syscall_hook_without_file(&AARCH64, syscall).is_none());
    }
}
