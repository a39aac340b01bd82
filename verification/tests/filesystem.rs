use libafl::inputs::BytesInput;
use qemu_fuzz_hooks::filesystem::{QemuFilesystemBytesHelper, MMAP_SIZE};

fn pattern(len: usize) -> Vec<u8> {
    (0..len).map(|i| (i % 251) as u8).collect()
}

#[test]
fn new_helper_holds_nothing() {
    let mut helper = QemuFilesystemBytesHelper::new(0x4000);
    assert_eq!(helper.mmap(), 0x4000);
    assert_eq!(helper.read(16), Vec::<u8>::new());
}

#[test]
fn default_helper_is_mapped_at_zero() {
    let mut helper = QemuFilesystemBytesHelper::default();
    assert_eq!(helper.mmap(), 0);
    assert_eq!(helper.munmap(0), Some(0));
    assert!(helper.read(1).is_empty());
}

#[test]
fn pre_exec_takes_the_test_case() {
    let mut helper = QemuFilesystemBytesHelper::new(0x4000);
    helper.pre_exec(&BytesInput::new(vec![9, 8, 7, 6]));
    assert_eq!(helper.read(u64::MAX), vec![9, 8, 7, 6]);
    assert_eq!(helper.mmap(), 0x4000);
}

#[test]
fn pre_exec_of_an_empty_test_case() {
    let mut helper = QemuFilesystemBytesHelper::new(1);
    helper.load(&[1, 2, 3]);
    helper.pre_exec(&BytesInput::new(vec![]));
    assert!(helper.read(3).is_empty());
}

#[test]
fn pre_exec_keeps_at_most_the_region() {
    assert_eq!(MMAP_SIZE, 1048576);
    let mut helper = QemuFilesystemBytesHelper::new(1);
    let long = pattern(MMAP_SIZE + 5);
    helper.pre_exec(&BytesInput::new(long.clone()));
    let got = helper.read(u64::MAX);
    assert_eq!(got.len(), MMAP_SIZE);
    assert!(got[..] == long[..MMAP_SIZE]);
}

#[test]
fn load_of_exactly_the_region_is_whole() {
    let mut helper = QemuFilesystemBytesHelper::new(1);
    let full = pattern(MMAP_SIZE);
    helper.load(&full);
    assert!(helper.read(MMAP_SIZE as u64) == full);
    assert!(helper.read(1).is_empty());
}

#[test]
fn test_cases_do_not_mix() {
    let mut helper = QemuFilesystemBytesHelper::new(1);
    helper.pre_exec(&BytesInput::new(vec![1, 2, 3, 4]));
    assert_eq!(helper.read(1), vec![1]);
    helper.pre_exec(&BytesInput::new(vec![5, 6]));
    assert_eq!(helper.read(10), vec![5, 6]);
}

#[test]
fn read_drains_from_the_front() {
    let mut helper = QemuFilesystemBytesHelper::new(1);
    helper.load(&[1, 2, 3, 4, 5]);
    assert_eq!(helper.read(2), vec![1, 2]);
    assert_eq!(helper.read(0), Vec::<u8>::new());
    assert_eq!(helper.read(2), vec![3, 4]);
    assert_eq!(helper.read(2), vec![5]);
    assert_eq!(helper.read(2), Vec::<u8>::new());
}

#[test]
fn pieces_of_a_read_make_no_difference() {
    let input = pattern(1000);
    for step in [1u64, 7, 64, 999, 1000, 5000] {
        let mut helper = QemuFilesystemBytesHelper::new(1);
        helper.load(&input);
        let mut got: Vec<u8> = Vec::new();
        loop {
            let piece = helper.read(step);
            if piece.is_empty() {
                break;
            }
            got.extend_from_slice(&piece);
        }
        assert_eq!(got, input);
    }
}

#[test]
fn munmap_knows_only_its_own_address() {
    let helper = QemuFilesystemBytesHelper::new(0x7000);
    assert_eq!(helper.munmap(helper.mmap()), Some(0));
    assert_eq!(helper.munmap(0x7001), None);
    assert_eq!(helper.munmap(0), None);
}
