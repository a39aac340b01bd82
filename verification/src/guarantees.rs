//! What callers can count on: for every call of a function of this library, how its results relate
//! to its arguments, in plain terms.
//!
//! `call_ensures(f, args, result)` says that `result` is what some call of `f` with `args` came to.
//! Of an argument that the call changes, `old` is the value before and `final` the value after.

#[allow(unused_imports)]
use crate::filesystem::{input_bytes, QemuFilesystemBytesHelper};
#[allow(unused_imports)]
use crate::hook::{
    syscall_hook, syscall_hook_without_file, HookAction, Syscall, SyscallNumbers,
};
#[allow(unused_imports)]
use crate::laws::{after_writes, breakpoints_after, restoring_brings_registers_back};
#[allow(unused_imports)]
use crate::registers::{decimal, skip_notice, QemuGPRegisterHelper, RegisterWrite};
#[allow(unused_imports)]
use crate::session::{
    conclude, initial_inputs_due, startup_steps, token_files_due, Conclusion, EmulatorStep,
    LaunchError,
};
#[allow(unused_imports)]
use libafl::inputs::BytesInput;
use vstd::prelude::*;

verus! {

// The input file.

/// A new helper has the address that it was given, and nothing to read.
pub proof fn new_helper_is_empty(mmap_addr: u64, helper: QemuFilesystemBytesHelper)
    requires
        call_ensures(QemuFilesystemBytesHelper::new, (mmap_addr,), helper),
    ensures
        helper@.mmap_addr == mmap_addr,
        helper@.bytes.len() == 0,
{
}

/// So is the default helper, at address zero.
pub proof fn default_helper_is_empty(helper: QemuFilesystemBytesHelper)
    requires
        call_ensures(<QemuFilesystemBytesHelper as Default>::default, (), helper),
    ensures
        helper@.mmap_addr == 0,
        helper@.bytes.len() == 0,
{
}

/// Loading keeps the front of the input: byte for byte the same, all of it where it has at most
/// 2**20 bytes, and exactly the first 2**20 bytes where it has more. The address of the mapping
/// stays.
pub proof fn loading_keeps_the_front(helper: &mut QemuFilesystemBytesHelper, buf: &[u8])
    requires
        call_ensures(QemuFilesystemBytesHelper::load, (helper, buf), ()),
    ensures
        buf@.len() <= 0x10_0000 ==> final(helper)@.bytes.len() == buf@.len(),
        buf@.len() > 0x10_0000 ==> final(helper)@.bytes.len() == 0x10_0000,
        forall|i: int|
            0 <= i < final(helper)@.bytes.len() ==> #[trigger] final(helper)@.bytes[i] == buf@[i],
        final(helper)@.mmap_addr == old(helper)@.mmap_addr,
{
}

/// Preparing a test case does with the bytes of the test case what loading does with a buffer.
pub proof fn preparing_keeps_the_front(helper: &mut QemuFilesystemBytesHelper, input: &BytesInput)
    requires
        call_ensures(QemuFilesystemBytesHelper::pre_exec, (helper, input), ()),
    ensures
        input_bytes(*input).len() <= 0x10_0000 ==> final(helper)@.bytes.len() == input_bytes(
            *input,
        ).len(),
        input_bytes(*input).len() > 0x10_0000 ==> final(helper)@.bytes.len() == 0x10_0000,
        forall|i: int|
            0 <= i < final(helper)@.bytes.len() ==> #[trigger] final(helper)@.bytes[i]
                == input_bytes(*input)[i],
        final(helper)@.mmap_addr == old(helper)@.mmap_addr,
{
}

/// A read splits what was left: what it returns, followed by what is left then, is what was left
/// before. It returns as many bytes as it was asked for, or fewer only by leaving nothing. The
/// address of the mapping stays.
pub proof fn reading_splits_the_file(
    helper: &mut QemuFilesystemBytesHelper,
    count: u64,
    drained: Vec<u8>,
)
    requires
        call_ensures(QemuFilesystemBytesHelper::read, (helper, count), drained),
    ensures
        drained@ + final(helper)@.bytes == old(helper)@.bytes,
        drained@.len() <= count,
        drained@.len() < count ==> final(helper)@.bytes.len() == 0,
        final(helper)@.mmap_addr == old(helper)@.mmap_addr,
{
}

/// Every mapping gets the address of the helper, and unmapping succeeds for that address and no
/// other.
pub proof fn mapping_has_one_address(
    helper: &QemuFilesystemBytesHelper,
    mapped: u64,
    addr: u64,
    unmapped: Option<u64>,
)
    requires
        call_ensures(QemuFilesystemBytesHelper::mmap, (helper,), mapped),
        call_ensures(QemuFilesystemBytesHelper::munmap, (helper, addr), unmapped),
    ensures
        mapped == helper@.mmap_addr,
        addr == mapped ==> unmapped == Some(0u64),
        addr != mapped ==> unmapped is None,
{
}

// The hook.

/// A system call is told by its number, and by nothing else.
pub proof fn calls_are_told_by_number(numbers: &SyscallNumbers, syscall: i32, kind: Syscall)
    requires
        call_ensures(SyscallNumbers::classify, (numbers, syscall), kind),
    ensures
        kind is Mmap <==> syscall == numbers.mmap,
        kind is Munmap <==> syscall == numbers.munmap && syscall != numbers.mmap,
        kind is Read <==> syscall == numbers.read && syscall != numbers.mmap && syscall
            != numbers.munmap,
        kind is Exit <==> (syscall == numbers.exit || syscall == numbers.exit_group) && syscall
            != numbers.mmap && syscall != numbers.munmap && syscall != numbers.read,
        kind is Other <==> syscall != numbers.mmap && syscall != numbers.munmap && syscall
            != numbers.read && syscall != numbers.exit && syscall != numbers.exit_group,
{
}

/// `mmap` is answered with the very address of the helper, whatever its arguments and whatever is
/// left of the file, which it leaves alone.
pub proof fn mmap_gets_the_managed_address(
    numbers: &SyscallNumbers,
    helper: &mut QemuFilesystemBytesHelper,
    syscall: i32,
    x0: u64,
    x1: u64,
    x2: u64,
    action: HookAction,
)
    requires
        call_ensures(syscall_hook, (numbers, helper, syscall, x0, x1, x2), action),
        syscall == numbers.mmap,
    ensures
        action == HookAction::Finish(Some(old(helper)@.mmap_addr)),
        final(helper)@ == old(helper)@,
{
}

/// `munmap` succeeds, with result zero, for the address of the helper; for any other address the
/// real call runs. The file is left alone.
pub proof fn munmap_spares_the_managed_region(
    numbers: &SyscallNumbers,
    helper: &mut QemuFilesystemBytesHelper,
    syscall: i32,
    x0: u64,
    x1: u64,
    x2: u64,
    action: HookAction,
)
    requires
        call_ensures(syscall_hook, (numbers, helper, syscall, x0, x1, x2), action),
        syscall == numbers.munmap,
        syscall != numbers.mmap,
    ensures
        x0 == old(helper)@.mmap_addr ==> action == HookAction::Finish(Some(0)),
        x0 != old(helper)@.mmap_addr ==> action == HookAction::Finish(None),
        final(helper)@ == old(helper)@,
{
}

/// `read` hands over, at the address it was given, the front of what was left, and returns its
/// length. It is as long as was asked for, or shorter only by leaving nothing; what it does not
/// hand over is left. The address of the mapping stays.
pub proof fn read_hands_over_the_front(
    numbers: &SyscallNumbers,
    helper: &mut QemuFilesystemBytesHelper,
    syscall: i32,
    x0: u64,
    x1: u64,
    x2: u64,
    action: HookAction,
)
    requires
        call_ensures(syscall_hook, (numbers, helper, syscall, x0, x1, x2), action),
        syscall == numbers.read,
        syscall != numbers.mmap,
        syscall != numbers.munmap,
    ensures
        action matches HookAction::Deliver { addr, bytes, retval } && {
            &&& addr == x1
            &&& bytes@ + final(helper)@.bytes == old(helper)@.bytes
            &&& bytes@.len() <= x2
            &&& bytes@.len() < x2 ==> final(helper)@.bytes.len() == 0
            &&& retval == bytes@.len()
        },
        final(helper)@.mmap_addr == old(helper)@.mmap_addr,
{
}

/// `exit` and `exit_group` abort, with an input file or without one, whatever their arguments; no
/// other call does.
pub proof fn exit_is_never_let_through(
    numbers: &SyscallNumbers,
    helper: &mut QemuFilesystemBytesHelper,
    syscall: i32,
    x0: u64,
    x1: u64,
    x2: u64,
    action: HookAction,
    fileless: Option<HookAction>,
)
    requires
        call_ensures(syscall_hook, (numbers, helper, syscall, x0, x1, x2), action),
        call_ensures(syscall_hook_without_file, (numbers, syscall), fileless),
        syscall != numbers.mmap,
        syscall != numbers.munmap,
        syscall != numbers.read,
    ensures
        action is Abort <==> (syscall == numbers.exit || syscall == numbers.exit_group),
        fileless is Some,
        fileless->0 is Abort <==> (syscall == numbers.exit || syscall == numbers.exit_group),
        final(helper)@ == old(helper)@,
{
}

/// Every call that is not hooked runs unaltered, with an input file or without one.
pub proof fn unhooked_calls_run_unaltered(
    numbers: &SyscallNumbers,
    helper: &mut QemuFilesystemBytesHelper,
    syscall: i32,
    x0: u64,
    x1: u64,
    x2: u64,
    action: HookAction,
    fileless: Option<HookAction>,
)
    requires
        call_ensures(syscall_hook, (numbers, helper, syscall, x0, x1, x2), action),
        call_ensures(syscall_hook_without_file, (numbers, syscall), fileless),
        syscall != numbers.mmap,
        syscall != numbers.munmap,
        syscall != numbers.read,
        syscall != numbers.exit,
        syscall != numbers.exit_group,
    ensures
        action == HookAction::Finish(None),
        fileless == Some(HookAction::Finish(None)),
        final(helper)@ == old(helper)@,
{
}

/// Without an input file there is no answer to the calls that map, unmap or read it.
pub proof fn calls_on_the_file_need_one(
    numbers: &SyscallNumbers,
    syscall: i32,
    fileless: Option<HookAction>,
)
    requires
        call_ensures(syscall_hook_without_file, (numbers, syscall), fileless),
    ensures
        fileless is None <==> (syscall == numbers.mmap || syscall == numbers.munmap || syscall
            == numbers.read),
{
}

// The registers.

/// As many values are saved as registers were read, each the value that was read, or zero where
/// reading failed.
pub proof fn one_value_is_saved_per_register(
    reads: &Vec<Result<u64, String>>,
    helper: QemuGPRegisterHelper,
)
    requires
        call_ensures(QemuGPRegisterHelper::new, (reads,), helper),
    ensures
        helper@.len() == reads@.len(),
        forall|i: int|
            0 <= i < reads@.len() && reads@[i] is Ok ==> #[trigger] helper@[i] == reads@[i]->Ok_0,
        forall|i: int| 0 <= i < reads@.len() && reads@[i] is Err ==> #[trigger] helper@[i] == 0,
{
}

/// The default helper has no saved value.
pub proof fn default_helper_saves_nothing(helper: QemuGPRegisterHelper)
    requires
        call_ensures(<QemuGPRegisterHelper as Default>::default, (), helper),
    ensures
        helper@.len() == 0,
{
}

/// Restoring writes every saved register once, in the order of their indices, and nothing else.
pub proof fn one_write_is_made_per_register(
    helper: &QemuGPRegisterHelper,
    writes: Vec<RegisterWrite>,
)
    requires
        call_ensures(QemuGPRegisterHelper::restore, (helper,), writes),
    ensures
        writes@.len() == helper@.len(),
        forall|i: int|
            0 <= i < writes@.len() ==> (#[trigger] writes@[i]).reg_val == helper@[i]
                && writes@[i].reg_idx == i as i32,
{
}

/// Preparing a test case asks for the same writes as restoring does, and keeps the saved values.
pub proof fn preparing_restores(
    helper: &mut QemuGPRegisterHelper,
    prepared: Vec<RegisterWrite>,
    restored: Vec<RegisterWrite>,
)
    requires
        call_ensures(QemuGPRegisterHelper::pre_exec, (helper,), prepared),
        call_ensures(QemuGPRegisterHelper::restore, (&*old(helper),), restored),
    ensures
        prepared@ == restored@,
        final(helper)@ == old(helper)@,
{
}

/// Saving the registers and then restoring them, whatever they became in between, sets every
/// register that was read to what was read of it, or to zero where reading failed, unless the
/// emulator refuses to set it; and changes no other register.
pub proof fn only_what_was_read_is_restored(
    reads: &Vec<Result<u64, String>>,
    helper: QemuGPRegisterHelper,
    writes: Vec<RegisterWrite>,
    regs: Map<i32, u64>,
    refused: Set<i32>,
    i: i32,
)
    requires
        call_ensures(QemuGPRegisterHelper::new, (reads,), helper),
        call_ensures(QemuGPRegisterHelper::restore, (&helper,), writes),
        reads@.len() <= i32::MAX + 1,
    ensures
        ({
            let restored = after_writes(regs, writes@, refused);
            if 0 <= i < reads@.len() && !refused.contains(i) {
                &&& restored.contains_key(i)
                &&& reads@[i as int] matches Ok(value) ==> restored[i] == value
                &&& reads@[i as int] is Err ==> restored[i] == 0
            } else {
                &&& restored.contains_key(i) == regs.contains_key(i)
                &&& restored[i] == regs[i]
            }
        }),
{
    restoring_brings_registers_back(regs, helper@, refused, i);
}

/// What a numeral stands for.
pub open spec fn numeral_value(numeral: Seq<char>) -> int
    decreases numeral.len(),
{
    if numeral.len() == 0 {
        0
    } else {
        10 * numeral_value(numeral.drop_last()) + (numeral.last() as int - '0' as int)
    }
}

/// The number in a notice is the usual numeral: digits only, none to spare in front, and it reads
/// back as the number.
pub proof fn numerals_read_back(n: nat)
    ensures
        decimal(n).len() > 0,
        forall|i: int| 0 <= i < decimal(n).len() ==> '0' <= #[trigger] decimal(n)[i] <= '9',
        decimal(n)[0] == '0' ==> decimal(n).len() == 1,
        numeral_value(decimal(n)) == n,
    decreases n,
{
    reveal_with_fuel(numeral_value, 2);
    if n >= 10 {
        numerals_read_back(n / 10);
        assert(decimal(n).drop_last() =~= decimal(n / 10));
        assert(decimal(n)[0] == decimal(n / 10)[0]);
        if decimal(n / 10)[0] == '0' {
            assert(decimal(n / 10).drop_last() =~= Seq::empty());
            assert(n / 10 == 0);
        }
    } else {
        assert(decimal(n).drop_last() =~= Seq::empty());
    }
}

/// A notice is given for a failed write and for no other. It names the register and gives the error
/// in full, each in its place in a fixed text.
pub proof fn failed_writes_are_reported(
    reg_idx: usize,
    outcome: &Result<(), String>,
    text: Option<String>,
)
    requires
        call_ensures(skip_notice, (reg_idx, outcome), text),
    ensures
        text is Some <==> outcome is Err,
        (outcome matches Err(error) ==> {
            let before = "[ERR] Couldn't set register x"@;
            let between = " ("@;
            let after = "), skipping..."@;
            let full = text->0@;
            let rest = between + error@ + after;
            let numeral = full.subrange(before.len() as int, full.len() - rest.len());
            &&& before.len() + rest.len() < full.len()
            &&& full.take(before.len() as int) == before
            &&& full.skip(full.len() - rest.len()) == rest
            &&& numeral_value(numeral) == reg_idx
            &&& numeral[0] == '0' ==> numeral.len() == 1
            &&& forall|i: int| 0 <= i < numeral.len() ==> '0' <= #[trigger] numeral[i] <= '9'
        }),
{
    if let Err(error) = outcome {
        numerals_read_back(reg_idx as nat);
        let before = "[ERR] Couldn't set register x"@;
        let rest = " ("@ + error@ + "), skipping..."@;
        let full = text->0@;
        let numeral = full.subrange(before.len() as int, full.len() - rest.len());
        assert(full =~= before + decimal(reg_idx as nat) + rest);
        assert(full.take(before.len() as int) =~= before);
        assert(full.skip(full.len() - rest.len()) =~= rest);
        assert(numeral =~= decimal(reg_idx as nat));
    }
}

// The session.

/// The program is run exactly once, when the only breakpoint set is the entry point, 0x178 bytes
/// into `main`. That breakpoint is then removed, and in the end the only one set is where a run
/// ends, 0x144 bytes into `main`.
pub proof fn startup_runs_once_to_the_entry(main_ptr: u64, steps: Vec<EmulatorStep>)
    requires
        main_ptr + 0x178 <= u64::MAX,
        call_ensures(startup_steps, (main_ptr,), steps),
    ensures
        steps@.len() == 4,
        forall|i: int| 0 <= i < steps@.len() ==> (#[trigger] steps@[i] is Run <==> i == 1),
        breakpoints_after(Set::empty(), steps@.take(1)) == set![(main_ptr + 0x178) as u64],
        breakpoints_after(Set::empty(), steps@.take(3)) == Set::<u64>::empty(),
        breakpoints_after(Set::empty(), steps@) == set![(main_ptr + 0x144) as u64],
{
    let all = steps@;
    reveal_with_fuel(breakpoints_after, 5);
    assert(all.take(1).drop_last() =~= Seq::empty());
    assert(all.take(2).drop_last() =~= all.take(1));
    assert(all.take(3).drop_last() =~= all.take(2));
    assert(all.drop_last() =~= all.take(3));
    assert(breakpoints_after(Set::empty(), all.take(1)) =~= set![(main_ptr + 0x178) as u64]);
    assert(breakpoints_after(Set::empty(), all.take(3)) =~= Set::<u64>::empty());
    assert(breakpoints_after(Set::empty(), all) =~= set![(main_ptr + 0x144) as u64]);
}

/// Token files are read where there are any, and never again once there are tokens.
pub proof fn tokens_are_loaded_once(has_tokens: bool, token_files: usize, due: bool)
    requires
        call_ensures(token_files_due, (has_tokens, token_files), due),
    ensures
        has_tokens ==> !due,
        !has_tokens ==> (due <==> token_files >= 1),
{
}

/// The initial test cases go into an empty corpus, and never into one that holds any.
pub proof fn initial_inputs_are_loaded_once(corpus_count: usize, due: bool)
    requires
        call_ensures(initial_inputs_due, (corpus_count,), due),
    ensures
        corpus_count >= 1 ==> !due,
        corpus_count == 0 ==> due,
{
}

/// A session that ended by itself or was stopped by the user ends well, the latter with a farewell;
/// any other ends in a failure that gives the error in full, at the end of its text.
pub proof fn only_errors_fail_a_session(result: Result<(), LaunchError>, conclusion: Conclusion)
    requires
        call_ensures(conclude, (result,), conclusion),
    ensures
        conclusion is Done <==> result is Ok,
        conclusion is DoneWith <==> result == Err::<(), LaunchError>(LaunchError::ShuttingDown),
        conclusion matches Conclusion::DoneWith(text) ==> text@
            == "Fuzzing stopped by user. Good bye."@,
        (conclusion matches Conclusion::Fail(text) ==> {
            let opening = "Failed to run launcher: "@;
            &&& result matches Err(LaunchError::Other(error))
            &&& text@.len() == opening.len() + error@.len()
            &&& text@.take(opening.len() as int) == opening
            &&& text@.skip(opening.len() as int) == error@
        }),
{
    if let Conclusion::Fail(text) = conclusion {
        let opening = "Failed to run launcher: "@;
        let error = result->Err_0->Other_0;
        assert(text@.take(opening.len() as int) =~= opening);
        assert(text@.skip(opening.len() as int) =~= error@);
    }
}

/// No argument is turned away, but for an address of `main` so high that the entry point would lie
/// beyond the address space.
pub proof fn every_argument_is_accepted(
    numbers: &SyscallNumbers,
    helper: &mut QemuFilesystemBytesHelper,
    registers: &mut QemuGPRegisterHelper,
    input: &BytesInput,
    buf: &[u8],
    reads: &Vec<Result<u64, String>>,
    outcome: &Result<(), String>,
    result: Result<(), LaunchError>,
    syscall: i32,
    x0: u64,
    x1: u64,
    x2: u64,
    n: usize,
    flag: bool,
)
    ensures
        call_requires(QemuFilesystemBytesHelper::new, (x0,)),
        call_requires(QemuFilesystemBytesHelper::pre_exec, (helper, input)),
        call_requires(QemuFilesystemBytesHelper::load, (helper, buf)),
        call_requires(QemuFilesystemBytesHelper::mmap, (&*old(helper),)),
        call_requires(QemuFilesystemBytesHelper::munmap, (&*old(helper), x0)),
        call_requires(QemuFilesystemBytesHelper::read, (helper, x0)),
        call_requires(SyscallNumbers::classify, (numbers, syscall)),
        call_requires(syscall_hook, (numbers, helper, syscall, x0, x1, x2)),
        call_requires(syscall_hook_without_file, (numbers, syscall)),
        call_requires(QemuGPRegisterHelper::new, (reads,)),
        call_requires(QemuGPRegisterHelper::restore, (&*old(registers),)),
        call_requires(QemuGPRegisterHelper::pre_exec, (registers,)),
        call_requires(skip_notice, (n, outcome)),
        x0 + 0x178 <= u64::MAX ==> call_requires(startup_steps, (x0,)),
        call_requires(token_files_due, (flag, n)),
        call_requires(initial_inputs_due, (n,)),
        call_requires(conclude, (result,)),
{
}

} // verus!
