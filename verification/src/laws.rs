//! What holds over any number of system calls, test cases and register writes.

#[allow(unused_imports)]
use crate::filesystem::{capped, prepared, read_len, FilesystemView, MMAP_SIZE};
#[allow(unused_imports)]
use crate::hook::{effect_of, effect_without_file, state_after, HookEffect, Syscall, SyscallNumbers};
#[allow(unused_imports)]
use crate::registers::{kept_values, restoring_writes, RegisterWrite};
#[allow(unused_imports)]
use crate::session::{startup, EmulatorStep, ENTRY_OFFSET, RETURN_OFFSET};
use vstd::prelude::*;

verus! {

/// One system call of the emulated program: its number and its first three arguments.
pub struct GuestCall {
    pub syscall: i32,
    pub x0: u64,
    pub x1: u64,
    pub x2: u64,
}

impl GuestCall {
    /// Which system call it is.
    pub open spec fn kind(self, numbers: SyscallNumbers) -> Syscall {
        numbers.kind_of(self.syscall as int)
    }

    /// What the hook asks of the emulator.
    pub open spec fn effect(self, numbers: SyscallNumbers, fs: FilesystemView) -> HookEffect {
        effect_of(fs, self.kind(numbers), self.x0, self.x1, self.x2)
    }

    /// What the hook asks of the emulator, with an input file or without one. There is no answer to
    /// a call that concerns the file where there is none.
    pub open spec fn answer(
        self,
        numbers: SyscallNumbers,
        file: Option<FilesystemView>,
    ) -> Option<HookEffect> {
        match file {
            Some(fs) => Some(self.effect(numbers, fs)),
            None => effect_without_file(self.kind(numbers)),
        }
    }

    /// What the input file becomes.
    pub open spec fn after(self, numbers: SyscallNumbers, fs: FilesystemView) -> FilesystemView {
        state_after(fs, self.kind(numbers), self.x2)
    }
}

/// The bytes that an effect hands to the emulated program.
pub open spec fn delivered_by(effect: HookEffect) -> Seq<u8> {
    match effect {
        HookEffect::Deliver { bytes, .. } => bytes,
        _ => Seq::empty(),
    }
}

/// The input file after a series of system calls.
pub open spec fn after_all(
    numbers: SyscallNumbers,
    fs: FilesystemView,
    calls: Seq<GuestCall>,
) -> FilesystemView
    decreases calls.len(),
{
    if calls.len() == 0 {
        fs
    } else {
        after_all(numbers, calls[0].after(numbers, fs), calls.drop_first())
    }
}

/// All bytes handed to the emulated program over a series of system calls, in order.
pub open spec fn delivered(
    numbers: SyscallNumbers,
    fs: FilesystemView,
    calls: Seq<GuestCall>,
) -> Seq<u8>
    decreases calls.len(),
{
    if calls.len() == 0 {
        Seq::empty()
    } else {
        delivered_by(calls[0].effect(numbers, fs)) + delivered(
            numbers,
            calls[0].after(numbers, fs),
            calls.drop_first(),
        )
    }
}

/// How many bytes the reads in a series of system calls ask for.
pub open spec fn requested(numbers: SyscallNumbers, calls: Seq<GuestCall>) -> nat
    decreases calls.len(),
{
    if calls.len() == 0 {
        0
    } else {
        (if calls[0].kind(numbers) == Syscall::Read {
            calls[0].x2 as nat
        } else {
            0
        }) + requested(numbers, calls.drop_first())
    }
}

/// The input file is a stream: whatever system calls are made, in whatever pieces it is read and
/// whatever comes between the reads, the program gets the bytes from the front, each once and in
/// order, as many as it asked for in all or as there are. What it did not get is what is left, and
/// the address of the mapping stays.
pub proof fn reads_form_a_stream(
    numbers: SyscallNumbers,
    fs: FilesystemView,
    calls: Seq<GuestCall>,
)
    ensures
        ({
            let n = read_len(requested(numbers, calls), fs.bytes.len()) as int;
            &&& delivered(numbers, fs, calls) == fs.bytes.take(n)
            &&& after_all(numbers, fs, calls) == (FilesystemView {
                bytes: fs.bytes.skip(n),
                mmap_addr: fs.mmap_addr,
            })
        }),
        delivered(numbers, fs, calls) + after_all(numbers, fs, calls).bytes == fs.bytes,
    decreases calls.len(),
{
    let n = read_len(requested(numbers, calls), fs.bytes.len()) as int;
    if calls.len() == 0 {
        assert(fs.bytes.take(0) =~= Seq::empty());
        assert(fs.bytes.skip(0) =~= fs.bytes);
    } else {
        let next = calls[0].after(numbers, fs);
        let rest = calls.drop_first();
        reads_form_a_stream(numbers, next, rest);
        let m = read_len(requested(numbers, rest), next.bytes.len()) as int;
        let k = if calls[0].kind(numbers) == Syscall::Read {
            read_len(calls[0].x2 as nat, fs.bytes.len()) as int
        } else {
            0
        };
        assert(next.bytes =~= fs.bytes.skip(k));
        assert(k + m == n);
        assert(delivered_by(calls[0].effect(numbers, fs)) =~= fs.bytes.take(k));
        assert(fs.bytes.take(k) + fs.bytes.skip(k).take(m) =~= fs.bytes.take(n));
        assert(fs.bytes.skip(k).skip(m) =~= fs.bytes.skip(n));
    }
    assert(fs.bytes.take(n) + fs.bytes.skip(n) =~= fs.bytes);
}

/// In what pieces the file is read makes no difference: two series of system calls that ask for the
/// same number of bytes in all get the same bytes and leave the same file.
pub proof fn pieces_make_no_difference(
    numbers: SyscallNumbers,
    fs: FilesystemView,
    one: Seq<GuestCall>,
    other: Seq<GuestCall>,
)
    requires
        requested(numbers, one) == requested(numbers, other),
    ensures
        delivered(numbers, fs, one) == delivered(numbers, fs, other),
        after_all(numbers, fs, one) == after_all(numbers, fs, other),
{
    reads_form_a_stream(numbers, fs, one);
    reads_form_a_stream(numbers, fs, other);
}

/// A program that asks for at least as many bytes as its test case has gets the test case, exactly,
/// up to the size of the mapped region; whatever was left of the test case before has no part in
/// it.
pub proof fn test_case_arrives_whole(
    numbers: SyscallNumbers,
    before: FilesystemView,
    input: Seq<u8>,
    calls: Seq<GuestCall>,
)
    requires
        requested(numbers, calls) >= input.len() || requested(numbers, calls) >= 0x10_0000,
    ensures
        input.len() > 0x10_0000 ==> delivered(numbers, prepared(before, input), calls).len()
            == 0x10_0000,
        forall|i: int|
            0 <= i < delivered(numbers, prepared(before, input), calls).len() ==> #[trigger] delivered(
                numbers,
                prepared(before, input),
                calls,
            )[i] == input[i],
        delivered(numbers, prepared(before, input), calls) == capped(input),
        after_all(numbers, prepared(before, input), calls).bytes == Seq::<u8>::empty(),
        input.len() <= 0x10_0000 ==> delivered(numbers, prepared(before, input), calls) == input,
{
    let fs = prepared(before, input);
    reads_form_a_stream(numbers, fs, calls);
    let n = read_len(requested(numbers, calls), fs.bytes.len()) as int;
    assert(fs.bytes.take(n) =~= fs.bytes);
    assert(fs.bytes.skip(n) =~= Seq::empty());
}

/// Nothing carries over from one test case to the next: whatever system calls were made before,
/// preparing a test case leads to the same state.
pub proof fn test_cases_are_independent(
    numbers: SyscallNumbers,
    fs: FilesystemView,
    calls: Seq<GuestCall>,
    input: Seq<u8>,
)
    ensures
        prepared(after_all(numbers, fs, calls), input) == prepared(fs, input),
{
    reads_form_a_stream(numbers, fs, calls);
}

/// The input file never holds more than fits the mapped region: preparing a test case sees to it,
/// and no system call adds to it.
pub proof fn input_fits_the_region(
    numbers: SyscallNumbers,
    fs: FilesystemView,
    calls: Seq<GuestCall>,
    input: Seq<u8>,
)
    ensures
        fs.bytes.len() <= MMAP_SIZE ==> after_all(numbers, fs, calls).bytes.len() <= MMAP_SIZE,
        after_all(numbers, prepared(fs, input), calls).bytes.len() <= MMAP_SIZE,
{
    reads_form_a_stream(numbers, fs, calls);
    reads_form_a_stream(numbers, prepared(fs, input), calls);
}

/// A read returns the number of bytes that it hands over, never more than it was asked for. It
/// returns zero exactly when it was asked for nothing or the file is at its end, and returns less
/// than it was asked for only by reaching the end.
pub proof fn read_reports_its_length(
    numbers: SyscallNumbers,
    fs: FilesystemView,
    call: GuestCall,
)
    requires
        call.kind(numbers) == Syscall::Read,
    ensures
        call.effect(numbers, fs) matches HookEffect::Deliver { addr, bytes, retval } && {
            &&& addr == call.x1
            &&& retval == bytes.len()
            &&& retval <= call.x2
            &&& retval == 0 <==> (call.x2 == 0 || fs.bytes.len() == 0)
            &&& retval < call.x2 ==> call.after(numbers, fs).bytes == Seq::<u8>::empty()
            &&& bytes + call.after(numbers, fs).bytes == fs.bytes
        },
{
    let n = read_len(call.x2 as nat, fs.bytes.len()) as int;
    assert(n < call.x2 ==> fs.bytes.skip(n) =~= Seq::empty());
    assert(fs.bytes.take(n) + fs.bytes.skip(n) =~= fs.bytes);
}

/// The address that a mapping gets can be unmapped with success at any later time, whatever calls
/// come between, and neither call changes the input file. Every mapping gets that same address,
/// and unmapping any other address is left to the emulator.
pub proof fn mapping_can_be_unmapped(
    numbers: SyscallNumbers,
    fs: FilesystemView,
    map: GuestCall,
    calls: Seq<GuestCall>,
    unmap: GuestCall,
)
    requires
        map.kind(numbers) == Syscall::Mmap,
        unmap.kind(numbers) == Syscall::Munmap,
    ensures
        map.effect(numbers, fs) == HookEffect::Finish(Some(fs.mmap_addr)),
        map.after(numbers, fs) == fs,
        ({
            let later = after_all(numbers, map.after(numbers, fs), calls);
            &&& unmap.after(numbers, later) == later
            &&& map.effect(numbers, later) == map.effect(numbers, fs)
            &&& if map.effect(numbers, fs) == HookEffect::Finish(Some(unmap.x0)) {
                unmap.effect(numbers, later) == HookEffect::Finish(Some(0))
            } else {
                unmap.effect(numbers, later) == HookEffect::Finish(None)
            }
        }),
{
    reads_form_a_stream(numbers, fs, calls);
}

/// One thing that happens to the input file: a test case is prepared, or a system call is made.
pub enum Event {
    Prepare(Seq<u8>),
    Call(GuestCall),
}

/// The input file after a series of test cases and of the system calls made for them.
pub open spec fn after_history(
    numbers: SyscallNumbers,
    fs: FilesystemView,
    events: Seq<Event>,
) -> FilesystemView
    decreases events.len(),
{
    if events.len() == 0 {
        fs
    } else {
        let before = after_history(numbers, fs, events.drop_last());
        match events.last() {
            Event::Prepare(input) => prepared(before, input),
            Event::Call(call) => call.after(numbers, before),
        }
    }
}

/// The managed region stays where it is for the whole session: whatever test cases are prepared and
/// whatever system calls are made, every `mmap` is answered with the address of the start,
/// `munmap` of that address succeeds, and `munmap` of any other is left to the emulator.
pub proof fn managed_address_never_changes(
    numbers: SyscallNumbers,
    fs: FilesystemView,
    events: Seq<Event>,
    call: GuestCall,
)
    ensures
        after_history(numbers, fs, events).mmap_addr == fs.mmap_addr,
        call.syscall == numbers.mmap ==> call.effect(numbers, after_history(numbers, fs, events))
            == HookEffect::Finish(Some(fs.mmap_addr)),
        call.syscall == numbers.munmap && call.syscall != numbers.mmap && call.x0 == fs.mmap_addr
            ==> call.effect(numbers, after_history(numbers, fs, events)) == HookEffect::Finish(
            Some(0),
        ),
        call.syscall == numbers.munmap && call.syscall != numbers.mmap && call.x0 != fs.mmap_addr
            ==> call.effect(numbers, after_history(numbers, fs, events)) == HookEffect::Finish(
            None,
        ),
    decreases events.len(),
{
    if events.len() > 0 {
        managed_address_never_changes(numbers, fs, events.drop_last(), call);
    }
}

/// The emulated program cannot end the process by `exit` or `exit_group`: either aborts, whatever
/// its arguments and whether or not there is an input file, and nothing else does. (A number that
/// is also that of a call on the file stands for that call.)
pub proof fn exit_aborts(
    numbers: SyscallNumbers,
    file: Option<FilesystemView>,
    call: GuestCall,
)
    ensures
        call.answer(numbers, file) == Some(HookEffect::Abort) <==> (call.syscall == numbers.exit
            || call.syscall == numbers.exit_group) && call.syscall != numbers.mmap && call.syscall
            != numbers.munmap && call.syscall != numbers.read,
{
}

/// A system call that is not hooked runs unaltered, whether or not there is an input file, and
/// leaves the file alone.
pub proof fn other_calls_pass(
    numbers: SyscallNumbers,
    file: Option<FilesystemView>,
    call: GuestCall,
)
    requires
        call.syscall != numbers.mmap,
        call.syscall != numbers.munmap,
        call.syscall != numbers.read,
        call.syscall != numbers.exit,
        call.syscall != numbers.exit_group,
    ensures
        call.answer(numbers, file) == Some(HookEffect::Finish(None)),
        file matches Some(fs) ==> call.after(numbers, fs) == fs,
{
}

/// The input file is needed for exactly the calls that map, unmap or read it: every other call has
/// an answer without it, and the answer is the one that it has with it.
pub proof fn file_matters_to_its_calls_only(
    numbers: SyscallNumbers,
    fs: FilesystemView,
    call: GuestCall,
)
    ensures
        call.answer(numbers, None) is None <==> (call.kind(numbers) == Syscall::Mmap || call.kind(
            numbers,
        ) == Syscall::Munmap || call.kind(numbers) == Syscall::Read),
        call.answer(numbers, None) is Some ==> call.answer(numbers, None) == call.answer(
            numbers,
            Some(fs),
        ),
{
}

/// Where hooked system calls that are treated differently have different numbers, each is known by
/// its own.
pub proof fn hooked_calls_are_known(numbers: SyscallNumbers)
    requires
        numbers.distinct(),
    ensures
        numbers.kind_of(numbers.mmap as int) == Syscall::Mmap,
        numbers.kind_of(numbers.munmap as int) == Syscall::Munmap,
        numbers.kind_of(numbers.read as int) == Syscall::Read,
        numbers.kind_of(numbers.exit as int) == Syscall::Exit,
        numbers.kind_of(numbers.exit_group as int) == Syscall::Exit,
{
}

/// The registers after one write, where the emulator refuses to set those in `refused`.
pub open spec fn after_write(
    regs: Map<i32, u64>,
    write: RegisterWrite,
    refused: Set<i32>,
) -> Map<i32, u64> {
    if refused.contains(write.reg_idx) {
        regs
    } else {
        regs.insert(write.reg_idx, write.reg_val)
    }
}

/// The registers after a series of writes.
pub open spec fn after_writes(
    regs: Map<i32, u64>,
    writes: Seq<RegisterWrite>,
    refused: Set<i32>,
) -> Map<i32, u64>
    decreases writes.len(),
{
    if writes.len() == 0 {
        regs
    } else {
        after_write(after_writes(regs, writes.drop_last(), refused), writes.last(), refused)
    }
}

/// Restoring brings every saved register back to its saved value, whatever the emulated program
/// made of it, except one that the emulator refuses to set, which keeps its value. A refusal stops
/// none of the others, and no other register changes. (Register indices are 32 bits wide, so the
/// saved registers must be no more than that can count.)
pub proof fn restoring_brings_registers_back(
    regs: Map<i32, u64>,
    saved: Seq<u64>,
    refused: Set<i32>,
    i: i32,
)
    requires
        saved.len() <= i32::MAX + 1,
    ensures
        ({
            let restored = after_writes(regs, restoring_writes(saved), refused);
            if 0 <= i < saved.len() && !refused.contains(i) {
                restored.contains_key(i) && restored[i] == saved[i as int]
            } else {
                restored.contains_key(i) == regs.contains_key(i) && restored[i] == regs[i]
            }
        }),
    decreases saved.len(),
{
    if saved.len() > 0 {
        let rest = saved.drop_last();
        restoring_brings_registers_back(regs, rest, refused, i);
        assert(restoring_writes(saved).drop_last() =~= restoring_writes(rest));
        assert(restoring_writes(saved).last().reg_idx == saved.len() - 1);
    }
}

/// What was read of the registers is what restoring brings back; one that could not be read is set
/// to zero.
pub proof fn restoring_undoes_a_run(
    regs: Map<i32, u64>,
    reads: Seq<Result<u64, String>>,
    i: i32,
)
    requires
        reads.len() <= i32::MAX + 1,
        0 <= i < reads.len(),
    ensures
        after_writes(regs, restoring_writes(kept_values(reads)), Set::empty())[i] == (
        match reads[i as int] {
            Ok(value) => value,
            Err(_) => 0,
        }),
{
    restoring_brings_registers_back(regs, kept_values(reads), Set::empty(), i);
}

/// What a run of the emulated program makes of the registers.
pub type Program = spec_fn(Map<i32, u64>) -> Map<i32, u64>;

/// The saved values and the registers after some test cases: before each, the registers are
/// restored; then the emulated program does with them whatever it does.
pub open spec fn after_rounds(
    saved: Seq<u64>,
    regs: Map<i32, u64>,
    programs: Seq<Program>,
    refused: Set<i32>,
) -> (Seq<u64>, Map<i32, u64>)
    decreases programs.len(),
{
    if programs.len() == 0 {
        (saved, regs)
    } else {
        let (saved, regs) = after_rounds(saved, regs, programs.drop_last(), refused);
        (saved, (programs.last())(after_writes(regs, restoring_writes(saved), refused)))
    }
}

/// Every test case starts from the same registers: however many went before and whatever they made
/// of the registers, the saved values are still those of the start, and restoring once more brings
/// every register that the emulator does not refuse to set to what was read of it then, or to zero
/// where it could not be read.
pub proof fn test_cases_start_from_the_same_registers(
    reads: Seq<Result<u64, String>>,
    regs: Map<i32, u64>,
    programs: Seq<Program>,
    refused: Set<i32>,
    i: i32,
)
    requires
        reads.len() <= i32::MAX + 1,
        0 <= i < reads.len(),
        !refused.contains(i),
    ensures
        ({
            let (saved, left) = after_rounds(kept_values(reads), regs, programs, refused);
            let started = after_writes(left, restoring_writes(saved), refused);
            &&& saved == kept_values(reads)
            &&& started.contains_key(i)
            &&& started[i] == match reads[i as int] {
                Ok(value) => value,
                Err(_) => 0,
            }
        }),
    decreases programs.len(),
{
    let (saved, left) = after_rounds(kept_values(reads), regs, programs, refused);
    if programs.len() > 0 {
        test_cases_start_from_the_same_registers(reads, regs, programs.drop_last(), refused, i);
    }
    restoring_brings_registers_back(left, saved, refused, i);
}

/// The breakpoints that are set after a series of steps.
pub open spec fn breakpoints_after(armed: Set<u64>, steps: Seq<EmulatorStep>) -> Set<u64>
    decreases steps.len(),
{
    if steps.len() == 0 {
        armed
    } else {
        let before = breakpoints_after(armed, steps.drop_last());
        match steps.last() {
            EmulatorStep::SetBreakpoint(addr) => before.insert(addr),
            EmulatorStep::RemoveBreakpoint(addr) => before.remove(addr),
            EmulatorStep::Run => before,
        }
    }
}

/// Where no breakpoint was set, the program runs exactly once, to the entry point and to no other,
/// and then only the point at which a run ends is left to stop at.
pub proof fn startup_leaves_one_breakpoint(main_ptr: u64)
    requires
        main_ptr + ENTRY_OFFSET <= u64::MAX,
    ensures
        exists|i: int|
            #![trigger startup(main_ptr)[i]]
            0 <= i < startup(main_ptr).len() && startup(main_ptr)[i] == EmulatorStep::Run,
        forall|i: int, j: int|
            #![trigger startup(main_ptr)[i], startup(main_ptr)[j]]
            0 <= i < j < startup(main_ptr).len() ==> !(startup(main_ptr)[i] == EmulatorStep::Run
                && startup(main_ptr)[j] == EmulatorStep::Run),
        forall|i: int|
            #![trigger startup(main_ptr)[i]]
            0 <= i < startup(main_ptr).len() && startup(main_ptr)[i] == EmulatorStep::Run
                ==> breakpoints_after(Set::empty(), startup(main_ptr).take(i)) == set![
                (main_ptr + ENTRY_OFFSET) as u64,
            ],
        breakpoints_after(Set::empty(), startup(main_ptr)) == set![
            (main_ptr + RETURN_OFFSET) as u64,
        ],
{
    let entry = (main_ptr + ENTRY_OFFSET) as u64;
    let ret = (main_ptr + RETURN_OFFSET) as u64;
    let steps = startup(main_ptr);
    reveal_with_fuel(breakpoints_after, 5);
    assert(steps[1] == EmulatorStep::Run);
    assert(steps.take(1) =~= seq![EmulatorStep::SetBreakpoint(entry)]);
    assert(steps.take(1).drop_last() =~= Seq::empty());
    assert(breakpoints_after(Set::empty(), steps.take(1)) =~= set![entry]);
    assert(steps.drop_last().drop_last() =~= steps.take(2));
    assert(steps.take(2).drop_last() =~= steps.take(1));
    assert(breakpoints_after(Set::empty(), steps) =~= set![ret]);
}

} // verus!
