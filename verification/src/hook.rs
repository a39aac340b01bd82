//! What happens to a system call of the emulated program before the emulator runs it.
//!
//! On arm64 the number of the call is in `x8`, its arguments are in `x0` to `x5`, and its result
//! goes back in `x0`.

use crate::filesystem::QemuFilesystemBytesHelper;
#[allow(unused_imports)]
use crate::filesystem::{read_len, FilesystemView};
use vstd::prelude::*;

verus! {

/// The numbers by which the emulated architecture knows the system calls that are hooked.
#[derive(Clone, Copy, Debug, PartialEq, Eq, Structural)]
pub struct SyscallNumbers {
    pub mmap: i64,
    pub munmap: i64,
    pub read: i64,
    pub exit: i64,
    pub exit_group: i64,
}

/// The system calls that the hook tells apart.
#[derive(Clone, Copy, Debug, PartialEq, Eq, Structural)]
pub enum Syscall {
    Mmap,
    Munmap,
    Read,
    /// `exit` and `exit_group`
    Exit,
    Other,
}

impl SyscallNumbers {
    /// The system call with number `number`; where numbers coincide, the one named first counts.
    pub open spec fn kind_of(&self, number: int) -> Syscall {
        if number == self.mmap {
            Syscall::Mmap
        } else if number == self.munmap {
            Syscall::Munmap
        } else if number == self.read {
            Syscall::Read
        } else if number == self.exit || number == self.exit_group {
            Syscall::Exit
        } else {
            Syscall::Other
        }
    }

    /// No two hooked system calls that are treated differently share a number, as holds of every
    /// real architecture.
    pub open spec fn distinct(&self) -> bool {
        &&& self.mmap != self.munmap
        &&& self.mmap != self.read
        &&& self.mmap != self.exit
        &&& self.mmap != self.exit_group
        &&& self.munmap != self.read
        &&& self.munmap != self.exit
        &&& self.munmap != self.exit_group
        &&& self.read != self.exit
        &&& self.read != self.exit_group
    }

    /// Tells which system call has number `syscall`.
    pub fn classify(&self, syscall: i32) -> (kind: Syscall)
        ensures
            kind == self.kind_of(syscall as int),
    {
        let number: i64 = syscall as i64;
        if number == self.mmap {
            Syscall::Mmap
        } else if number == self.munmap {
            Syscall::Munmap
        } else if number == self.read {
            Syscall::Read
        } else if number == self.exit || number == self.exit_group {
            Syscall::Exit
        } else {
            Syscall::Other
        }
    }
}

/// What the emulator is to do about a hooked system call.
#[derive(Debug)]
pub enum HookAction {
    /// Skip the call and return this value from it, or run the call unaltered where there is none.
    Finish(Option<u64>),
    /// Write `bytes` to the guest's memory at `addr`, then skip the call and return `retval`.
    Deliver { addr: u64, bytes: Vec<u8>, retval: u64 },
    /// Abort the process, in place of letting the emulated program end it.
    Abort,
}

/// What a [`HookAction`] stands for.
#[verifier::ext_equal]
pub enum HookEffect {
    Finish(Option<u64>),
    Deliver { addr: u64, bytes: Seq<u8>, retval: u64 },
    Abort,
}

impl View for HookAction {
    type V = HookEffect;

    open spec fn view(&self) -> HookEffect {
        match self {
            HookAction::Finish(value) => HookEffect::Finish(*value),
            HookAction::Deliver { addr, bytes, retval } => HookEffect::Deliver {
                addr: *addr,
                bytes: bytes@,
                retval: *retval,
            },
            HookAction::Abort => HookEffect::Abort,
        }
    }
}

/// What is asked of the emulator for a call of kind `kind` with arguments `x0`, `x1`, `x2`.
pub open spec fn effect_of(
    fs: FilesystemView,
    kind: Syscall,
    x0: u64,
    x1: u64,
    x2: u64,
) -> HookEffect {
    match kind {
        Syscall::Mmap => HookEffect::Finish(Some(fs.mmap_addr)),
        Syscall::Munmap => HookEffect::Finish(
            if x0 == fs.mmap_addr {
                Some(0)
            } else {
                None
            },
        ),
        Syscall::Read => {
            let n = read_len(x2 as nat, fs.bytes.len());
            HookEffect::Deliver { addr: x1, bytes: fs.bytes.take(n as int), retval: n as u64 }
        },
        Syscall::Exit => HookEffect::Abort,
        Syscall::Other => HookEffect::Finish(None),
    }
}

/// What is asked of the emulator for a call of kind `kind` where there is no input file: calls that
/// do not concern it are treated as ever, and nothing can be said of those that do.
pub open spec fn effect_without_file(kind: Syscall) -> Option<HookEffect> {
    match kind {
        Syscall::Mmap | Syscall::Munmap | Syscall::Read => None,
        Syscall::Exit => Some(HookEffect::Abort),
        Syscall::Other => Some(HookEffect::Finish(None)),
    }
}

/// What the input file becomes by a call of kind `kind`: only a read changes it.
pub open spec fn state_after(fs: FilesystemView, kind: Syscall, x2: u64) -> FilesystemView {
    if kind == Syscall::Read {
        FilesystemView {
            bytes: fs.bytes.skip(read_len(x2 as nat, fs.bytes.len()) as int),
            mmap_addr: fs.mmap_addr,
        }
    } else {
        fs
    }
}

/// Decides about the system call with number `syscall` and arguments `x0`, `x1`, `x2`.
///
/// - `mmap` returns the managed address.
/// - `munmap` of the managed address succeeds and does nothing else; any other is let through.
/// - `read` hands over the next `x2` bytes of the input file, or all that is left of it, at address
///   `x1`, and returns their number.
/// - `exit` and `exit_group` abort.
/// - Every other call is let through.
pub fn syscall_hook(
    numbers: &SyscallNumbers,
    fs_helper: &mut QemuFilesystemBytesHelper,
    syscall: i32,
    x0: u64,
    x1: u64,
    x2: u64,
) -> (action: HookAction)
    ensures
        action@ == effect_of(old(fs_helper)@, numbers.kind_of(syscall as int), x0, x1, x2),
        final(fs_helper)@ == state_after(
            old(fs_helper)@,
            numbers.kind_of(syscall as int),
            x2,
        ),
        old(fs_helper).wf() ==> final(fs_helper).wf(),
{
    match numbers.classify(syscall) {
        Syscall::Mmap => HookAction::Finish(Some(fs_helper.mmap())),
        Syscall::Munmap => HookAction::Finish(fs_helper.munmap(x0)),
        Syscall::Read => {
            let drained = fs_helper.read(x2);
            let retval: u64 = drained.len() as u64;
            HookAction::Deliver { addr: x1, bytes: drained, retval }
        },
        Syscall::Exit => HookAction::Abort,
        Syscall::Other => HookAction::Finish(None),
    }
}

/// Decides about the system call with number `syscall` where there is no input file to serve.
///
/// - `exit` and `exit_group` abort.
/// - `mmap`, `munmap` and `read` cannot be decided: there is no action for them.
/// - Every other call is let through.
pub fn syscall_hook_without_file(numbers: &SyscallNumbers, syscall: i32) -> (action: Option<
    HookAction,
>)
    ensures
        match effect_without_file(numbers.kind_of(syscall as int)) {
            Some(effect) => action is Some && action->0@ == effect,
            None => action is None,
        },
{
    match numbers.classify(syscall) {
        Syscall::Mmap | Syscall::Munmap | Syscall::Read => None,
        Syscall::Exit => Some(HookAction::Abort),
        Syscall::Other => Some(HookAction::Finish(None)),
    }
}

} // verus!
