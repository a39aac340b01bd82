//! The in-memory stand-in for the input file that the emulated program maps and reads.

use libafl::inputs::{BytesInput, HasTargetBytes};
use libafl_bolts::AsSlice;
use vstd::prelude::*;
use vstd::slice::slice_subrange;

verus! {

/// Largest number of bytes kept from one test case, and the size of the region set aside for the
/// mapped input file: 2**20, one megabyte.
pub const MMAP_SIZE: usize = 1048576;

/// LibAFL's byte-buffer test case.
#[verifier::external_type_specification]
#[verifier::external_body]
pub struct ExBytesInput(libafl::inputs::BytesInput);

/// The bytes that a test case holds.
pub uninterp spec fn input_bytes(input: BytesInput) -> Seq<u8>;

/// Calls `HasTargetBytes::target_bytes` of [`BytesInput`] and copies the slice it hands out.
///
/// Trusted: the slice holds exactly the bytes of the test case, in order. `BytesInput` borrows its
/// own buffer for it, and `AsSlice::as_slice` returns what was borrowed.
#[verifier::external_body]
fn target_bytes(input: &BytesInput) -> (target: Vec<u8>)
    ensures
        target@ == input_bytes(*input),
{
    input.target_bytes().as_slice().to_vec()
}

/// What a [`QemuFilesystemBytesHelper`] stands for: the part of the input file that was not read
/// yet, and the address at which the file appears to be mapped.
#[verifier::ext_equal]
pub struct FilesystemView {
    pub bytes: Seq<u8>,
    pub mmap_addr: u64,
}

/// The part of a test case that is served: all of it, up to `MMAP_SIZE` bytes.
pub open spec fn capped(input: Seq<u8>) -> Seq<u8> {
    if input.len() > MMAP_SIZE {
        input.take(MMAP_SIZE as int)
    } else {
        input
    }
}

/// The input file once a test case was prepared, whatever was left of it before.
pub open spec fn prepared(fs: FilesystemView, input: Seq<u8>) -> FilesystemView {
    FilesystemView { bytes: capped(input), mmap_addr: fs.mmap_addr }
}

/// How many bytes a read of `count` bytes gets when `available` are left.
pub open spec fn read_len(count: nat, available: nat) -> nat {
    if count <= available {
        count
    } else {
        available
    }
}

/// Buffer of the current test case, shared between the code that prepares a run and the system
/// call hook that serves it to the emulated program.
#[derive(Debug)]
pub struct QemuFilesystemBytesHelper {
    /// the test case at first; every read takes its bytes off the front
    bytes: Vec<u8>,
    /// address returned for every mapping
    mmap_addr: u64,
}

impl View for QemuFilesystemBytesHelper {
    type V = FilesystemView;

    closed spec fn view(&self) -> FilesystemView {
        FilesystemView { bytes: self.bytes@, mmap_addr: self.mmap_addr }
    }
}

impl Default for QemuFilesystemBytesHelper {
    /// No input, mapped at address zero.
    fn default() -> (helper: Self)
        ensures
            helper@ == (FilesystemView { bytes: Seq::empty(), mmap_addr: 0 }),
            helper.wf(),
    {
        QemuFilesystemBytesHelper { bytes: Vec::new(), mmap_addr: 0 }
    }
}

impl QemuFilesystemBytesHelper {
    /// No more is held than fits the mapped region.
    pub open spec fn wf(&self) -> bool {
        self@.bytes.len() <= MMAP_SIZE
    }

    /// Given the address to use for the mapped file, creates a helper that holds no input yet.
    pub fn new(mmap_addr: u64) -> (helper: Self)
        ensures
            helper@ == (FilesystemView { bytes: Seq::empty(), mmap_addr }),
            helper.wf(),
    {
        QemuFilesystemBytesHelper { bytes: Vec::new(), mmap_addr }
    }

    /// Prepares for a test case: its bytes, up to `MMAP_SIZE` of them, replace whatever is left of
    /// the one before.
    pub fn pre_exec(&mut self, input: &BytesInput)
        ensures
            final(self)@ == prepared(old(self)@, input_bytes(*input)),
            final(self).wf(),
    {
        let target = target_bytes(input);
        self.load(target.as_slice());
    }

    /// Replaces whatever is left of the buffer by `buf`, up to `MMAP_SIZE` bytes of it.
    pub fn load(&mut self, buf: &[u8])
        ensures
            final(self)@ == prepared(old(self)@, buf@),
            final(self).wf(),
    {
        let kept = if buf.len() > MMAP_SIZE {
            slice_subrange(buf, 0, MMAP_SIZE)
        } else {
            buf
        };
        self.bytes.clear();
        self.bytes.extend_from_slice(kept);
        assert(self.bytes@ =~= capped(buf@));
    }

    /// The address that a mapping of the input file gets.
    pub fn mmap(&self) -> (addr: u64)
        ensures
            addr == self@.mmap_addr,
    {
        self.mmap_addr
    }

    /// The result of unmapping `addr`: success for the managed region, nothing (the real system
    /// call is to run) for any other address.
    pub fn munmap(&self, addr: u64) -> (result: Option<u64>)
        ensures
            result == if addr == self@.mmap_addr {
                Some(0u64)
            } else {
                None
            },
    {
        if addr == self.mmap_addr {
            Some(0)
        } else {
            None
        }
    }

    /// Takes the next `count` bytes off the buffer, or all that is left where `count` is more.
    pub fn read(&mut self, count: u64) -> (drained: Vec<u8>)
        ensures
            ({
                let n = read_len(count as nat, old(self)@.bytes.len()) as int;
                &&& drained@ == old(self)@.bytes.take(n)
                &&& final(self)@ == (FilesystemView {
                    bytes: old(self)@.bytes.skip(n),
                    mmap_addr: old(self)@.mmap_addr,
                })
            }),
            old(self).wf() ==> final(self).wf(),
    {
        let current_len: usize = self.bytes.len();
        let offset: usize = if count <= current_len as u64 {
            count as usize
        } else {
            current_len
        };
        let mut drained = self.bytes.split_off(offset);
        core::mem::swap(&mut drained, &mut self.bytes);
        drained
    }
}

} // verus!
