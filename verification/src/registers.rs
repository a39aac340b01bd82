//! Saving the general purpose registers of the emulated processor, and putting them back before
//! each test case.

use vstd::prelude::*;

verus! {

/// One register to set: its index, as the emulator numbers registers, and its value.
#[derive(Clone, Copy, Debug, PartialEq, Eq, Structural)]
pub struct RegisterWrite {
    pub reg_idx: i32,
    pub reg_val: u64,
}

/// The value kept for a register: the one that was read, or zero where reading failed.
pub open spec fn kept_value(read: Result<u64, String>) -> u64 {
    match read {
        Ok(value) => value,
        Err(_) => 0,
    }
}

/// The values kept for all registers.
pub open spec fn kept_values(reads: Seq<Result<u64, String>>) -> Seq<u64> {
    reads.map_values(|read: Result<u64, String>| kept_value(read))
}

/// The writes that put `saved` back: every register, in the order of their indices.
pub open spec fn restoring_writes(saved: Seq<u64>) -> Seq<RegisterWrite> {
    Seq::new(saved.len(), |i: int| RegisterWrite { reg_idx: i as i32, reg_val: saved[i] })
}

/// The register values at the point where every test case starts.
#[derive(Debug)]
pub struct QemuGPRegisterHelper {
    /// each register's saved value, by register index
    register_state: Vec<u64>,
}

impl View for QemuGPRegisterHelper {
    type V = Seq<u64>;

    closed spec fn view(&self) -> Seq<u64> {
        self.register_state@
    }
}

impl Default for QemuGPRegisterHelper {
    /// No saved register.
    fn default() -> (helper: Self)
        ensures
            helper@ == Seq::<u64>::empty(),
    {
        QemuGPRegisterHelper { register_state: Vec::new() }
    }
}

impl QemuGPRegisterHelper {
    /// Saves the registers, given what reading each of them in turn came to. A register that could
    /// not be read counts as zero.
    pub fn new(reads: &Vec<Result<u64, String>>) -> (helper: Self)
        ensures
            helper@ == kept_values(reads@),
    {
        let mut register_state: Vec<u64> = Vec::new();
        let mut reg_idx: usize = 0;
        while reg_idx < reads.len()
            invariant
                reg_idx <= reads.len(),
                register_state@ == kept_values(reads@.take(reg_idx as int)),
            decreases reads.len() - reg_idx,
        {
            let value: u64 = match &reads[reg_idx] {
                Ok(value) => *value,
                Err(_) => 0,
            };
            register_state.push(value);
            reg_idx = reg_idx + 1;
        }
        assert(reads@.take(reg_idx as int) == reads@);
        QemuGPRegisterHelper { register_state }
    }

    /// The writes that put every register back to its saved value, in the order in which they are
    /// to be made. One that fails is skipped, and the rest are still made.
    pub fn restore(&self) -> (writes: Vec<RegisterWrite>)
        ensures
            writes@ == restoring_writes(self@),
    {
        let mut writes: Vec<RegisterWrite> = Vec::new();
        let mut reg_idx: usize = 0;
        while reg_idx < self.register_state.len()
            invariant
                reg_idx <= self@.len(),
                self@ == self.register_state@,
                writes@ == restoring_writes(self@).take(reg_idx as int),
            decreases self@.len() - reg_idx,
        {
            writes.push(
                RegisterWrite {
                    reg_idx: #[verifier::truncate]
                    (reg_idx as i32),
                    reg_val: self.register_state[reg_idx],
                },
            );
            reg_idx = reg_idx + 1;
        }
        writes
    }

    /// Prepares for a test case: the writes that put every register back to its saved value. The
    /// saved values stay as they are, for every test case to come.
    pub fn pre_exec(&mut self) -> (writes: Vec<RegisterWrite>)
        ensures
            writes@ == restoring_writes(old(self)@),
            final(self)@ == old(self)@,
    {
        self.restore()
    }
}

/// A decimal digit.
pub open spec fn digit(d: nat) -> char {
    (('0' as int) + d) as char
}

/// `n` in decimal, without leading zeros.
pub open spec fn decimal(n: nat) -> Seq<char>
    decreases n,
{
    if n < 10 {
        seq![digit(n)]
    } else {
        decimal(n / 10).push(digit(n % 10))
    }
}

/// Appends `n` in decimal to `out`.
fn append_decimal(out: &mut String, n: usize)
    ensures
        final(out)@ == old(out)@ + decimal(n as nat),
    decreases n,
{
    if n >= 10 {
        append_decimal(out, n / 10);
    }
    let d: usize = n % 10;
    proof {
        reveal_strlit("0");
        reveal_strlit("1");
        reveal_strlit("2");
        reveal_strlit("3");
        reveal_strlit("4");
        reveal_strlit("5");
        reveal_strlit("6");
        reveal_strlit("7");
        reveal_strlit("8");
        reveal_strlit("9");
    }
    let text = match d {
        0 => "0",
        1 => "1",
        2 => "2",
        3 => "3",
        4 => "4",
        5 => "5",
        6 => "6",
        7 => "7",
        8 => "8",
        _ => "9",
    };
    assert(text@ =~= seq![digit(d as nat)]);
    out.append(text);
    assert(out@ =~= old(out)@ + decimal(n as nat));
}

/// The text of the notice for register `reg_idx`, whose write failed with `error`.
pub open spec fn notice(reg_idx: nat, error: Seq<char>) -> Seq<char> {
    "[ERR] Couldn't set register x"@ + decimal(reg_idx) + " ("@ + error + "), skipping..."@
}

/// What to print once the write of register `reg_idx` was tried: a notice where it failed, nothing
/// where it was made.
pub fn skip_notice(reg_idx: usize, outcome: &Result<(), String>) -> (text: Option<String>)
    ensures
        match outcome {
            Ok(_) => text is None,
            Err(error) => text is Some && text->0@ == notice(reg_idx as nat, error@),
        },
{
    match outcome {
        Ok(_) => None,
        Err(error) => {
            let mut text = String::from_str("[ERR] Couldn't set register x");
            append_decimal(&mut text, reg_idx);
            text.append(" (");
            text.append(error.as_str());
            text.append("), skipping...");
            Some(text)
        },
    }
}

} // verus!
