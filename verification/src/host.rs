//! What passes between a contract and its host, and a model of the host.
//!
//! The host keeps, for the contract's account, cells that are found by key
//! and hold a value of a fixed width. A contract asks for one thing at a time
//! with a [`Request`] and is told the result in a [`Reply`].

use crate::keys::{Cell32, Cell64};
use crate::note::Note;
use vstd::prelude::*;

verus! {

/// The status of a write that the host took.
pub const SUCCESS: i32 = 0;

/// What every entry point returns when it has failed.
pub const ERROR: i32 = -1;

/// One thing that the host is asked to do.
#[derive(Clone, Copy, Debug, PartialEq, Eq, Structural)]
pub enum Request {
    /// Read a 32-bit cell.
    Load32(Cell32),
    /// Read a 64-bit cell.
    Load64(Cell64),
    /// Write a 32-bit cell.
    Store32(Cell32, u32),
    /// Write a 64-bit cell.
    Store64(Cell64, u64),
    /// Hand a line to the trace sink.
    Trace(Note),
    /// End the call with this result.
    Return(i32),
}

/// What the host did with a request.
#[derive(Clone, Copy, Debug, PartialEq, Eq)]
pub enum Reply {
    /// What a 32-bit cell holds, or `None` if nothing was ever written to it.
    Value32(Option<u32>),
    /// What a 64-bit cell holds, or `None` if nothing was ever written to it.
    Value64(Option<u64>),
    /// How a write ended: taken, or refused with the host's error code.
    Stored(Result<(), i32>),
    /// The line was handed on. The sink's own result is of no interest.
    Traced,
}

/// What a 32-bit cell counts as: a cell never written counts as zero.
pub open spec fn spec_value32(stored: Option<u32>) -> u32 {
    match stored {
        Some(value) => value,
        None => 0,
    }
}

/// What a 64-bit cell counts as: a cell never written counts as zero.
pub open spec fn spec_value64(stored: Option<u64>) -> u64 {
    match stored {
        Some(value) => value,
        None => 0,
    }
}

/// The status that a write ended with: `SUCCESS` if the host took it, else
/// the host's own error code.
pub open spec fn spec_status(outcome: Result<(), i32>) -> i32 {
    match outcome {
        Ok(_) => SUCCESS,
        Err(code) => code,
    }
}

/// Whether the contract goes on after a write that ended with `outcome`:
/// only if the host took it. A refusal is a failure whatever its code.
pub open spec fn accepted(outcome: Result<(), i32>) -> bool {
    outcome is Ok
}

/// The part of an amount that fits the result of an entry point: its low 31
/// bits. Bit 31 and all above are lost, so an amount of `2^31` cents or more
/// is shown as a smaller one.
pub open spec fn low31(amount: u64) -> i32 {
    (amount & 0x7FFF_FFFF) as i32
}

/// A count as the result of an entry point: the same 32 bits, read as signed.
pub open spec fn as_code(count: u32) -> i32 {
    count as i32
}

/// Reads what a 32-bit cell counts as.
pub fn value32(stored: Option<u32>) -> (value: u32)
    ensures
        value == spec_value32(stored),
{
    match stored {
        Some(value) => value,
        None => 0,
    }
}

/// Reads what a 64-bit cell counts as.
pub fn value64(stored: Option<u64>) -> (value: u64)
    ensures
        value == spec_value64(stored),
{
    match stored {
        Some(value) => value,
        None => 0,
    }
}

/// Turns the end of a write into its status. The status is for the record
/// only: whether a write was taken is read off the outcome itself, since a
/// host is free to refuse with any code.
pub fn status(outcome: Result<(), i32>) -> (status: i32)
    ensures
        status == spec_status(outcome),
{
    match outcome {
        Ok(_) => SUCCESS,
        Err(code) => code,
    }
}

/// Cuts an amount down to what an entry point can return.
pub fn shown(amount: u64) -> (code: i32)
    ensures
        code == low31(amount),
        0 <= code,
        code == amount % 0x8000_0000,
{
    let low: u64 = amount & 0x7FFF_FFFF;
    assert(low == amount % 0x8000_0000 && low < 0x8000_0000) by (bit_vector)
        requires
            low == amount & 0x7FFF_FFFF,
    ;
    low as i32
}

/// Hands a count back as the result of an entry point.
pub fn code_of(count: u32) -> (code: i32)
    ensures
        code == as_code(count),
        count < 0x8000_0000 ==> code == count,
        count >= 0x8000_0000 ==> code == count - 0x1_0000_0000,
{
    let code: i32 = #[verifier::truncate] (count as i32);
    assert(count < 0x8000_0000 ==> code == count);
    assert(count >= 0x8000_0000u32 ==> code as int == count as int - 0x1_0000_0000int)
        by (bit_vector)
        requires
            code == count as i32,
    ;
    code
}

/// The low 31 bits of an amount are what is left of it modulo `2^31`, and
/// never negative.
pub proof fn low31_is_remainder(amount: u64)
    ensures
        low31(amount) == amount % 0x8000_0000,
        0 <= low31(amount),
{
    let low: u64 = amount & 0x7FFF_FFFF;
    assert(low == amount % 0x8000_0000 && low < 0x8000_0000) by (bit_vector)
        requires
            low == amount & 0x7FFF_FFFF,
    ;
}

/// The host as the contracts see it.
pub struct HostState {
    /// The 32-bit cells that were written, by key.
    pub cells32: Map<Seq<char>, u32>,
    /// The 64-bit cells that were written, by key.
    pub cells64: Map<Seq<char>, u64>,
    /// How the coming writes will end, the next one first. When none is
    /// left, every write is taken.
    pub outcomes: Seq<Result<(), i32>>,
    /// The lines traced so far, the oldest first.
    pub trace: Seq<Note>,
}

impl HostState {
    /// An account to which nothing was ever written, on a host that takes
    /// every write.
    pub open spec fn fresh() -> HostState {
        HostState {
            cells32: Map::empty(),
            cells64: Map::empty(),
            outcomes: Seq::empty(),
            trace: Seq::empty(),
        }
    }

    /// What a read of `cell` gives.
    pub open spec fn load32(self, cell: Cell32) -> Option<u32> {
        self.cells32.get(cell.spec_key())
    }

    /// What a read of `cell` gives.
    pub open spec fn load64(self, cell: Cell64) -> Option<u64> {
        self.cells64.get(cell.spec_key())
    }

    /// What `cell` counts as.
    pub open spec fn count(self, cell: Cell32) -> u32 {
        spec_value32(self.load32(cell))
    }

    /// What `cell` counts as.
    pub open spec fn amount(self, cell: Cell64) -> u64 {
        spec_value64(self.load64(cell))
    }

    /// Whether the host takes every write to come.
    pub open spec fn willing(self) -> bool {
        self.outcomes.len() == 0
    }

    /// How the next write will end.
    pub open spec fn outcome(self) -> Result<(), i32> {
        if self.outcomes.len() > 0 {
            self.outcomes[0]
        } else {
            Ok(())
        }
    }

    /// Whether the host takes the next write.
    pub open spec fn takes(self) -> bool {
        accepted(self.outcome())
    }

    /// The outcomes that are left after the next write.
    pub open spec fn later_outcomes(self) -> Seq<Result<(), i32>> {
        if self.outcomes.len() > 0 {
            self.outcomes.drop_first()
        } else {
            self.outcomes
        }
    }

    /// The host after a write of `value` to `cell`: the cell holds the value
    /// if the host took the write and is untouched if not.
    pub open spec fn store32(self, cell: Cell32, value: u32) -> HostState {
        HostState {
            cells32: if self.takes() {
                self.cells32.insert(cell.spec_key(), value)
            } else {
                self.cells32
            },
            outcomes: self.later_outcomes(),
            ..self
        }
    }

    /// The host after a write of `value` to `cell`: the cell holds the value
    /// if the host took the write and is untouched if not.
    pub open spec fn store64(self, cell: Cell64, value: u64) -> HostState {
        HostState {
            cells64: if self.takes() {
                self.cells64.insert(cell.spec_key(), value)
            } else {
                self.cells64
            },
            outcomes: self.later_outcomes(),
            ..self
        }
    }

    /// The host after `note` was traced.
    pub open spec fn traced(self, note: Note) -> HostState {
        HostState { trace: self.trace.push(note), ..self }
    }

    /// Whether the two hold the same in every cell.
    pub open spec fn same_cells(self, other: HostState) -> bool {
        self.cells32 == other.cells32 && self.cells64 == other.cells64
    }

    /// The host after it has served `request`, and what it answers.
    /// `Return` asks nothing of the host.
    pub open spec fn serve(self, request: Request) -> (HostState, Reply) {
        match request {
            Request::Load32(cell) => (self, Reply::Value32(self.load32(cell))),
            Request::Load64(cell) => (self, Reply::Value64(self.load64(cell))),
            Request::Store32(cell, value) => (
                self.store32(cell, value),
                Reply::Stored(self.outcome()),
            ),
            Request::Store64(cell, value) => (
                self.store64(cell, value),
                Reply::Stored(self.outcome()),
            ),
            Request::Trace(note) => (self.traced(note), Reply::Traced),
            Request::Return(_) => (self, Reply::Traced),
        }
    }
}

} // verus!
