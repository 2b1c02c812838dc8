//! An entry point in progress.
//!
//! A [`Task`] is the state of one call of an entry point between two things
//! it asks of the host. [`Task::request`] says what it asks next and
//! [`Task::resume`] takes the host's answer. [`run`] is what the whole call
//! amounts to on a given host.

use crate::host::{
    accepted, as_code, code_of, low31, shown, spec_value32, spec_value64, value32, value64,
    HostState, Reply, Request, ERROR,
};
use crate::keys::{Cell32, Cell64};
use crate::note::Note;
use vstd::prelude::*;

verus! {

/// What an entry point of the counter does with the value it has read.
#[derive(Clone, Copy, Debug, PartialEq, Eq, Structural)]
pub enum CounterOp {
    /// Return it.
    Get,
    /// Store it raised by one.
    Increment,
    /// Store it lowered by one, unless it is zero.
    Decrement,
    /// Store it raised by the amount.
    Add(u32),
    /// Store it lowered by the amount, or zero if the amount is larger.
    Subtract(u32),
}

/// One call of an entry point, at the point where it next needs the host.
#[derive(Clone, Copy, Debug, PartialEq, Eq, Structural)]
pub enum Task {
    /// The call is over.
    Finished { code: i32 },
    /// All is decided; the closing note is still to be traced.
    Report { note: Note, code: i32 },
    /// The counter is to be read.
    CounterLoad { op: CounterOp },
    /// The counter is to be written.
    CounterStore { value: u32, done: Note, failed: Note },
    /// A subtraction went below zero: that is to be traced.
    CounterClampNotice,
    /// A subtraction went below zero: zero is to be written.
    CounterClampStore,
    /// The vault total is to be read and returned.
    TotalLoad,
    /// A lender's balance is to be read and returned.
    BalanceLoad { addr_hash: u32 },
    /// Deposit: the vault total is to be read.
    DepositTotalLoad { amount: u32, addr_hash: u32 },
    /// Deposit: the raised total is to be written.
    DepositTotalStore { amount: u32, addr_hash: u32, new_total: u64 },
    /// Deposit: the lender's balance is to be read.
    DepositBalanceLoad { amount: u32, addr_hash: u32, new_total: u64 },
    /// Deposit by a new lender: the member count is to be read.
    DepositMembersLoad { amount: u32, addr_hash: u32, new_total: u64 },
    /// Deposit by a new lender: the raised member count is to be written.
    DepositMembersStore { amount: u32, addr_hash: u32, new_total: u64, members: u32 },
    /// Deposit: the lender's raised balance is to be written.
    DepositBalanceStore { addr_hash: u32, new_total: u64, new_balance: u64 },
    /// Withdrawal: the lender's balance is to be read.
    WithdrawBalanceLoad { amount: u32, addr_hash: u32 },
    /// Withdrawal: the vault total is to be read.
    WithdrawTotalLoad { amount: u32, addr_hash: u32, new_balance: u64 },
    /// Withdrawal: the lowered total is to be written.
    WithdrawTotalStore { addr_hash: u32, new_total: u64, new_balance: u64 },
    /// Withdrawal: the lender's lowered balance is to be written.
    WithdrawBalanceStore { addr_hash: u32, new_total: u64, new_balance: u64 },
    /// Withdrawal of a lender's last cent: the member count is to be read.
    WithdrawMembersLoad { new_total: u64 },
    /// Withdrawal of a lender's last cent: the lowered member count is to be
    /// written.
    WithdrawMembersStore { new_total: u64, members: u32 },
}

/// Where the counter's call stands once the counter has been read.
pub open spec fn counter_loaded(op: CounterOp, value: u32) -> Task {
    match op {
        CounterOp::Get => Task::Report { note: Note::GettingCounterValue, code: as_code(value) },
        CounterOp::Increment => Task::CounterStore {
            value: value.wrapping_add(1),
            done: Note::CounterIncremented,
            failed: Note::FailedToIncrementCounter,
        },
        CounterOp::Decrement => if value == 0 {
            Task::Report { note: Note::CounterAlreadyAtZero, code: 0 }
        } else {
            Task::CounterStore {
                value: (value - 1) as u32,
                done: Note::CounterDecremented,
                failed: Note::FailedToDecrementCounter,
            }
        },
        CounterOp::Add(amount) => Task::CounterStore {
            value: value.wrapping_add(amount),
            done: Note::AddedToCounter,
            failed: Note::FailedToAddToCounter,
        },
        CounterOp::Subtract(amount) => if amount > value {
            Task::CounterClampNotice
        } else {
            Task::CounterStore {
                value: (value - amount) as u32,
                done: Note::SubtractedFromCounter,
                failed: Note::FailedToSubtractFromCounter,
            }
        },
    }
}

/// Where a call stands after a write: on `then` if the write was taken, else
/// on the report of its failure.
pub open spec fn stored(outcome: Result<(), i32>, then: Task, failed: Note) -> Task {
    if accepted(outcome) {
        then
    } else {
        Task::Report { note: failed, code: ERROR }
    }
}

impl Task {
    /// What the call asks of the host next.
    pub open spec fn spec_request(self) -> Request {
        match self {
            Task::Finished { code } => Request::Return(code),
            Task::Report { note, .. } => Request::Trace(note),
            Task::CounterLoad { .. } => Request::Load32(Cell32::Counter),
            Task::CounterStore { value, .. } => Request::Store32(Cell32::Counter, value),
            Task::CounterClampNotice => Request::Trace(Note::SubtractionBelowZero),
            Task::CounterClampStore => Request::Store32(Cell32::Counter, 0),
            Task::TotalLoad => Request::Load64(Cell64::VaultTotal),
            Task::BalanceLoad { addr_hash } => Request::Load64(Cell64::Lender(addr_hash)),
            Task::DepositTotalLoad { .. } => Request::Load64(Cell64::VaultTotal),
            Task::DepositTotalStore { new_total, .. } => Request::Store64(
                Cell64::VaultTotal,
                new_total,
            ),
            Task::DepositBalanceLoad { addr_hash, .. } => Request::Load64(
                Cell64::Lender(addr_hash),
            ),
            Task::DepositMembersLoad { .. } => Request::Load32(Cell32::VaultMembers),
            Task::DepositMembersStore { members, .. } => Request::Store32(
                Cell32::VaultMembers,
                members,
            ),
            Task::DepositBalanceStore { addr_hash, new_balance, .. } => Request::Store64(
                Cell64::Lender(addr_hash),
                new_balance,
            ),
            Task::WithdrawBalanceLoad { addr_hash, .. } => Request::Load64(
                Cell64::Lender(addr_hash),
            ),
            Task::WithdrawTotalLoad { .. } => Request::Load64(Cell64::VaultTotal),
            Task::WithdrawTotalStore { new_total, .. } => Request::Store64(
                Cell64::VaultTotal,
                new_total,
            ),
            Task::WithdrawBalanceStore { addr_hash, new_balance, .. } => Request::Store64(
                Cell64::Lender(addr_hash),
                new_balance,
            ),
            Task::WithdrawMembersLoad { .. } => Request::Load32(Cell32::VaultMembers),
            Task::WithdrawMembersStore { members, .. } => Request::Store32(
                Cell32::VaultMembers,
                members,
            ),
        }
    }

    /// Where the call stands once the host has answered `reply`. A reply that
    /// does not answer the request leaves the call where it is.
    pub open spec fn next(self, reply: Reply) -> Task {
        match (self, reply) {
            (Task::Report { code, .. }, Reply::Traced) => Task::Finished { code },
            (Task::CounterLoad { op }, Reply::Value32(found)) => counter_loaded(
                op,
                spec_value32(found),
            ),
            (Task::CounterStore { value, done, failed }, Reply::Stored(outcome)) => stored(
                outcome,
                Task::Report { note: done, code: as_code(value) },
                failed,
            ),
            (Task::CounterClampNotice, Reply::Traced) => Task::CounterClampStore,
            (Task::CounterClampStore, Reply::Stored(outcome)) => stored(
                outcome,
                Task::Finished { code: 0 },
                Note::FailedToSetCounterToZero,
            ),
            (Task::TotalLoad, Reply::Value64(found)) => Task::Report {
                note: Note::GettingVaultTotal,
                code: low31(spec_value64(found)),
            },
            (Task::BalanceLoad { .. }, Reply::Value64(found)) => Task::Report {
                note: Note::GettingLenderBalance,
                code: low31(spec_value64(found)),
            },
            (Task::DepositTotalLoad { amount, addr_hash }, Reply::Value64(found)) => {
                Task::DepositTotalStore {
                    amount,
                    addr_hash,
                    new_total: spec_value64(found).wrapping_add(amount as u64),
                }
            },
            (
                Task::DepositTotalStore { amount, addr_hash, new_total },
                Reply::Stored(outcome),
            ) => stored(
                outcome,
                Task::DepositBalanceLoad { amount, addr_hash, new_total },
                Note::FailedToUpdateVaultTotal,
            ),
            (
                Task::DepositBalanceLoad { amount, addr_hash, new_total },
                Reply::Value64(found),
            ) => if spec_value64(found) == 0 {
                Task::DepositMembersLoad { amount, addr_hash, new_total }
            } else {
                Task::DepositBalanceStore {
                    addr_hash,
                    new_total,
                    new_balance: spec_value64(found).wrapping_add(amount as u64),
                }
            },
            (
                Task::DepositMembersLoad { amount, addr_hash, new_total },
                Reply::Value32(found),
            ) => Task::DepositMembersStore {
                amount,
                addr_hash,
                new_total,
                members: spec_value32(found).wrapping_add(1),
            },
            (
                Task::DepositMembersStore { amount, addr_hash, new_total, .. },
                Reply::Stored(outcome),
            ) => stored(
                outcome,
                Task::DepositBalanceStore { addr_hash, new_total, new_balance: amount as u64 },
                Note::FailedToUpdateMemberCount,
            ),
            (Task::DepositBalanceStore { new_total, .. }, Reply::Stored(outcome)) => stored(
                outcome,
                Task::Report { note: Note::DepositRecorded, code: low31(new_total) },
                Note::FailedToUpdateLenderBalance,
            ),
            (Task::WithdrawBalanceLoad { amount, addr_hash }, Reply::Value64(found)) => {
                if amount as u64 > spec_value64(found) {
                    Task::Report { note: Note::InsufficientLenderBalance, code: ERROR }
                } else {
                    Task::WithdrawTotalLoad {
                        amount,
                        addr_hash,
                        new_balance: (spec_value64(found) - amount) as u64,
                    }
                }
            },
            (
                Task::WithdrawTotalLoad { amount, addr_hash, new_balance },
                Reply::Value64(found),
            ) => if amount as u64 > spec_value64(found) {
                Task::Report { note: Note::InsufficientVaultTotal, code: ERROR }
            } else {
                Task::WithdrawTotalStore {
                    addr_hash,
                    new_total: (spec_value64(found) - amount) as u64,
                    new_balance,
                }
            },
            (
                Task::WithdrawTotalStore { addr_hash, new_total, new_balance },
                Reply::Stored(outcome),
            ) => stored(
                outcome,
                Task::WithdrawBalanceStore { addr_hash, new_total, new_balance },
                Note::FailedToUpdateVaultTotal,
            ),
            (
                Task::WithdrawBalanceStore { new_total, new_balance, .. },
                Reply::Stored(outcome),
            ) => stored(
                outcome,
                if new_balance == 0 {
                    Task::WithdrawMembersLoad { new_total }
                } else {
                    Task::Report { note: Note::WithdrawalRecorded, code: low31(new_total) }
                },
                Note::FailedToUpdateLenderBalance,
            ),
            (Task::WithdrawMembersLoad { new_total }, Reply::Value32(found)) => {
                if spec_value32(found) > 0 {
                    Task::WithdrawMembersStore {
                        new_total,
                        members: (spec_value32(found) - 1) as u32,
                    }
                } else {
                    Task::Report { note: Note::WithdrawalRecorded, code: low31(new_total) }
                }
            },
            (Task::WithdrawMembersStore { new_total, .. }, Reply::Stored(outcome)) => stored(
                outcome,
                Task::Report { note: Note::WithdrawalRecorded, code: low31(new_total) },
                Note::FailedToUpdateMemberCount,
            ),
            _ => self,
        }
    }

    /// No call asks more than this many things of the host before it is
    /// over.
    pub open spec fn steps_left(self) -> nat {
        match self {
            Task::Finished { .. } => 0,
            Task::Report { .. } => 1,
            Task::CounterLoad { .. } => 4,
            Task::CounterStore { .. } => 2,
            Task::CounterClampNotice => 3,
            Task::CounterClampStore => 2,
            Task::TotalLoad => 2,
            Task::BalanceLoad { .. } => 2,
            Task::DepositTotalLoad { .. } => 7,
            Task::DepositTotalStore { .. } => 6,
            Task::DepositBalanceLoad { .. } => 5,
            Task::DepositMembersLoad { .. } => 4,
            Task::DepositMembersStore { .. } => 3,
            Task::DepositBalanceStore { .. } => 2,
            Task::WithdrawBalanceLoad { .. } => 7,
            Task::WithdrawTotalLoad { .. } => 6,
            Task::WithdrawTotalStore { .. } => 5,
            Task::WithdrawBalanceStore { .. } => 4,
            Task::WithdrawMembersLoad { .. } => 3,
            Task::WithdrawMembersStore { .. } => 2,
        }
    }

    /// Whether the call is over.
    pub open spec fn spec_is_finished(self) -> bool {
        self is Finished
    }

    /// What the call asks of the host next.
    pub fn request(&self) -> (request: Request)
        ensures
            request == self.spec_request(),
    {
        match *self {
            Task::Finished { code } => Request::Return(code),
            Task::Report { note, .. } => Request::Trace(note),
            Task::CounterLoad { .. } => Request::Load32(Cell32::Counter),
            Task::CounterStore { value, .. } => Request::Store32(Cell32::Counter, value),
            Task::CounterClampNotice => Request::Trace(Note::SubtractionBelowZero),
            Task::CounterClampStore => Request::Store32(Cell32::Counter, 0),
            Task::TotalLoad => Request::Load64(Cell64::VaultTotal),
            Task::BalanceLoad { addr_hash } => Request::Load64(Cell64::Lender(addr_hash)),
            Task::DepositTotalLoad { .. } => Request::Load64(Cell64::VaultTotal),
            Task::DepositTotalStore { new_total, .. } => Request::Store64(
                Cell64::VaultTotal,
                new_total,
            ),
            Task::DepositBalanceLoad { addr_hash, .. } => Request::Load64(
                Cell64::Lender(addr_hash),
            ),
            Task::DepositMembersLoad { .. } => Request::Load32(Cell32::VaultMembers),
            Task::DepositMembersStore { members, .. } => Request::Store32(
                Cell32::VaultMembers,
                members,
            ),
            Task::DepositBalanceStore { addr_hash, new_balance, .. } => Request::Store64(
                Cell64::Lender(addr_hash),
                new_balance,
            ),
            Task::WithdrawBalanceLoad { addr_hash, .. } => Request::Load64(
                Cell64::Lender(addr_hash),
            ),
            Task::WithdrawTotalLoad { .. } => Request::Load64(Cell64::VaultTotal),
            Task::WithdrawTotalStore { new_total, .. } => Request::Store64(
                Cell64::VaultTotal,
                new_total,
            ),
            Task::WithdrawBalanceStore { addr_hash, new_balance, .. } => Request::Store64(
                Cell64::Lender(addr_hash),
                new_balance,
            ),
            Task::WithdrawMembersLoad { .. } => Request::Load32(Cell32::VaultMembers),
            Task::WithdrawMembersStore { members, .. } => Request::Store32(
                Cell32::VaultMembers,
                members,
            ),
        }
    }

    /// Takes the host's answer to the request and moves the call on. A reply
    /// that does not answer the request leaves the call where it is.
    pub fn resume(self, reply: Reply) -> (task: Task)
        ensures
            task == self.next(reply),
            forall|host: HostState|
                reply == host.serve(self.spec_request()).1 && !self.spec_is_finished() ==> run(
                    task,
                    host.serve(self.spec_request()).0,
                ) == #[trigger] run(self, host),
    {
        match (self, reply) {
            (Task::Report { code, .. }, Reply::Traced) => Task::Finished { code },
            (Task::CounterLoad { op }, Reply::Value32(found)) => after_counter_load(
                op,
                value32(found),
            ),
            (Task::CounterStore { value, done, failed }, Reply::Stored(outcome)) => after_store(
                outcome,
                Task::Report { note: done, code: code_of(value) },
                failed,
            ),
            (Task::CounterClampNotice, Reply::Traced) => Task::CounterClampStore,
            (Task::CounterClampStore, Reply::Stored(outcome)) => after_store(
                outcome,
                Task::Finished { code: 0 },
                Note::FailedToSetCounterToZero,
            ),
            (Task::TotalLoad, Reply::Value64(found)) => Task::Report {
                note: Note::GettingVaultTotal,
                code: shown(value64(found)),
            },
            (Task::BalanceLoad { .. }, Reply::Value64(found)) => Task::Report {
                note: Note::GettingLenderBalance,
                code: shown(value64(found)),
            },
            (Task::DepositTotalLoad { amount, addr_hash }, Reply::Value64(found)) => {
                Task::DepositTotalStore {
                    amount,
                    addr_hash,
                    new_total: value64(found).wrapping_add(amount as u64),
                }
            },
            (
                Task::DepositTotalStore { amount, addr_hash, new_total },
                Reply::Stored(outcome),
            ) => after_store(
                outcome,
                Task::DepositBalanceLoad { amount, addr_hash, new_total },
                Note::FailedToUpdateVaultTotal,
            ),
            (
                Task::DepositBalanceLoad { amount, addr_hash, new_total },
                Reply::Value64(found),
            ) => {
                let balance = value64(found);
                if balance == 0 {
                    Task::DepositMembersLoad { amount, addr_hash, new_total }
                } else {
                    Task::DepositBalanceStore {
                        addr_hash,
                        new_total,
                        new_balance: balance.wrapping_add(amount as u64),
                    }
                }
            },
            (
                Task::DepositMembersLoad { amount, addr_hash, new_total },
                Reply::Value32(found),
            ) => Task::DepositMembersStore {
                amount,
                addr_hash,
                new_total,
                members: value32(found).wrapping_add(1),
            },
            (
                Task::DepositMembersStore { amount, addr_hash, new_total, .. },
                Reply::Stored(outcome),
            ) => after_store(
                outcome,
                Task::DepositBalanceStore { addr_hash, new_total, new_balance: amount as u64 },
                Note::FailedToUpdateMemberCount,
            ),
            (Task::DepositBalanceStore { new_total, .. }, Reply::Stored(outcome)) => after_store(
                outcome,
                Task::Report { note: Note::DepositRecorded, code: shown(new_total) },
                Note::FailedToUpdateLenderBalance,
            ),
            (Task::WithdrawBalanceLoad { amount, addr_hash }, Reply::Value64(found)) => {
                let balance = value64(found);
                if amount as u64 > balance {
                    Task::Report { note: Note::InsufficientLenderBalance, code: ERROR }
                } else {
                    Task::WithdrawTotalLoad {
                        amount,
                        addr_hash,
                        new_balance: balance - amount as u64,
                    }
                }
            },
            (
                Task::WithdrawTotalLoad { amount, addr_hash, new_balance },
                Reply::Value64(found),
            ) => {
                let total = value64(found);
                if amount as u64 > total {
                    Task::Report { note: Note::InsufficientVaultTotal, code: ERROR }
                } else {
                    Task::WithdrawTotalStore {
                        addr_hash,
                        new_total: total - amount as u64,
                        new_balance,
                    }
                }
            },
            (
                Task::WithdrawTotalStore { addr_hash, new_total, new_balance },
                Reply::Stored(outcome),
            ) => after_store(
                outcome,
                Task::WithdrawBalanceStore { addr_hash, new_total, new_balance },
                Note::FailedToUpdateVaultTotal,
            ),
            (
                Task::WithdrawBalanceStore { new_total, new_balance, .. },
                Reply::Stored(outcome),
            ) => {
                let then = if new_balance == 0 {
                    Task::WithdrawMembersLoad { new_total }
                } else {
                    Task::Report { note: Note::WithdrawalRecorded, code: shown(new_total) }
                };
                after_store(outcome, then, Note::FailedToUpdateLenderBalance)
            },
            (Task::WithdrawMembersLoad { new_total }, Reply::Value32(found)) => {
                let members = value32(found);
                if members > 0 {
                    Task::WithdrawMembersStore { new_total, members: members - 1 }
                } else {
                    Task::Report { note: Note::WithdrawalRecorded, code: shown(new_total) }
                }
            },
            (Task::WithdrawMembersStore { new_total, .. }, Reply::Stored(outcome)) => {
                after_store(
                    outcome,
                    Task::Report { note: Note::WithdrawalRecorded, code: shown(new_total) },
                    Note::FailedToUpdateMemberCount,
                )
            },
            _ => self,
        }
    }

    /// Whether the call is over, and if so with which result.
    pub fn result(&self) -> (result: Option<i32>)
        ensures
            result == match *self {
                Task::Finished { code } => Some(code),
                _ => None::<i32>,
            },
    {
        match *self {
            Task::Finished { code } => Some(code),
            _ => None,
        }
    }
}

/// Decides what a counter call does with the value it has read.
fn after_counter_load(op: CounterOp, value: u32) -> (task: Task)
    ensures
        task == counter_loaded(op, value),
{
    match op {
        CounterOp::Get => Task::Report { note: Note::GettingCounterValue, code: code_of(value) },
        CounterOp::Increment => Task::CounterStore {
            value: value.wrapping_add(1),
            done: Note::CounterIncremented,
            failed: Note::FailedToIncrementCounter,
        },
        CounterOp::Decrement => if value == 0 {
            Task::Report { note: Note::CounterAlreadyAtZero, code: 0 }
        } else {
            Task::CounterStore {
                value: value - 1,
                done: Note::CounterDecremented,
                failed: Note::FailedToDecrementCounter,
            }
        },
        CounterOp::Add(amount) => Task::CounterStore {
            value: value.wrapping_add(amount),
            done: Note::AddedToCounter,
            failed: Note::FailedToAddToCounter,
        },
        CounterOp::Subtract(amount) => if amount > value {
            Task::CounterClampNotice
        } else {
            Task::CounterStore {
                value: value - amount,
                done: Note::SubtractedFromCounter,
                failed: Note::FailedToSubtractFromCounter,
            }
        },
    }
}

/// Decides how a call goes on after a write.
fn after_store(outcome: Result<(), i32>, then: Task, failed: Note) -> (task: Task)
    ensures
        task == stored(outcome, then, failed),
{
    if outcome.is_ok() {
        then
    } else {
        Task::Report { note: failed, code: ERROR }
    }
}

/// What a call that stands at `task` amounts to on `host`: the host as the
/// call leaves it, and the result of the call.
pub open spec fn run(task: Task, host: HostState) -> (HostState, i32)
    decreases task.steps_left(),
{
    match task {
        Task::Finished { code } => (host, code),
        _ => {
            let (served, reply) = host.serve(task.spec_request());
            run(task.next(reply), served)
        },
    }
}

/// Every answer of the host brings a call nearer to its end.
pub proof fn each_step_counts(task: Task, host: HostState)
    requires
        !task.spec_is_finished(),
    ensures
        task.next(host.serve(task.spec_request()).1).steps_left() < task.steps_left(),
        run(task, host) == run(
            task.next(host.serve(task.spec_request()).1),
            host.serve(task.spec_request()).0,
        ),
{
}

} // verus!
