//! The counter contract: one 32-bit value that is read, set, raised and
//! lowered, and that never goes below zero.

use crate::host::{as_code, HostState, ERROR};
use crate::keys::Cell32;
use crate::note::Note;
use crate::task::{run, CounterOp, Task};
use vstd::prelude::*;

verus! {

/// The counter as it stands on `host`. A counter never written is zero.
pub open spec fn counter(host: HostState) -> u32 {
    host.count(Cell32::Counter)
}

/// What it amounts to on `host` to write `value` to the counter and to
/// report: the value is the result if the write is taken, and `ERROR` if not.
pub open spec fn store_outcome(host: HostState, value: u32, done: Note, failed: Note) -> (
    HostState,
    i32,
) {
    let after = host.store32(Cell32::Counter, value);
    if host.takes() {
        (after.traced(done), as_code(value))
    } else {
        (after.traced(failed), ERROR)
    }
}

/// What a call of [`get_count`] amounts to: nothing is written and the
/// counter is the result.
pub open spec fn get_count_outcome(host: HostState) -> (HostState, i32) {
    (host.traced(Note::GettingCounterValue), as_code(counter(host)))
}

/// What a call of [`increment`] amounts to: the counter is raised by one.
pub open spec fn increment_outcome(host: HostState) -> (HostState, i32) {
    store_outcome(
        host,
        counter(host).wrapping_add(1),
        Note::CounterIncremented,
        Note::FailedToIncrementCounter,
    )
}

/// What a call of [`decrement`] amounts to: the counter is lowered by one,
/// but a counter at zero is left alone, with zero as the result.
pub open spec fn decrement_outcome(host: HostState) -> (HostState, i32) {
    if counter(host) == 0 {
        (host.traced(Note::CounterAlreadyAtZero), 0)
    } else {
        store_outcome(
            host,
            (counter(host) - 1) as u32,
            Note::CounterDecremented,
            Note::FailedToDecrementCounter,
        )
    }
}

/// What a call of [`set_count`] amounts to: the counter becomes `value`.
pub open spec fn set_count_outcome(host: HostState, value: u32) -> (HostState, i32) {
    store_outcome(host, value, Note::CounterSet, Note::FailedToSetCounter)
}

/// What a call of [`reset`] amounts to: the counter becomes zero.
pub open spec fn reset_outcome(host: HostState) -> (HostState, i32) {
    store_outcome(host, 0, Note::CounterReset, Note::FailedToResetCounter)
}

/// What a call of [`add`] amounts to: the counter is raised by `amount`,
/// modulo `2^32`.
pub open spec fn add_outcome(host: HostState, amount: u32) -> (HostState, i32) {
    store_outcome(
        host,
        counter(host).wrapping_add(amount),
        Note::AddedToCounter,
        Note::FailedToAddToCounter,
    )
}

/// What a call of [`subtract`] amounts to: the counter is lowered by
/// `amount`, and becomes zero where `amount` is more than it holds.
pub open spec fn subtract_outcome(host: HostState, amount: u32) -> (HostState, i32) {
    if amount > counter(host) {
        let noted = host.traced(Note::SubtractionBelowZero);
        let after = noted.store32(Cell32::Counter, 0);
        if noted.takes() {
            (after, 0)
        } else {
            (after.traced(Note::FailedToSetCounterToZero), ERROR)
        }
    } else {
        store_outcome(
            host,
            (counter(host) - amount) as u32,
            Note::SubtractedFromCounter,
            Note::FailedToSubtractFromCounter,
        )
    }
}

/// Begins a call that returns the counter.
pub fn get_count() -> (task: Task)
    ensures
        task == (Task::CounterLoad { op: CounterOp::Get }),
        forall|host: HostState| #[trigger] run(task, host) == get_count_outcome(host),
{
    let task = Task::CounterLoad { op: CounterOp::Get };
    assert forall|host: HostState| #[trigger] run(task, host) == get_count_outcome(host) by {
        reveal_with_fuel(run, 4);
    }
    task
}

/// Begins a call that raises the counter by one and returns the new value.
pub fn increment() -> (task: Task)
    ensures
        task == (Task::CounterLoad { op: CounterOp::Increment }),
        forall|host: HostState| #[trigger] run(task, host) == increment_outcome(host),
{
    let task = Task::CounterLoad { op: CounterOp::Increment };
    assert forall|host: HostState| #[trigger] run(task, host) == increment_outcome(host) by {
        reveal_with_fuel(run, 5);
    }
    task
}

/// Begins a call that lowers the counter by one, down to zero at most, and
/// returns the new value.
pub fn decrement() -> (task: Task)
    ensures
        task == (Task::CounterLoad { op: CounterOp::Decrement }),
        forall|host: HostState| #[trigger] run(task, host) == decrement_outcome(host),
{
    let task = Task::CounterLoad { op: CounterOp::Decrement };
    assert forall|host: HostState| #[trigger] run(task, host) == decrement_outcome(host) by {
        reveal_with_fuel(run, 5);
    }
    task
}

/// Begins a call that sets the counter to `value` and returns it.
pub fn set_count(value: u32) -> (task: Task)
    ensures
        task == (Task::CounterStore {
            value,
            done: Note::CounterSet,
            failed: Note::FailedToSetCounter,
        }),
        forall|host: HostState| #[trigger] run(task, host) == set_count_outcome(host, value),
{
    let task = Task::CounterStore {
        value,
        done: Note::CounterSet,
        failed: Note::FailedToSetCounter,
    };
    assert forall|host: HostState| #[trigger]
        run(task, host) == set_count_outcome(host, value) by {
        reveal_with_fuel(run, 4);
    }
    task
}

/// Begins a call that sets the counter to zero.
pub fn reset() -> (task: Task)
    ensures
        task == (Task::CounterStore {
            value: 0,
            done: Note::CounterReset,
            failed: Note::FailedToResetCounter,
        }),
        forall|host: HostState| #[trigger] run(task, host) == reset_outcome(host),
{
    let task = Task::CounterStore {
        value: 0,
        done: Note::CounterReset,
        failed: Note::FailedToResetCounter,
    };
    assert forall|host: HostState| #[trigger] run(task, host) == reset_outcome(host) by {
        reveal_with_fuel(run, 4);
    }
    task
}

/// Begins a call that raises the counter by `amount` and returns the new
/// value.
pub fn add(amount: u32) -> (task: Task)
    ensures
        task == (Task::CounterLoad { op: CounterOp::Add(amount) }),
        forall|host: HostState| #[trigger] run(task, host) == add_outcome(host, amount),
{
    let task = Task::CounterLoad { op: CounterOp::Add(amount) };
    assert forall|host: HostState| #[trigger] run(task, host) == add_outcome(host, amount) by {
        reveal_with_fuel(run, 5);
    }
    task
}

/// Begins a call that lowers the counter by `amount`, down to zero at most,
/// and returns the new value.
pub fn subtract(amount: u32) -> (task: Task)
    ensures
        task == (Task::CounterLoad { op: CounterOp::Subtract(amount) }),
        forall|host: HostState| #[trigger] run(task, host) == subtract_outcome(host, amount),
{
    let task = Task::CounterLoad { op: CounterOp::Subtract(amount) };
    assert forall|host: HostState| #[trigger]
        run(task, host) == subtract_outcome(host, amount) by {
        reveal_with_fuel(run, 5);
    }
    task
}

/// One call of an entry point of the counter.
#[derive(Clone, Copy, Debug, PartialEq, Eq)]
pub enum CounterCall {
    GetCount,
    Increment,
    Decrement,
    SetCount(u32),
    Reset,
    Add(u32),
    Subtract(u32),
}

/// What `call` amounts to on `host`.
pub open spec fn call_outcome(host: HostState, call: CounterCall) -> (HostState, i32) {
    match call {
        CounterCall::GetCount => get_count_outcome(host),
        CounterCall::Increment => increment_outcome(host),
        CounterCall::Decrement => decrement_outcome(host),
        CounterCall::SetCount(value) => set_count_outcome(host, value),
        CounterCall::Reset => reset_outcome(host),
        CounterCall::Add(amount) => add_outcome(host, amount),
        CounterCall::Subtract(amount) => subtract_outcome(host, amount),
    }
}

/// The host after `calls` were made on `host`, one after the other.
pub open spec fn replay(host: HostState, calls: Seq<CounterCall>) -> HostState
    decreases calls.len(),
{
    if calls.len() == 0 {
        host
    } else {
        call_outcome(replay(host, calls.drop_last()), calls.last()).0
    }
}

/// Where a counter that starts at zero stands after `calls`, reckoned in
/// whole numbers without bound: an increment adds one, a decrement takes one
/// away unless the counter is at zero, and no other call is counted.
pub open spec fn level(calls: Seq<CounterCall>) -> int
    decreases calls.len(),
{
    if calls.len() == 0 {
        0
    } else {
        let before = level(calls.drop_last());
        match calls.last() {
            CounterCall::Increment => before + 1,
            CounterCall::Decrement => if before > 0 {
                before - 1
            } else {
                0
            },
            _ => before,
        }
    }
}

/// Whether every call of `calls` is an increment or a decrement.
pub open spec fn only_steps(calls: Seq<CounterCall>) -> bool {
    forall|i: int|
        0 <= i < calls.len() ==> (#[trigger] calls[i] is Increment || calls[i] is Decrement)
}

/// Whether a counter that starts at zero stays within 32 bits all through
/// `calls`.
pub open spec fn stays_in_range(calls: Seq<CounterCall>) -> bool {
    forall|k: int| 0 <= k <= calls.len() ==> #[trigger] level(calls.take(k)) <= u32::MAX
}

/// A call that only reads leaves every cell as it was.
pub proof fn get_count_writes_nothing(host: HostState)
    ensures
        get_count_outcome(host).0.same_cells(host),
        get_count_outcome(host).1 == as_code(counter(host)),
{
}

/// A decrement of a counter at zero is no failure: the result is zero, not
/// `ERROR`, and nothing is written, whatever the host would do with a write.
pub proof fn decrement_at_zero(host: HostState)
    requires
        counter(host) == 0,
    ensures
        decrement_outcome(host).1 == 0,
        decrement_outcome(host).0.same_cells(host),
        decrement_outcome(host).0.outcomes == host.outcomes,
{
}

/// A decrement never takes the counter below zero: it lowers a counter above
/// zero by exactly one and leaves a counter at zero alone.
pub proof fn decrement_stops_at_zero(host: HostState)
    requires
        host.takes(),
    ensures
        counter(decrement_outcome(host).0) == if counter(host) == 0 {
            0
        } else {
            counter(host) - 1
        },
        decrement_outcome(host).1 == as_code(counter(decrement_outcome(host).0)),
{
}

/// A subtraction of more than the counter holds is no failure: on a host
/// that takes the write, the counter is left at zero and the result is zero.
pub proof fn subtract_clamps_to_zero(host: HostState, amount: u32)
    requires
        amount > counter(host),
        host.takes(),
    ensures
        subtract_outcome(host, amount).1 == 0,
        counter(subtract_outcome(host, amount).0) == 0,
{
}

/// A subtraction of no more than the counter holds lowers it by exactly that
/// much, on a host that takes the write.
pub proof fn subtract_within_range(host: HostState, amount: u32)
    requires
        amount <= counter(host),
        host.takes(),
    ensures
        counter(subtract_outcome(host, amount).0) == counter(host) - amount,
        subtract_outcome(host, amount).1 == as_code((counter(host) - amount) as u32),
{
}

/// Where the host refuses the write, whatever the error code, a call of the
/// counter returns `ERROR` and leaves every cell as it was.
pub proof fn refused_write_changes_nothing(host: HostState, call: CounterCall)
    requires
        !host.takes(),
        !(call is GetCount),
        call is Decrement ==> counter(host) > 0,
    ensures
        call_outcome(host, call).1 == ERROR,
        call_outcome(host, call).0.same_cells(host),
{
}

/// Calls on a host that takes every write leave a host that takes every
/// write.
pub proof fn replay_keeps_host_willing(host: HostState, calls: Seq<CounterCall>)
    requires
        host.willing(),
    ensures
        replay(host, calls).willing(),
    decreases calls.len(),
{
    if calls.len() > 0 {
        replay_keeps_host_willing(host, calls.drop_last());
    }
}

/// Starting from a counter never written, on a host that takes every write,
/// any run of increments and decrements leaves the counter exactly where
/// reckoning in whole numbers puts it, as long as that stays within 32 bits.
/// So the counter never goes below zero, and never wraps round past it.
pub proof fn counter_never_negative(calls: Seq<CounterCall>)
    requires
        only_steps(calls),
        stays_in_range(calls),
    ensures
        counter(replay(HostState::fresh(), calls)) == level(calls),
        0 <= level(calls),
    decreases calls.len(),
{
    if calls.len() > 0 {
        let earlier = calls.drop_last();
        assert forall|k: int| 0 <= k <= earlier.len() implies #[trigger] level(earlier.take(k))
            <= u32::MAX by {
            assert(earlier.take(k) == calls.take(k));
        }
        assert(forall|i: int| 0 <= i < earlier.len() ==> earlier[i] == calls[i]);
        counter_never_negative(earlier);
        replay_keeps_host_willing(HostState::fresh(), earlier);
        assert(calls.take(calls.len() as int) == calls);
        assert(calls[calls.len() - 1] is Increment || calls[calls.len() - 1] is Decrement);
    }
}

} // verus!
