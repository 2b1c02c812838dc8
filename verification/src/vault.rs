//! The vault contract: pooled funds, in cents, with one balance for each
//! lender, the sum of all balances, and the number of lenders that hold
//! anything.

use crate::host::{low31, low31_is_remainder, HostState, ERROR};
use crate::keys::{cell64_keys_differ, Cell32, Cell64};
use crate::note::Note;
use crate::task::{run, Task};
use vstd::prelude::*;

verus! {

/// The vault total as it stands on `host`.
pub open spec fn total(host: HostState) -> u64 {
    host.amount(Cell64::VaultTotal)
}

/// The member count as it stands on `host`.
pub open spec fn members(host: HostState) -> u32 {
    host.count(Cell32::VaultMembers)
}

/// The balance of the lender with address hash `addr_hash` as it stands on
/// `host`.
pub open spec fn balance(host: HostState, addr_hash: u32) -> u64 {
    host.amount(Cell64::Lender(addr_hash))
}

/// What it amounts to on `host` to give up with `note`.
pub open spec fn refused(host: HostState, note: Note) -> (HostState, i32) {
    (host.traced(note), ERROR)
}

/// What it amounts to on `host` to close a call that has moved the total to
/// `new_total`: the low 31 bits of the total are the result.
pub open spec fn recorded(host: HostState, note: Note, new_total: u64) -> (HostState, i32) {
    (host.traced(note), low31(new_total))
}

/// The last step of a deposit: the lender's balance is written.
pub open spec fn credit_outcome(
    host: HostState,
    addr_hash: u32,
    new_balance: u64,
    new_total: u64,
) -> (HostState, i32) {
    let after = host.store64(Cell64::Lender(addr_hash), new_balance);
    if host.takes() {
        recorded(after, Note::DepositRecorded, new_total)
    } else {
        refused(after, Note::FailedToUpdateLenderBalance)
    }
}

/// What a call of [`deposit`] amounts to. A deposit of nothing is refused
/// before anything is read. Else three cells are written, each for itself
/// and in this order: the total, raised by `amount`; for a lender who held
/// nothing, the member count, raised by one; the lender's balance, raised by
/// `amount`. The first write that the host does not take ends the call with
/// `ERROR`, and what was written before it stays written.
pub open spec fn deposit_outcome(host: HostState, amount: u32, addr_hash: u32) -> (
    HostState,
    i32,
) {
    if amount == 0 {
        refused(host, Note::DepositAmountZero)
    } else {
        let new_total = total(host).wrapping_add(amount as u64);
        let totalled = host.store64(Cell64::VaultTotal, new_total);
        if !host.takes() {
            refused(totalled, Note::FailedToUpdateVaultTotal)
        } else if balance(totalled, addr_hash) == 0 {
            let joined = totalled.store32(
                Cell32::VaultMembers,
                members(totalled).wrapping_add(1),
            );
            if !totalled.takes() {
                refused(joined, Note::FailedToUpdateMemberCount)
            } else {
                credit_outcome(joined, addr_hash, amount as u64, new_total)
            }
        } else {
            credit_outcome(
                totalled,
                addr_hash,
                balance(totalled, addr_hash).wrapping_add(amount as u64),
                new_total,
            )
        }
    }
}

/// The last step of a withdrawal that has emptied a lender's balance: the
/// member count is lowered by one, unless it is zero already.
pub open spec fn leave_outcome(host: HostState, new_total: u64) -> (HostState, i32) {
    if members(host) > 0 {
        let after = host.store32(Cell32::VaultMembers, (members(host) - 1) as u32);
        if host.takes() {
            recorded(after, Note::WithdrawalRecorded, new_total)
        } else {
            refused(after, Note::FailedToUpdateMemberCount)
        }
    } else {
        recorded(host, Note::WithdrawalRecorded, new_total)
    }
}

/// What a call of [`withdraw`] amounts to. A withdrawal of nothing, of more
/// than the lender holds, or of more than the vault holds is refused before
/// anything is written. Else the total and the lender's balance are lowered
/// by `amount`, and the member count by one if the balance has become zero;
/// each cell is written for itself, in this order. The first write that the
/// host does not take ends the call with `ERROR`, and what was written
/// before it stays written.
pub open spec fn withdraw_outcome(host: HostState, amount: u32, addr_hash: u32) -> (
    HostState,
    i32,
) {
    if amount == 0 {
        refused(host, Note::WithdrawAmountZero)
    } else if amount > balance(host, addr_hash) {
        refused(host, Note::InsufficientLenderBalance)
    } else if amount > total(host) {
        refused(host, Note::InsufficientVaultTotal)
    } else {
        let new_total = (total(host) - amount) as u64;
        let new_balance = (balance(host, addr_hash) - amount) as u64;
        let totalled = host.store64(Cell64::VaultTotal, new_total);
        let debited = totalled.store64(Cell64::Lender(addr_hash), new_balance);
        if !host.takes() {
            refused(totalled, Note::FailedToUpdateVaultTotal)
        } else if !totalled.takes() {
            refused(debited, Note::FailedToUpdateLenderBalance)
        } else if new_balance == 0 {
            leave_outcome(debited, new_total)
        } else {
            recorded(debited, Note::WithdrawalRecorded, new_total)
        }
    }
}

/// What a call of [`get_vault_total`] amounts to: nothing is written and
/// the low 31 bits of the total are the result.
pub open spec fn get_vault_total_outcome(host: HostState) -> (HostState, i32) {
    recorded(host, Note::GettingVaultTotal, total(host))
}

/// What a call of [`get_lender_balance`] amounts to: nothing is written and
/// the low 31 bits of the lender's balance are the result.
pub open spec fn get_lender_balance_outcome(host: HostState, addr_hash: u32) -> (
    HostState,
    i32,
) {
    recorded(host, Note::GettingLenderBalance, balance(host, addr_hash))
}

/// Begins a call that adds `amount` cents to the vault for the lender with
/// address hash `addr_hash`.
pub fn deposit(amount: u32, addr_hash: u32) -> (task: Task)
    ensures
        task == (if amount == 0 {
            Task::Report { note: Note::DepositAmountZero, code: ERROR }
        } else {
            Task::DepositTotalLoad { amount, addr_hash }
        }),
        forall|host: HostState| #[trigger]
            run(task, host) == deposit_outcome(host, amount, addr_hash),
{
    let task = if amount == 0 {
        Task::Report { note: Note::DepositAmountZero, code: ERROR }
    } else {
        Task::DepositTotalLoad { amount, addr_hash }
    };
    assert forall|host: HostState| #[trigger]
        run(task, host) == deposit_outcome(host, amount, addr_hash) by {
        reveal_with_fuel(run, 8);
    }
    task
}

/// Begins a call that takes `amount` cents out of the vault for the lender
/// with address hash `addr_hash`.
pub fn withdraw(amount: u32, addr_hash: u32) -> (task: Task)
    ensures
        task == (if amount == 0 {
            Task::Report { note: Note::WithdrawAmountZero, code: ERROR }
        } else {
            Task::WithdrawBalanceLoad { amount, addr_hash }
        }),
        forall|host: HostState| #[trigger]
            run(task, host) == withdraw_outcome(host, amount, addr_hash),
{
    let task = if amount == 0 {
        Task::Report { note: Note::WithdrawAmountZero, code: ERROR }
    } else {
        Task::WithdrawBalanceLoad { amount, addr_hash }
    };
    assert forall|host: HostState| #[trigger]
        run(task, host) == withdraw_outcome(host, amount, addr_hash) by {
        reveal_with_fuel(run, 8);
    }
    task
}

/// Begins a call that returns the vault total.
pub fn get_vault_total() -> (task: Task)
    ensures
        task == Task::TotalLoad,
        forall|host: HostState| #[trigger] run(task, host) == get_vault_total_outcome(host),
{
    let task = Task::TotalLoad;
    assert forall|host: HostState| #[trigger]
        run(task, host) == get_vault_total_outcome(host) by {
        reveal_with_fuel(run, 3);
    }
    task
}

/// Begins a call that returns the balance of the lender with address hash
/// `addr_hash`.
pub fn get_lender_balance(addr_hash: u32) -> (task: Task)
    ensures
        task == (Task::BalanceLoad { addr_hash }),
        forall|host: HostState| #[trigger]
            run(task, host) == get_lender_balance_outcome(host, addr_hash),
{
    let task = Task::BalanceLoad { addr_hash };
    assert forall|host: HostState| #[trigger]
        run(task, host) == get_lender_balance_outcome(host, addr_hash) by {
        reveal_with_fuel(run, 3);
    }
    task
}

/// Whether every lender but the one with address hash `addr_hash` holds on
/// `after` what it held on `before`.
pub open spec fn others_kept(before: HostState, after: HostState, addr_hash: u32) -> bool {
    forall|h: u32| h != addr_hash ==> #[trigger] balance(after, h) == balance(before, h)
}

/// What two steps in a row keep, both together keep, and a trace after them
/// touches no balance.
proof fn lemma_others_kept(
    before: HostState,
    between: HostState,
    after: HostState,
    note: Note,
    addr_hash: u32,
)
    requires
        others_kept(before, between, addr_hash),
        others_kept(between, after, addr_hash),
    ensures
        others_kept(before, after, addr_hash),
        others_kept(before, after.traced(note), addr_hash),
{
    assert forall|h: u32| h != addr_hash implies #[trigger] balance(after, h) == balance(
        before,
        h,
    ) by {
        assert(balance(between, h) == balance(before, h));
    }
    assert forall|h: u32| h != addr_hash implies #[trigger] balance(after.traced(note), h)
        == balance(before, h) by {
        assert(balance(after, h) == balance(before, h));
    }
}

/// A write of the total reaches no balance and not the member count.
proof fn lemma_total_write(host: HostState, value: u64)
    ensures
        forall|h: u32|
            #[trigger] balance(host.store64(Cell64::VaultTotal, value), h) == balance(host, h),
        members(host.store64(Cell64::VaultTotal, value)) == members(host),
        total(host.store64(Cell64::VaultTotal, value)) == if host.takes() {
            value
        } else {
            total(host)
        },
{
    let after = host.store64(Cell64::VaultTotal, value);
    assert forall|h: u32| #[trigger] balance(after, h) == balance(host, h) by {
        cell64_keys_differ(Cell64::Lender(h), Cell64::VaultTotal);
    }
}

/// A write of one lender's balance reaches no other balance, not the total
/// and not the member count.
proof fn lemma_balance_write(host: HostState, addr_hash: u32, value: u64)
    ensures
        forall|h: u32|
            h != addr_hash ==> #[trigger] balance(
                host.store64(Cell64::Lender(addr_hash), value),
                h,
            ) == balance(host, h),
        members(host.store64(Cell64::Lender(addr_hash), value)) == members(host),
        total(host.store64(Cell64::Lender(addr_hash), value)) == total(host),
        balance(host.store64(Cell64::Lender(addr_hash), value), addr_hash) == if host.takes() {
            value
        } else {
            balance(host, addr_hash)
        },
{
    let after = host.store64(Cell64::Lender(addr_hash), value);
    assert forall|h: u32| h != addr_hash implies #[trigger] balance(after, h) == balance(
        host,
        h,
    ) by {
        cell64_keys_differ(Cell64::Lender(h), Cell64::Lender(addr_hash));
    }
    cell64_keys_differ(Cell64::VaultTotal, Cell64::Lender(addr_hash));
}

/// A write of the member count reaches no balance and not the total.
proof fn lemma_members_write(host: HostState, value: u32)
    ensures
        forall|h: u32|
            #[trigger] balance(host.store32(Cell32::VaultMembers, value), h) == balance(host, h),
        total(host.store32(Cell32::VaultMembers, value)) == total(host),
        members(host.store32(Cell32::VaultMembers, value)) == if host.takes() {
            value
        } else {
            members(host)
        },
{
}

/// A call that only reads leaves every cell as it was.
pub proof fn reads_write_nothing(host: HostState, addr_hash: u32)
    ensures
        get_vault_total_outcome(host).0.same_cells(host),
        get_vault_total_outcome(host).1 == total(host) % 0x8000_0000,
        get_lender_balance_outcome(host, addr_hash).0.same_cells(host),
        get_lender_balance_outcome(host, addr_hash).1 == balance(host, addr_hash) % 0x8000_0000,
{
    low31_is_remainder(total(host));
    low31_is_remainder(balance(host, addr_hash));
}

/// A deposit and a withdrawal of nothing always fail, and write nothing.
pub proof fn zero_amount_is_refused(host: HostState, addr_hash: u32)
    ensures
        deposit_outcome(host, 0, addr_hash).1 == ERROR,
        deposit_outcome(host, 0, addr_hash).0.same_cells(host),
        deposit_outcome(host, 0, addr_hash).0.outcomes == host.outcomes,
        withdraw_outcome(host, 0, addr_hash).1 == ERROR,
        withdraw_outcome(host, 0, addr_hash).0.same_cells(host),
        withdraw_outcome(host, 0, addr_hash).0.outcomes == host.outcomes,
{
}

/// A withdrawal of more than the lender holds, or of more than the vault
/// holds, fails and writes nothing.
pub proof fn overdraft_is_refused(host: HostState, amount: u32, addr_hash: u32)
    requires
        amount > balance(host, addr_hash) || amount > total(host),
    ensures
        withdraw_outcome(host, amount, addr_hash).1 == ERROR,
        withdraw_outcome(host, amount, addr_hash).0.same_cells(host),
        withdraw_outcome(host, amount, addr_hash).0.outcomes == host.outcomes,
{
}

/// Whether a withdrawal passes the checks that are made before anything is
/// written.
pub open spec fn covered(host: HostState, amount: u32, addr_hash: u32) -> bool {
    0 < amount && amount <= balance(host, addr_hash) && amount <= total(host)
}

/// What a deposit does on a host that takes every write: the total and the
/// lender's balance go up by the amount, modulo `2^64`, a lender who held
/// nothing is counted as a new member, and no other lender is touched.
pub proof fn deposit_effect(host: HostState, amount: u32, addr_hash: u32)
    requires
        host.willing(),
        amount > 0,
    ensures
        ({
            let (after, code) = deposit_outcome(host, amount, addr_hash);
            &&& after.willing()
            &&& code == low31(total(after))
            &&& code != ERROR
            &&& total(after) == total(host).wrapping_add(amount as u64)
            &&& balance(after, addr_hash) == balance(host, addr_hash).wrapping_add(
                amount as u64,
            )
            &&& others_kept(host, after, addr_hash)
            &&& members(after) == if balance(host, addr_hash) == 0 {
                members(host).wrapping_add(1)
            } else {
                members(host)
            }
        }),
{
    let new_total = total(host).wrapping_add(amount as u64);
    let totalled = host.store64(Cell64::VaultTotal, new_total);
    lemma_total_write(host, new_total);
    low31_is_remainder(new_total);
    if balance(host, addr_hash) == 0 {
        let count = members(totalled).wrapping_add(1);
        let joined = totalled.store32(Cell32::VaultMembers, count);
        let credited = joined.store64(Cell64::Lender(addr_hash), amount as u64);
        lemma_members_write(totalled, count);
        lemma_balance_write(joined, addr_hash, amount as u64);
        lemma_others_kept(host, totalled, joined, Note::DepositRecorded, addr_hash);
        lemma_others_kept(host, joined, credited, Note::DepositRecorded, addr_hash);
    } else {
        let raised = balance(totalled, addr_hash).wrapping_add(amount as u64);
        let credited = totalled.store64(Cell64::Lender(addr_hash), raised);
        lemma_balance_write(totalled, addr_hash, raised);
        lemma_others_kept(host, totalled, credited, Note::DepositRecorded, addr_hash);
    }
}

/// What a withdrawal that passes the checks does on a host that takes every
/// write: the total and the lender's balance go down by the amount, a lender
/// left with nothing is no longer counted as a member, and no other lender
/// is touched.
pub proof fn withdraw_effect(host: HostState, amount: u32, addr_hash: u32)
    requires
        host.willing(),
        covered(host, amount, addr_hash),
    ensures
        ({
            let (after, code) = withdraw_outcome(host, amount, addr_hash);
            &&& after.willing()
            &&& code == low31(total(after))
            &&& code != ERROR
            &&& total(after) == total(host) - amount
            &&& balance(after, addr_hash) == balance(host, addr_hash) - amount
            &&& others_kept(host, after, addr_hash)
            &&& members(after) == if balance(host, addr_hash) == amount && members(host) > 0 {
                members(host) - 1
            } else {
                members(host) as int
            }
        }),
{
    let new_total = (total(host) - amount) as u64;
    let new_balance = (balance(host, addr_hash) - amount) as u64;
    let totalled = host.store64(Cell64::VaultTotal, new_total);
    let debited = totalled.store64(Cell64::Lender(addr_hash), new_balance);
    lemma_total_write(host, new_total);
    lemma_balance_write(totalled, addr_hash, new_balance);
    low31_is_remainder(new_total);
    lemma_others_kept(host, totalled, debited, Note::WithdrawalRecorded, addr_hash);
    if new_balance == 0 && members(debited) > 0 {
        let count = (members(debited) - 1) as u32;
        let left = debited.store32(Cell32::VaultMembers, count);
        lemma_members_write(debited, count);
        lemma_others_kept(host, debited, left, Note::WithdrawalRecorded, addr_hash);
    }
}

/// One call that moves funds.
#[derive(Clone, Copy, Debug, PartialEq, Eq)]
pub enum VaultCall {
    Deposit { amount: u32, addr_hash: u32 },
    Withdraw { amount: u32, addr_hash: u32 },
}

/// What `call` amounts to on `host`.
pub open spec fn call_outcome(host: HostState, call: VaultCall) -> (HostState, i32) {
    match call {
        VaultCall::Deposit { amount, addr_hash } => deposit_outcome(host, amount, addr_hash),
        VaultCall::Withdraw { amount, addr_hash } => withdraw_outcome(host, amount, addr_hash),
    }
}

/// The host after `calls` were made on `host`, one after the other.
pub open spec fn replay(host: HostState, calls: Seq<VaultCall>) -> HostState
    decreases calls.len(),
{
    if calls.len() == 0 {
        host
    } else {
        call_outcome(replay(host, calls.drop_last()), calls.last()).0
    }
}

/// The cents that `call` brings into the vault on `host`: the amount of a
/// deposit that succeeds, the amount of a withdrawal that succeeds taken
/// negative, and nothing for a call that fails.
pub open spec fn moved(host: HostState, call: VaultCall) -> int {
    if call_outcome(host, call).1 == ERROR {
        0
    } else {
        match call {
            VaultCall::Deposit { amount, .. } => amount as int,
            VaultCall::Withdraw { amount, .. } => -(amount as int),
        }
    }
}

/// All that `calls` bring into the vault on `host`: what was deposited less
/// what was withdrawn, reckoned in whole numbers without bound.
pub open spec fn net(host: HostState, calls: Seq<VaultCall>) -> int
    decreases calls.len(),
{
    if calls.len() == 0 {
        0
    } else {
        net(host, calls.drop_last()) + moved(replay(host, calls.drop_last()), calls.last())
    }
}

/// The lenders that hold anything on `host`, by address hash.
pub open spec fn lenders(host: HostState) -> Set<u32> {
    Set::new(|addr_hash: u32| balance(host, addr_hash) > 0)
}

/// Whether the member count on `host` is the number of lenders that hold
/// anything.
pub open spec fn members_counted(host: HostState) -> bool {
    lenders(host).finite() && members(host) == lenders(host).len()
}

/// Whether `call` keeps within what the cells can hold on `host`: a deposit
/// does not raise the lender's balance to exactly `2^64`, which a 64-bit cell
/// shows as nothing, and a new lender is not the `2^32`-th, whom a 32-bit
/// count cannot number.
pub open spec fn fits(host: HostState, call: VaultCall) -> bool {
    match call {
        VaultCall::Deposit { amount, addr_hash } => amount > 0 ==> {
            &&& balance(host, addr_hash) + amount != 0x1_0000_0000_0000_0000
            &&& balance(host, addr_hash) == 0 ==> lenders(host).len() < u32::MAX
        },
        VaultCall::Withdraw { .. } => true,
    }
}

/// Whether every call of `calls`, made on `host` one after the other, keeps
/// within what the cells can hold.
pub open spec fn all_fit(host: HostState, calls: Seq<VaultCall>) -> bool {
    forall|k: int|
        0 <= k < calls.len() ==> fits(#[trigger] replay(host, calls.take(k)), calls[k])
}

/// What one call does to the total on a host that takes every write: the
/// total goes up by what the call brings in, modulo `2^64`, and a call never
/// takes out more than the total holds.
pub proof fn call_moves_total(host: HostState, call: VaultCall)
    requires
        host.willing(),
    ensures
        call_outcome(host, call).0.willing(),
        total(call_outcome(host, call).0) == (total(host) + moved(host, call))
            % 0x1_0000_0000_0000_0000,
        0 <= total(host) + moved(host, call),
{
    match call {
        VaultCall::Deposit { amount, addr_hash } => {
            if amount > 0 {
                deposit_effect(host, amount, addr_hash);
            }
        },
        VaultCall::Withdraw { amount, addr_hash } => {
            if covered(host, amount, addr_hash) {
                withdraw_effect(host, amount, addr_hash);
            }
        },
    }
}

/// Calls on a host that takes every write leave a host that takes every
/// write.
pub proof fn replay_keeps_host_willing(host: HostState, calls: Seq<VaultCall>)
    requires
        host.willing(),
    ensures
        replay(host, calls).willing(),
    decreases calls.len(),
{
    if calls.len() > 0 {
        replay_keeps_host_willing(host, calls.drop_last());
        call_moves_total(replay(host, calls.drop_last()), calls.last());
    }
}

/// On a host that takes every write, the vault total is what it was plus
/// all that the calls brought in, modulo `2^64`.
pub proof fn total_follows_calls(host: HostState, calls: Seq<VaultCall>)
    requires
        host.willing(),
    ensures
        total(replay(host, calls)) == (total(host) + net(host, calls))
            % 0x1_0000_0000_0000_0000,
    decreases calls.len(),
{
    if calls.len() > 0 {
        total_follows_calls(host, calls.drop_last());
        replay_keeps_host_willing(host, calls.drop_last());
        call_moves_total(replay(host, calls.drop_last()), calls.last());
    }
}

/// Starting from a vault never written, on a host that takes every write,
/// what [`get_vault_total`] returns after any run of deposits and
/// withdrawals is the low 31 bits of all that was deposited less all that
/// was withdrawn.
pub proof fn total_shows_net_deposits(calls: Seq<VaultCall>)
    ensures
        get_vault_total_outcome(replay(HostState::fresh(), calls)).1 == net(
            HostState::fresh(),
            calls,
        ) % 0x8000_0000,
        get_vault_total_outcome(replay(HostState::fresh(), calls)).0.same_cells(
            replay(HostState::fresh(), calls),
        ),
{
    let host = HostState::fresh();
    total_follows_calls(host, calls);
    low31_is_remainder(total(replay(host, calls)));
    vstd::arithmetic::div_mod::lemma_mod_mod(net(host, calls), 0x8000_0000, 0x2_0000_0000);
}

/// Starting from a vault never written, on a host that takes every write,
/// no more is ever withdrawn than was deposited.
pub proof fn net_deposits_never_negative(calls: Seq<VaultCall>)
    ensures
        0 <= net(HostState::fresh(), calls),
        total(replay(HostState::fresh(), calls)) <= net(HostState::fresh(), calls),
    decreases calls.len(),
{
    let host = HostState::fresh();
    if calls.len() > 0 {
        net_deposits_never_negative(calls.drop_last());
        replay_keeps_host_willing(host, calls.drop_last());
        call_moves_total(replay(host, calls.drop_last()), calls.last());
    }
}

/// Where the host refuses the first write of a deposit or of a withdrawal,
/// whatever the error code, the call returns `ERROR` and leaves every cell
/// as it was.
pub proof fn refused_first_write_changes_nothing(host: HostState, call: VaultCall)
    requires
        !host.takes(),
    ensures
        call_outcome(host, call).1 == ERROR,
        call_outcome(host, call).0.same_cells(host),
{
}

/// On a vault never written nobody holds anything, and the member count is
/// zero.
pub proof fn fresh_vault_is_counted()
    ensures
        members_counted(HostState::fresh()),
        lenders(HostState::fresh()) == Set::<u32>::empty(),
        total(HostState::fresh()) == 0,
{
    assert(lenders(HostState::fresh()) =~= Set::<u32>::empty());
}

/// One call keeps the member count right: if it is the number of lenders
/// that hold anything before a call that fits, on a host that takes every
/// write, it is so after the call.
pub proof fn call_keeps_members_counted(host: HostState, call: VaultCall)
    requires
        host.willing(),
        members_counted(host),
        fits(host, call),
    ensures
        members_counted(call_outcome(host, call).0),
{
    let after = call_outcome(host, call).0;
    match call {
        VaultCall::Deposit { amount, addr_hash } => {
            if amount > 0 {
                deposit_effect(host, amount, addr_hash);
                if balance(host, addr_hash) == 0 {
                    assert(lenders(after) =~= lenders(host).insert(addr_hash));
                } else {
                    assert(lenders(after) =~= lenders(host));
                }
            } else {
                assert(lenders(after) =~= lenders(host));
            }
        },
        VaultCall::Withdraw { amount, addr_hash } => {
            if covered(host, amount, addr_hash) {
                withdraw_effect(host, amount, addr_hash);
                assert(lenders(host).contains(addr_hash));
                if balance(host, addr_hash) == amount {
                    assert(lenders(after) =~= lenders(host).remove(addr_hash));
                } else {
                    assert(lenders(after) =~= lenders(host));
                }
            } else {
                assert(lenders(after) =~= lenders(host));
            }
        },
    }
}

/// Starting from a vault never written, on a host that takes every write,
/// the member count after any run of deposits and withdrawals that fit is
/// the number of lenders that hold anything.
pub proof fn member_count_is_number_of_lenders(calls: Seq<VaultCall>)
    requires
        all_fit(HostState::fresh(), calls),
    ensures
        members_counted(replay(HostState::fresh(), calls)),
    decreases calls.len(),
{
    let host = HostState::fresh();
    if calls.len() == 0 {
        fresh_vault_is_counted();
    } else {
        let earlier = calls.drop_last();
        assert forall|k: int| 0 <= k < earlier.len() implies fits(
            #[trigger] replay(host, earlier.take(k)),
            earlier[k],
        ) by {
            assert(earlier.take(k) == calls.take(k));
            assert(fits(replay(host, calls.take(k)), calls[k]));
        }
        member_count_is_number_of_lenders(earlier);
        replay_keeps_host_willing(host, earlier);
        assert(calls.take(calls.len() - 1) == earlier);
        assert(fits(replay(host, calls.take(calls.len() - 1)), calls[calls.len() - 1]));
        call_keeps_members_counted(replay(host, earlier), calls.last());
    }
}

/// All that the lenders in `who` hold on `host`, reckoned in whole numbers
/// without bound.
pub open spec fn held(host: HostState, who: Set<u32>) -> int
    decreases who.len(),
    when who.finite()
{
    if who.is_empty() {
        0
    } else {
        let one = who.choose();
        balance(host, one) + held(host, who.remove(one))
    }
}

/// Whether the vault total on `host` is the sum of all balances.
pub open spec fn sums_up(host: HostState) -> bool {
    lenders(host).finite() && total(host) == held(host, lenders(host))
}

/// Whether `call` keeps the total within 64 bits on `host`.
pub open spec fn within(host: HostState, call: VaultCall) -> bool {
    match call {
        VaultCall::Deposit { amount, .. } => total(host) + amount <= u64::MAX,
        VaultCall::Withdraw { .. } => true,
    }
}

/// Whether every call of `calls`, made on `host` one after the other, keeps
/// the total within 64 bits.
pub open spec fn all_within(host: HostState, calls: Seq<VaultCall>) -> bool {
    forall|k: int|
        0 <= k < calls.len() ==> within(#[trigger] replay(host, calls.take(k)), calls[k])
}

/// Any one lender can be taken out of a sum.
proof fn lemma_held_without(host: HostState, who: Set<u32>, addr_hash: u32)
    requires
        who.finite(),
        who.contains(addr_hash),
    ensures
        held(host, who) == balance(host, addr_hash) + held(host, who.remove(addr_hash)),
    decreases who.len(),
{
    let one = who.choose();
    if one != addr_hash {
        lemma_held_without(host, who.remove(one), addr_hash);
        lemma_held_without(host, who.remove(addr_hash), one);
        assert(who.remove(one).remove(addr_hash) =~= who.remove(addr_hash).remove(one));
    }
}

/// A sum is made of the balances it runs over, and is never negative.
proof fn lemma_held_same(a: HostState, b: HostState, who: Set<u32>)
    requires
        who.finite(),
        forall|h: u32| who.contains(h) ==> balance(a, h) == balance(b, h),
    ensures
        held(a, who) == held(b, who),
        0 <= held(a, who),
    decreases who.len(),
{
    if !who.is_empty() {
        lemma_held_same(a, b, who.remove(who.choose()));
    }
}

/// One call keeps the books: if the total is the sum of all balances before
/// a call that keeps it within 64 bits, on a host that takes every write, it
/// is so after the call.
pub proof fn call_keeps_sum(host: HostState, call: VaultCall)
    requires
        host.willing(),
        sums_up(host),
        within(host, call),
    ensures
        sums_up(call_outcome(host, call).0),
{
    let after = call_outcome(host, call).0;
    let before = lenders(host);
    match call {
        VaultCall::Deposit { amount, addr_hash } => {
            if amount > 0 {
                deposit_effect(host, amount, addr_hash);
                let others = before.remove(addr_hash);
                lemma_held_same(host, after, others);
                if before.contains(addr_hash) {
                    lemma_held_without(host, before, addr_hash);
                } else {
                    assert(others =~= before);
                }
                assert(balance(after, addr_hash) == balance(host, addr_hash) + amount);
                assert(lenders(after) =~= before.insert(addr_hash));
                assert(lenders(after).remove(addr_hash) =~= others);
                lemma_held_without(after, lenders(after), addr_hash);
            } else {
                assert(lenders(after) =~= before);
                lemma_held_same(host, after, before);
            }
        },
        VaultCall::Withdraw { amount, addr_hash } => {
            if covered(host, amount, addr_hash) {
                withdraw_effect(host, amount, addr_hash);
                let others = before.remove(addr_hash);
                assert(before.contains(addr_hash));
                lemma_held_without(host, before, addr_hash);
                lemma_held_same(host, after, others);
                if balance(host, addr_hash) == amount {
                    assert(lenders(after) =~= others);
                } else {
                    assert(lenders(after) =~= before);
                    lemma_held_without(after, lenders(after), addr_hash);
                }
            } else {
                assert(lenders(after) =~= before);
                lemma_held_same(host, after, before);
            }
        },
    }
}

/// Starting from a vault never written, on a host that takes every write,
/// the vault total after any run of deposits and withdrawals that keep it
/// within 64 bits is the sum of all balances.
pub proof fn total_is_sum_of_balances(calls: Seq<VaultCall>)
    requires
        all_within(HostState::fresh(), calls),
    ensures
        sums_up(replay(HostState::fresh(), calls)),
    decreases calls.len(),
{
    let host = HostState::fresh();
    if calls.len() == 0 {
        fresh_vault_is_counted();
    } else {
        let earlier = calls.drop_last();
        assert forall|k: int| 0 <= k < earlier.len() implies within(
            #[trigger] replay(host, earlier.take(k)),
            earlier[k],
        ) by {
            assert(earlier.take(k) == calls.take(k));
            assert(within(replay(host, calls.take(k)), calls[k]));
        }
        total_is_sum_of_balances(earlier);
        replay_keeps_host_willing(host, earlier);
        assert(calls.take(calls.len() - 1) == earlier);
        assert(within(replay(host, calls.take(calls.len() - 1)), calls[calls.len() - 1]));
        call_keeps_sum(replay(host, earlier), calls.last());
    }
}

} // verus!
