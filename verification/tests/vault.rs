use bedrock_contracts::host::{Reply, Request, ERROR};
use bedrock_contracts::keys::{Cell32, Cell64};
use bedrock_contracts::ledger::Ledger;
use bedrock_contracts::note::Note;
use bedrock_contracts::vault;

#[test]
fn vault_scenario_from_fresh() {
    let mut ledger = Ledger::new();

    assert_eq!(ledger.run(vault::deposit(500, 0xAAAA)), 500);
    assert_eq!(ledger.amount(Cell64::VaultTotal), 500);
    assert_eq!(ledger.count(Cell32::VaultMembers), 1);
    assert_eq!(ledger.amount(Cell64::Lender(0xAAAA)), 500);

    assert_eq!(ledger.run(vault::deposit(300, 0xBBBB)), 800);
    assert_eq!(ledger.amount(Cell64::VaultTotal), 800);
    assert_eq!(ledger.count(Cell32::VaultMembers), 2);

    assert_eq!(ledger.run(vault::withdraw(500, 0xAAAA)), 300);
    assert_eq!(ledger.amount(Cell64::VaultTotal), 300);
    assert_eq!(ledger.count(Cell32::VaultMembers), 1);
    assert_eq!(ledger.amount(Cell64::Lender(0xAAAA)), 0);

    assert_eq!(ledger.run(vault::withdraw(1000, 0xBBBB)), ERROR);
    assert_eq!(ledger.amount(Cell64::VaultTotal), 300);
    assert_eq!(ledger.count(Cell32::VaultMembers), 1);
    assert_eq!(ledger.amount(Cell64::Lender(0xBBBB)), 300);
}

#[test]
fn getters_return_total_and_balance() {
    let mut ledger = Ledger::new();
    assert_eq!(ledger.run(vault::get_vault_total()), 0);
    assert_eq!(ledger.run(vault::get_lender_balance(7)), 0);
    ledger.run(vault::deposit(120, 7));
    ledger.run(vault::deposit(30, 8));
    assert_eq!(ledger.run(vault::get_vault_total()), 150);
    assert_eq!(ledger.run(vault::get_lender_balance(7)), 120);
    assert_eq!(ledger.run(vault::get_lender_balance(8)), 30);
    assert_eq!(ledger.run(vault::get_lender_balance(9)), 0);
}

#[test]
fn zero_deposit_fails_and_changes_nothing() {
    let mut ledger = Ledger::new();
    ledger.run(vault::deposit(10, 1));
    ledger.plan(Err(-9));
    assert_eq!(ledger.run(vault::deposit(0, 1)), ERROR);
    assert_eq!(ledger.run(vault::deposit(0, 2)), ERROR);
    assert_eq!(ledger.amount(Cell64::VaultTotal), 10);
    assert_eq!(ledger.count(Cell32::VaultMembers), 1);
    assert_eq!(ledger.amount(Cell64::Lender(1)), 10);
    assert_eq!(ledger.amount(Cell64::Lender(2)), 0);
    assert_eq!(
        ledger.trace(),
        &vec![Note::DepositRecorded, Note::DepositAmountZero, Note::DepositAmountZero]
    );
    // No write was tried: the planned failure meets the next deposit.
    assert_eq!(ledger.run(vault::deposit(1, 1)), ERROR);
}

#[test]
fn zero_withdrawal_fails_and_changes_nothing() {
    let mut ledger = Ledger::new();
    ledger.run(vault::deposit(10, 1));
    assert_eq!(ledger.run(vault::withdraw(0, 1)), ERROR);
    assert_eq!(ledger.amount(Cell64::VaultTotal), 10);
    assert_eq!(ledger.count(Cell32::VaultMembers), 1);
    assert_eq!(ledger.amount(Cell64::Lender(1)), 10);
    assert_eq!(ledger.trace(), &vec![Note::DepositRecorded, Note::WithdrawAmountZero]);
}

#[test]
fn withdrawal_above_balance_fails_and_changes_nothing() {
    let mut ledger = Ledger::new();
    ledger.run(vault::deposit(10, 1));
    ledger.run(vault::deposit(90, 2));
    assert_eq!(ledger.run(vault::withdraw(11, 1)), ERROR);
    assert_eq!(ledger.run(vault::withdraw(1, 3)), ERROR);
    assert_eq!(ledger.amount(Cell64::VaultTotal), 100);
    assert_eq!(ledger.count(Cell32::VaultMembers), 2);
    assert_eq!(ledger.amount(Cell64::Lender(1)), 10);
    assert_eq!(ledger.amount(Cell64::Lender(2)), 90);
    assert_eq!(
        ledger.trace()[2..],
        [Note::InsufficientLenderBalance, Note::InsufficientLenderBalance]
    );
}

#[test]
fn withdrawal_above_total_fails_and_changes_nothing() {
    // A total below a balance is what a deposit leaves whose second or third
    // write the host refused after a withdrawal: build it by hand.
    let mut ledger = Ledger::new();
    assert_eq!(ledger.serve(Request::Store64(Cell64::Lender(5), 40)), Reply::Stored(Ok(())));
    assert_eq!(ledger.serve(Request::Store64(Cell64::VaultTotal, 25)), Reply::Stored(Ok(())));
    assert_eq!(ledger.run(vault::withdraw(30, 5)), ERROR);
    assert_eq!(ledger.amount(Cell64::VaultTotal), 25);
    assert_eq!(ledger.amount(Cell64::Lender(5)), 40);
    assert_eq!(ledger.trace(), &vec![Note::InsufficientVaultTotal]);
    assert_eq!(ledger.run(vault::withdraw(25, 5)), 0);
    assert_eq!(ledger.amount(Cell64::Lender(5)), 15);
}

#[test]
fn a_lender_is_counted_once() {
    let mut ledger = Ledger::new();
    ledger.run(vault::deposit(1, 0xC0FFEE));
    ledger.run(vault::deposit(2, 0xC0FFEE));
    ledger.run(vault::deposit(3, 0xC0FFEE));
    assert_eq!(ledger.count(Cell32::VaultMembers), 1);
    assert_eq!(ledger.amount(Cell64::Lender(0xC0FFEE)), 6);
    assert_eq!(ledger.amount(Cell64::VaultTotal), 6);
}

#[test]
fn member_count_follows_lenders_with_a_balance() {
    let mut ledger = Ledger::new();
    ledger.run(vault::deposit(10, 1));
    ledger.run(vault::deposit(10, 2));
    ledger.run(vault::deposit(10, 3));
    assert_eq!(ledger.count(Cell32::VaultMembers), 3);
    assert_eq!(ledger.run(vault::withdraw(4, 2)), 26);
    assert_eq!(ledger.count(Cell32::VaultMembers), 3);
    assert_eq!(ledger.run(vault::withdraw(6, 2)), 20);
    assert_eq!(ledger.count(Cell32::VaultMembers), 2);
    assert_eq!(ledger.run(vault::deposit(1, 2)), 21);
    assert_eq!(ledger.count(Cell32::VaultMembers), 3);
    assert_eq!(ledger.run(vault::withdraw(10, 1)), 11);
    assert_eq!(ledger.run(vault::withdraw(10, 3)), 1);
    assert_eq!(ledger.run(vault::withdraw(1, 2)), 0);
    assert_eq!(ledger.count(Cell32::VaultMembers), 0);
    assert_eq!(ledger.amount(Cell64::VaultTotal), 0);
}

#[test]
fn total_is_deposits_less_withdrawals() {
    let mut ledger = Ledger::new();
    let mut net: i64 = 0;
    let moves: [(bool, u32, u32); 8] = [
        (true, 700, 1),
        (true, 50, 2),
        (false, 800, 1),
        (false, 200, 1),
        (true, 0, 3),
        (false, 50, 2),
        (false, 1, 2),
        (true, 4_000_000_000, 1),
    ];
    for (is_deposit, amount, who) in moves {
        let code = if is_deposit {
            ledger.run(vault::deposit(amount, who))
        } else {
            ledger.run(vault::withdraw(amount, who))
        };
        if code != ERROR {
            net += if is_deposit { amount as i64 } else { -(amount as i64) };
        }
        assert_eq!(ledger.run(vault::get_vault_total()) as i64, net % (1i64 << 31));
    }
    assert_eq!(net, 4_000_000_500);
    assert_eq!(ledger.amount(Cell64::VaultTotal), 4_000_000_500);
}

#[test]
fn results_keep_the_low_31_bits_only() {
    let mut ledger = Ledger::new();
    assert_eq!(ledger.run(vault::deposit(0x7FFF_FFFF, 1)), 0x7FFF_FFFF);
    assert_eq!(ledger.run(vault::deposit(1, 1)), 0);
    assert_eq!(ledger.amount(Cell64::VaultTotal), 0x8000_0000);
    assert_eq!(ledger.run(vault::get_vault_total()), 0);
    assert_eq!(ledger.run(vault::get_lender_balance(1)), 0);
    assert_eq!(ledger.run(vault::deposit(0xFFFF_FFFF, 2)), 0x7FFF_FFFF);
    assert_eq!(ledger.amount(Cell64::VaultTotal), 0x1_7FFF_FFFF);
    assert_eq!(ledger.run(vault::withdraw(0x8000_0000, 1)), 0x7FFF_FFFF);
    assert_eq!(ledger.amount(Cell64::VaultTotal), 0xFFFF_FFFF);
    assert_eq!(ledger.count(Cell32::VaultMembers), 1);
}

#[test]
fn deposit_stops_at_the_first_refused_write() {
    let mut ledger = Ledger::new();
    ledger.plan(Err(-2));
    assert_eq!(ledger.run(vault::deposit(5, 1)), ERROR);
    assert_eq!(ledger.amount(Cell64::VaultTotal), 0);
    assert_eq!(ledger.count(Cell32::VaultMembers), 0);
    assert_eq!(ledger.amount(Cell64::Lender(1)), 0);
    assert_eq!(ledger.trace(), &vec![Note::FailedToUpdateVaultTotal]);
}

#[test]
fn deposit_keeps_the_total_when_the_member_count_is_refused() {
    let mut ledger = Ledger::new();
    ledger.plan(Ok(()));
    ledger.plan(Err(-2));
    assert_eq!(ledger.run(vault::deposit(5, 1)), ERROR);
    assert_eq!(ledger.amount(Cell64::VaultTotal), 5);
    assert_eq!(ledger.count(Cell32::VaultMembers), 0);
    assert_eq!(ledger.amount(Cell64::Lender(1)), 0);
    assert_eq!(ledger.trace(), &vec![Note::FailedToUpdateMemberCount]);
}

#[test]
fn deposit_keeps_total_and_count_when_the_balance_is_refused() {
    let mut ledger = Ledger::new();
    ledger.plan(Ok(()));
    ledger.plan(Ok(()));
    ledger.plan(Err(-2));
    assert_eq!(ledger.run(vault::deposit(5, 1)), ERROR);
    assert_eq!(ledger.amount(Cell64::VaultTotal), 5);
    assert_eq!(ledger.count(Cell32::VaultMembers), 1);
    assert_eq!(ledger.amount(Cell64::Lender(1)), 0);
    assert_eq!(ledger.trace(), &vec![Note::FailedToUpdateLenderBalance]);
}

#[test]
fn withdrawal_stops_at_each_refused_write() {
    let mut ledger = Ledger::new();
    ledger.run(vault::deposit(5, 1));

    ledger.plan(Err(-2));
    assert_eq!(ledger.run(vault::withdraw(5, 1)), ERROR);
    assert_eq!(ledger.amount(Cell64::VaultTotal), 5);
    assert_eq!(ledger.amount(Cell64::Lender(1)), 5);

    ledger.plan(Ok(()));
    ledger.plan(Err(-2));
    assert_eq!(ledger.run(vault::withdraw(2, 1)), ERROR);
    assert_eq!(ledger.amount(Cell64::VaultTotal), 3);
    assert_eq!(ledger.amount(Cell64::Lender(1)), 5);

    // What the refused write left behind stays: the total is short by two.
    assert_eq!(ledger.run(vault::withdraw(3, 1)), 0);
    assert_eq!(ledger.amount(Cell64::VaultTotal), 0);
    assert_eq!(ledger.amount(Cell64::Lender(1)), 2);
    assert_eq!(ledger.count(Cell32::VaultMembers), 1);

    assert_eq!(
        ledger.trace()[1..],
        [
            Note::FailedToUpdateVaultTotal,
            Note::FailedToUpdateLenderBalance,
            Note::WithdrawalRecorded
        ]
    );
}

#[test]
fn withdrawal_reports_a_refused_member_count() {
    let mut ledger = Ledger::new();
    ledger.run(vault::deposit(5, 1));
    ledger.plan(Ok(()));
    ledger.plan(Ok(()));
    ledger.plan(Err(-2));
    assert_eq!(ledger.run(vault::withdraw(5, 1)), ERROR);
    assert_eq!(ledger.amount(Cell64::VaultTotal), 0);
    assert_eq!(ledger.amount(Cell64::Lender(1)), 0);
    assert_eq!(ledger.count(Cell32::VaultMembers), 1);
    assert_eq!(ledger.trace()[1..], [Note::FailedToUpdateMemberCount]);
}

#[test]
fn withdrawal_leaves_a_member_count_of_zero_alone() {
    let mut ledger = Ledger::new();
    ledger.serve(Request::Store64(Cell64::Lender(1), 5));
    ledger.serve(Request::Store64(Cell64::VaultTotal, 5));
    ledger.plan(Ok(()));
    ledger.plan(Ok(()));
    ledger.plan(Err(-2));
    assert_eq!(ledger.run(vault::withdraw(5, 1)), 0);
    assert_eq!(ledger.count(Cell32::VaultMembers), 0);
    // The third write was never tried.
    assert_eq!(ledger.run(vault::deposit(1, 1)), ERROR);
}

#[test]
fn deposit_of_a_new_lender_asks_the_host_in_order() {
    let task = vault::deposit(500, 0xAAAA);
    assert_eq!(task.request(), Request::Load64(Cell64::VaultTotal));
    let task = task.resume(Reply::Value64(None));
    assert_eq!(task.request(), Request::Store64(Cell64::VaultTotal, 500));
    let task = task.resume(Reply::Stored(Ok(())));
    assert_eq!(task.request(), Request::Load64(Cell64::Lender(0xAAAA)));
    let task = task.resume(Reply::Value64(None));
    assert_eq!(task.request(), Request::Load32(Cell32::VaultMembers));
    let task = task.resume(Reply::Value32(Some(3)));
    assert_eq!(task.request(), Request::Store32(Cell32::VaultMembers, 4));
    let task = task.resume(Reply::Stored(Ok(())));
    assert_eq!(task.request(), Request::Store64(Cell64::Lender(0xAAAA), 500));
    let task = task.resume(Reply::Stored(Ok(())));
    assert_eq!(task.request(), Request::Trace(Note::DepositRecorded));
    let task = task.resume(Reply::Traced);
    assert_eq!(task.request(), Request::Return(500));
}

#[test]
fn deposit_of_a_known_lender_skips_the_member_count() {
    let task = vault::deposit(5, 9);
    let task = task.resume(Reply::Value64(Some(100)));
    assert_eq!(task.request(), Request::Store64(Cell64::VaultTotal, 105));
    let task = task.resume(Reply::Stored(Ok(())));
    let task = task.resume(Reply::Value64(Some(20)));
    assert_eq!(task.request(), Request::Store64(Cell64::Lender(9), 25));
    let task = task.resume(Reply::Stored(Err(-4)));
    assert_eq!(task.request(), Request::Trace(Note::FailedToUpdateLenderBalance));
    assert_eq!(task.resume(Reply::Traced).result(), Some(ERROR));
}

#[test]
fn withdrawal_checks_before_it_writes() {
    let task = vault::withdraw(30, 9);
    assert_eq!(task.request(), Request::Load64(Cell64::Lender(9)));
    let task = task.resume(Reply::Value64(Some(30)));
    assert_eq!(task.request(), Request::Load64(Cell64::VaultTotal));
    let task = task.resume(Reply::Value64(Some(100)));
    assert_eq!(task.request(), Request::Store64(Cell64::VaultTotal, 70));
    let task = task.resume(Reply::Stored(Ok(())));
    assert_eq!(task.request(), Request::Store64(Cell64::Lender(9), 0));
    let task = task.resume(Reply::Stored(Ok(())));
    assert_eq!(task.request(), Request::Load32(Cell32::VaultMembers));
    let task = task.resume(Reply::Value32(Some(2)));
    assert_eq!(task.request(), Request::Store32(Cell32::VaultMembers, 1));
    let task = task.resume(Reply::Stored(Ok(())));
    assert_eq!(task.request(), Request::Trace(Note::WithdrawalRecorded));
    assert_eq!(task.resume(Reply::Traced).request(), Request::Return(70));
}

#[test]
fn zero_amounts_end_without_reading() {
    assert_eq!(vault::deposit(0, 1).request(), Request::Trace(Note::DepositAmountZero));
    assert_eq!(vault::withdraw(0, 1).request(), Request::Trace(Note::WithdrawAmountZero));
    assert_eq!(vault::deposit(0, 1).resume(Reply::Traced).result(), Some(ERROR));
    assert_eq!(vault::withdraw(0, 1).resume(Reply::Traced).result(), Some(ERROR));
}

#[test]
fn total_wraps_at_64_bits() {
    let mut ledger = Ledger::new();
    ledger.serve(Request::Store64(Cell64::VaultTotal, u64::MAX));
    assert_eq!(ledger.run(vault::deposit(2, 1)), 1);
    assert_eq!(ledger.amount(Cell64::VaultTotal), 1);
    assert_eq!(ledger.amount(Cell64::Lender(1)), 2);
}

#[test]
fn total_is_the_sum_of_all_balances() {
    let mut ledger = Ledger::new();
    let lenders = [3u32, 1, 4, 1, 5, 9, 2, 6];
    for (i, who) in lenders.iter().enumerate() {
        ledger.run(vault::deposit(100 + i as u32, *who));
        ledger.run(vault::withdraw(7 * i as u32, *who));
        let mut sum = 0u64;
        let mut holders = 0u32;
        for known in [1u32, 2, 3, 4, 5, 6, 9] {
            let held = ledger.amount(Cell64::Lender(known));
            sum += held;
            if held > 0 {
                holders += 1;
            }
        }
        assert_eq!(ledger.amount(Cell64::VaultTotal), sum);
        assert_eq!(ledger.count(Cell32::VaultMembers), holders);
    }
    assert_eq!(ledger.amount(Cell64::VaultTotal), 632);
    assert_eq!(ledger.count(Cell32::VaultMembers), 7);
}

#[test]
fn a_balance_that_wraps_to_zero_stays_counted() {
    // A balance of exactly 2^64 is beyond what the cell can show.
    let mut ledger = Ledger::new();
    ledger.serve(Request::Store64(Cell64::Lender(1), u64::MAX));
    ledger.serve(Request::Store32(Cell32::VaultMembers, 1));
    assert_eq!(ledger.run(vault::deposit(1, 1)), 1);
    assert_eq!(ledger.amount(Cell64::Lender(1)), 0);
    assert_eq!(ledger.count(Cell32::VaultMembers), 1);
}

#[test]
fn a_refusal_with_code_zero_fails_the_deposit() {
    let mut ledger = Ledger::new();
    ledger.plan(Err(0));
    assert_eq!(ledger.run(vault::deposit(500, 1)), ERROR);
    assert_eq!(ledger.amount(Cell64::VaultTotal), 0);
    assert_eq!(ledger.amount(Cell64::Lender(1)), 0);
    assert_eq!(ledger.count(Cell32::VaultMembers), 0);
    assert_eq!(ledger.trace(), &vec![Note::FailedToUpdateVaultTotal]);

    ledger.run(vault::deposit(500, 1));
    ledger.plan(Ok(()));
    ledger.plan(Err(0));
    assert_eq!(ledger.run(vault::withdraw(100, 1)), ERROR);
    assert_eq!(ledger.amount(Cell64::VaultTotal), 400);
    assert_eq!(ledger.amount(Cell64::Lender(1)), 500);
}
