use bedrock_contracts::counter;
use bedrock_contracts::host::{code_of, shown, status, value32, value64, Reply, Request};
use bedrock_contracts::host::{ERROR, SUCCESS};
use bedrock_contracts::keys::{Cell32, Cell64};
use bedrock_contracts::ledger::{Ledger, Table};
use bedrock_contracts::note::Note;
use bedrock_contracts::task::{CounterOp, Task};
use bedrock_contracts::vault;

#[test]
fn sentinels_have_their_values() {
    assert_eq!(SUCCESS, 0);
    assert_eq!(ERROR, -1);
}

#[test]
fn a_cell_never_written_counts_as_zero() {
    assert_eq!(value32(None), 0);
    assert_eq!(value32(Some(0)), 0);
    assert_eq!(value32(Some(77)), 77);
    assert_eq!(value64(None), 0);
    assert_eq!(value64(Some(u64::MAX)), u64::MAX);
}

#[test]
fn status_is_success_or_the_error_code() {
    assert_eq!(status(Ok(())), SUCCESS);
    assert_eq!(status(Err(-17)), -17);
    assert_eq!(status(Err(3)), 3);
    assert_eq!(status(Err(0)), SUCCESS);
}

#[test]
fn shown_keeps_the_low_31_bits() {
    assert_eq!(shown(0), 0);
    assert_eq!(shown(800), 800);
    assert_eq!(shown(0x7FFF_FFFF), i32::MAX);
    assert_eq!(shown(0x8000_0000), 0);
    assert_eq!(shown(0x8000_0001), 1);
    assert_eq!(shown(0x1_0000_0005), 5);
    assert_eq!(shown(u64::MAX), i32::MAX);
}

#[test]
fn code_of_reads_the_bits_as_signed() {
    assert_eq!(code_of(0), 0);
    assert_eq!(code_of(50), 50);
    assert_eq!(code_of(0x7FFF_FFFF), i32::MAX);
    assert_eq!(code_of(0x8000_0000), i32::MIN);
    assert_eq!(code_of(u32::MAX), -1);
}

#[test]
fn a_reply_of_the_wrong_kind_leaves_the_task() {
    let task = counter::increment();
    assert_eq!(task.resume(Reply::Traced), task);
    assert_eq!(task.resume(Reply::Stored(Ok(()))), task);
    assert_eq!(task.resume(Reply::Value64(Some(1))), task);
    let task = vault::get_vault_total();
    assert_eq!(task.resume(Reply::Value32(Some(1))), task);
    let task = counter::reset();
    assert_eq!(task.resume(Reply::Value32(Some(1))), task);
}

#[test]
fn a_finished_task_stays_finished() {
    let done = Task::Finished { code: 12 };
    assert_eq!(done.request(), Request::Return(12));
    assert_eq!(done.result(), Some(12));
    assert_eq!(done.resume(Reply::Traced), done);
    assert_eq!(done.resume(Reply::Value32(None)), done);
    assert_eq!(counter::get_count().result(), None);
}

#[test]
fn entry_points_begin_where_they_should() {
    assert_eq!(counter::get_count(), Task::CounterLoad { op: CounterOp::Get });
    assert_eq!(counter::add(5), Task::CounterLoad { op: CounterOp::Add(5) });
    assert_eq!(counter::subtract(5), Task::CounterLoad { op: CounterOp::Subtract(5) });
    assert_eq!(vault::get_vault_total().request(), Request::Load64(Cell64::VaultTotal));
    assert_eq!(vault::get_lender_balance(4).request(), Request::Load64(Cell64::Lender(4)));
    assert_eq!(vault::withdraw(1, 4).request(), Request::Load64(Cell64::Lender(4)));
}

#[test]
fn getters_trace_and_return_the_low_bits() {
    let task = vault::get_vault_total().resume(Reply::Value64(Some(0x1_0000_0007)));
    assert_eq!(task.request(), Request::Trace(Note::GettingVaultTotal));
    assert_eq!(task.resume(Reply::Traced).result(), Some(7));
    let task = vault::get_lender_balance(1).resume(Reply::Value64(None));
    assert_eq!(task.request(), Request::Trace(Note::GettingLenderBalance));
    assert_eq!(task.resume(Reply::Traced).result(), Some(0));
}

#[test]
fn notes_have_their_text() {
    assert_eq!(Note::GettingCounterValue.text(), "Getting counter value");
    assert_eq!(Note::CounterIncremented.text(), "Counter incremented");
    assert_eq!(Note::FailedToIncrementCounter.text(), "Failed to increment counter");
    assert_eq!(Note::CounterAlreadyAtZero.text(), "Counter already at 0");
    assert_eq!(Note::CounterDecremented.text(), "Counter decremented");
    assert_eq!(Note::FailedToDecrementCounter.text(), "Failed to decrement counter");
    assert_eq!(Note::CounterSet.text(), "Counter set");
    assert_eq!(Note::FailedToSetCounter.text(), "Failed to set counter");
    assert_eq!(Note::CounterReset.text(), "Counter reset to 0");
    assert_eq!(Note::FailedToResetCounter.text(), "Failed to reset counter");
    assert_eq!(Note::AddedToCounter.text(), "Added to counter");
    assert_eq!(Note::FailedToAddToCounter.text(), "Failed to add to counter");
    assert_eq!(
        Note::SubtractionBelowZero.text(),
        "Subtraction would go below 0, setting to 0"
    );
    assert_eq!(Note::FailedToSetCounterToZero.text(), "Failed to set counter to 0");
    assert_eq!(Note::SubtractedFromCounter.text(), "Subtracted from counter");
    assert_eq!(Note::FailedToSubtractFromCounter.text(), "Failed to subtract from counter");
    assert_eq!(Note::DepositAmountZero.text(), "Deposit amount must be > 0");
    assert_eq!(Note::WithdrawAmountZero.text(), "Withdraw amount must be > 0");
    assert_eq!(Note::InsufficientLenderBalance.text(), "Insufficient lender balance");
    assert_eq!(Note::InsufficientVaultTotal.text(), "Insufficient vault total");
    assert_eq!(Note::FailedToUpdateVaultTotal.text(), "Failed to update vault total");
    assert_eq!(Note::FailedToUpdateMemberCount.text(), "Failed to update member count");
    assert_eq!(Note::FailedToUpdateLenderBalance.text(), "Failed to update lender balance");
    assert_eq!(Note::DepositRecorded.text(), "Deposit recorded");
    assert_eq!(Note::WithdrawalRecorded.text(), "Withdrawal recorded");
    assert_eq!(Note::GettingVaultTotal.text(), "Getting vault total");
    assert_eq!(Note::GettingLenderBalance.text(), "Getting lender balance");
}

#[test]
fn ledger_serves_reads_and_writes() {
    let mut ledger = Ledger::new();
    assert_eq!(ledger.serve(Request::Load32(Cell32::Counter)), Reply::Value32(None));
    assert_eq!(ledger.serve(Request::Load64(Cell64::Lender(1))), Reply::Value64(None));
    assert_eq!(ledger.serve(Request::Store32(Cell32::Counter, 5)), Reply::Stored(Ok(())));
    assert_eq!(ledger.serve(Request::Store64(Cell64::Lender(1), 6)), Reply::Stored(Ok(())));
    assert_eq!(ledger.serve(Request::Store64(Cell64::Lender(2), 7)), Reply::Stored(Ok(())));
    assert_eq!(ledger.serve(Request::Store64(Cell64::Lender(1), 8)), Reply::Stored(Ok(())));
    assert_eq!(ledger.serve(Request::Load32(Cell32::Counter)), Reply::Value32(Some(5)));
    assert_eq!(ledger.serve(Request::Load32(Cell32::VaultMembers)), Reply::Value32(None));
    assert_eq!(ledger.serve(Request::Load64(Cell64::Lender(1))), Reply::Value64(Some(8)));
    assert_eq!(ledger.serve(Request::Load64(Cell64::Lender(2))), Reply::Value64(Some(7)));
    assert_eq!(ledger.serve(Request::Load64(Cell64::VaultTotal)), Reply::Value64(None));
    assert_eq!(ledger.serve(Request::Trace(Note::CounterSet)), Reply::Traced);
    assert_eq!(ledger.trace(), &vec![Note::CounterSet]);
}

#[test]
fn ledger_refuses_planned_writes_in_order() {
    let mut ledger = Ledger::new();
    ledger.plan(Err(-1));
    ledger.plan(Ok(()));
    ledger.plan(Err(-2));
    assert_eq!(ledger.serve(Request::Store32(Cell32::Counter, 1)), Reply::Stored(Err(-1)));
    assert_eq!(ledger.count(Cell32::Counter), 0);
    assert_eq!(ledger.serve(Request::Store32(Cell32::Counter, 2)), Reply::Stored(Ok(())));
    assert_eq!(ledger.serve(Request::Store64(Cell64::VaultTotal, 3)), Reply::Stored(Err(-2)));
    assert_eq!(ledger.serve(Request::Store64(Cell64::VaultTotal, 4)), Reply::Stored(Ok(())));
    assert_eq!(ledger.count(Cell32::Counter), 2);
    assert_eq!(ledger.amount(Cell64::VaultTotal), 4);
}

#[test]
fn table_keeps_the_last_value_of_a_key() {
    let mut table: Table<u32> = Table::new();
    assert_eq!(table.get(&String::from("a")), None);
    table.put(String::from("a"), 1);
    table.put(String::from("b"), 2);
    table.put(String::from("a"), 3);
    assert_eq!(table.get(&String::from("a")), Some(3));
    assert_eq!(table.get(&String::from("b")), Some(2));
    assert_eq!(table.get(&String::from("c")), None);
}

#[test]
fn the_counter_and_the_vault_do_not_meet() {
    let mut ledger = Ledger::new();
    ledger.run(counter::set_count(9));
    ledger.run(vault::deposit(4, 1));
    assert_eq!(ledger.run(counter::get_count()), 9);
    assert_eq!(ledger.run(vault::get_vault_total()), 4);
    assert_eq!(ledger.count(Cell32::VaultMembers), 1);
}
