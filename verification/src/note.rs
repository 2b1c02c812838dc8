//! The diagnostic lines that the contracts hand to the host's trace sink.

use vstd::prelude::*;

verus! {

/// One diagnostic line. The sink is fire-and-forget: a note never changes
/// what an entry point stores or returns.
#[derive(Clone, Copy, Debug, PartialEq, Eq, Structural)]
pub enum Note {
    GettingCounterValue,
    CounterIncremented,
    FailedToIncrementCounter,
    CounterAlreadyAtZero,
    CounterDecremented,
    FailedToDecrementCounter,
    CounterSet,
    FailedToSetCounter,
    CounterReset,
    FailedToResetCounter,
    AddedToCounter,
    FailedToAddToCounter,
    SubtractionBelowZero,
    FailedToSetCounterToZero,
    SubtractedFromCounter,
    FailedToSubtractFromCounter,
    DepositAmountZero,
    WithdrawAmountZero,
    InsufficientLenderBalance,
    InsufficientVaultTotal,
    FailedToUpdateVaultTotal,
    FailedToUpdateMemberCount,
    FailedToUpdateLenderBalance,
    DepositRecorded,
    WithdrawalRecorded,
    GettingVaultTotal,
    GettingLenderBalance,
}

impl Note {
    /// The line as it is traced.
    pub open spec fn spec_text(self) -> Seq<char> {
        match self {
            Note::GettingCounterValue => "Getting counter value"@,
            Note::CounterIncremented => "Counter incremented"@,
            Note::FailedToIncrementCounter => "Failed to increment counter"@,
            Note::CounterAlreadyAtZero => "Counter already at 0"@,
            Note::CounterDecremented => "Counter decremented"@,
            Note::FailedToDecrementCounter => "Failed to decrement counter"@,
            Note::CounterSet => "Counter set"@,
            Note::FailedToSetCounter => "Failed to set counter"@,
            Note::CounterReset => "Counter reset to 0"@,
            Note::FailedToResetCounter => "Failed to reset counter"@,
            Note::AddedToCounter => "Added to counter"@,
            Note::FailedToAddToCounter => "Failed to add to counter"@,
            Note::SubtractionBelowZero => "Subtraction would go below 0, setting to 0"@,
            Note::FailedToSetCounterToZero => "Failed to set counter to 0"@,
            Note::SubtractedFromCounter => "Subtracted from counter"@,
            Note::FailedToSubtractFromCounter => "Failed to subtract from counter"@,
            Note::DepositAmountZero => "Deposit amount must be > 0"@,
            Note::WithdrawAmountZero => "Withdraw amount must be > 0"@,
            Note::InsufficientLenderBalance => "Insufficient lender balance"@,
            Note::InsufficientVaultTotal => "Insufficient vault total"@,
            Note::FailedToUpdateVaultTotal => "Failed to update vault total"@,
            Note::FailedToUpdateMemberCount => "Failed to update member count"@,
            Note::FailedToUpdateLenderBalance => "Failed to update lender balance"@,
            Note::DepositRecorded => "Deposit recorded"@,
            Note::WithdrawalRecorded => "Withdrawal recorded"@,
            Note::GettingVaultTotal => "Getting vault total"@,
            Note::GettingLenderBalance => "Getting lender balance"@,
        }
    }

    /// The line as it is traced.
    pub fn text(&self) -> (text: &'static str)
        ensures
            text@ == self.spec_text(),
    {
        match self {
            Note::GettingCounterValue => "Getting counter value",
            Note::CounterIncremented => "Counter incremented",
            Note::FailedToIncrementCounter => "Failed to increment counter",
            Note::CounterAlreadyAtZero => "Counter already at 0",
            Note::CounterDecremented => "Counter decremented",
            Note::FailedToDecrementCounter => "Failed to decrement counter",
            Note::CounterSet => "Counter set",
            Note::FailedToSetCounter => "Failed to set counter",
            Note::CounterReset => "Counter reset to 0",
            Note::FailedToResetCounter => "Failed to reset counter",
            Note::AddedToCounter => "Added to counter",
            Note::FailedToAddToCounter => "Failed to add to counter",
            Note::SubtractionBelowZero => "Subtraction would go below 0, setting to 0",
            Note::FailedToSetCounterToZero => "Failed to set counter to 0",
            Note::SubtractedFromCounter => "Subtracted from counter",
            Note::FailedToSubtractFromCounter => "Failed to subtract from counter",
            Note::DepositAmountZero => "Deposit amount must be > 0",
            Note::WithdrawAmountZero => "Withdraw amount must be > 0",
            Note::InsufficientLenderBalance => "Insufficient lender balance",
            Note::InsufficientVaultTotal => "Insufficient vault total",
            Note::FailedToUpdateVaultTotal => "Failed to update vault total",
            Note::FailedToUpdateMemberCount => "Failed to update member count",
            Note::FailedToUpdateLenderBalance => "Failed to update lender balance",
            Note::DepositRecorded => "Deposit recorded",
            Note::WithdrawalRecorded => "Withdrawal recorded",
            Note::GettingVaultTotal => "Getting vault total",
            Note::GettingLenderBalance => "Getting lender balance",
        }
    }
}

} // verus!
