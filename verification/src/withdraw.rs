//! Withdrawal of funds: when it is refused, and what a failed transfer is
//! reported as.

use vstd::prelude::*;

verus! {

/// The error that the environment of a contract reports.
#[verifier::external_type_specification]
#[verifier::external_body]
pub struct ExEnvError(ink_env::Error);

/// Why a withdrawal did not take place.
#[derive(Clone, Copy, Debug, PartialEq, Eq)]
pub enum RewardWithdrawError {
    /// The transfer failed for a reason that is not told apart.
    TransferFailed,
    /// More was asked for than the balance holds.
    InsufficientFunds,
    /// The transfer would have left the sender below the subsistence threshold.
    BelowSubsistenceThreshold,
}

/// How a transfer failed, as far as a withdrawal tells failures apart.
#[derive(Clone, Copy, Debug, PartialEq, Eq)]
pub enum TransferFault {
    /// The transfer would have left the sender below the subsistence threshold.
    BelowSubsistenceThreshold,
    /// Any other failure.
    Other,
}

/// Tells the variant `BelowSubsistenceThreshold` of `ink_env::Error` apart
/// from all its others. The error is a value of the environment: nothing is
/// claimed of which fault comes out.
#[verifier::external_body]
fn fault_of(error: &ink_env::Error) -> (fault: TransferFault) {
    match error {
        ink_env::Error::BelowSubsistenceThreshold => TransferFault::BelowSubsistenceThreshold,
        _ => TransferFault::Other,
    }
}

/// What a transfer that failed with `fault` is reported as.
pub open spec fn reported(fault: TransferFault) -> RewardWithdrawError {
    match fault {
        TransferFault::BelowSubsistenceThreshold => RewardWithdrawError::BelowSubsistenceThreshold,
        TransferFault::Other => RewardWithdrawError::TransferFailed,
    }
}

/// Checks that a balance of `balance` can pay out `value`. A withdrawal of
/// more than the balance is refused before any transfer is tried.
pub fn check_funds(value: u128, balance: u128) -> (checked: Result<(), RewardWithdrawError>)
    ensures
        value > balance <==> checked == Err::<(), RewardWithdrawError>(
            RewardWithdrawError::InsufficientFunds,
        ),
        value <= balance <==> checked is Ok,
{
    if value > balance {
        Err(RewardWithdrawError::InsufficientFunds)
    } else {
        Ok(())
    }
}

/// Reports a transfer that failed with `fault`.
pub fn report_fault(fault: TransferFault) -> (error: RewardWithdrawError)
    ensures
        error == reported(fault),
{
    match fault {
        TransferFault::BelowSubsistenceThreshold => RewardWithdrawError::BelowSubsistenceThreshold,
        TransferFault::Other => RewardWithdrawError::TransferFailed,
    }
}

/// Whether `withdrawn` is what a transfer that ended as `sent` makes of a
/// withdrawal: a transfer that went through is a withdrawal that took place,
/// and one that failed is reported as one of the two transfer failures.
pub open spec fn settles(
    sent: Result<(), ink_env::Error>,
    withdrawn: Result<(), RewardWithdrawError>,
) -> bool {
    &&& sent is Ok <==> withdrawn is Ok
    &&& withdrawn matches Err(error) ==> error == RewardWithdrawError::BelowSubsistenceThreshold
        || error == RewardWithdrawError::TransferFailed
}

/// Withdraws `value` from a balance of `balance` by way of `transfer`.
///
/// A withdrawal of more than the balance is refused for lack of funds,
/// and `transfer` is then not called. Any other withdrawal calls `transfer`
/// once with `value` and reports how it went.
pub fn admin_withdraw_funds<F: FnOnce(u128) -> Result<(), ink_env::Error>>(
    value: u128,
    balance: u128,
    transfer: F,
) -> (withdrawn: Result<(), RewardWithdrawError>)
    requires
        value <= balance ==> call_requires(transfer, (value,)),
    ensures
        value > balance ==> withdrawn == Err::<(), RewardWithdrawError>(
            RewardWithdrawError::InsufficientFunds,
        ),
        value <= balance ==> exists|sent: Result<(), ink_env::Error>|
            call_ensures(transfer, (value,), sent) && settles(sent, withdrawn),
{
    match check_funds(value, balance) {
        Err(error) => Err(error),
        Ok(()) => {
            let sent: Result<(), ink_env::Error> = transfer(value);
            let withdrawn: Result<(), RewardWithdrawError> = match &sent {
                Ok(()) => Ok(()),
                Err(error) => Err(report_fault(fault_of(error))),
            };
            assert(call_ensures(transfer, (value,), sent) && settles(sent, withdrawn));
            withdrawn
        },
    }
}

} // verus!
