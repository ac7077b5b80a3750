//! The failures that the contract's operations report.

use vstd::prelude::*;

verus! {

/// `cosmwasm_std::StdError`, carried through unread.
#[verifier::external_type_specification]
#[verifier::external_body]
pub struct ExStdError(cosmwasm_std::StdError);

#[derive(Debug)]
pub enum ContractError {
    /// A failure reported by the host library, such as a message that could
    /// not be serialised.
    Std(cosmwasm_std::StdError),
    /// The caller lacks the role the operation asks for.
    Unauthorized,
    /// A domain rule was broken; `val` says which.
    CustomError { val: String },
    /// The account is in neither the active nor the pending queue.
    AgentUnregistered,
    /// A subtraction asks for more than the balance holds.
    NotEnoughFunds,
    /// An addition would exceed the largest representable amount.
    Overflow,
    /// A settings value that would make later arithmetic undefined.
    InvalidConfiguration,
}

} // verus!
