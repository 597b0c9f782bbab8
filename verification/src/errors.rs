use vstd::prelude::*;

verus! {

/// One distinct error kind per failure cause, so a caller can report the
/// precise reason an operation was rejected. Every error aborts the whole
/// operation: no partial effect is ever observable.
#[derive(Clone, Copy, Debug, PartialEq, Eq, Structural)]
pub enum ErrorCode {
    /// A scaled computation (doubling the ask amount, crediting a balance)
    /// would exceed the representable range.
    Overflow,
    /// Auto-approval failed: the order's terms differ from the offer's.
    NotEnoughBalance,
    /// A deposit or settlement transfer cannot be satisfied by the source
    /// account or treasury.
    InsufficientFunds,
    /// A transfer endpoint holds a different asset than the one named.
    AccountMint,
    /// The authority proof presented for a transfer does not match the
    /// source account's authority.
    AuthorizationDenied,
    /// The settlement caller is not the order's owner.
    InvalidPermission,
    /// The order's recorded offer reference does not name the offer
    /// presented at settlement.
    LinkageMismatch,
    /// The named offer does not exist in the ledger.
    UnknownOffer,
    /// The named order does not exist in the ledger.
    UnknownOrder,
    /// The named token account does not exist in the ledger.
    UnknownAccount,
    /// An entry or token account with the given identifier already exists.
    EntryExists,
}

} // verus!
