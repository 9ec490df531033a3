//! Why an instruction is refused.

use vstd::prelude::*;

verus! {

/// A rule of the paywall that a request broke.
#[derive(Clone, Copy, Debug, PartialEq, Eq, Structural)]
pub enum PaywallError {
    UriTooLong,
    InvalidRoyalty,
    InvalidPrice,
    Unauthorized,
    FeesTooHigh,
    InvalidPaymentMint,
    InvalidReferrer,
    Overflow,
    ArticleNotFound,
    AlreadyPurchased,
    TransferBlocked,
    InsufficientPayment,
    NotRentExempt,
}

impl PaywallError {
    /// The text shown for the error.
    pub open spec fn message_text(self) -> Seq<char> {
        match self {
            PaywallError::UriTooLong => "URI exceeds maximum length"@,
            PaywallError::InvalidRoyalty => "Royalty basis points exceeds maximum"@,
            PaywallError::InvalidPrice => "Price must be greater than 0"@,
            PaywallError::Unauthorized => "Only the creator can update the article"@,
            PaywallError::FeesTooHigh => "Total fees exceed maximum basis points"@,
            PaywallError::InvalidPaymentMint => "Payment mint does not match article payment mint"@,
            PaywallError::InvalidReferrer => "Invalid referrer account"@,
            PaywallError::Overflow => "Arithmetic overflow"@,
            PaywallError::ArticleNotFound => "Article not found"@,
            PaywallError::AlreadyPurchased => "Already purchased"@,
            PaywallError::TransferBlocked => "Transfer blocked for SBT"@,
            PaywallError::InsufficientPayment => "Insufficient payment"@,
            PaywallError::NotRentExempt => "Account not rent exempt"@,
        }
    }

    /// The text shown for the error.
    pub fn message(self) -> (text: &'static str)
        ensures
            text@ == self.message_text(),
    {
        match self {
            PaywallError::UriTooLong => "URI exceeds maximum length",
            PaywallError::InvalidRoyalty => "Royalty basis points exceeds maximum",
            PaywallError::InvalidPrice => "Price must be greater than 0",
            PaywallError::Unauthorized => "Only the creator can update the article",
            PaywallError::FeesTooHigh => "Total fees exceed maximum basis points",
            PaywallError::InvalidPaymentMint => "Payment mint does not match article payment mint",
            PaywallError::InvalidReferrer => "Invalid referrer account",
            PaywallError::Overflow => "Arithmetic overflow",
            PaywallError::ArticleNotFound => "Article not found",
            PaywallError::AlreadyPurchased => "Already purchased",
            PaywallError::TransferBlocked => "Transfer blocked for SBT",
            PaywallError::InsufficientPayment => "Insufficient payment",
            PaywallError::NotRentExempt => "Account not rent exempt",
        }
    }
}

/// Why an instruction against the record store is refused: the records it
/// names cannot be resolved, or the instruction itself breaks a rule.
#[derive(Clone, Copy, Debug, PartialEq, Eq, Structural)]
pub enum InstructionError {
    /// The seeds select no address under the program.
    NoAddress,
    /// A record already lives at the address where one was to be created.
    AddressInUse,
    /// The signer is not the administrator of the record store.
    AdminMismatch,
    /// No fee schedule has been written yet.
    FeeConfigMissing,
    /// The instruction broke a rule of the paywall.
    Paywall(PaywallError),
}

} // verus!
