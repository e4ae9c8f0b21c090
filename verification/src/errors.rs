use vstd::prelude::*;

verus! {

/// Every way an operation can be refused. A refused operation changes nothing.
#[derive(Clone, Copy, Debug, PartialEq, Eq, Structural)]
pub enum Errors {
    /// The signer is not the administrator recorded for the property.
    Unauthorized,
    /// The purchase would take the shares issued past the property's capacity.
    SupplyLimitReached,
    /// The purchase would take the issuance counter past its numeric range.
    Overflow,
    /// The receiver has no verification record, or the record is not verified.
    UserNotKycVerified,
    /// The withdrawal asks for more than the custody pool holds.
    InsufficientFunds,
    /// The property identifier already has a configuration.
    DuplicateAsset,
    /// The identity has never been approved, so there is nothing to revoke.
    UnknownIdentity,
}

impl Errors {
    /// The text shown to a caller for this error.
    pub open spec fn message_text(self) -> Seq<char> {
        match self {
            Errors::Unauthorized => "Unauthorized access"@,
            Errors::SupplyLimitReached => "Supply limit reached for this property"@,
            Errors::Overflow => "Math overflow"@,
            Errors::UserNotKycVerified => "Receiver is not KYC verified/Whitelisted"@,
            Errors::InsufficientFunds => "Insufficient funds in treasury"@,
            Errors::DuplicateAsset => "Property is already initialized"@,
            Errors::UnknownIdentity => "Identity has no KYC entry"@,
        }
    }

    /// Returns the text shown to a caller for this error.
    pub fn message(&self) -> (text: &'static str)
        ensures
            text@ == self.message_text(),
    {
        match self {
            Errors::Unauthorized => "Unauthorized access",
            Errors::SupplyLimitReached => "Supply limit reached for this property",
            Errors::Overflow => "Math overflow",
            Errors::UserNotKycVerified => "Receiver is not KYC verified/Whitelisted",
            Errors::InsufficientFunds => "Insufficient funds in treasury",
            Errors::DuplicateAsset => "Property is already initialized",
            Errors::UnknownIdentity => "Identity has no KYC entry",
        }
    }
}

} // verus!
