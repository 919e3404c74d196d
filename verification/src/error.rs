//! Why an operation was refused.

use vstd::prelude::*;

verus! {

/// The reason an operation was refused. A refused operation leaves the ledger
/// as it was.
#[derive(Clone, Copy, Debug, PartialEq, Eq, Structural)]
pub enum PayoutError {
    /// The caller is not the administrator.
    NotAdmin,
    /// A campaign identifier is longer than 64 bytes.
    CampaignIdTooLong,
    /// A project identifier is empty.
    EmptyProjectId,
    /// A pot identifier is not a well-formed account identifier.
    InvalidPotId,
    /// No deposit was attached to a donation.
    ZeroDeposit,
    /// A page limit is outside `1..=100`.
    LimitOutOfRange,
    /// The ledger has no donor under that identifier.
    DonorNotFound,
    /// The donor's payout has already completed.
    AlreadyPaid,
    /// The donor holds no collectible entitlement.
    NoNftReward,
    /// The donor holds no token entitlement.
    NoTokenReward,
    /// The donor has accrued no reward.
    NothingToPayout,
    /// The attached deposit does not cover registering the recipient.
    InsufficientDeposit,
    /// The token contract did not answer the registration check.
    StorageCheckFailed,
    /// The token contract's answer to the registration check is not JSON.
    MalformedStorageBalance,
    /// The token contract did not register the recipient.
    StorageDepositFailed,
    /// The collectible was not issued.
    MintFailed,
    /// The token balance was not transferred.
    TransferFailed,
    /// A continuation was resumed with a number of results other than one.
    UnexpectedResultCount,
    /// A sum of amounts does not fit in 128 bits.
    AmountOverflow,
}

/// The classes into which the reasons fall.
#[derive(Clone, Copy, Debug, PartialEq, Eq, Structural)]
pub enum ErrorKind {
    /// The input is malformed; correct it and call again.
    Validation,
    /// The caller lacks the privilege.
    Authorization,
    /// The ledger is not in a state that admits the operation.
    StatePrecondition,
    /// An external service reported failure.
    ExternalFailure,
    /// A continuation was not resumed as the protocol prescribes.
    ProtocolViolation,
}

impl PayoutError {
    /// The class of this reason.
    pub open spec fn spec_kind(self) -> ErrorKind {
        match self {
            PayoutError::NotAdmin => ErrorKind::Authorization,
            PayoutError::CampaignIdTooLong
            | PayoutError::EmptyProjectId
            | PayoutError::InvalidPotId
            | PayoutError::ZeroDeposit
            | PayoutError::LimitOutOfRange
            | PayoutError::InsufficientDeposit
            | PayoutError::AmountOverflow => ErrorKind::Validation,
            PayoutError::DonorNotFound
            | PayoutError::AlreadyPaid
            | PayoutError::NoNftReward
            | PayoutError::NoTokenReward
            | PayoutError::NothingToPayout => ErrorKind::StatePrecondition,
            PayoutError::StorageCheckFailed
            | PayoutError::MalformedStorageBalance
            | PayoutError::StorageDepositFailed
            | PayoutError::MintFailed
            | PayoutError::TransferFailed => ErrorKind::ExternalFailure,
            PayoutError::UnexpectedResultCount => ErrorKind::ProtocolViolation,
        }
    }

    /// The class of this reason.
    #[verifier::when_used_as_spec(spec_kind)]
    pub fn kind(self) -> (k: ErrorKind)
        ensures
            k == self.spec_kind(),
    {
        match self {
            PayoutError::NotAdmin => ErrorKind::Authorization,
            PayoutError::CampaignIdTooLong
            | PayoutError::EmptyProjectId
            | PayoutError::InvalidPotId
            | PayoutError::ZeroDeposit
            | PayoutError::LimitOutOfRange
            | PayoutError::InsufficientDeposit
            | PayoutError::AmountOverflow => ErrorKind::Validation,
            PayoutError::DonorNotFound
            | PayoutError::AlreadyPaid
            | PayoutError::NoNftReward
            | PayoutError::NoTokenReward
            | PayoutError::NothingToPayout => ErrorKind::StatePrecondition,
            PayoutError::StorageCheckFailed
            | PayoutError::MalformedStorageBalance
            | PayoutError::StorageDepositFailed
            | PayoutError::MintFailed
            | PayoutError::TransferFailed => ErrorKind::ExternalFailure,
            PayoutError::UnexpectedResultCount => ErrorKind::ProtocolViolation,
        }
    }
}

} // verus!
