//! The error taxonomy and the invoice status.

use vstd::prelude::*;

verus! {

/// Why an operation was refused.
///
/// Every variant has a stable numeric code, see [`Error::code`]. Four variants
/// are reserved: no operation of this crate returns `AlreadyInitialized`,
/// `NotInitialized`, `UnauthorizedAccess` or `InvoiceAlreadyPaid`.
#[derive(Clone, Copy, Debug, PartialEq, Eq, Structural, PartialOrd, Ord, Hash)]
pub enum Error {
    AlreadyInitialized,
    NotInitialized,
    UnauthorizedAccess,
    InvoiceNotFound,
    InvalidAmount,
    InvoiceExpired,
    InvoiceAlreadyPaid,
    InvalidExpiry,
    InvoiceNotOpen,
    AmountMismatch,
    Unauthorized,
}

impl Error {
    /// The numeric code of the variant: 1 for the first, 11 for the last.
    pub open spec fn spec_code(self) -> u32 {
        match self {
            Error::AlreadyInitialized => 1,
            Error::NotInitialized => 2,
            Error::UnauthorizedAccess => 3,
            Error::InvoiceNotFound => 4,
            Error::InvalidAmount => 5,
            Error::InvoiceExpired => 6,
            Error::InvoiceAlreadyPaid => 7,
            Error::InvalidExpiry => 8,
            Error::InvoiceNotOpen => 9,
            Error::AmountMismatch => 10,
            Error::Unauthorized => 11,
        }
    }

    /// The numeric code under which the error is reported to callers.
    pub fn code(self) -> (code: u32)
        ensures
            code == self.spec_code(),
            1 <= code <= 11,
    {
        match self {
            Error::AlreadyInitialized => 1,
            Error::NotInitialized => 2,
            Error::UnauthorizedAccess => 3,
            Error::InvoiceNotFound => 4,
            Error::InvalidAmount => 5,
            Error::InvoiceExpired => 6,
            Error::InvoiceAlreadyPaid => 7,
            Error::InvalidExpiry => 8,
            Error::InvoiceNotOpen => 9,
            Error::AmountMismatch => 10,
            Error::Unauthorized => 11,
        }
    }

    /// The error with the given code, if there is one.
    pub fn from_code(code: u32) -> (error: Option<Error>)
        ensures
            (1 <= code <= 11) <==> error is Some,
            error is Some ==> error->0.spec_code() == code,
    {
        match code {
            1 => Some(Error::AlreadyInitialized),
            2 => Some(Error::NotInitialized),
            3 => Some(Error::UnauthorizedAccess),
            4 => Some(Error::InvoiceNotFound),
            5 => Some(Error::InvalidAmount),
            6 => Some(Error::InvoiceExpired),
            7 => Some(Error::InvoiceAlreadyPaid),
            8 => Some(Error::InvalidExpiry),
            9 => Some(Error::InvoiceNotOpen),
            10 => Some(Error::AmountMismatch),
            11 => Some(Error::Unauthorized),
            _ => None,
        }
    }
}

/// Where an invoice stands in its life.
///
/// An invoice starts `Open`. From `Open` it becomes `Paid` or `Expired`, from
/// `Paid` it becomes `Refunded`. `Expired` and `Refunded` are final.
#[derive(Clone, Copy, Debug, PartialEq, Eq, Structural, Hash)]
pub enum InvoiceStatus {
    /// Awaiting payment.
    Open,
    /// Settled by a payer.
    Paid,
    /// Settled, then returned in full to the payer.
    Refunded,
    /// Lapsed without payment.
    Expired,
}

impl InvoiceStatus {
    /// The numeric code of the status: 0 for `Open`, 3 for `Expired`.
    pub open spec fn spec_code(self) -> u32 {
        match self {
            InvoiceStatus::Open => 0,
            InvoiceStatus::Paid => 1,
            InvoiceStatus::Refunded => 2,
            InvoiceStatus::Expired => 3,
        }
    }

    /// Whether an invoice in this status has been settled: it is `Paid` or
    /// `Refunded`, and so carries a payer.
    pub open spec fn settled(self) -> bool {
        self == InvoiceStatus::Paid || self == InvoiceStatus::Refunded
    }

    /// Whether a single step of the life cycle leads from `self` to `next`.
    pub open spec fn steps_to(self, next: InvoiceStatus) -> bool {
        ||| self == InvoiceStatus::Open && next == InvoiceStatus::Paid
        ||| self == InvoiceStatus::Open && next == InvoiceStatus::Expired
        ||| self == InvoiceStatus::Paid && next == InvoiceStatus::Refunded
    }

    /// The numeric code under which the status is stored.
    pub fn code(self) -> (code: u32)
        ensures
            code == self.spec_code(),
    {
        match self {
            InvoiceStatus::Open => 0,
            InvoiceStatus::Paid => 1,
            InvoiceStatus::Refunded => 2,
            InvoiceStatus::Expired => 3,
        }
    }

    /// The status with the given code, if there is one.
    pub fn from_code(code: u32) -> (status: Option<InvoiceStatus>)
        ensures
            code <= 3 <==> status is Some,
            status is Some ==> status->0.spec_code() == code,
    {
        match code {
            0 => Some(InvoiceStatus::Open),
            1 => Some(InvoiceStatus::Paid),
            2 => Some(InvoiceStatus::Refunded),
            3 => Some(InvoiceStatus::Expired),
            _ => None,
        }
    }
}

} // verus!
