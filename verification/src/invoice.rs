//! The two persisted records, an invoice and its payment, and the rules by
//! which an invoice is opened, settled and refunded.

use vstd::prelude::*;
use crate::identity::{Identity, InvoiceId};
use crate::types::{Error, InvoiceStatus};

verus! {

/// The least time, in seconds, that an invoice stays payable.
pub const MIN_VALIDITY: u64 = 300;

/// The most time, in seconds, that an invoice stays payable.
pub const MAX_VALIDITY: u64 = 3600;

/// A merchant's request for payment of a fixed amount within a bounded time.
#[derive(Debug, PartialEq, Eq)]
pub struct Invoice {
    /// The identifier under which the invoice is stored.
    pub id: InvoiceId,
    /// The party that asks for payment.
    pub merchant: Identity,
    /// The amount asked for, in units of 10^-7 of the token.
    pub amount: i128,
    /// The last moment at which the invoice can be paid.
    pub expiry: u64,
    /// Where the invoice stands in its life.
    pub status: InvoiceStatus,
    /// The moment at which the invoice was opened.
    pub created_at: u64,
    /// The party that paid, once one has.
    pub payer: Option<Identity>,
}

/// What an [`Invoice`] holds, as plain values.
pub struct InvoiceView {
    pub id: Seq<u8>,
    pub merchant: Seq<u8>,
    pub amount: i128,
    pub expiry: u64,
    pub status: InvoiceStatus,
    pub created_at: u64,
    pub payer: Option<Seq<u8>>,
}

/// The record of the one successful payment of an invoice.
#[derive(Debug, PartialEq, Eq)]
pub struct Payment {
    /// The invoice that was paid.
    pub invoice_id: InvoiceId,
    /// The party that paid.
    pub payer: Identity,
    /// The amount paid.
    pub amount: i128,
    /// The moment of payment.
    pub timestamp: u64,
}

/// What a [`Payment`] holds, as plain values.
pub struct PaymentView {
    pub invoice_id: Seq<u8>,
    pub payer: Seq<u8>,
    pub amount: i128,
    pub timestamp: u64,
}

/// Why new terms are refused, if they are: the amount must be positive, and
/// the expiry must lie no less than `MIN_VALIDITY` and no more than
/// `MAX_VALIDITY` seconds after `now`. The amount is looked at first.
pub open spec fn terms_error(amount: i128, expiry: u64, now: u64) -> Option<Error> {
    if amount <= 0 {
        Some(Error::InvalidAmount)
    } else if expiry < now + MIN_VALIDITY || expiry > now + MAX_VALIDITY {
        Some(Error::InvalidExpiry)
    } else {
        None
    }
}

/// Why a payment of `amount` at `now` is refused, if it is: the invoice must
/// be open, must not have lapsed, and must ask for exactly `amount`, looked at
/// in this order.
pub open spec fn payment_error(invoice: InvoiceView, amount: i128, now: u64) -> Option<Error> {
    if invoice.status != InvoiceStatus::Open {
        Some(Error::InvoiceNotOpen)
    } else if now > invoice.expiry {
        Some(Error::InvoiceExpired)
    } else if amount != invoice.amount {
        Some(Error::AmountMismatch)
    } else {
        None
    }
}

/// Why a refund of `amount` asked for by `merchant` is refused, if it is: the
/// invoice must be the merchant's own, must be paid, must have its payment on
/// record, and the payment must be of exactly `amount`, looked at in this
/// order.
pub open spec fn refund_error(
    invoice: InvoiceView,
    payment: Option<PaymentView>,
    merchant: Seq<u8>,
    amount: i128,
) -> Option<Error> {
    if invoice.merchant != merchant {
        Some(Error::Unauthorized)
    } else if invoice.status != InvoiceStatus::Paid {
        Some(Error::InvoiceNotOpen)
    } else if payment is None {
        Some(Error::InvoiceNotFound)
    } else if amount != payment->0.amount {
        Some(Error::AmountMismatch)
    } else {
        None
    }
}

impl InvoiceView {
    /// What holds of every invoice that was opened on terms that
    /// [`check_terms`] accepts and changed by [`Invoice::settle`] and
    /// [`Invoice::refund`] alone: the amount is positive, the expiry lies in
    /// the window after the creation, and a payer is named exactly when the
    /// invoice has been settled.
    pub open spec fn consistent(self) -> bool {
        &&& self.amount > 0
        &&& self.created_at + MIN_VALIDITY <= self.expiry <= self.created_at + MAX_VALIDITY
        &&& (self.payer is Some <==> self.status.settled())
    }

    /// The invoice in another status.
    pub open spec fn with_status(self, status: InvoiceStatus) -> InvoiceView {
        InvoiceView { status, ..self }
    }

    /// The invoice once `payer` has paid it.
    pub open spec fn paid_by(self, payer: Seq<u8>) -> InvoiceView {
        InvoiceView { status: InvoiceStatus::Paid, payer: Some(payer), ..self }
    }

    /// The invoice as a payment at `now` leaves it: paid where the payment is
    /// accepted, expired where the invoice has lapsed, unchanged otherwise.
    pub open spec fn after_payment(self, payer: Seq<u8>, amount: i128, now: u64) -> InvoiceView {
        match payment_error(self, amount, now) {
            None => self.paid_by(payer),
            Some(Error::InvoiceExpired) => self.with_status(InvoiceStatus::Expired),
            Some(_) => self,
        }
    }

    /// The invoice as a refund leaves it: refunded where the refund is
    /// accepted, unchanged otherwise.
    pub open spec fn after_refund(
        self,
        payment: Option<PaymentView>,
        merchant: Seq<u8>,
        amount: i128,
    ) -> InvoiceView {
        match refund_error(self, payment, merchant, amount) {
            None => self.with_status(InvoiceStatus::Refunded),
            Some(_) => self,
        }
    }

    /// The record of a payment of this invoice by `payer` at `now`.
    pub open spec fn payment_record(self, payer: Seq<u8>, now: u64) -> PaymentView {
        PaymentView { invoice_id: self.id, payer, amount: self.amount, timestamp: now }
    }
}

impl View for Invoice {
    type V = InvoiceView;

    open spec fn view(&self) -> InvoiceView {
        InvoiceView {
            id: self.id@,
            merchant: self.merchant@,
            amount: self.amount,
            expiry: self.expiry,
            status: self.status,
            created_at: self.created_at,
            payer: match self.payer {
                Some(payer) => Some(payer@),
                None => None,
            },
        }
    }
}

impl View for Payment {
    type V = PaymentView;

    open spec fn view(&self) -> PaymentView {
        PaymentView {
            invoice_id: self.invoice_id@,
            payer: self.payer@,
            amount: self.amount,
            timestamp: self.timestamp,
        }
    }
}

impl Clone for Invoice {
    fn clone(&self) -> (copy: Self)
        ensures
            copy@ == self@,
    {
        Invoice {
            id: self.id.clone(),
            merchant: self.merchant.clone(),
            amount: self.amount,
            expiry: self.expiry,
            status: self.status,
            created_at: self.created_at,
            payer: match &self.payer {
                Some(payer) => Some(payer.clone()),
                None => None,
            },
        }
    }
}

impl Clone for Payment {
    fn clone(&self) -> (copy: Self)
        ensures
            copy@ == self@,
    {
        Payment {
            invoice_id: self.invoice_id.clone(),
            payer: self.payer.clone(),
            amount: self.amount,
            timestamp: self.timestamp,
        }
    }
}

/// Checks the terms of a new invoice against the clock.
pub fn check_terms(amount: i128, expiry: u64, now: u64) -> (outcome: Result<(), Error>)
    ensures
        outcome == match terms_error(amount, expiry, now) {
            Some(error) => Err::<(), Error>(error),
            None => Ok(()),
        },
{
    if amount <= 0 {
        return Err(Error::InvalidAmount);
    }
    if expiry < now {
        return Err(Error::InvalidExpiry);
    }
    let validity: u64 = expiry - now;
    if validity < MIN_VALIDITY || validity > MAX_VALIDITY {
        return Err(Error::InvalidExpiry);
    }
    Ok(())
}

impl Invoice {
    /// Settles the invoice with a payment of `amount` by `payer` at `now`.
    ///
    /// Fails with `InvoiceNotOpen` where the invoice is not open, else with
    /// `InvoiceExpired` where `now` is past the expiry, else with
    /// `AmountMismatch` where `amount` is not the invoice's amount. A lapsed
    /// invoice becomes `Expired` although the call fails; any other failure
    /// leaves it as it was. On success the invoice is `Paid`, names `payer`,
    /// and the payment record is returned.
    pub fn settle(&mut self, payer: Identity, amount: i128, now: u64) -> (outcome: Result<
        Payment,
        Error,
    >)
        ensures
            final(self)@ == old(self)@.after_payment(payer@, amount, now),
            match payment_error(old(self)@, amount, now) {
                Some(error) => outcome == Err::<Payment, Error>(error),
                None => outcome is Ok && outcome->Ok_0@ == old(self)@.payment_record(payer@, now),
            },
            old(self)@.consistent() ==> final(self)@.consistent(),
    {
        if self.status != InvoiceStatus::Open {
            return Err(Error::InvoiceNotOpen);
        }
        if now > self.expiry {
            self.status = InvoiceStatus::Expired;
            return Err(Error::InvoiceExpired);
        }
        if amount != self.amount {
            return Err(Error::AmountMismatch);
        }
        let payment = Payment {
            invoice_id: self.id.clone(),
            payer: payer.clone(),
            amount,
            timestamp: now,
        };
        self.status = InvoiceStatus::Paid;
        self.payer = Some(payer);
        Ok(payment)
    }

    /// Refunds the invoice in full at the request of `merchant`.
    ///
    /// `payment` is the payment on record for this invoice, if there is one.
    /// Fails with `Unauthorized` where `merchant` is not the invoice's
    /// merchant, else with `InvoiceNotOpen` where the invoice is not paid,
    /// else with `InvoiceNotFound` where no payment is on record, else with
    /// `AmountMismatch` where `amount` is not the amount paid. A failure
    /// leaves the invoice as it was. On success the invoice is `Refunded`.
    pub fn refund(&mut self, payment: Option<&Payment>, merchant: &Identity, amount: i128) -> (outcome:
        Result<(), Error>)
        ensures
            final(self)@ == old(self)@.after_refund(
                match payment {
                    Some(p) => Some(p@),
                    None => None,
                },
                merchant@,
                amount,
            ),
            outcome == match refund_error(
                old(self)@,
                match payment {
                    Some(p) => Some(p@),
                    None => None,
                },
                merchant@,
                amount,
            ) {
                Some(error) => Err::<(), Error>(error),
                None => Ok(()),
            },
            old(self)@.consistent() ==> final(self)@.consistent(),
    {
        if !self.merchant.same_as(merchant) {
            return Err(Error::Unauthorized);
        }
        if self.status != InvoiceStatus::Paid {
            return Err(Error::InvoiceNotOpen);
        }
        match payment {
            None => Err(Error::InvoiceNotFound),
            Some(record) => {
                if amount != record.amount {
                    return Err(Error::AmountMismatch);
                }
                self.status = InvoiceStatus::Refunded;
                Ok(())
            },
        }
    }
}

} // verus!
