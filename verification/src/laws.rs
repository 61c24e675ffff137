//! What holds of the engine whatever the inputs, stated over the plain-value
//! model of its state.

use vstd::prelude::*;
use crate::contract::{ContractView, TransferView};
use crate::invoice::{terms_error, InvoiceView, PaymentView, MAX_VALIDITY, MIN_VALIDITY};
use crate::digest::collide;
use crate::naming::{id_preimage, invoice_id_of, lemma_sequence_separates_ids};
use crate::store::DataKeyView;
use crate::types::{Error, InvoiceStatus};

verus! {

/// The state of a contract that has done nothing is sound, and holds no
/// payment.
pub proof fn lemma_empty_state_sound()
    ensures
        ContractView::empty().sound(),
        ContractView::empty().payments_settled(),
{
}

/// An invoice for an amount that is not positive is refused with
/// `InvalidAmount`, whatever its expiry, and nothing is stored or published.
pub proof fn lemma_nonpositive_amount_refused(
    state: ContractView,
    merchant: Seq<u8>,
    amount: i128,
    expiry: u64,
    now: u64,
    sequence: u32,
)
    requires
        amount <= 0,
    ensures
        terms_error(amount, expiry, now) == Some(Error::InvalidAmount),
        state.after_create(merchant, amount, expiry, now, sequence) == state,
{
}

/// Every invoice stored in a sound state is for a positive amount, expires
/// within the window after its creation, and is stored under its own
/// identifier.
pub proof fn lemma_stored_invoice_consistent(state: ContractView, id: Seq<u8>)
    requires
        state.sound(),
        state.invoice(id) is Some,
    ensures
        state.invoice(id)->0.amount > 0,
        state.invoice(id)->0.created_at + MIN_VALIDITY <= state.invoice(id)->0.expiry,
        state.invoice(id)->0.expiry <= state.invoice(id)->0.created_at + MAX_VALIDITY,
        state.invoice(id)->0.id == id,
        state.invoice(id)->0.payer is None <==> (state.invoice(id)->0.status == InvoiceStatus::Open
            || state.invoice(id)->0.status == InvoiceStatus::Expired),
{
    assert(state.records.contains_key(DataKeyView::Invoice(id)));
    assert(state.invoice_sound(id));
}

/// In a sound state a settled invoice has its payment on record. In a state
/// that also keeps payments with settled invoices, a payment is on record
/// exactly for the invoices that are paid or refunded.
pub proof fn lemma_payment_on_record_iff_settled(state: ContractView, id: Seq<u8>)
    requires
        state.sound(),
        state.invoice(id) is Some,
    ensures
        state.invoice(id)->0.status.settled() ==> state.payment(id) is Some,
        state.payments_settled() ==> (state.payment(id) is Some <==> state.invoice(
            id,
        )->0.status.settled()),
{
    assert(state.records.contains_key(DataKeyView::Invoice(id)));
    assert(state.invoice_sound(id));
    if state.payments_settled() && state.payment(id) is Some {
        assert(state.records.contains_key(DataKeyView::Payment(id)));
    }
}

/// An invoice for a positive amount is refused with `InvalidExpiry` exactly
/// when its expiry lies outside the window from `MIN_VALIDITY` to
/// `MAX_VALIDITY` seconds after `now`, both ends included; a refusal stores
/// and publishes nothing.
pub proof fn lemma_expiry_window(
    state: ContractView,
    merchant: Seq<u8>,
    amount: i128,
    expiry: u64,
    now: u64,
    sequence: u32,
)
    requires
        amount > 0,
    ensures
        now + MIN_VALIDITY <= expiry <= now + MAX_VALIDITY <==> terms_error(amount, expiry, now)
            is None,
        !(now + MIN_VALIDITY <= expiry <= now + MAX_VALIDITY) <==> terms_error(amount, expiry, now)
            == Some(Error::InvalidExpiry),
        terms_error(amount, expiry, now) is Some ==> state.after_create(
            merchant,
            amount,
            expiry,
            now,
            sequence,
        ) == state,
{
}

/// Right after an invoice was opened, it is found under its identifier: open,
/// without a payer, with the merchant, the amount and the expiry it was opened
/// with, created at the time of the call.
pub proof fn lemma_created_invoice_found(
    state: ContractView,
    merchant: Seq<u8>,
    amount: i128,
    expiry: u64,
    now: u64,
    sequence: u32,
)
    requires
        terms_error(amount, expiry, now) is None,
    ensures
        state.after_create(merchant, amount, expiry, now, sequence).invoice(
            invoice_id_of(merchant, now, sequence),
        ) == Some(
            InvoiceView {
                id: invoice_id_of(merchant, now, sequence),
                merchant,
                amount,
                expiry,
                status: InvoiceStatus::Open,
                created_at: now,
                payer: None,
            },
        ),
{
}

/// Two invoices that one merchant opens at one time under different sequence
/// numbers get different identifiers, and both are found afterwards as they
/// were opened, unless SHA-256 collides on the two byte strings hashed.
pub proof fn lemma_two_invoices_both_kept(
    state: ContractView,
    merchant: Seq<u8>,
    now: u64,
    amount_a: i128,
    expiry_a: u64,
    sequence_a: u32,
    amount_b: i128,
    expiry_b: u64,
    sequence_b: u32,
)
    requires
        terms_error(amount_a, expiry_a, now) is None,
        terms_error(amount_b, expiry_b, now) is None,
        sequence_a != sequence_b,
    ensures
        ({
            let id_a = invoice_id_of(merchant, now, sequence_a);
            let id_b = invoice_id_of(merchant, now, sequence_b);
            let after = state.after_create(merchant, amount_a, expiry_a, now, sequence_a).after_create(
                merchant,
                amount_b,
                expiry_b,
                now,
                sequence_b,
            );
            ||| collide(
                id_preimage(merchant, now, sequence_a),
                id_preimage(merchant, now, sequence_b),
            )
            ||| {
                &&& id_a != id_b
                &&& after.invoice(id_a) == Some(
                    ContractView::created_invoice(merchant, amount_a, expiry_a, now, sequence_a),
                )
                &&& after.invoice(id_b) == Some(
                    ContractView::created_invoice(merchant, amount_b, expiry_b, now, sequence_b),
                )
            }
        }),
{
    lemma_sequence_separates_ids(merchant, now, sequence_a, sequence_b);
}

/// The token contract is set once: the first `initialize` sets it, and no
/// later one replaces it or changes anything else.
pub proof fn lemma_token_contract_set_once(state: ContractView, first: Seq<u8>, second: Seq<u8>)
    requires
        state.usdc_address is None,
    ensures
        state.after_initialize(first).usdc_address == Some(first),
        state.after_initialize(first).records == state.records,
        state.after_initialize(first).events == state.events,
        state.after_initialize(first).after_initialize(second) == state.after_initialize(first),
{
}

/// No other operation touches the token contract: once set, it stays as it
/// is through every invoice opened, paid and refunded.
pub proof fn lemma_token_contract_read_only(
    state: ContractView,
    id: Seq<u8>,
    party: Seq<u8>,
    amount: i128,
    expiry: u64,
    now: u64,
    sequence: u32,
)
    ensures
        state.after_create(party, amount, expiry, now, sequence).usdc_address
            == state.usdc_address,
        state.after_pay(id, party, amount, now).usdc_address == state.usdc_address,
        state.after_refund(id, party, amount).usdc_address == state.usdc_address,
{
}

/// Whether `after` is `before` or what one step of the life cycle makes of
/// it: only the status and the payer may differ, and the status has moved
/// along a path of the life cycle.
pub open spec fn same_or_stepped(before: InvoiceView, after: InvoiceView) -> bool {
    ||| after == before
    ||| {
        &&& before.status.steps_to(after.status)
        &&& after.id == before.id
        &&& after.merchant == before.merchant
        &&& after.amount == before.amount
        &&& after.expiry == before.expiry
        &&& after.created_at == before.created_at
    }
}

/// A payment removes no invoice, and leaves each one as it was or one step
/// further in its life; none goes back to `Open`. Invoices other than the one
/// named are left as they were.
pub proof fn lemma_pay_moves_forward(
    state: ContractView,
    id: Seq<u8>,
    payer: Seq<u8>,
    amount: i128,
    now: u64,
    other: Seq<u8>,
)
    requires
        state.invoice(other) is Some,
    ensures
        state.after_pay(id, payer, amount, now).invoice(other) is Some,
        same_or_stepped(
            state.invoice(other)->0,
            state.after_pay(id, payer, amount, now).invoice(other)->0,
        ),
        other != id ==> state.after_pay(id, payer, amount, now).invoice(other) == state.invoice(
            other,
        ),
{
}

/// A refund removes no invoice, and leaves each one as it was or one step
/// further in its life; none goes back to `Open`. Invoices other than the one
/// named are left as they were, and so is every payment on record.
pub proof fn lemma_refund_moves_forward(
    state: ContractView,
    id: Seq<u8>,
    merchant: Seq<u8>,
    amount: i128,
    other: Seq<u8>,
)
    requires
        state.invoice(other) is Some,
    ensures
        state.after_refund(id, merchant, amount).invoice(other) is Some,
        same_or_stepped(
            state.invoice(other)->0,
            state.after_refund(id, merchant, amount).invoice(other)->0,
        ),
        other != id ==> state.after_refund(id, merchant, amount).invoice(other) == state.invoice(
            other,
        ),
        state.after_refund(id, merchant, amount).payment(other) == state.payment(other),
{
}

/// An accepted payment leaves the invoice `Paid` by the payer, with the
/// payment on record, and orders the amount from the payer to the merchant.
pub proof fn lemma_accepted_payment(
    state: ContractView,
    id: Seq<u8>,
    payer: Seq<u8>,
    amount: i128,
    now: u64,
)
    requires
        state.pay_error(id, amount, now) is None,
    ensures
        state.after_pay(id, payer, amount, now).invoice(id) == Some(
            state.invoice(id)->0.paid_by(payer),
        ),
        state.after_pay(id, payer, amount, now).payment(id) == Some(
            PaymentView { invoice_id: id, payer, amount, timestamp: now },
        ),
        amount == state.invoice(id)->0.amount,
        now <= state.invoice(id)->0.expiry,
        state.pay_transfer(id, payer, amount) == (TransferView {
            from: payer,
            to: state.invoice(id)->0.merchant,
            amount: state.invoice(id)->0.amount,
        }),
{
}

/// A payment of another amount than the invoice's is refused with
/// `AmountMismatch` where the invoice is open and has not lapsed, and changes
/// nothing.
pub proof fn lemma_wrong_amount_refused(
    state: ContractView,
    id: Seq<u8>,
    payer: Seq<u8>,
    amount: i128,
    now: u64,
)
    requires
        state.invoice(id) is Some,
        state.invoice(id)->0.status == InvoiceStatus::Open,
        now <= state.invoice(id)->0.expiry,
        amount != state.invoice(id)->0.amount,
    ensures
        state.pay_error(id, amount, now) == Some(Error::AmountMismatch),
        state.after_pay(id, payer, amount, now) == state,
{
}

/// A payment of an open invoice after its expiry is refused with
/// `InvoiceExpired`, whatever the amount, and leaves the invoice stored as
/// `Expired`. From then on every payment of it is refused with
/// `InvoiceNotOpen`.
pub proof fn lemma_lapsed_invoice_expires(
    state: ContractView,
    id: Seq<u8>,
    payer: Seq<u8>,
    amount: i128,
    now: u64,
    later_amount: i128,
    later: u64,
)
    requires
        state.invoice(id) is Some,
        state.invoice(id)->0.status == InvoiceStatus::Open,
        now > state.invoice(id)->0.expiry,
    ensures
        state.pay_error(id, amount, now) == Some(Error::InvoiceExpired),
        state.after_pay(id, payer, amount, now).invoice(id) == Some(
            state.invoice(id)->0.with_status(InvoiceStatus::Expired),
        ),
        state.after_pay(id, payer, amount, now).pay_error(id, later_amount, later) == Some(
            Error::InvoiceNotOpen,
        ),
{
}

/// An invoice is settled at most once: after an accepted payment every
/// further payment of it is refused with `InvoiceNotOpen`.
pub proof fn lemma_paid_at_most_once(
    state: ContractView,
    id: Seq<u8>,
    payer: Seq<u8>,
    amount: i128,
    now: u64,
    later_amount: i128,
    later: u64,
)
    requires
        state.pay_error(id, amount, now) is None,
    ensures
        state.after_pay(id, payer, amount, now).pay_error(id, later_amount, later) == Some(
            Error::InvoiceNotOpen,
        ),
{
}

/// After an accepted payment, the invoice's merchant can refund the amount
/// paid: the refund leaves the invoice `Refunded`, keeps the payment on
/// record, and orders the same amount back from the merchant to the payer. No second refund is accepted.
pub proof fn lemma_refund_reverses_payment(
    state: ContractView,
    id: Seq<u8>,
    payer: Seq<u8>,
    amount: i128,
    now: u64,
)
    requires
        state.pay_error(id, amount, now) is None,
    ensures
        ({
            let paid = state.after_pay(id, payer, amount, now);
            let merchant = state.invoice(id)->0.merchant;
            let refunded = paid.after_refund(id, merchant, amount);
            &&& paid.refund_error(id, merchant, amount) is None
            &&& refunded.invoice(id) == Some(
                state.invoice(id)->0.paid_by(payer).with_status(InvoiceStatus::Refunded),
            )
            &&& refunded.payment(id) == paid.payment(id)
            &&& paid.refund_transfer(id, merchant, amount).from == state.pay_transfer(
                id,
                payer,
                amount,
            ).to
            &&& paid.refund_transfer(id, merchant, amount).to == state.pay_transfer(
                id,
                payer,
                amount,
            ).from
            &&& paid.refund_transfer(id, merchant, amount).amount == state.pay_transfer(
                id,
                payer,
                amount,
            ).amount
            &&& refunded.refund_error(id, merchant, amount) == Some(Error::InvoiceNotOpen)
        }),
{
}

/// A refund asked for by any party but the invoice's merchant is refused with
/// `Unauthorized`, whatever the status and the amount, and changes nothing.
pub proof fn lemma_foreign_refund_refused(
    state: ContractView,
    id: Seq<u8>,
    merchant: Seq<u8>,
    amount: i128,
)
    requires
        state.invoice(id) is Some,
        state.invoice(id)->0.merchant != merchant,
    ensures
        state.refund_error(id, merchant, amount) == Some(Error::Unauthorized),
        state.after_refund(id, merchant, amount) == state,
{
}

/// A refund of an invoice that is not paid, asked for by its merchant, is
/// refused with `InvoiceNotOpen` and changes nothing.
pub proof fn lemma_unpaid_refund_refused(state: ContractView, id: Seq<u8>, amount: i128)
    requires
        state.invoice(id) is Some,
        state.invoice(id)->0.status != InvoiceStatus::Paid,
    ensures
        state.refund_error(id, state.invoice(id)->0.merchant, amount) == Some(
            Error::InvoiceNotOpen,
        ),
        state.after_refund(id, state.invoice(id)->0.merchant, amount) == state,
{
}

/// A refund of another amount than the one paid is refused with
/// `AmountMismatch` and changes nothing: there are no partial refunds.
pub proof fn lemma_partial_refund_refused(state: ContractView, id: Seq<u8>, amount: i128)
    requires
        state.invoice(id) is Some,
        state.invoice(id)->0.status == InvoiceStatus::Paid,
        state.payment(id) is Some,
        state.payment(id)->0.amount != amount,
    ensures
        state.refund_error(id, state.invoice(id)->0.merchant, amount) == Some(
            Error::AmountMismatch,
        ),
        state.after_refund(id, state.invoice(id)->0.merchant, amount) == state,
{
}

/// Nothing is paid or refunded under an identifier that is not in use: both
/// are refused with `InvoiceNotFound` and change nothing.
pub proof fn lemma_unknown_invoice_refused(
    state: ContractView,
    id: Seq<u8>,
    party: Seq<u8>,
    amount: i128,
    now: u64,
)
    requires
        state.invoice(id) is None,
    ensures
        state.pay_error(id, amount, now) == Some(Error::InvoiceNotFound),
        state.after_pay(id, party, amount, now) == state,
        state.refund_error(id, party, amount) == Some(Error::InvoiceNotFound),
        state.after_refund(id, party, amount) == state,
{
}

} // verus!
