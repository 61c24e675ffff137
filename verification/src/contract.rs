//! The engine: the state of the checkout contract and the operations on it.
//!
//! The engine decides; the host acts. The host proves that the caller controls
//! the identity it names before it calls an operation, hands each call the
//! time and its sequence number, and carries out the transfer that a payment
//! or a refund returns. Where that transfer fails, the host discards the state
//! that the call produced, and with it the events.

use vstd::prelude::*;
use crate::identity::{Identity, InvoiceId};
use crate::invoice::{
    check_terms,
    payment_error,
    refund_error,
    terms_error,
    Invoice,
    InvoiceView,
    Payment,
    PaymentView,
};
use crate::naming::{generate_invoice_id, invoice_id_of};
use crate::store::{DataKey, DataKeyView, Record, RecordView, Store};
use crate::types::{Error, InvoiceStatus};

verus! {

/// An order to the host: move `amount` of the token from `from` to `to`.
#[derive(Debug, PartialEq, Eq)]
pub struct Transfer {
    /// The party that gives.
    pub from: Identity,
    /// The party that receives.
    pub to: Identity,
    /// The amount to move.
    pub amount: i128,
}

/// A [`Transfer`] as plain values.
pub struct TransferView {
    pub from: Seq<u8>,
    pub to: Seq<u8>,
    pub amount: i128,
}

impl View for Transfer {
    type V = TransferView;

    open spec fn view(&self) -> TransferView {
        TransferView { from: self.from@, to: self.to@, amount: self.amount }
    }
}

/// What the engine tells outside observers, keyed by the merchant.
#[derive(Debug, PartialEq, Eq)]
pub enum Event {
    /// An invoice was opened.
    Created { merchant: Identity, invoice_id: InvoiceId, amount: i128, expiry: u64 },
    /// An invoice was paid.
    Paid { merchant: Identity, invoice_id: InvoiceId, payer: Identity, amount: i128 },
    /// An invoice was refunded.
    Refunded { merchant: Identity, invoice_id: InvoiceId, payer: Identity, amount: i128 },
}

/// An [`Event`] as plain values.
pub enum EventView {
    Created { merchant: Seq<u8>, invoice_id: Seq<u8>, amount: i128, expiry: u64 },
    Paid { merchant: Seq<u8>, invoice_id: Seq<u8>, payer: Seq<u8>, amount: i128 },
    Refunded { merchant: Seq<u8>, invoice_id: Seq<u8>, payer: Seq<u8>, amount: i128 },
}

impl View for Event {
    type V = EventView;

    open spec fn view(&self) -> EventView {
        match self {
            Event::Created { merchant, invoice_id, amount, expiry } => EventView::Created {
                merchant: merchant@,
                invoice_id: invoice_id@,
                amount: *amount,
                expiry: *expiry,
            },
            Event::Paid { merchant, invoice_id, payer, amount } => EventView::Paid {
                merchant: merchant@,
                invoice_id: invoice_id@,
                payer: payer@,
                amount: *amount,
            },
            Event::Refunded { merchant, invoice_id, payer, amount } => EventView::Refunded {
                merchant: merchant@,
                invoice_id: invoice_id@,
                payer: payer@,
                amount: *amount,
            },
        }
    }
}

/// The events of a log, each as plain values.
pub open spec fn event_views(events: Seq<Event>) -> Seq<EventView> {
    events.map_values(|event: Event| event@)
}

/// The key under which a record is stored: its own identifier, in the
/// namespace of its kind.
pub open spec fn key_of(record: RecordView) -> DataKeyView {
    match record {
        RecordView::Invoice(invoice) => DataKeyView::Invoice(invoice.id),
        RecordView::Payment(payment) => DataKeyView::Payment(payment.invoice_id),
    }
}

/// The records of a list, each as plain values.
pub open spec fn record_views(records: Seq<Record>) -> Seq<RecordView> {
    records.map_values(|record: Record| record@)
}

/// What a store holds once the given records were stored in turn, each under
/// its own key.
pub open spec fn stored(records: Seq<RecordView>) -> Map<DataKeyView, RecordView>
    decreases records.len(),
{
    if records.len() == 0 {
        Map::empty()
    } else {
        stored(records.drop_last()).insert(key_of(records.last()), records.last())
    }
}

/// The state of the contract as plain values: what the store holds, the token
/// contract that was configured, and the events published so far.
pub struct ContractView {
    pub records: Map<DataKeyView, RecordView>,
    pub usdc_address: Option<Seq<u8>>,
    pub events: Seq<EventView>,
}

impl ContractView {
    /// The state of a contract that has done nothing.
    pub open spec fn empty() -> ContractView {
        ContractView { records: Map::empty(), usdc_address: None, events: Seq::empty() }
    }

    /// The invoice stored under `id`, if there is one.
    pub open spec fn invoice(self, id: Seq<u8>) -> Option<InvoiceView> {
        if self.records.contains_key(DataKeyView::Invoice(id)) {
            match self.records[DataKeyView::Invoice(id)] {
                RecordView::Invoice(invoice) => Some(invoice),
                RecordView::Payment(_) => None,
            }
        } else {
            None
        }
    }

    /// The payment stored for the invoice `id`, if there is one.
    pub open spec fn payment(self, id: Seq<u8>) -> Option<PaymentView> {
        if self.records.contains_key(DataKeyView::Payment(id)) {
            match self.records[DataKeyView::Payment(id)] {
                RecordView::Payment(payment) => Some(payment),
                RecordView::Invoice(_) => None,
            }
        } else {
            None
        }
    }

    /// What holds of the invoice stored under `id`: it is an invoice, it
    /// carries its own key, it is consistent, and where it has been settled
    /// its payment is on record, of the invoice's amount and by its payer.
    pub open spec fn invoice_sound(self, id: Seq<u8>) -> bool {
        &&& self.invoice(id) is Some
        &&& self.invoice(id)->0.id == id
        &&& self.invoice(id)->0.consistent()
        &&& self.invoice(id)->0.status.settled() ==> {
            &&& self.payment(id) is Some
            &&& self.payment(id)->0.amount == self.invoice(id)->0.amount
            &&& self.invoice(id)->0.payer == Some(self.payment(id)->0.payer)
        }
    }

    /// What holds of the payment stored for `id`: it is a payment, it names
    /// the invoice it is stored for, and that invoice is stored too.
    pub open spec fn payment_sound(self, id: Seq<u8>) -> bool {
        &&& self.payment(id) is Some
        &&& self.payment(id)->0.invoice_id == id
        &&& self.records.contains_key(DataKeyView::Invoice(id))
    }

    /// What holds of every state that the operations reach from the empty one.
    pub open spec fn sound(self) -> bool {
        &&& forall|id: Seq<u8>| #[trigger]
            self.records.contains_key(DataKeyView::Invoice(id)) ==> self.invoice_sound(id)
        &&& forall|id: Seq<u8>| #[trigger]
            self.records.contains_key(DataKeyView::Payment(id)) ==> self.payment_sound(id)
        &&& !self.records.contains_key(DataKeyView::InvoiceCounter)
    }

    /// Whether a payment is on record only for invoices that have been
    /// settled. The operations keep this as long as no new invoice is given
    /// the identifier of an earlier one.
    pub open spec fn payments_settled(self) -> bool {
        forall|id: Seq<u8>| #[trigger]
            self.records.contains_key(DataKeyView::Payment(id)) ==> self.invoice(id) is Some
                && self.invoice(id)->0.status.settled()
    }

    /// The state with the invoice `id` stored in another status.
    pub open spec fn restatus(self, id: Seq<u8>, status: InvoiceStatus) -> ContractView {
        ContractView {
            records: self.records.insert(
                DataKeyView::Invoice(id),
                RecordView::Invoice(self.invoice(id)->0.with_status(status)),
            ),
            ..self
        }
    }

    /// The state that `initialize` leaves: with `usdc_address` as the token
    /// contract where none was set, unchanged where one was. The token
    /// contract is set once.
    pub open spec fn after_initialize(self, usdc_address: Seq<u8>) -> ContractView {
        if self.usdc_address is Some {
            self
        } else {
            ContractView { usdc_address: Some(usdc_address), ..self }
        }
    }

    /// The record of a payment that `pay` accepts for the invoice `id`: it
    /// names the identifier that was asked for.
    pub open spec fn paid_record(id: Seq<u8>, payer: Seq<u8>, amount: i128, now: u64) -> PaymentView {
        PaymentView { invoice_id: id, payer, amount, timestamp: now }
    }

    /// The invoice that `create_invoice` stores where it accepts the terms.
    pub open spec fn created_invoice(
        merchant: Seq<u8>,
        amount: i128,
        expiry: u64,
        now: u64,
        sequence: u32,
    ) -> InvoiceView {
        InvoiceView {
            id: invoice_id_of(merchant, now, sequence),
            merchant,
            amount,
            expiry,
            status: InvoiceStatus::Open,
            created_at: now,
            payer: None,
        }
    }

    /// The state that `create_invoice` leaves: with the new invoice and its
    /// event where the terms are accepted, unchanged where they are not.
    pub open spec fn after_create(
        self,
        merchant: Seq<u8>,
        amount: i128,
        expiry: u64,
        now: u64,
        sequence: u32,
    ) -> ContractView {
        let id = invoice_id_of(merchant, now, sequence);
        match terms_error(amount, expiry, now) {
            Some(_) => self,
            None => ContractView {
                records: self.records.insert(
                    DataKeyView::Invoice(id),
                    RecordView::Invoice(
                        Self::created_invoice(merchant, amount, expiry, now, sequence),
                    ),
                ),
                events: self.events.push(
                    EventView::Created { merchant, invoice_id: id, amount, expiry },
                ),
                ..self
            },
        }
    }

    /// Why `pay` refuses, if it does: `InvoiceNotFound` where no invoice is
    /// stored under `id`, else what [`payment_error`] says of that invoice.
    pub open spec fn pay_error(self, id: Seq<u8>, amount: i128, now: u64) -> Option<Error> {
        match self.invoice(id) {
            None => Some(Error::InvoiceNotFound),
            Some(invoice) => payment_error(invoice, amount, now),
        }
    }

    /// The transfer that an accepted payment of the invoice `id` orders: from
    /// the payer to the invoice's merchant.
    pub open spec fn pay_transfer(self, id: Seq<u8>, payer: Seq<u8>, amount: i128) -> TransferView {
        TransferView { from: payer, to: self.invoice(id)->0.merchant, amount }
    }

    /// The state that `pay` leaves. An accepted payment stores the payment
    /// record and the paid invoice and publishes an event. A lapsed invoice is
    /// stored as expired. Any other refusal changes nothing.
    pub open spec fn after_pay(self, id: Seq<u8>, payer: Seq<u8>, amount: i128, now: u64) -> ContractView {
        match self.pay_error(id, amount, now) {
            None => {
                let invoice = self.invoice(id)->0;
                ContractView {
                    records: self.records.insert(
                        DataKeyView::Payment(id),
                        RecordView::Payment(Self::paid_record(id, payer, amount, now)),
                    ).insert(DataKeyView::Invoice(id), RecordView::Invoice(invoice.paid_by(payer))),
                    events: self.events.push(
                        EventView::Paid {
                            merchant: invoice.merchant,
                            invoice_id: id,
                            payer,
                            amount,
                        },
                    ),
                    ..self
                }
            },
            Some(Error::InvoiceExpired) => ContractView {
                records: self.records.insert(
                    DataKeyView::Invoice(id),
                    RecordView::Invoice(self.invoice(id)->0.with_status(InvoiceStatus::Expired)),
                ),
                ..self
            },
            Some(_) => self,
        }
    }

    /// Why `refund` refuses, if it does: `InvoiceNotFound` where no invoice is
    /// stored under `id`, else what [`refund_error`] says of that invoice and
    /// of the payment on record for it.
    pub open spec fn refund_error(self, id: Seq<u8>, merchant: Seq<u8>, amount: i128) -> Option<
        Error,
    > {
        match self.invoice(id) {
            None => Some(Error::InvoiceNotFound),
            Some(invoice) => refund_error(invoice, self.payment(id), merchant, amount),
        }
    }

    /// The transfer that an accepted refund of the invoice `id` orders: from
    /// the merchant back to the party that paid.
    pub open spec fn refund_transfer(self, id: Seq<u8>, merchant: Seq<u8>, amount: i128) -> TransferView {
        TransferView { from: merchant, to: self.payment(id)->0.payer, amount }
    }

    /// The state that `refund` leaves. An accepted refund stores the invoice
    /// as refunded and publishes an event; the payment record stays. A refusal
    /// changes nothing.
    pub open spec fn after_refund(self, id: Seq<u8>, merchant: Seq<u8>, amount: i128) -> ContractView {
        match self.refund_error(id, merchant, amount) {
            None => ContractView {
                records: self.records.insert(
                    DataKeyView::Invoice(id),
                    RecordView::Invoice(self.invoice(id)->0.with_status(InvoiceStatus::Refunded)),
                ),
                events: self.events.push(
                    EventView::Refunded {
                        merchant,
                        invoice_id: id,
                        payer: self.payment(id)->0.payer,
                        amount,
                    },
                ),
                ..self
            },
            Some(_) => self,
        }
    }
}

impl ContractView {
    /// Storing the invoice `id` in another status keeps a sound state sound,
    /// as long as the invoice stays settled or stays unsettled. No payment
    /// comes on record, so payments stay with settled invoices.
    pub proof fn lemma_restatus_keeps_sound(self, id: Seq<u8>, status: InvoiceStatus)
        requires
            self.sound(),
            self.invoice(id) is Some,
            self.invoice(id)->0.status.settled() == status.settled(),
        ensures
            self.restatus(id, status).sound(),
            self.payments_settled() ==> self.restatus(id, status).payments_settled(),
    {
        let after = self.restatus(id, status);
        assert(self.records.contains_key(DataKeyView::Invoice(id)));
        assert(self.invoice_sound(id));
        assert forall|other: Seq<u8>| #[trigger]
            after.records.contains_key(DataKeyView::Invoice(other)) implies after.invoice_sound(
            other,
        ) by {
            assert(self.records.contains_key(DataKeyView::Invoice(other)));
            assert(self.invoice_sound(other));
        }
        assert forall|other: Seq<u8>| #[trigger]
            after.records.contains_key(DataKeyView::Payment(other)) implies after.payment_sound(
            other,
        ) by {
            assert(self.records.contains_key(DataKeyView::Payment(other)));
            assert(self.payment_sound(other));
        }
        if self.payments_settled() {
            assert forall|other: Seq<u8>| #[trigger]
                after.records.contains_key(DataKeyView::Payment(other)) implies after.invoice(
                other,
            ) is Some && after.invoice(other)->0.status.settled() by {
                assert(self.records.contains_key(DataKeyView::Payment(other)));
            }
        }
    }

    /// Opening an invoice keeps a sound state sound. Where the new identifier
    /// was not in use, payments stay with settled invoices.
    pub proof fn lemma_create_keeps_sound(
        self,
        merchant: Seq<u8>,
        amount: i128,
        expiry: u64,
        now: u64,
        sequence: u32,
    )
        requires
            self.sound(),
        ensures
            self.after_create(merchant, amount, expiry, now, sequence).sound(),
            self.payments_settled() && self.invoice(invoice_id_of(merchant, now, sequence))
                is None ==> self.after_create(
                merchant,
                amount,
                expiry,
                now,
                sequence,
            ).payments_settled(),
    {
        let id = invoice_id_of(merchant, now, sequence);
        let after = self.after_create(merchant, amount, expiry, now, sequence);
        if terms_error(amount, expiry, now) is None {
            assert forall|other: Seq<u8>| #[trigger]
                after.records.contains_key(
                    DataKeyView::Invoice(other),
                ) implies after.invoice_sound(other) by {
                if other != id {
                    assert(self.records.contains_key(DataKeyView::Invoice(other)));
                    assert(self.invoice_sound(other));
                }
            }
            assert forall|other: Seq<u8>| #[trigger]
                after.records.contains_key(
                    DataKeyView::Payment(other),
                ) implies after.payment_sound(other) by {
                assert(self.records.contains_key(DataKeyView::Payment(other)));
                assert(self.payment_sound(other));
            }
            if self.payments_settled() && self.invoice(id) is None {
                assert forall|other: Seq<u8>| #[trigger]
                    after.records.contains_key(DataKeyView::Payment(other)) implies after.invoice(
                    other,
                ) is Some && after.invoice(other)->0.status.settled() by {
                    assert(self.records.contains_key(DataKeyView::Payment(other)));
                    assert(self.payment_sound(other));
                }
            }
        }
    }

    /// A payment, accepted or refused, keeps a sound state sound, and keeps
    /// payments with settled invoices.
    pub proof fn lemma_pay_keeps_sound(self, id: Seq<u8>, payer: Seq<u8>, amount: i128, now: u64)
        requires
            self.sound(),
        ensures
            self.after_pay(id, payer, amount, now).sound(),
            self.payments_settled() ==> self.after_pay(id, payer, amount, now).payments_settled(),
    {
        let after = self.after_pay(id, payer, amount, now);
        match self.pay_error(id, amount, now) {
            None => {
                assert(self.records.contains_key(DataKeyView::Invoice(id)));
                assert(self.invoice_sound(id));
                assert forall|other: Seq<u8>| #[trigger]
                    after.records.contains_key(
                        DataKeyView::Invoice(other),
                    ) implies after.invoice_sound(other) by {
                    if other != id {
                        assert(self.records.contains_key(DataKeyView::Invoice(other)));
                        assert(self.invoice_sound(other));
                    }
                }
                assert forall|other: Seq<u8>| #[trigger]
                    after.records.contains_key(
                        DataKeyView::Payment(other),
                    ) implies after.payment_sound(other) by {
                    if other != id {
                        assert(self.records.contains_key(DataKeyView::Payment(other)));
                        assert(self.payment_sound(other));
                    }
                }
                if self.payments_settled() {
                    assert forall|other: Seq<u8>| #[trigger]
                        after.records.contains_key(
                            DataKeyView::Payment(other),
                        ) implies after.invoice(other) is Some && after.invoice(
                        other,
                    )->0.status.settled() by {
                        if other != id {
                            assert(self.records.contains_key(DataKeyView::Payment(other)));
                        }
                    }
                }
            },
            Some(Error::InvoiceExpired) => {
                assert(self.invoice(id) is Some);
                assert(after == self.restatus(id, InvoiceStatus::Expired));
                self.lemma_restatus_keeps_sound(id, InvoiceStatus::Expired);
            },
            Some(_) => {},
        }
    }

    /// A refund, accepted or refused, keeps a sound state sound, and keeps
    /// payments with settled invoices.
    pub proof fn lemma_refund_keeps_sound(self, id: Seq<u8>, merchant: Seq<u8>, amount: i128)
        requires
            self.sound(),
        ensures
            self.after_refund(id, merchant, amount).sound(),
            self.payments_settled() ==> self.after_refund(id, merchant, amount).payments_settled(),
    {
        let after = self.after_refund(id, merchant, amount);
        if self.refund_error(id, merchant, amount) is None {
            let sealed = self.restatus(id, InvoiceStatus::Refunded);
            self.lemma_restatus_keeps_sound(id, InvoiceStatus::Refunded);
            assert(after.records == sealed.records);
            assert forall|other: Seq<u8>| #[trigger]
                after.records.contains_key(
                    DataKeyView::Invoice(other),
                ) implies after.invoice_sound(other) by {
                assert(sealed.invoice_sound(other));
                assert(after.invoice(other) == sealed.invoice(other));
                assert(after.payment(other) == sealed.payment(other));
            }
            assert forall|other: Seq<u8>| #[trigger]
                after.records.contains_key(
                    DataKeyView::Payment(other),
                ) implies after.payment_sound(other) by {
                assert(sealed.payment_sound(other));
                assert(after.payment(other) == sealed.payment(other));
            }
            if self.payments_settled() {
                assert forall|other: Seq<u8>| #[trigger]
                    after.records.contains_key(DataKeyView::Payment(other)) implies after.invoice(
                    other,
                ) is Some && after.invoice(other)->0.status.settled() by {
                    assert(sealed.records.contains_key(DataKeyView::Payment(other)));
                    assert(after.invoice(other) == sealed.invoice(other));
                }
            }
        }
    }
}

/// The checkout contract: the invoices and payments it has stored, the token
/// contract it settles in, and the events it has published.
pub struct CheckoutContract {
    store: Store,
    usdc_address: Option<Identity>,
    events: Vec<Event>,
}

impl View for CheckoutContract {
    type V = ContractView;

    closed spec fn view(&self) -> ContractView {
        ContractView {
            records: self.store@,
            usdc_address: match self.usdc_address {
                Some(address) => Some(address@),
                None => None,
            },
            events: event_views(self.events@),
        }
    }
}

impl CheckoutContract {
    /// A contract that has stored nothing, has published nothing, and has no
    /// token contract yet.
    pub fn new() -> (contract: CheckoutContract)
        ensures
            contract@ == ContractView::empty(),
    {
        let contract = CheckoutContract {
            store: Store::new(),
            usdc_address: None,
            events: Vec::new(),
        };
        assert(contract@.events =~= Seq::<EventView>::empty());
        contract
    }

    /// A contract that holds the given records, each under the key that its
    /// own identifier gives it, a later record in place of an earlier one
    /// under the same key. It has published nothing.
    ///
    /// This is how a host that keeps the records elsewhere brings them back.
    /// The records are taken as they are.
    pub fn restore(usdc_address: Option<Identity>, records: Vec<Record>) -> (contract:
        CheckoutContract)
        ensures
            contract@ == (ContractView {
                records: stored(record_views(records@)),
                usdc_address: match usdc_address {
                    Some(address) => Some(address@),
                    None => None,
                },
                events: Seq::empty(),
            }),
    {
        let mut store = Store::new();
        let mut i: usize = 0;
        while i < records.len()
            invariant
                i <= records@.len(),
                store@ == stored(record_views(records@).take(i as int)),
            decreases records@.len() - i,
        {
            let record = records[i].clone();
            let key = match &record {
                Record::Invoice(invoice) => DataKey::Invoice(invoice.id.clone()),
                Record::Payment(payment) => DataKey::Payment(payment.invoice_id.clone()),
            };
            store.set(key, record);
            i += 1;
            proof {
                let views = record_views(records@);
                assert(views.take(i as int).drop_last() =~= views.take(i - 1));
                assert(views.take(i as int).last() == records@[i - 1]@);
            }
        }
        proof {
            let views = record_views(records@);
            assert(views.take(records@.len() as int) =~= views);
        }
        let contract = CheckoutContract { store, usdc_address, events: Vec::new() };
        assert(contract@.events =~= Seq::<EventView>::empty());
        contract
    }

    /// Sets the token contract in which invoices are settled. It is set
    /// once: where one was set already, the call changes nothing.
    pub fn initialize(&mut self, usdc_address: Identity)
        ensures
            final(self)@ == old(self)@.after_initialize(usdc_address@),
            old(self)@.usdc_address is Some ==> final(self)@ == old(self)@,
            old(self)@.usdc_address is None ==> final(self)@.usdc_address == Some(usdc_address@),
    {
        if self.usdc_address.is_none() {
            self.usdc_address = Some(usdc_address);
        }
    }

    /// The token contract in which invoices are settled, once it has been
    /// set. The host needs it to carry out a transfer.
    pub fn get_usdc_address(&self) -> (address: Option<Identity>)
        ensures
            match address {
                Some(found) => self@.usdc_address == Some(found@),
                None => self@.usdc_address is None,
            },
    {
        match &self.usdc_address {
            Some(address) => Some(address.clone()),
            None => None,
        }
    }

    /// Opens an invoice of `merchant` for `amount`, payable until `expiry`.
    ///
    /// `now` is the host's clock and `sequence` the host's number of this
    /// call. Fails with `InvalidAmount` where `amount` is not positive, else
    /// with `InvalidExpiry` where `expiry` is less than `MIN_VALIDITY` or more
    /// than `MAX_VALIDITY` seconds after `now`; a failure changes nothing.
    /// Otherwise the invoice is stored as open under the identifier made of
    /// `merchant`, `now` and `sequence`, in place of whatever was stored
    /// there, a `Created` event is published, and the identifier is returned.
    pub fn create_invoice(
        &mut self,
        merchant: Identity,
        amount: i128,
        expiry: u64,
        now: u64,
        sequence: u32,
    ) -> (outcome: Result<InvoiceId, Error>)
        ensures
            final(self)@ == old(self)@.after_create(merchant@, amount, expiry, now, sequence),
            match terms_error(amount, expiry, now) {
                Some(error) => outcome == Err::<InvoiceId, Error>(error),
                None => outcome is Ok && outcome->Ok_0@ == invoice_id_of(merchant@, now, sequence),
            },
            old(self)@.sound() ==> final(self)@.sound(),
    {
        match check_terms(amount, expiry, now) {
            Err(error) => {
                return Err(error);
            },
            Ok(()) => {},
        }
        let invoice_id = generate_invoice_id(&merchant, now, sequence);
        let event = Event::Created {
            merchant: merchant.clone(),
            invoice_id: invoice_id.clone(),
            amount,
            expiry,
        };
        let invoice = Invoice {
            id: invoice_id.clone(),
            merchant,
            amount,
            expiry,
            status: InvoiceStatus::Open,
            created_at: now,
            payer: None,
        };
        let ghost before = self@;
        self.store.set(DataKey::Invoice(invoice_id.clone()), Record::Invoice(invoice));
        self.events.push(event);
        proof {
            let after = before.after_create(merchant@, amount, expiry, now, sequence);
            assert(self@.events =~= after.events);
            assert(self@ == after);
            if before.sound() {
                before.lemma_create_keeps_sound(merchant@, amount, expiry, now, sequence);
            }
        }
        Ok(invoice_id)
    }

    /// Settles the invoice `invoice_id` with a payment of `amount` by `payer`.
    ///
    /// `now` is the host's clock. Fails with `InvoiceNotFound` where no
    /// invoice is stored under `invoice_id`, else with `InvoiceNotOpen` where
    /// it is not open, else with `InvoiceExpired` where `now` is past its
    /// expiry, else with `AmountMismatch` where `amount` is not its amount. A
    /// lapsed invoice is stored as `Expired` although the call fails; any
    /// other failure changes nothing. Otherwise the invoice is stored as
    /// `Paid` by `payer`, the payment is put on record for `invoice_id`, of
    /// `amount` and at `now`, a `Paid` event is published, and the transfer
    /// from `payer` to the merchant is returned for the host to carry out.
    pub fn pay(&mut self, invoice_id: &InvoiceId, payer: Identity, amount: i128, now: u64) -> (outcome:
        Result<Transfer, Error>)
        ensures
            final(self)@ == old(self)@.after_pay(invoice_id@, payer@, amount, now),
            match old(self)@.pay_error(invoice_id@, amount, now) {
                Some(error) => outcome == Err::<Transfer, Error>(error),
                None => outcome is Ok && outcome->Ok_0@ == old(self)@.pay_transfer(
                    invoice_id@,
                    payer@,
                    amount,
                ),
            },
            old(self)@.sound() ==> final(self)@.sound(),
    {
        let ghost before = self@;
        let ghost id = invoice_id@;
        proof {
            if before.sound() {
                before.lemma_pay_keeps_sound(id, payer@, amount, now);
            }
        }
        let key = DataKey::Invoice(invoice_id.clone());
        let mut invoice = match self.store.get(&key) {
            Some(Record::Invoice(invoice)) => invoice.clone(),
            _ => {
                return Err(Error::InvoiceNotFound);
            },
        };
        match invoice.settle(payer.clone(), amount, now) {
            Err(Error::InvoiceExpired) => {
                self.store.set(key, Record::Invoice(invoice));
                assert(self@ == before.after_pay(id, payer@, amount, now));
                Err(Error::InvoiceExpired)
            },
            Err(error) => Err(error),
            Ok(settled) => {
                let payment = Payment {
                    invoice_id: invoice_id.clone(),
                    payer: settled.payer,
                    amount: settled.amount,
                    timestamp: settled.timestamp,
                };
                let transfer = Transfer {
                    from: payer.clone(),
                    to: invoice.merchant.clone(),
                    amount,
                };
                let event = Event::Paid {
                    merchant: invoice.merchant.clone(),
                    invoice_id: invoice_id.clone(),
                    payer,
                    amount,
                };
                self.store.set(DataKey::Payment(invoice_id.clone()), Record::Payment(payment));
                self.store.set(key, Record::Invoice(invoice));
                self.events.push(event);
                proof {
                    let after = before.after_pay(id, payer@, amount, now);
                    assert(self@.events =~= after.events);
                    assert(self@ == after);
                }
                Ok(transfer)
            },
        }
    }

    /// Refunds the invoice `invoice_id` in full at the request of `merchant`.
    ///
    /// Fails with `InvoiceNotFound` where no invoice is stored under
    /// `invoice_id`, else with `Unauthorized` where `merchant` is not its
    /// merchant, else with `InvoiceNotOpen` where it is not paid, else with
    /// `InvoiceNotFound` where no payment is on record for it, else with
    /// `AmountMismatch` where `amount` is not the amount paid; a failure
    /// changes nothing. Otherwise the invoice is stored as `Refunded`, the
    /// payment record stays as it is, a `Refunded` event is published, and the
    /// transfer from `merchant` back to the payer is returned for the host to
    /// carry out.
    pub fn refund(&mut self, invoice_id: &InvoiceId, merchant: Identity, amount: i128) -> (outcome:
        Result<Transfer, Error>)
        ensures
            final(self)@ == old(self)@.after_refund(invoice_id@, merchant@, amount),
            match old(self)@.refund_error(invoice_id@, merchant@, amount) {
                Some(error) => outcome == Err::<Transfer, Error>(error),
                None => outcome is Ok && outcome->Ok_0@ == old(self)@.refund_transfer(
                    invoice_id@,
                    merchant@,
                    amount,
                ),
            },
            old(self)@.sound() ==> final(self)@.sound(),
    {
        let ghost before = self@;
        let ghost id = invoice_id@;
        proof {
            if before.sound() {
                before.lemma_refund_keeps_sound(id, merchant@, amount);
            }
        }
        let key = DataKey::Invoice(invoice_id.clone());
        let mut invoice = match self.store.get(&key) {
            Some(Record::Invoice(invoice)) => invoice.clone(),
            _ => {
                return Err(Error::InvoiceNotFound);
            },
        };
        let payment = match self.store.get(&DataKey::Payment(invoice_id.clone())) {
            Some(Record::Payment(payment)) => Some(payment.clone()),
            _ => None,
        };
        match invoice.refund(payment.as_ref(), &merchant, amount) {
            Err(error) => Err(error),
            Ok(()) => {
                let payer = match &payment {
                    Some(record) => record.payer.clone(),
                    None => vstd::pervasive::unreached(),
                };
                let transfer = Transfer { from: merchant.clone(), to: payer.clone(), amount };
                let event = Event::Refunded {
                    merchant,
                    invoice_id: invoice_id.clone(),
                    payer,
                    amount,
                };
                self.store.set(key, Record::Invoice(invoice));
                self.events.push(event);
                proof {
                    let after = before.after_refund(id, merchant@, amount);
                    assert(self@.events =~= after.events);
                    assert(self@ == after);
                }
                Ok(transfer)
            },
        }
    }

    /// The invoice stored under `invoice_id`, if there is one.
    pub fn get_invoice(&self, invoice_id: &InvoiceId) -> (invoice: Option<Invoice>)
        ensures
            match invoice {
                Some(found) => self@.invoice(invoice_id@) == Some(found@),
                None => self@.invoice(invoice_id@) is None,
            },
    {
        match self.store.get(&DataKey::Invoice(invoice_id.clone())) {
            Some(Record::Invoice(invoice)) => Some(invoice.clone()),
            _ => None,
        }
    }

    /// The payment on record for the invoice `invoice_id`, if there is one.
    pub fn get_payment(&self, invoice_id: &InvoiceId) -> (payment: Option<Payment>)
        ensures
            match payment {
                Some(found) => self@.payment(invoice_id@) == Some(found@),
                None => self@.payment(invoice_id@) is None,
            },
    {
        match self.store.get(&DataKey::Payment(invoice_id.clone())) {
            Some(Record::Payment(payment)) => Some(payment.clone()),
            _ => None,
        }
    }

    /// The status of the invoice stored under `invoice_id`, if there is one.
    pub fn get_invoice_status(&self, invoice_id: &InvoiceId) -> (status: Option<InvoiceStatus>)
        ensures
            status == match self@.invoice(invoice_id@) {
                Some(invoice) => Some(invoice.status),
                None => None,
            },
    {
        match self.store.get(&DataKey::Invoice(invoice_id.clone())) {
            Some(Record::Invoice(invoice)) => Some(invoice.status),
            _ => None,
        }
    }

    /// The events published so far, oldest first.
    pub fn events(&self) -> (events: &Vec<Event>)
        ensures
            event_views(events@) == self@.events,
    {
        &self.events
    }
}

} // verus!
