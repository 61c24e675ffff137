//! The keyed store that holds the persisted records.
//!
//! Keys come from two namespaces, one for invoices and one for payments, both
//! indexed by the invoice identifier. A third namespace, for a counter, is
//! reserved.

use vstd::prelude::*;
use crate::identity::InvoiceId;
use crate::invoice::{Invoice, InvoiceView, Payment, PaymentView};

verus! {

/// A key of the store.
#[derive(Debug, PartialEq, Eq)]
pub enum DataKey {
    /// The invoice with the given identifier.
    Invoice(InvoiceId),
    /// The payment of the invoice with the given identifier.
    Payment(InvoiceId),
    /// The counter of invoices.
    InvoiceCounter,
}

/// A [`DataKey`] as plain values.
pub enum DataKeyView {
    Invoice(Seq<u8>),
    Payment(Seq<u8>),
    InvoiceCounter,
}

impl View for DataKey {
    type V = DataKeyView;

    open spec fn view(&self) -> DataKeyView {
        match self {
            DataKey::Invoice(id) => DataKeyView::Invoice(id@),
            DataKey::Payment(id) => DataKeyView::Payment(id@),
            DataKey::InvoiceCounter => DataKeyView::InvoiceCounter,
        }
    }
}

impl DataKey {
    /// Whether `self` and `other` are the same key.
    pub fn same_as(&self, other: &DataKey) -> (same: bool)
        ensures
            same == (self@ == other@),
    {
        match (self, other) {
            (DataKey::Invoice(a), DataKey::Invoice(b)) => a.same_as(b),
            (DataKey::Payment(a), DataKey::Payment(b)) => a.same_as(b),
            (DataKey::InvoiceCounter, DataKey::InvoiceCounter) => true,
            _ => false,
        }
    }
}

impl Clone for DataKey {
    fn clone(&self) -> (copy: Self)
        ensures
            copy@ == self@,
    {
        match self {
            DataKey::Invoice(id) => DataKey::Invoice(id.clone()),
            DataKey::Payment(id) => DataKey::Payment(id.clone()),
            DataKey::InvoiceCounter => DataKey::InvoiceCounter,
        }
    }
}

/// A value of the store.
#[derive(Debug, PartialEq, Eq)]
pub enum Record {
    Invoice(Invoice),
    Payment(Payment),
}

/// A [`Record`] as plain values.
pub enum RecordView {
    Invoice(InvoiceView),
    Payment(PaymentView),
}

impl View for Record {
    type V = RecordView;

    open spec fn view(&self) -> RecordView {
        match self {
            Record::Invoice(invoice) => RecordView::Invoice(invoice@),
            Record::Payment(payment) => RecordView::Payment(payment@),
        }
    }
}

impl Clone for Record {
    fn clone(&self) -> (copy: Self)
        ensures
            copy@ == self@,
    {
        match self {
            Record::Invoice(invoice) => Record::Invoice(invoice.clone()),
            Record::Payment(payment) => Record::Payment(payment.clone()),
        }
    }
}

struct Entry {
    key: DataKey,
    record: Record,
}

/// Whether some entry has the key `key`.
spec fn holds(entries: Seq<Entry>, key: DataKeyView) -> bool {
    exists|i: int| 0 <= i < entries.len() && #[trigger] entries[i].key@ == key
}

/// The place of an entry with the key `key`.
spec fn slot(entries: Seq<Entry>, key: DataKeyView) -> int {
    choose|i: int| 0 <= i < entries.len() && #[trigger] entries[i].key@ == key
}

/// Whether no two entries have the same key.
spec fn distinct(entries: Seq<Entry>) -> bool {
    forall|i: int, j: int|
        0 <= i < j < entries.len() ==> #[trigger] entries[i].key@ != #[trigger] entries[j].key@
}

/// Where keys are distinct, the place of a key is the place of its entry.
proof fn lemma_slot(entries: Seq<Entry>, i: int)
    requires
        distinct(entries),
        0 <= i < entries.len(),
    ensures
        holds(entries, entries[i].key@),
        slot(entries, entries[i].key@) == i,
{
    let j = slot(entries, entries[i].key@);
    assert(entries[j].key@ == entries[i].key@);
}

/// A store of records by key. Its view is the map from each key that was set
/// to the record it was last set to.
pub struct Store {
    entries: Vec<Entry>,
}

impl View for Store {
    type V = Map<DataKeyView, RecordView>;

    closed spec fn view(&self) -> Map<DataKeyView, RecordView> {
        Map::new(
            |key: DataKeyView| holds(self.entries@, key),
            |key: DataKeyView| self.entries@[slot(self.entries@, key)].record@,
        )
    }
}

impl Store {
    #[verifier::type_invariant]
    spec fn keys_distinct(&self) -> bool {
        distinct(self.entries@)
    }

    /// A store that holds nothing.
    pub fn new() -> (store: Store)
        ensures
            store@ == Map::<DataKeyView, RecordView>::empty(),
    {
        let store = Store { entries: Vec::new() };
        assert(store@ =~= Map::<DataKeyView, RecordView>::empty());
        store
    }

    fn position(&self, key: &DataKey) -> (found: Option<usize>)
        ensures
            match found {
                Some(i) => i < self.entries@.len() && self.entries@[i as int].key@ == key@,
                None => !holds(self.entries@, key@),
            },
    {
        let mut i: usize = 0;
        while i < self.entries.len()
            invariant
                i <= self.entries@.len(),
                forall|j: int| 0 <= j < i ==> #[trigger] self.entries@[j].key@ != key@,
            decreases self.entries@.len() - i,
        {
            if self.entries[i].key.same_as(key) {
                return Some(i);
            }
            i += 1;
        }
        None
    }

    /// Whether a record is held under `key`.
    pub fn has(&self, key: &DataKey) -> (held: bool)
        ensures
            held == self@.contains_key(key@),
    {
        self.position(key).is_some()
    }

    /// The record held under `key`, if there is one.
    pub fn get(&self, key: &DataKey) -> (record: Option<&Record>)
        ensures
            match record {
                Some(r) => self@.contains_key(key@) && self@[key@] == r@,
                None => !self@.contains_key(key@),
            },
    {
        match self.position(key) {
            Some(i) => {
                proof {
                    use_type_invariant(self);
                    lemma_slot(self.entries@, i as int);
                }
                Some(&self.entries[i].record)
            },
            None => None,
        }
    }

    /// Holds `record` under `key`, in place of what was held there.
    pub fn set(&mut self, key: DataKey, record: Record)
        ensures
            final(self)@ == old(self)@.insert(key@, record@),
    {
        proof {
            use_type_invariant(&*self);
        }
        let ghost k = key@;
        let ghost r = record@;
        let ghost before = self.entries@;
        let ghost at: int;
        let found = self.position(&key);
        let mut entries: Vec<Entry> = Vec::new();
        core::mem::swap(&mut self.entries, &mut entries);
        match found {
            Some(i) => {
                proof {
                    at = i as int;
                }
                entries.set(i, Entry { key, record });
            },
            None => {
                proof {
                    at = entries@.len() as int;
                }
                entries.push(Entry { key, record });
            },
        }
        proof {
            let after = entries@;
            assert(after[at].key@ == k && after[at].record@ == r);
            assert(distinct(after)) by {
                assert forall|i: int, j: int| 0 <= i < j < after.len() implies #[trigger] after[i].key@
                    != #[trigger] after[j].key@ by {
                    if i != at && j != at {
                        assert(before[i].key@ != before[j].key@);
                    } else if i == at && at < before.len() {
                        assert(before[i].key@ != before[j].key@);
                    } else if j == at && at < before.len() {
                        assert(before[i].key@ != before[j].key@);
                    } else {
                        assert(after[i].key@ == before[i].key@);
                    }
                }
            }
        }
        self.entries = entries;
        proof {
            let after = self.entries@;
            let target = old(self)@.insert(k, r);
            assert forall|q: DataKeyView| self@.contains_key(q) == target.contains_key(q) by {
                if holds(after, q) {
                    let j = slot(after, q);
                    if j != at {
                        assert(before[j].key@ == q);
                    }
                }
                if q != k && holds(before, q) {
                    let j = slot(before, q);
                    assert(after[j].key@ == q);
                }
            }
            assert forall|q: DataKeyView| self@.contains_key(q) implies self@[q] == target[q] by {
                let j = slot(after, q);
                lemma_slot(after, j);
                if q != k {
                    assert(before[j].key@ == q);
                    lemma_slot(before, j);
                } else {
                    lemma_slot(after, at);
                }
            }
            assert(self@ =~= target);
        }
    }
}

} // verus!
