//! The engine on plain values: boundaries, every refusal, and what each
//! operation leaves behind.

use checkout::bytes::{append_be, append_bytes, bytes_equal, copy_bytes};
use checkout::contract::{CheckoutContract, Event, Transfer};
use checkout::digest::{sha256, DIGEST_INPUT_MAX, DIGEST_LEN};
use checkout::identity::{Identity, InvoiceId, IDENTITY_MAX_LEN, INVOICE_ID_LEN};
use checkout::invoice::{check_terms, Invoice, Payment, MAX_VALIDITY, MIN_VALIDITY};
use checkout::naming::{generate_invoice_id, invoice_id_preimage};
use checkout::store::{DataKey, Record, Store};
use checkout::types::{Error, InvoiceStatus};

const NOW: u64 = 1_700_000_000;
const UNIT: i128 = 10_000_000;

fn party(tag: u8) -> Identity {
    Identity::from_bytes(vec![tag; 40]).unwrap()
}

fn merchant() -> Identity {
    party(1)
}

fn payer() -> Identity {
    party(2)
}

fn usdc() -> Identity {
    party(9)
}

fn fresh() -> CheckoutContract {
    let mut contract = CheckoutContract::new();
    contract.initialize(usdc());
    contract
}

fn with_open_invoice(amount: i128, validity: u64) -> (CheckoutContract, InvoiceId) {
    let mut contract = fresh();
    let id = contract
        .create_invoice(merchant(), amount, NOW + validity, NOW, 1)
        .unwrap();
    (contract, id)
}

fn with_paid_invoice() -> (CheckoutContract, InvoiceId) {
    let (mut contract, id) = with_open_invoice(UNIT, 600);
    contract.pay(&id, payer(), UNIT, NOW + 10).unwrap();
    (contract, id)
}

fn sample_invoice(id: InvoiceId, status: InvoiceStatus, payer: Option<Identity>) -> Invoice {
    Invoice {
        id,
        merchant: merchant(),
        amount: UNIT,
        expiry: NOW + 600,
        status,
        created_at: NOW,
        payer,
    }
}

#[test]
fn sha256_of_abc_is_the_known_digest() {
    let digest = sha256(&b"abc".to_vec()).unwrap();
    assert_eq!(
        digest,
        vec![
            186, 120, 22, 191, 143, 1, 207, 234, 65, 65, 64, 222, 93, 174, 34, 35, 176, 3, 97,
            163, 150, 23, 122, 156, 180, 16, 255, 97, 242, 0, 21, 173
        ]
    );
}

#[test]
fn sha256_of_nothing_is_the_known_digest() {
    let digest = sha256(&Vec::new()).unwrap();
    assert_eq!(digest.len(), DIGEST_LEN);
    assert_eq!(
        digest,
        vec![
            227, 176, 196, 66, 152, 252, 28, 20, 154, 251, 244, 200, 153, 111, 185, 36, 39, 174,
            65, 228, 100, 155, 147, 76, 164, 149, 153, 27, 120, 82, 184, 85
        ]
    );
}

#[test]
fn sha256_takes_input_up_to_the_limit_and_no_more() {
    assert!(sha256(&vec![0u8; DIGEST_INPUT_MAX]).is_some());
    assert!(sha256(&vec![0u8; DIGEST_INPUT_MAX + 1]).is_none());
}

#[test]
fn sha256_gives_the_same_digest_twice() {
    let data = vec![7u8; 100];
    assert_eq!(sha256(&data), sha256(&data));
}

#[test]
fn big_endian_digits_are_most_significant_first() {
    let mut out = vec![0xFFu8];
    append_be(&mut out, 0x0102030405060708, 8);
    assert_eq!(out, vec![0xFF, 1, 2, 3, 4, 5, 6, 7, 8]);

    let mut out = Vec::new();
    append_be(&mut out, 0x0A0B0C0D, 4);
    assert_eq!(out, vec![0x0A, 0x0B, 0x0C, 0x0D]);

    let mut out = Vec::new();
    append_be(&mut out, u64::MAX, 8);
    assert_eq!(out, vec![255u8; 8]);

    let mut out = Vec::new();
    append_be(&mut out, 0x0102, 1);
    assert_eq!(out, vec![2]);

    let mut out = vec![5u8];
    append_be(&mut out, 77, 0);
    assert_eq!(out, vec![5]);
}

#[test]
fn byte_strings_compare_and_copy() {
    let a = vec![1u8, 2, 3];
    assert!(bytes_equal(&a, &vec![1, 2, 3]));
    assert!(!bytes_equal(&a, &vec![1, 2, 4]));
    assert!(!bytes_equal(&a, &vec![1, 2]));
    assert!(bytes_equal(&Vec::new(), &Vec::new()));
    assert_eq!(copy_bytes(&a), a);

    let mut joined = vec![9u8];
    append_bytes(&mut joined, &a);
    assert_eq!(joined, vec![9, 1, 2, 3]);
}

#[test]
fn preimage_is_identity_then_timestamp_then_sequence() {
    let merchant = Identity::from_bytes(vec![1, 2, 3]).unwrap();
    assert_eq!(
        invoice_id_preimage(&merchant, 1_700_000_000, 42),
        vec![1, 2, 3, 0, 0, 0, 0, 101, 83, 241, 0, 0, 0, 0, 42]
    );
}

#[test]
fn invoice_id_is_the_digest_of_the_preimage() {
    let merchant = Identity::from_bytes(vec![1, 2, 3]).unwrap();
    let id = generate_invoice_id(&merchant, 1_700_000_000, 42);
    assert_eq!(
        id.as_bytes(),
        &vec![
            180, 39, 184, 219, 173, 49, 234, 148, 0, 61, 130, 198, 109, 40, 85, 41, 21, 9, 90, 49,
            137, 205, 0, 160, 80, 95, 246, 218, 82, 68, 127, 150
        ]
    );

    let merchant = Identity::from_bytes(vec![0xAB; 40]).unwrap();
    let id = generate_invoice_id(&merchant, 0x0102030405060708, 0x0A0B0C0D);
    assert_eq!(
        id.as_bytes(),
        &vec![
            63, 110, 243, 192, 253, 19, 31, 228, 136, 152, 213, 66, 179, 30, 137, 15, 253, 13,
            240, 247, 53, 184, 190, 127, 113, 86, 34, 107, 75, 134, 129, 210
        ]
    );
    assert_eq!(id.len(), INVOICE_ID_LEN);
}

#[test]
fn invoice_id_is_reproducible() {
    assert_eq!(
        generate_invoice_id(&merchant(), NOW, 5),
        generate_invoice_id(&merchant(), NOW, 5)
    );
}

#[test]
fn different_sequence_numbers_give_different_ids() {
    let first = generate_invoice_id(&merchant(), NOW, 1);
    let second = generate_invoice_id(&merchant(), NOW, 2);
    assert_ne!(first, second);
    assert_ne!(
        invoice_id_preimage(&merchant(), NOW, 1),
        invoice_id_preimage(&merchant(), NOW, 2)
    );
}

#[test]
fn different_merchants_and_timestamps_give_different_ids() {
    assert_ne!(
        generate_invoice_id(&merchant(), NOW, 1),
        generate_invoice_id(&payer(), NOW, 1)
    );
    assert_ne!(
        generate_invoice_id(&merchant(), NOW, 1),
        generate_invoice_id(&merchant(), NOW + 1, 1)
    );
}

#[test]
fn two_invoices_of_one_merchant_at_one_time_are_kept_apart() {
    let mut contract = fresh();
    let first = contract
        .create_invoice(merchant(), UNIT, NOW + 600, NOW, 1)
        .unwrap();
    let second = contract
        .create_invoice(merchant(), 2 * UNIT, NOW + 900, NOW, 2)
        .unwrap();
    assert_ne!(first, second);
    assert_eq!(contract.get_invoice(&first).unwrap().amount, UNIT);
    assert_eq!(contract.get_invoice(&first).unwrap().expiry, NOW + 600);
    assert_eq!(contract.get_invoice(&second).unwrap().amount, 2 * UNIT);
    assert_eq!(contract.get_invoice(&second).unwrap().expiry, NOW + 900);
    assert_eq!(contract.get_invoice(&first).unwrap().id, first);
    assert_eq!(contract.get_invoice(&second).unwrap().id, second);
}

#[test]
fn the_payment_on_record_names_the_invoice_asked_for() {
    let (mut contract, id) = with_open_invoice(UNIT, 600);
    contract.pay(&id, payer(), UNIT, NOW + 10).unwrap();
    let payment = contract.get_payment(&id).unwrap();
    assert_eq!(payment.invoice_id, id);
    assert_eq!(payment.payer, payer());
    assert_eq!(payment.amount, UNIT);
    assert_eq!(payment.timestamp, NOW + 10);
}

#[test]
fn identity_accepts_up_to_the_limit() {
    assert!(Identity::from_bytes(Vec::new()).is_some());
    let longest = Identity::from_bytes(vec![3u8; IDENTITY_MAX_LEN]).unwrap();
    assert_eq!(longest.len(), IDENTITY_MAX_LEN);
    assert_eq!(longest.as_bytes(), &vec![3u8; IDENTITY_MAX_LEN]);
    assert!(Identity::from_bytes(vec![3u8; IDENTITY_MAX_LEN + 1]).is_none());
}

#[test]
fn identities_are_equal_when_their_bytes_are() {
    let a = Identity::from_bytes(vec![1, 2, 3]).unwrap();
    let b = Identity::from_bytes(vec![1, 2, 3]).unwrap();
    let c = Identity::from_bytes(vec![1, 2, 4]).unwrap();
    let d = Identity::from_bytes(vec![1, 2]).unwrap();
    assert!(a.same_as(&b));
    assert!(!a.same_as(&c));
    assert!(!a.same_as(&d));
    assert_eq!(a, b);
    assert_ne!(a, c);
    assert_eq!(a.clone(), a);
}

#[test]
fn invoice_id_is_exactly_32_bytes() {
    assert_eq!(INVOICE_ID_LEN, 32);
    assert!(InvoiceId::from_bytes(vec![0u8; 31]).is_none());
    assert!(InvoiceId::from_bytes(vec![0u8; 33]).is_none());
    assert!(InvoiceId::from_bytes(Vec::new()).is_none());
    let id = InvoiceId::from_bytes(vec![4u8; 32]).unwrap();
    assert_eq!(id.len(), 32);
    assert_eq!(id, InvoiceId::from_array([4u8; 32]));
    assert_ne!(id, InvoiceId::from_array([5u8; 32]));
    assert!(id.same_as(&id.clone()));
    assert_eq!(id.as_bytes(), &vec![4u8; 32]);
}

#[test]
fn error_codes_are_stable() {
    let all = [
        (Error::AlreadyInitialized, 1),
        (Error::NotInitialized, 2),
        (Error::UnauthorizedAccess, 3),
        (Error::InvoiceNotFound, 4),
        (Error::InvalidAmount, 5),
        (Error::InvoiceExpired, 6),
        (Error::InvoiceAlreadyPaid, 7),
        (Error::InvalidExpiry, 8),
        (Error::InvoiceNotOpen, 9),
        (Error::AmountMismatch, 10),
        (Error::Unauthorized, 11),
    ];
    for (error, code) in all {
        assert_eq!(error.code(), code);
        assert_eq!(Error::from_code(code), Some(error));
    }
    assert_eq!(Error::from_code(0), None);
    assert_eq!(Error::from_code(12), None);
    assert_eq!(Error::from_code(u32::MAX), None);
}

#[test]
fn status_codes_are_stable() {
    let all = [
        (InvoiceStatus::Open, 0),
        (InvoiceStatus::Paid, 1),
        (InvoiceStatus::Refunded, 2),
        (InvoiceStatus::Expired, 3),
    ];
    for (status, code) in all {
        assert_eq!(status.code(), code);
        assert_eq!(InvoiceStatus::from_code(code), Some(status));
    }
    assert_eq!(InvoiceStatus::from_code(4), None);
}

#[test]
fn terms_need_a_positive_amount() {
    assert_eq!(check_terms(0, NOW + 600, NOW), Err(Error::InvalidAmount));
    assert_eq!(check_terms(-1, NOW + 600, NOW), Err(Error::InvalidAmount));
    assert_eq!(
        check_terms(i128::MIN, NOW + 600, NOW),
        Err(Error::InvalidAmount)
    );
    assert_eq!(check_terms(1, NOW + 600, NOW), Ok(()));
    assert_eq!(check_terms(i128::MAX, NOW + 600, NOW), Ok(()));
}

#[test]
fn amount_is_looked_at_before_expiry() {
    assert_eq!(check_terms(0, NOW, NOW), Err(Error::InvalidAmount));
    assert_eq!(check_terms(-5, NOW + 7200, NOW), Err(Error::InvalidAmount));
}

#[test]
fn expiry_window_has_both_ends() {
    assert_eq!((MIN_VALIDITY, MAX_VALIDITY), (300, 3600));
    assert_eq!(check_terms(UNIT, NOW + 299, NOW), Err(Error::InvalidExpiry));
    assert_eq!(check_terms(UNIT, NOW + 300, NOW), Ok(()));
    assert_eq!(check_terms(UNIT, NOW + 3600, NOW), Ok(()));
    assert_eq!(check_terms(UNIT, NOW + 3601, NOW), Err(Error::InvalidExpiry));
    assert_eq!(check_terms(UNIT, NOW, NOW), Err(Error::InvalidExpiry));
    assert_eq!(check_terms(UNIT, NOW - 1, NOW), Err(Error::InvalidExpiry));
    assert_eq!(check_terms(UNIT, 0, NOW), Err(Error::InvalidExpiry));
    assert_eq!(check_terms(UNIT, u64::MAX, NOW), Err(Error::InvalidExpiry));
}

#[test]
fn expiry_window_at_the_end_of_time() {
    let late = u64::MAX - 300;
    assert_eq!(check_terms(UNIT, u64::MAX, late), Ok(()));
    assert_eq!(
        check_terms(UNIT, u64::MAX - 1, late),
        Err(Error::InvalidExpiry)
    );
    assert_eq!(
        check_terms(UNIT, u64::MAX, late + 1),
        Err(Error::InvalidExpiry)
    );
    assert_eq!(
        check_terms(UNIT, u64::MAX, u64::MAX),
        Err(Error::InvalidExpiry)
    );
    assert_eq!(check_terms(UNIT, u64::MAX, u64::MAX - 3600), Ok(()));
    assert_eq!(
        check_terms(UNIT, u64::MAX, u64::MAX - 3601),
        Err(Error::InvalidExpiry)
    );
}

#[test]
fn create_invoice_refuses_boundaries_as_the_terms_do() {
    let mut contract = fresh();
    assert_eq!(
        contract.create_invoice(merchant(), UNIT, NOW + 299, NOW, 1),
        Err(Error::InvalidExpiry)
    );
    assert_eq!(
        contract.create_invoice(merchant(), UNIT, NOW + 3601, NOW, 2),
        Err(Error::InvalidExpiry)
    );
    assert_eq!(
        contract.create_invoice(merchant(), 0, NOW + 600, NOW, 3),
        Err(Error::InvalidAmount)
    );
    assert_eq!(
        contract.create_invoice(merchant(), -UNIT, NOW + 600, NOW, 4),
        Err(Error::InvalidAmount)
    );
    assert!(contract.events().is_empty());
    assert!(contract
        .create_invoice(merchant(), UNIT, NOW + 300, NOW, 5)
        .is_ok());
    assert!(contract
        .create_invoice(merchant(), UNIT, NOW + 3600, NOW, 6)
        .is_ok());
    assert_eq!(contract.events().len(), 2);
}

#[test]
fn a_refused_invoice_is_not_stored() {
    let mut contract = fresh();
    assert!(contract
        .create_invoice(merchant(), 0, NOW + 600, NOW, 1)
        .is_err());
    let id = generate_invoice_id(&merchant(), NOW, 1);
    assert_eq!(contract.get_invoice(&id), None);
    assert_eq!(contract.get_invoice_status(&id), None);
}

#[test]
fn a_new_invoice_reads_back_as_opened() {
    let (contract, id) = with_open_invoice(UNIT, 600);
    assert_eq!(id, generate_invoice_id(&merchant(), NOW, 1));
    assert_eq!(
        contract.get_invoice(&id),
        Some(Invoice {
            id: id.clone(),
            merchant: merchant(),
            amount: UNIT,
            expiry: NOW + 600,
            status: InvoiceStatus::Open,
            created_at: NOW,
            payer: None,
        })
    );
    assert_eq!(contract.get_invoice_status(&id), Some(InvoiceStatus::Open));
    assert_eq!(contract.get_payment(&id), None);
}

#[test]
fn a_new_invoice_publishes_a_created_event() {
    let (contract, id) = with_open_invoice(UNIT, 600);
    assert_eq!(
        contract.events(),
        &vec![Event::Created {
            merchant: merchant(),
            invoice_id: id,
            amount: UNIT,
            expiry: NOW + 600,
        }]
    );
}

#[test]
fn an_accepted_payment_orders_the_transfer_to_the_merchant() {
    let (mut contract, id) = with_open_invoice(UNIT, 600);
    assert_eq!(
        contract.pay(&id, payer(), UNIT, NOW + 10),
        Ok(Transfer {
            from: payer(),
            to: merchant(),
            amount: UNIT,
        })
    );
    assert_eq!(
        contract.get_invoice(&id),
        Some(sample_invoice(
            id.clone(),
            InvoiceStatus::Paid,
            Some(payer())
        ))
    );
    assert_eq!(
        contract.get_payment(&id),
        Some(Payment {
            invoice_id: id.clone(),
            payer: payer(),
            amount: UNIT,
            timestamp: NOW + 10,
        })
    );
    assert_eq!(
        contract.events().last(),
        Some(&Event::Paid {
            merchant: merchant(),
            invoice_id: id,
            payer: payer(),
            amount: UNIT,
        })
    );
    assert_eq!(contract.events().len(), 2);
}

#[test]
fn payment_at_the_very_expiry_is_accepted() {
    let (mut contract, id) = with_open_invoice(UNIT, 300);
    assert!(contract.pay(&id, payer(), UNIT, NOW + 300).is_ok());
    assert_eq!(contract.get_invoice_status(&id), Some(InvoiceStatus::Paid));
}

#[test]
fn payment_a_second_after_expiry_expires_the_invoice() {
    let (mut contract, id) = with_open_invoice(UNIT, 300);
    assert_eq!(
        contract.pay(&id, payer(), UNIT, NOW + 301),
        Err(Error::InvoiceExpired)
    );
    assert_eq!(
        contract.get_invoice_status(&id),
        Some(InvoiceStatus::Expired)
    );
    assert_eq!(contract.get_invoice(&id).unwrap().payer, None);
    assert_eq!(contract.get_payment(&id), None);
    assert_eq!(contract.events().len(), 1);
}

#[test]
fn an_expired_invoice_stays_expired() {
    let (mut contract, id) = with_open_invoice(UNIT, 300);
    assert_eq!(
        contract.pay(&id, payer(), UNIT, NOW + 301),
        Err(Error::InvoiceExpired)
    );
    assert_eq!(
        contract.pay(&id, payer(), UNIT, NOW + 100),
        Err(Error::InvoiceNotOpen)
    );
    assert_eq!(
        contract.refund(&id, merchant(), UNIT),
        Err(Error::InvoiceNotOpen)
    );
    assert_eq!(
        contract.get_invoice_status(&id),
        Some(InvoiceStatus::Expired)
    );
}

#[test]
fn expiry_is_looked_at_before_the_amount() {
    let (mut contract, id) = with_open_invoice(UNIT, 300);
    assert_eq!(
        contract.pay(&id, payer(), UNIT / 2, NOW + 301),
        Err(Error::InvoiceExpired)
    );
    assert_eq!(
        contract.get_invoice_status(&id),
        Some(InvoiceStatus::Expired)
    );
}

#[test]
fn an_unpaid_invoice_stays_open_until_touched() {
    let (contract, id) = with_open_invoice(UNIT, 300);
    assert_eq!(contract.get_invoice_status(&id), Some(InvoiceStatus::Open));
    assert_eq!(
        contract.get_invoice(&id).unwrap().status,
        InvoiceStatus::Open
    );
}

#[test]
fn a_wrong_amount_changes_nothing() {
    let (mut contract, id) = with_open_invoice(UNIT, 600);
    let before = contract.get_invoice(&id);
    assert_eq!(
        contract.pay(&id, payer(), UNIT / 2, NOW + 10),
        Err(Error::AmountMismatch)
    );
    assert_eq!(
        contract.pay(&id, payer(), UNIT + 1, NOW + 10),
        Err(Error::AmountMismatch)
    );
    assert_eq!(
        contract.pay(&id, payer(), -UNIT, NOW + 10),
        Err(Error::AmountMismatch)
    );
    assert_eq!(contract.get_invoice(&id), before);
    assert_eq!(contract.get_payment(&id), None);
    assert_eq!(contract.events().len(), 1);
    assert!(contract.pay(&id, payer(), UNIT, NOW + 10).is_ok());
}

#[test]
fn an_invoice_is_paid_once() {
    let (mut contract, id) = with_paid_invoice();
    let payment = contract.get_payment(&id);
    assert_eq!(
        contract.pay(&id, payer(), UNIT, NOW + 20),
        Err(Error::InvoiceNotOpen)
    );
    assert_eq!(
        contract.pay(&id, party(3), UNIT, NOW + 20),
        Err(Error::InvoiceNotOpen)
    );
    assert_eq!(contract.get_payment(&id), payment);
    assert_eq!(contract.get_invoice(&id).unwrap().payer, Some(payer()));
}

#[test]
fn an_unknown_invoice_is_not_found() {
    let mut contract = fresh();
    let unknown = InvoiceId::from_array([0u8; 32]);
    assert_eq!(
        contract.pay(&unknown, payer(), UNIT, NOW),
        Err(Error::InvoiceNotFound)
    );
    assert_eq!(
        contract.refund(&unknown, merchant(), UNIT),
        Err(Error::InvoiceNotFound)
    );
    assert_eq!(contract.get_invoice(&unknown), None);
    assert_eq!(contract.get_payment(&unknown), None);
    assert_eq!(contract.get_invoice_status(&unknown), None);
    assert!(contract.events().is_empty());
}

#[test]
fn a_refund_orders_the_transfer_back_to_the_payer() {
    let (mut contract, id) = with_paid_invoice();
    let payment = contract.get_payment(&id);
    assert_eq!(
        contract.refund(&id, merchant(), UNIT),
        Ok(Transfer {
            from: merchant(),
            to: payer(),
            amount: UNIT,
        })
    );
    assert_eq!(
        contract.get_invoice(&id),
        Some(sample_invoice(
            id.clone(),
            InvoiceStatus::Refunded,
            Some(payer())
        ))
    );
    assert_eq!(contract.get_payment(&id), payment);
    assert_eq!(
        contract.events().last(),
        Some(&Event::Refunded {
            merchant: merchant(),
            invoice_id: id,
            payer: payer(),
            amount: UNIT,
        })
    );
    assert_eq!(contract.events().len(), 3);
}

#[test]
fn a_refund_is_given_once() {
    let (mut contract, id) = with_paid_invoice();
    assert!(contract.refund(&id, merchant(), UNIT).is_ok());
    assert_eq!(
        contract.refund(&id, merchant(), UNIT),
        Err(Error::InvoiceNotOpen)
    );
    assert_eq!(
        contract.pay(&id, payer(), UNIT, NOW + 20),
        Err(Error::InvoiceNotOpen)
    );
    assert_eq!(
        contract.get_invoice_status(&id),
        Some(InvoiceStatus::Refunded)
    );
}

#[test]
fn a_refund_has_no_deadline() {
    let (mut contract, id) = with_paid_invoice();
    assert_eq!(
        contract.pay(&id, payer(), UNIT, NOW + 100_000),
        Err(Error::InvoiceNotOpen)
    );
    assert!(contract.refund(&id, merchant(), UNIT).is_ok());
}

#[test]
fn only_the_merchant_refunds() {
    let (mut contract, id) = with_paid_invoice();
    let before = contract.get_invoice(&id);
    assert_eq!(
        contract.refund(&id, party(3), UNIT),
        Err(Error::Unauthorized)
    );
    assert_eq!(
        contract.refund(&id, payer(), UNIT),
        Err(Error::Unauthorized)
    );
    assert_eq!(contract.get_invoice(&id), before);
    assert_eq!(contract.get_invoice_status(&id), Some(InvoiceStatus::Paid));
}

#[test]
fn the_merchant_is_looked_at_before_the_status() {
    let (mut contract, id) = with_open_invoice(UNIT, 600);
    assert_eq!(
        contract.refund(&id, party(3), UNIT),
        Err(Error::Unauthorized)
    );
    assert_eq!(
        contract.refund(&id, merchant(), UNIT),
        Err(Error::InvoiceNotOpen)
    );
    assert_eq!(contract.get_invoice_status(&id), Some(InvoiceStatus::Open));
}

#[test]
fn a_partial_refund_is_refused() {
    let (mut contract, id) = with_paid_invoice();
    assert_eq!(
        contract.refund(&id, merchant(), UNIT - 1),
        Err(Error::AmountMismatch)
    );
    assert_eq!(
        contract.refund(&id, merchant(), UNIT + 1),
        Err(Error::AmountMismatch)
    );
    assert_eq!(
        contract.refund(&id, merchant(), 0),
        Err(Error::AmountMismatch)
    );
    assert_eq!(contract.get_invoice_status(&id), Some(InvoiceStatus::Paid));
    assert_eq!(contract.events().len(), 2);
}

#[test]
fn a_paid_invoice_without_a_payment_on_record_is_not_refunded() {
    let id = InvoiceId::from_array([7u8; 32]);
    let paid = sample_invoice(id.clone(), InvoiceStatus::Paid, Some(payer()));
    let mut contract = CheckoutContract::restore(Some(usdc()), vec![Record::Invoice(paid.clone())]);
    assert_eq!(
        contract.refund(&id, merchant(), UNIT),
        Err(Error::InvoiceNotFound)
    );
    assert_eq!(contract.get_invoice(&id), Some(paid));
}

#[test]
fn the_token_contract_is_set_once() {
    let mut contract = CheckoutContract::new();
    assert_eq!(contract.get_usdc_address(), None);
    contract.initialize(usdc());
    assert_eq!(contract.get_usdc_address(), Some(usdc()));
    contract.initialize(party(8));
    assert_eq!(contract.get_usdc_address(), Some(usdc()));
    contract.initialize(usdc());
    assert_eq!(contract.get_usdc_address(), Some(usdc()));
}

#[test]
fn a_restored_token_contract_is_not_replaced() {
    let mut contract = CheckoutContract::restore(Some(usdc()), Vec::new());
    contract.initialize(party(8));
    assert_eq!(contract.get_usdc_address(), Some(usdc()));

    let mut contract = CheckoutContract::restore(None, Vec::new());
    contract.initialize(party(8));
    assert_eq!(contract.get_usdc_address(), Some(party(8)));
}

#[test]
fn the_token_contract_stays_through_the_life_of_an_invoice() {
    let (mut contract, id) = with_open_invoice(UNIT, 600);
    contract.pay(&id, payer(), UNIT, NOW + 10).unwrap();
    contract.initialize(party(8));
    contract.refund(&id, merchant(), UNIT).unwrap();
    assert_eq!(contract.get_usdc_address(), Some(usdc()));
}

#[test]
fn setting_the_token_contract_keeps_the_invoices() {
    let mut contract = CheckoutContract::new();
    let id = contract
        .create_invoice(merchant(), UNIT, NOW + 600, NOW, 1)
        .unwrap();
    let before = contract.get_invoice(&id);
    contract.initialize(party(8));
    assert_eq!(contract.get_usdc_address(), Some(party(8)));
    assert_eq!(contract.get_invoice(&id), before);
    assert_eq!(contract.events().len(), 1);
}

#[test]
fn payment_is_decided_without_a_token_contract() {
    let mut contract = CheckoutContract::new();
    let id = contract
        .create_invoice(merchant(), UNIT, NOW + 600, NOW, 1)
        .unwrap();
    assert!(contract.pay(&id, payer(), UNIT, NOW).is_ok());
    assert_eq!(contract.get_usdc_address(), None);
}

#[test]
fn a_reused_identifier_replaces_the_invoice() {
    let (mut contract, id) = with_paid_invoice();
    let again = contract
        .create_invoice(merchant(), 3 * UNIT, NOW + 900, NOW, 1)
        .unwrap();
    assert_eq!(again, id);
    let invoice = contract.get_invoice(&id).unwrap();
    assert_eq!(invoice.status, InvoiceStatus::Open);
    assert_eq!(invoice.amount, 3 * UNIT);
    assert_eq!(invoice.payer, None);
}

#[test]
fn restored_records_are_found_under_their_own_keys() {
    let first = InvoiceId::from_array([1u8; 32]);
    let second = InvoiceId::from_array([2u8; 32]);
    let payment = Payment {
        invoice_id: first.clone(),
        payer: payer(),
        amount: UNIT,
        timestamp: NOW + 5,
    };
    let contract = CheckoutContract::restore(
        None,
        vec![
            Record::Invoice(sample_invoice(first.clone(), InvoiceStatus::Open, None)),
            Record::Payment(payment.clone()),
            Record::Invoice(sample_invoice(second.clone(), InvoiceStatus::Open, None)),
            Record::Invoice(sample_invoice(
                first.clone(),
                InvoiceStatus::Paid,
                Some(payer()),
            )),
        ],
    );
    assert_eq!(contract.get_invoice_status(&first), Some(InvoiceStatus::Paid));
    assert_eq!(contract.get_invoice_status(&second), Some(InvoiceStatus::Open));
    assert_eq!(contract.get_payment(&first), Some(payment));
    assert_eq!(contract.get_payment(&second), None);
    assert_eq!(contract.get_usdc_address(), None);
    assert!(contract.events().is_empty());
}

#[test]
fn a_restored_contract_goes_on_where_the_first_left_off() {
    let (first, id) = with_open_invoice(UNIT, 600);
    let held = vec![Record::Invoice(first.get_invoice(&id).unwrap())];
    let mut second = CheckoutContract::restore(first.get_usdc_address(), held);
    assert!(second.pay(&id, payer(), UNIT, NOW + 10).is_ok());

    let held = vec![
        Record::Invoice(second.get_invoice(&id).unwrap()),
        Record::Payment(second.get_payment(&id).unwrap()),
    ];
    let mut third = CheckoutContract::restore(second.get_usdc_address(), held);
    assert_eq!(
        third.refund(&id, merchant(), UNIT),
        Ok(Transfer {
            from: merchant(),
            to: payer(),
            amount: UNIT,
        })
    );
    assert_eq!(
        third.get_invoice_status(&id),
        Some(InvoiceStatus::Refunded)
    );
}

#[test]
fn settle_moves_an_open_invoice_to_paid() {
    let id = InvoiceId::from_array([7u8; 32]);
    let mut invoice = sample_invoice(id.clone(), InvoiceStatus::Open, None);
    assert_eq!(
        invoice.settle(payer(), UNIT, NOW + 600),
        Ok(Payment {
            invoice_id: id.clone(),
            payer: payer(),
            amount: UNIT,
            timestamp: NOW + 600,
        })
    );
    assert_eq!(
        invoice,
        sample_invoice(id, InvoiceStatus::Paid, Some(payer()))
    );
}

#[test]
fn settle_refuses_in_order() {
    let id = InvoiceId::from_array([7u8; 32]);
    for status in [
        InvoiceStatus::Paid,
        InvoiceStatus::Refunded,
        InvoiceStatus::Expired,
    ] {
        let mut invoice = sample_invoice(id.clone(), status, None);
        assert_eq!(
            invoice.settle(payer(), UNIT + 1, NOW + 601),
            Err(Error::InvoiceNotOpen)
        );
        assert_eq!(invoice.status, status);
    }
    let mut invoice = sample_invoice(id.clone(), InvoiceStatus::Open, None);
    assert_eq!(
        invoice.settle(payer(), UNIT + 1, NOW + 601),
        Err(Error::InvoiceExpired)
    );
    assert_eq!(invoice, sample_invoice(id.clone(), InvoiceStatus::Expired, None));

    let mut invoice = sample_invoice(id.clone(), InvoiceStatus::Open, None);
    assert_eq!(
        invoice.settle(payer(), UNIT + 1, NOW + 600),
        Err(Error::AmountMismatch)
    );
    assert_eq!(invoice, sample_invoice(id, InvoiceStatus::Open, None));
}

#[test]
fn refund_of_a_record_refuses_in_order() {
    let id = InvoiceId::from_array([7u8; 32]);
    let payment = Payment {
        invoice_id: id.clone(),
        payer: payer(),
        amount: UNIT,
        timestamp: NOW,
    };
    let paid = sample_invoice(id.clone(), InvoiceStatus::Paid, Some(payer()));

    let mut invoice = paid.clone();
    assert_eq!(
        invoice.refund(None, &payer(), UNIT - 1),
        Err(Error::Unauthorized)
    );
    assert_eq!(
        invoice.refund(None, &merchant(), UNIT - 1),
        Err(Error::InvoiceNotFound)
    );
    assert_eq!(
        invoice.refund(Some(&payment), &merchant(), UNIT - 1),
        Err(Error::AmountMismatch)
    );
    assert_eq!(invoice, paid);
    assert_eq!(invoice.refund(Some(&payment), &merchant(), UNIT), Ok(()));
    assert_eq!(
        invoice,
        sample_invoice(id.clone(), InvoiceStatus::Refunded, Some(payer()))
    );

    let mut open = sample_invoice(id, InvoiceStatus::Open, None);
    assert_eq!(
        open.refund(Some(&payment), &merchant(), UNIT),
        Err(Error::InvoiceNotOpen)
    );
}

#[test]
fn the_refund_goes_by_the_amount_on_record() {
    let id = InvoiceId::from_array([7u8; 32]);
    let payment = Payment {
        invoice_id: id.clone(),
        payer: payer(),
        amount: 2 * UNIT,
        timestamp: NOW,
    };
    let mut invoice = sample_invoice(id, InvoiceStatus::Paid, Some(payer()));
    assert_eq!(
        invoice.refund(Some(&payment), &merchant(), UNIT),
        Err(Error::AmountMismatch)
    );
    assert_eq!(invoice.refund(Some(&payment), &merchant(), 2 * UNIT), Ok(()));
}

#[test]
fn store_holds_the_last_record_set_under_a_key() {
    let first = InvoiceId::from_array([1u8; 32]);
    let second = InvoiceId::from_array([2u8; 32]);
    let mut store = Store::new();
    assert!(!store.has(&DataKey::Invoice(first.clone())));
    assert_eq!(store.get(&DataKey::InvoiceCounter), None);

    let open = Record::Invoice(sample_invoice(first.clone(), InvoiceStatus::Open, None));
    let paid = Record::Invoice(sample_invoice(
        first.clone(),
        InvoiceStatus::Paid,
        Some(payer()),
    ));
    let other = Record::Invoice(sample_invoice(second.clone(), InvoiceStatus::Open, None));
    store.set(DataKey::Invoice(first.clone()), open.clone());
    store.set(DataKey::Invoice(second.clone()), other.clone());
    assert_eq!(store.get(&DataKey::Invoice(first.clone())), Some(&open));

    store.set(DataKey::Invoice(first.clone()), paid.clone());
    assert_eq!(store.get(&DataKey::Invoice(first.clone())), Some(&paid));
    assert_eq!(store.get(&DataKey::Invoice(second.clone())), Some(&other));
    assert!(store.has(&DataKey::Invoice(second)));
    assert!(!store.has(&DataKey::Payment(first)));
}

#[test]
fn store_keeps_the_namespaces_apart() {
    let id = InvoiceId::from_array([1u8; 32]);
    let invoice = Record::Invoice(sample_invoice(id.clone(), InvoiceStatus::Open, None));
    let payment = Record::Payment(Payment {
        invoice_id: id.clone(),
        payer: payer(),
        amount: UNIT,
        timestamp: NOW,
    });
    let mut store = Store::new();
    store.set(DataKey::Invoice(id.clone()), invoice.clone());
    store.set(DataKey::Payment(id.clone()), payment.clone());
    assert_eq!(store.get(&DataKey::Invoice(id.clone())), Some(&invoice));
    assert_eq!(store.get(&DataKey::Payment(id.clone())), Some(&payment));
    assert!(!store.has(&DataKey::InvoiceCounter));

    assert!(DataKey::Invoice(id.clone()).same_as(&DataKey::Invoice(id.clone())));
    assert!(!DataKey::Invoice(id.clone()).same_as(&DataKey::Payment(id.clone())));
    assert!(!DataKey::InvoiceCounter.same_as(&DataKey::Payment(id.clone())));
    assert!(DataKey::InvoiceCounter.same_as(&DataKey::InvoiceCounter));
    assert!(!DataKey::Payment(id).same_as(&DataKey::Payment(InvoiceId::from_array([2u8; 32]))));
}

#[test]
fn records_copy_as_they_are() {
    let id = InvoiceId::from_array([1u8; 32]);
    let invoice = sample_invoice(id.clone(), InvoiceStatus::Paid, Some(payer()));
    assert_eq!(invoice.clone(), invoice);
    let record = Record::Invoice(invoice);
    assert_eq!(record.clone(), record);
    let key = DataKey::Payment(id);
    assert_eq!(key.clone(), key);
}

#[test]
fn every_stored_invoice_has_a_positive_amount() {
    let mut contract = fresh();
    let mut ids = Vec::new();
    let amounts: [i128; 6] = [-3, 0, 1, UNIT, -UNIT, i128::MAX];
    for (sequence, amount) in amounts.into_iter().enumerate() {
        if let Ok(id) = contract.create_invoice(merchant(), amount, NOW + 600, NOW, sequence as u32)
        {
            ids.push(id);
        }
    }
    assert_eq!(ids.len(), 3);
    for id in &ids {
        assert!(contract.get_invoice(id).unwrap().amount > 0);
    }
    contract.pay(&ids[0], payer(), 1, NOW + 1).unwrap();
    contract.refund(&ids[0], merchant(), 1).unwrap();
    assert_eq!(contract.pay(&ids[1], payer(), UNIT, NOW + 601), Err(Error::InvoiceExpired));
    for id in &ids {
        let invoice = contract.get_invoice(id).unwrap();
        assert!(invoice.amount > 0);
        assert!(invoice.expiry >= invoice.created_at + MIN_VALIDITY);
        assert!(invoice.expiry <= invoice.created_at + MAX_VALIDITY);
        assert_eq!(
            invoice.payer.is_some(),
            contract.get_payment(id).is_some()
        );
    }
}
