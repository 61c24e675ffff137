//! The two kinds of name the engine deals in: a party's identity and an
//! invoice's identifier.

use vstd::prelude::*;
use vstd::slice::slice_to_vec;
use vstd::std_specs::cmp::PartialEqSpecImpl;
use crate::bytes::{bytes_equal, copy_bytes};

verus! {

/// Longest identity, in bytes: ample for the encoding of any address of the
/// host, and short enough to be hashed within [`crate::digest::DIGEST_INPUT_MAX`].
pub const IDENTITY_MAX_LEN: usize = 128;

/// Width of an invoice identifier, in bytes.
pub const INVOICE_ID_LEN: usize = 32;

/// A party: a merchant, a payer, or the token contract.
///
/// An identity is the byte string under which the host knows the party. Two
/// identities are the same party exactly when their bytes are equal. No
/// identity is longer than `IDENTITY_MAX_LEN` bytes.
#[derive(Debug)]
pub struct Identity {
    bytes: Vec<u8>,
}

impl View for Identity {
    type V = Seq<u8>;

    closed spec fn view(&self) -> Seq<u8> {
        self.bytes@
    }
}

impl Identity {
    #[verifier::type_invariant]
    spec fn within_limit(&self) -> bool {
        self.bytes@.len() <= IDENTITY_MAX_LEN
    }

    /// The identity with the given bytes, or `None` where there are more than
    /// `IDENTITY_MAX_LEN` of them.
    pub fn from_bytes(bytes: Vec<u8>) -> (identity: Option<Identity>)
        ensures
            bytes@.len() <= IDENTITY_MAX_LEN <==> identity is Some,
            identity is Some ==> identity->0@ == bytes@,
    {
        if bytes.len() <= IDENTITY_MAX_LEN {
            Some(Identity { bytes })
        } else {
            None
        }
    }

    /// The bytes of the identity.
    pub fn as_bytes(&self) -> (bytes: &Vec<u8>)
        ensures
            bytes@ == self@,
            bytes@.len() <= IDENTITY_MAX_LEN,
    {
        proof {
            use_type_invariant(self);
        }
        &self.bytes
    }

    /// The number of bytes in the identity.
    pub fn len(&self) -> (len: usize)
        ensures
            len == self@.len(),
            len <= IDENTITY_MAX_LEN,
    {
        proof {
            use_type_invariant(self);
        }
        self.bytes.len()
    }

    /// Whether `self` and `other` name the same party.
    pub fn same_as(&self, other: &Identity) -> (same: bool)
        ensures
            same == (self@ == other@),
    {
        bytes_equal(&self.bytes, &other.bytes)
    }
}

impl Clone for Identity {
    fn clone(&self) -> (copy: Self)
        ensures
            copy@ == self@,
    {
        proof {
            use_type_invariant(self);
        }
        Identity { bytes: copy_bytes(&self.bytes) }
    }
}

impl PartialEq for Identity {
    fn eq(&self, other: &Identity) -> (same: bool) {
        self.same_as(other)
    }
}

impl PartialEqSpecImpl for Identity {
    open spec fn obeys_eq_spec() -> bool {
        true
    }

    open spec fn eq_spec(&self, other: &Identity) -> bool {
        self@ == other@
    }
}

impl Eq for Identity {

}

/// The identifier of an invoice: `INVOICE_ID_LEN` opaque bytes.
#[derive(Debug)]
pub struct InvoiceId {
    bytes: Vec<u8>,
}

impl View for InvoiceId {
    type V = Seq<u8>;

    closed spec fn view(&self) -> Seq<u8> {
        self.bytes@
    }
}

impl InvoiceId {
    #[verifier::type_invariant]
    spec fn full_width(&self) -> bool {
        self.bytes@.len() == INVOICE_ID_LEN
    }

    /// The identifier with the given bytes, or `None` where there are not
    /// exactly `INVOICE_ID_LEN` of them.
    pub fn from_bytes(bytes: Vec<u8>) -> (id: Option<InvoiceId>)
        ensures
            bytes@.len() == INVOICE_ID_LEN <==> id is Some,
            id is Some ==> id->0@ == bytes@,
    {
        if bytes.len() == INVOICE_ID_LEN {
            Some(InvoiceId { bytes })
        } else {
            None
        }
    }

    /// The identifier with the given bytes.
    pub fn from_array(bytes: [u8; 32]) -> (id: InvoiceId)
        ensures
            id@ == bytes@,
    {
        InvoiceId { bytes: slice_to_vec(bytes.as_slice()) }
    }

    /// The bytes of the identifier.
    pub fn as_bytes(&self) -> (bytes: &Vec<u8>)
        ensures
            bytes@ == self@,
            bytes@.len() == INVOICE_ID_LEN,
    {
        proof {
            use_type_invariant(self);
        }
        &self.bytes
    }

    /// The number of bytes in the identifier, which is `INVOICE_ID_LEN`.
    pub fn len(&self) -> (len: usize)
        ensures
            len == INVOICE_ID_LEN,
            len == self@.len(),
    {
        proof {
            use_type_invariant(self);
        }
        self.bytes.len()
    }

    /// Whether `self` and `other` are the same identifier.
    pub fn same_as(&self, other: &InvoiceId) -> (same: bool)
        ensures
            same == (self@ == other@),
    {
        bytes_equal(&self.bytes, &other.bytes)
    }
}

impl Clone for InvoiceId {
    fn clone(&self) -> (copy: Self)
        ensures
            copy@ == self@,
    {
        proof {
            use_type_invariant(self);
        }
        InvoiceId { bytes: copy_bytes(&self.bytes) }
    }
}

impl PartialEq for InvoiceId {
    fn eq(&self, other: &InvoiceId) -> (same: bool) {
        self.same_as(other)
    }
}

impl PartialEqSpecImpl for InvoiceId {
    open spec fn obeys_eq_spec() -> bool {
        true
    }

    open spec fn eq_spec(&self, other: &InvoiceId) -> bool {
        self@ == other@
    }
}

impl Eq for InvoiceId {

}

} // verus!
