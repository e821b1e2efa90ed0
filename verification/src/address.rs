//! Account addresses: 32-byte identifiers of accounts and programs.

use vstd::prelude::*;

verus! {

/// The number of bytes in an address.
pub const ADDRESS_LEN: usize = 32;

/// A 32-byte account address.
///
/// The engine never interprets an address; it only stores, copies and
/// compares them, and hands them to the derivation check.
#[derive(Debug, PartialEq, Eq)]
pub struct Address {
    pub bytes: Vec<u8>,
}

impl View for Address {
    type V = Seq<u8>;

    open spec fn view(&self) -> Seq<u8> {
        self.bytes@
    }
}

impl Address {
    /// A well-formed address holds exactly 32 bytes.
    pub open spec fn wf(&self) -> bool {
        self@.len() == ADDRESS_LEN
    }

    /// Wraps raw bytes as an address; rejects any length but 32.
    pub fn new(bytes: Vec<u8>) -> (r: Option<Address>)
        ensures
            match r {
                Some(a) => a.wf() && a@ == bytes@,
                None => bytes@.len() != ADDRESS_LEN,
            },
    {
        if bytes.len() == ADDRESS_LEN {
            Some(Address { bytes })
        } else {
            None
        }
    }

    /// Byte-for-byte equality of two addresses.
    pub fn eq_address(&self, other: &Address) -> (r: bool)
        ensures
            r == (self@ == other@),
    {
        eq_bytes(&self.bytes, &other.bytes)
    }
}

impl Clone for Address {
    fn clone(&self) -> (r: Self)
        ensures
            r@ == self@,
    {
        Address { bytes: clone_bytes(&self.bytes) }
    }
}

/// Byte-for-byte equality of two byte vectors.
pub fn eq_bytes(a: &Vec<u8>, b: &Vec<u8>) -> (r: bool)
    ensures
        r == (a@ == b@),
{
    if a.len() != b.len() {
        return false;
    }
    let mut i: usize = 0;
    while i < a.len()
        invariant
            i <= a@.len(),
            a@.len() == b@.len(),
            forall|j: int| 0 <= j < i ==> a@[j] == b@[j],
        decreases a@.len() - i,
    {
        if a[i] != b[i] {
            return false;
        }
        i = i + 1;
    }
    proof {
        assert(a@ =~= b@);
    }
    true
}

/// Copies a byte vector.
pub fn clone_bytes(v: &Vec<u8>) -> (r: Vec<u8>)
    ensures
        r@ == v@,
{
    let mut r: Vec<u8> = Vec::new();
    let mut i: usize = 0;
    while i < v.len()
        invariant
            i <= v@.len(),
            r@ == v@.subrange(0, i as int),
        decreases v@.len() - i,
    {
        r.push(v[i]);
        proof {
            assert(r@ =~= v@.subrange(0, i + 1));
        }
        i = i + 1;
    }
    proof {
        assert(r@ =~= v@);
    }
    r
}

} // verus!
