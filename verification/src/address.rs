use vstd::prelude::*;

verus! {

/// Which kind of ledger entity an address names.
#[derive(Clone, Copy, Debug, PartialEq, Eq, Hash, Structural)]
pub enum AddressKind {
    /// An account, named by its 32-byte Ed25519 public key.
    Account,
    /// A contract, named by its 32-byte contract hash.
    Contract,
}

/// A ledger address: its kind and its 32-byte payload, held as two
/// big-endian halves. Two addresses are the same exactly when all three
/// parts agree, so `==` on this type is plain equality of the parts.
#[derive(Clone, Copy, Debug, PartialEq, Eq, Hash, Structural)]
pub struct Address {
    pub kind: AddressKind,
    pub key_hi: u128,
    pub key_lo: u128,
}

impl Address {
    /// The address of the given kind whose payload has the given halves.
    pub fn new(kind: AddressKind, key_hi: u128, key_lo: u128) -> (a: Address)
        ensures
            a.kind == kind,
            a.key_hi == key_hi,
            a.key_lo == key_lo,
    {
        Address { kind, key_hi, key_lo }
    }
}

} // verus!
