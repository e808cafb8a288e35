//! Account addresses.

use crate::error::Error;
use vstd::prelude::*;

verus! {

/// The workchain of validator contracts.
pub const MASTERCHAIN: i8 = -1;

/// The workchain of DePools and their wallets.
pub const BASECHAIN: i8 = 0;

/// 256 bits: an account within its workchain, or a public key.
#[derive(Clone, Copy, Debug, PartialEq, Eq)]
pub struct HashBytes(pub [u8; 32]);

/// A standard account address.
#[derive(Clone, Copy, Debug, PartialEq, Eq)]
pub struct StdAddr {
    pub workchain: i8,
    pub address: HashBytes,
}

impl View for HashBytes {
    type V = Seq<u8>;

    open spec fn view(&self) -> Seq<u8> {
        self.0@
    }
}

impl HashBytes {
    /// Whether `self` and `other` are the same 256 bits.
    pub fn same(&self, other: &HashBytes) -> (r: bool)
        ensures
            r == (self@ == other@),
    {
        let mut i: usize = 0;
        while i < 32
            invariant
                i <= 32,
                forall|j: int| 0 <= j < i ==> self@[j] == other@[j],
            decreases 32 - i,
        {
            if self.0[i] != other.0[i] {
                assert(self@[i as int] != other@[i as int]);
                return false;
            }
            i = i + 1;
        }
        assert(self@ =~= other@);
        true
    }
}

impl StdAddr {
    /// The workchain and the bits of the address.
    pub open spec fn parts(self) -> (i8, Seq<u8>) {
        (self.workchain, self.address@)
    }

    /// Whether `self` and `other` are the same address.
    pub fn same(&self, other: &StdAddr) -> (r: bool)
        ensures
            r == (self.parts() == other.parts()),
    {
        self.workchain == other.workchain && self.address.same(&other.address)
    }
}

/// What holding an address to a workchain gives: `parsed` is the address, where its text was one.
pub open spec fn in_workchain(parsed: Option<StdAddr>, workchain: i8) -> Result<StdAddr, Error> {
    match parsed {
        None => Err(Error::InvalidAddress),
        Some(address) => if address.workchain == workchain {
            Ok(address)
        } else {
            Err(Error::WrongWorkchain { expected: workchain, found: address.workchain })
        },
    }
}

/// Accepts an address that lies in `workchain`, and no other.
pub fn ensure_workchain(parsed: Option<StdAddr>, workchain: i8) -> (r: Result<StdAddr, Error>)
    ensures
        r == in_workchain(parsed, workchain),
{
    match parsed {
        None => Err(Error::InvalidAddress),
        Some(address) => {
            if address.workchain != workchain {
                Err(Error::WrongWorkchain { expected: workchain, found: address.workchain })
            } else {
                Ok(address)
            }
        },
    }
}

/// An address is accepted for the workchain that it lies in, as it is, and for no other. A text that
/// is no address is refused as such.
pub proof fn law_addresses_are_held_to_their_workchain(
    address: StdAddr,
    parsed: Option<StdAddr>,
    workchain: i8,
)
    ensures
        in_workchain(parsed, workchain) == Ok::<StdAddr, Error>(address) <==> parsed == Some(
            address,
        ) && address.workchain == workchain,
        in_workchain(None, workchain) == Err::<StdAddr, Error>(Error::InvalidAddress),
        address.workchain != workchain ==> in_workchain(Some(address), workchain) == Err::<
            StdAddr,
            Error,
        >(Error::WrongWorkchain { expected: workchain, found: address.workchain }),
{
}

} // verus!
