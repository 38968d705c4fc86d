//! Identities: the 32-byte names of admins, depositors, token mints and accounts.

use vstd::prelude::*;

verus! {

/// Number of bytes in an identity.
pub const IDENTITY_LEN: usize = 32;

/// The name of a party or of an account, as the execution host knows it.
#[derive(Clone, Copy, Debug, PartialEq, Eq)]
pub struct Identity {
    pub bytes: [u8; 32],
}

impl View for Identity {
    type V = Seq<u8>;

    open spec fn view(&self) -> Seq<u8> {
        self.bytes@
    }
}

impl Identity {
    /// The identity made of `bytes`.
    pub fn new(bytes: [u8; 32]) -> (id: Identity)
        ensures
            id.bytes == bytes,
            id@ == bytes@,
    {
        Identity { bytes }
    }

    /// The bytes of the identity, in order.
    pub fn as_bytes<'a>(&'a self) -> (bytes: &'a [u8])
        ensures
            bytes@ == self@,
            bytes@.len() == IDENTITY_LEN,
    {
        self.bytes.as_slice()
    }
}

} // verus!
