use anchor_lang::prelude::Pubkey;
use std::str::FromStr;
use vstd::prelude::*;
use vstd::std_specs::cmp::PartialEqSpecImpl;

verus! {

/// Number of bytes in an identity.
pub const IDENTITY_BYTES: usize = 32;

/// `n` zero bytes.
pub open spec fn zero_bytes(n: nat) -> Seq<u8> {
    Seq::new(n, |i: int| 0u8)
}

/// The 32 bytes that a base58 address stands for, where it stands for any.
pub uninterp spec fn base58_address(s: Seq<char>) -> Option<Seq<u8>>;

/// The public key of an account that signs operations.
#[derive(Clone, Copy, Debug)]
pub struct Identity {
    pub bytes: [u8; 32],
}

impl View for Identity {
    type V = Seq<u8>;

    open spec fn view(&self) -> Seq<u8> {
        self.bytes@
    }
}

/// Calls `Pubkey::from_str` and hands out the key's bytes, `None` where the
/// text is no address. Trusted: the bytes are those that the base58 text
/// stands for, and the text of thirty-two `1`, the system program's address,
/// stands for thirty-two zero bytes.
#[verifier::external_body]
fn decode_address(s: &str) -> (r: Option<[u8; 32]>)
    ensures
        r is Some ==> base58_address(s@) == Some(r->0@),
        r is None ==> base58_address(s@) is None,
        s@ == "11111111111111111111111111111111"@ ==> r is Some && r->0@ == zero_bytes(32),
{
    match Pubkey::from_str(s) {
        Ok(key) => Some(key.to_bytes()),
        Err(_) => None,
    }
}

impl Identity {
    /// The identity recorded as operator while nobody has accepted the task.
    pub open spec fn unassigned_view() -> Seq<u8> {
        zero_bytes(32)
    }

    /// The identity made of the given bytes.
    pub fn new(bytes: [u8; 32]) -> (r: Identity)
        ensures
            r@ == bytes@,
            r.bytes == bytes,
    {
        Identity { bytes }
    }

    /// The identity that a base58 address names, `None` where the text is
    /// no address.
    pub fn from_base58(s: &str) -> (r: Option<Identity>)
        ensures
            r is Some ==> base58_address(s@) == Some(r->0@),
            r is None ==> base58_address(s@) is None,
    {
        match decode_address(s) {
            Some(bytes) => Some(Identity { bytes }),
            None => None,
        }
    }

    /// The sentinel that stands for "no operator yet": the system program's
    /// address, all of whose bytes are zero.
    pub fn unassigned() -> (r: Identity)
        ensures
            r@ == Identity::unassigned_view(),
    {
        match decode_address("11111111111111111111111111111111") {
            Some(bytes) => Identity { bytes },
            None => Identity { bytes: [0u8; 32] },
        }
    }

    /// Whether two identities are the same key, byte for byte.
    pub fn same_as(&self, other: &Identity) -> (r: bool)
        ensures
            r == (self@ == other@),
    {
        let mut i: usize = 0;
        while i < 32
            invariant
                i <= 32,
                forall|j: int| 0 <= j < i ==> self.bytes[j] == other.bytes[j],
            decreases 32 - i,
        {
            if self.bytes[i] != other.bytes[i] {
                return false;
            }
            i += 1;
        }
        assert(self@ =~= other@);
        true
    }
}

impl PartialEq for Identity {
    fn eq(&self, other: &Identity) -> (r: bool) {
        self.same_as(other)
    }
}

impl Eq for Identity {

}

impl PartialEqSpecImpl for Identity {
    open spec fn obeys_eq_spec() -> bool {
        true
    }

    open spec fn eq_spec(&self, other: &Identity) -> bool {
        self@ == other@
    }
}

} // verus!
