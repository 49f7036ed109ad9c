//! The 32-byte identities of accounts and authorities, and the two
//! well-known ones that a closure involves.

use vstd::prelude::*;
use vstd::std_specs::cmp::PartialEqSpecImpl;

verus! {

/// The identity of an account or of an owning authority: 32 raw bytes.
#[derive(Clone, Copy, Debug)]
pub struct Pubkey {
    pub bytes: [u8; 32],
}

impl Pubkey {
    /// Wraps 32 raw bytes as an identity.
    pub fn new_from_array(bytes: [u8; 32]) -> (r: Pubkey)
        ensures
            r.bytes == bytes,
    {
        Pubkey { bytes }
    }

    /// The 32 raw bytes of this identity.
    pub fn to_bytes(&self) -> (r: [u8; 32])
        ensures
            r == self.bytes,
    {
        self.bytes
    }
}

impl PartialEq for Pubkey {
    fn eq(&self, other: &Self) -> (r: bool) {
        let mut i: usize = 0;
        while i < 32
            invariant
                i <= 32,
                forall|j: int| 0 <= j < i ==> self.bytes[j] == other.bytes[j],
            decreases 32 - i,
        {
            if self.bytes[i] != other.bytes[i] {
                return false;
            }
            i = i + 1;
        }
        assert(self.bytes =~= other.bytes);
        true
    }
}

impl Eq for Pubkey {

}

impl PartialEqSpecImpl for Pubkey {
    open spec fn obeys_eq_spec() -> bool {
        true
    }

    open spec fn eq_spec(&self, other: &Self) -> bool {
        *self == *other
    }
}

/// The neutral authority: the all-zero identity of the system program, to
/// which a closed account is handed over.
pub open spec fn system_program_key() -> Pubkey {
    Pubkey {
        bytes: [
            0u8, 0u8, 0u8, 0u8, 0u8, 0u8, 0u8, 0u8,
            0u8, 0u8, 0u8, 0u8, 0u8, 0u8, 0u8, 0u8,
            0u8, 0u8, 0u8, 0u8, 0u8, 0u8, 0u8, 0u8,
            0u8, 0u8, 0u8, 0u8, 0u8, 0u8, 0u8, 0u8,
        ],
    }
}

/// The sink identity: lamports credited to it leave circulation.
pub open spec fn incinerator_key() -> Pubkey {
    Pubkey {
        bytes: [
            0u8, 51u8, 144u8, 114u8, 141u8, 52u8, 17u8, 96u8,
            121u8, 189u8, 201u8, 17u8, 191u8, 255u8, 0u8, 219u8,
            212u8, 77u8, 46u8, 205u8, 204u8, 247u8, 156u8, 166u8,
            225u8, 0u8, 56u8, 225u8, 0u8, 0u8, 0u8, 0u8,
        ],
    }
}

/// Calls `solana_program::system_program::id` and hands back its 32 bytes.
///
/// Trusted: the system program is declared under the base-58 name made of
/// thirty-two `1`s, each of which stands for one zero byte, so the result is
/// the all-zero identity.
#[verifier::external_body]
pub(crate) fn system_program_id() -> (r: Pubkey)
    ensures
        r == system_program_key(),
{
    Pubkey { bytes: solana_program::system_program::id().to_bytes() }
}

/// Calls `solana_sdk::incinerator::id` and hands back its 32 bytes.
///
/// Trusted: the incinerator is declared under the base-58 name
/// `1nc1nerator11111111111111111111111111111111`, whose decoding is the byte
/// string of `incinerator_key`.
#[verifier::external_body]
pub(crate) fn incinerator_id() -> (r: Pubkey)
    ensures
        r == incinerator_key(),
{
    Pubkey { bytes: solana_sdk::incinerator::id().to_bytes() }
}

} // verus!
