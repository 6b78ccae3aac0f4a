//! Recovering the account that signed a receipt.

use vstd::prelude::*;
use crate::ident::Address;

verus! {

/// The bytes of the account that `alloy_primitives` recovers from a signature
/// of 65 bytes over a digest of 32 bytes, `None` where it recovers none: the
/// signature's last byte is no recovery value, or its other bytes do not make
/// a signature that verifies over the digest under any key.
pub uninterp spec fn recovered_signer(signature: Seq<u8>, digest: Seq<u8>) -> Option<
    Seq<u8>,
>;

/// The bytes of an account that may be missing.
pub open spec fn signer_bytes(signer: Option<Address>) -> Option<Seq<u8>> {
    match signer {
        Some(account) => Some(account.bytes@),
        None => None,
    }
}

/// Reads the signature by `alloy_primitives::PrimitiveSignature::from_raw_array`
/// and recovers the signer's address by its `recover_address_from_prehash`.
/// Either step can fail and then gives `None`. What is recovered depends on
/// the 65 and the 32 bytes alone; nothing more of it is proved here.
#[verifier::external_body]
pub(crate) fn recover_signer(signature: &[u8; 65], digest: &[u8; 32]) -> (signer: Option<
    Address,
>)
    ensures
        signer_bytes(signer) == recovered_signer(signature@, digest@),
{
    let parsed = alloy_primitives::PrimitiveSignature::from_raw_array(signature).ok()?;
    let prehash = alloy_primitives::B256::from(*digest);
    let found = parsed.recover_address_from_prehash(&prehash).ok()?;
    Some(Address { bytes: found.into_array() })
}

} // verus!
