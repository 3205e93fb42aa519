//! The keypair-generation operation.

use crate::codec::base58_of;
use crate::ed25519::ed25519_pub_of;
use crate::keys::generate_keypair;
use crate::response::resp_success;
use crate::response::ApiResponse;
use vstd::prelude::*;

verus! {

/// A freshly generated keypair, rendered for transport: the public key and
/// the 64-byte secret material (seed followed by public key), both base58.
pub struct KeypairResponse {
    pub pubkey: String,
    pub secret: String,
}

/// Generate a keypair and render it.
///
/// Always succeeds; the two fields encode the same fresh seed: `pubkey` the
/// 32-byte valid curve point derived from it, `secret` the 64 bytes of the
/// seed followed by that key.  So the secret decodes to exactly 64 bytes,
/// the pubkey to their second half, and the secret reconstructs and signs.
pub fn keypair() -> (r: ApiResponse<KeypairResponse>)
    ensures
        resp_success(r),
        r.data matches Some(d) && exists|seed: Seq<u8>|
            seed.len() == 32 && (#[trigger] ed25519_pub_of(seed)).len() == 32
                && crate::ed25519::ed25519_point_valid(ed25519_pub_of(seed)) && d.pubkey@
                == base58_of(ed25519_pub_of(seed)) && d.secret@ == base58_of(
                seed + ed25519_pub_of(seed),
            ),
{
    let (pk, material) = generate_keypair();
    let d = KeypairResponse { pubkey: pk.to_base58(), secret: material.to_base58() };
    proof {
        let s = choose|seed: Seq<u8>|
            seed.len() == 32 && pk@ == #[trigger] ed25519_pub_of(seed) && material@ == seed
                + ed25519_pub_of(seed);
        assert(material@.len() == 64);
        assert(ed25519_pub_of(s).len() == 32);
        assert(d.pubkey@ == base58_of(ed25519_pub_of(s)));
        assert(d.secret@ == base58_of(s + ed25519_pub_of(s)));
    }
    ApiResponse::success(d)
}

} // verus!
