//! The mempool state response as it travels between nodes: signatures of the
//! transactions in the unconfirmed pool and in the reorg pool, as raw bytes on
//! the wire and as decoded keys in memory.
use vstd::prelude::*;

use tari_crypto::ristretto::{RistrettoPublicKey, RistrettoSecretKey};
use tari_utilities::ByteArray;

verus! {

#[verifier::external_type_specification]
#[verifier::external_body]
pub struct ExRistrettoPublicKey(RistrettoPublicKey);

#[verifier::external_type_specification]
#[verifier::external_body]
pub struct ExRistrettoSecretKey(RistrettoSecretKey);

/// Whether the bytes are a canonical encoding of a ristretto point.
pub uninterp spec fn decodes_public_key(b: Seq<u8>) -> bool;

/// Whether the bytes are a canonical encoding of a ristretto scalar.
pub uninterp spec fn decodes_secret_key(b: Seq<u8>) -> bool;

/// Relies on `<RistrettoPublicKey as ByteArray>::from_canonical_bytes`: it
/// succeeds exactly on a canonical point encoding, and refuses any input that
/// is not 32 bytes long.
#[verifier::external_body]
fn public_key_from_bytes(b: &Vec<u8>) -> (r: Option<RistrettoPublicKey>)
    ensures
        r is Some == decodes_public_key(b@),
        b@.len() != 32 ==> r is None,
{
    RistrettoPublicKey::from_canonical_bytes(b.as_slice()).ok()
}

/// Relies on `<RistrettoSecretKey as ByteArray>::from_canonical_bytes`: it
/// succeeds exactly on a canonical scalar encoding, and refuses any input that
/// is not 32 bytes long.
#[verifier::external_body]
fn secret_key_from_bytes(b: &Vec<u8>) -> (r: Option<RistrettoSecretKey>)
    ensures
        r is Some == decodes_secret_key(b@),
        b@.len() != 32 ==> r is None,
{
    RistrettoSecretKey::from_canonical_bytes(b.as_slice()).ok()
}

/// Relies on `<RistrettoPublicKey as ByteArray>::to_vec`: the 32-byte
/// compressed point.
#[verifier::external_body]
fn public_key_to_bytes(k: &RistrettoPublicKey) -> (r: Vec<u8>)
    ensures
        r@.len() == 32,
{
    k.to_vec()
}

/// Relies on `<RistrettoSecretKey as ByteArray>::to_vec`: the 32-byte
/// little-endian scalar.
#[verifier::external_body]
fn secret_key_to_bytes(k: &RistrettoSecretKey) -> (r: Vec<u8>)
    ensures
        r@.len() == 32,
{
    k.to_vec()
}

/// A Schnorr signature as sent on the wire.
pub struct ProtoSignature {
    pub public_nonce: Vec<u8>,
    pub signature: Vec<u8>,
}

/// A decoded Schnorr signature.
pub struct Signature {
    pub public_nonce: RistrettoPublicKey,
    pub signature: RistrettoSecretKey,
}

/// Whether both halves of a wire signature decode.
pub open spec fn signature_decodes(p: ProtoSignature) -> bool {
    decodes_public_key(p.public_nonce@) && decodes_secret_key(p.signature@)
}

/// Every signature in the pool decodes.
pub open spec fn pool_decodes(pool: Seq<ProtoSignature>) -> bool {
    forall|j: int| 0 <= j < pool.len() ==> signature_decodes(pool[j])
}

/// `i` is the first entry of the pool that does not decode.
pub open spec fn first_bad(pool: Seq<ProtoSignature>, i: int) -> bool {
    &&& 0 <= i < pool.len()
    &&& !signature_decodes(pool[i])
    &&& forall|j: int| 0 <= j < i ==> signature_decodes(pool[j])
}

impl Signature {
    /// Decodes a wire signature; `None` when either half is not canonical.
    pub fn try_from_proto(sig: &ProtoSignature) -> (r: Option<Signature>)
        ensures
            r is Some == signature_decodes(*sig),
    {
        let public_nonce = match public_key_from_bytes(&sig.public_nonce) {
            Some(k) => k,
            None => return None,
        };
        let signature = match secret_key_from_bytes(&sig.signature) {
            Some(k) => k,
            None => return None,
        };
        Some(Signature { public_nonce, signature })
    }

    /// Encodes the signature for the wire: 32 bytes for each half.
    pub fn to_proto(&self) -> (p: ProtoSignature)
        ensures
            p.public_nonce@.len() == 32,
            p.signature@.len() == 32,
    {
        ProtoSignature {
            public_nonce: public_key_to_bytes(&self.public_nonce),
            signature: secret_key_to_bytes(&self.signature),
        }
    }
}

/// Which pool held a signature that does not decode, and at what position.
#[derive(Clone, Copy, Debug, PartialEq, Eq, Structural)]
pub enum StateResponseError {
    InvalidUnconfirmedSignature(usize),
    InvalidReorgSignature(usize),
}

/// The mempool state as sent on the wire.
pub struct ProtoStateResponse {
    pub unconfirmed_pool: Vec<ProtoSignature>,
    pub reorg_pool: Vec<ProtoSignature>,
}

/// The mempool state, decoded.
pub struct StateResponse {
    pub unconfirmed_pool: Vec<Signature>,
    pub reorg_pool: Vec<Signature>,
}

fn decode_pool(pool: &Vec<ProtoSignature>) -> (r: Result<Vec<Signature>, usize>)
    ensures
        match r {
            Ok(v) => pool_decodes(pool@) && v@.len() == pool@.len(),
            Err(i) => first_bad(pool@, i as int),
        },
{
    let mut out: Vec<Signature> = Vec::new();
    let mut i: usize = 0;
    while i < pool.len()
        invariant
            i <= pool@.len(),
            out@.len() == i,
            forall|j: int| 0 <= j < i ==> signature_decodes(pool@[j]),
        decreases pool@.len() - i,
    {
        match Signature::try_from_proto(&pool[i]) {
            Some(s) => out.push(s),
            None => return Err(i),
        }
        i = i + 1;
    }
    Ok(out)
}

fn encode_pool(pool: Vec<Signature>) -> (r: Vec<ProtoSignature>)
    ensures
        r@.len() == pool@.len(),
        forall|j: int| 0 <= j < r@.len() ==> r@[j].public_nonce@.len() == 32 && r@[j].signature@.len() == 32,
{
    let mut out: Vec<ProtoSignature> = Vec::new();
    let mut i: usize = 0;
    while i < pool.len()
        invariant
            i <= pool@.len(),
            out@.len() == i,
            forall|j: int| 0 <= j < i ==> out@[j].public_nonce@.len() == 32 && out@[j].signature@.len() == 32,
        decreases pool@.len() - i,
    {
        out.push(pool[i].to_proto());
        i = i + 1;
    }
    out
}

impl StateResponse {
    /// Decodes both pools. The first entry that does not decode, searching the
    /// unconfirmed pool first, is reported with its pool and position.
    pub fn try_from_proto(state: &ProtoStateResponse) -> (r: Result<StateResponse, StateResponseError>)
        ensures
            match r {
                Ok(s) => {
                    &&& pool_decodes(state.unconfirmed_pool@)
                    &&& pool_decodes(state.reorg_pool@)
                    &&& s.unconfirmed_pool@.len() == state.unconfirmed_pool@.len()
                    &&& s.reorg_pool@.len() == state.reorg_pool@.len()
                },
                Err(StateResponseError::InvalidUnconfirmedSignature(i)) => first_bad(
                    state.unconfirmed_pool@,
                    i as int,
                ),
                Err(StateResponseError::InvalidReorgSignature(i)) => {
                    &&& pool_decodes(state.unconfirmed_pool@)
                    &&& first_bad(state.reorg_pool@, i as int)
                },
            },
    {
        let unconfirmed_pool = match decode_pool(&state.unconfirmed_pool) {
            Ok(v) => v,
            Err(i) => return Err(StateResponseError::InvalidUnconfirmedSignature(i)),
        };
        let reorg_pool = match decode_pool(&state.reorg_pool) {
            Ok(v) => v,
            Err(i) => return Err(StateResponseError::InvalidReorgSignature(i)),
        };
        Ok(StateResponse { unconfirmed_pool, reorg_pool })
    }

    /// Encodes both pools for the wire, entry for entry.
    pub fn into_proto(self) -> (p: ProtoStateResponse)
        ensures
            p.unconfirmed_pool@.len() == self.unconfirmed_pool@.len(),
            p.reorg_pool@.len() == self.reorg_pool@.len(),
            forall|j: int|
                0 <= j < p.unconfirmed_pool@.len() ==> p.unconfirmed_pool@[j].public_nonce@.len() == 32
                    && p.unconfirmed_pool@[j].signature@.len() == 32,
            forall|j: int|
                0 <= j < p.reorg_pool@.len() ==> p.reorg_pool@[j].public_nonce@.len() == 32
                    && p.reorg_pool@[j].signature@.len() == 32,
    {
        ProtoStateResponse {
            unconfirmed_pool: encode_pool(self.unconfirmed_pool),
            reorg_pool: encode_pool(self.reorg_pool),
        }
    }
}

} // verus!
