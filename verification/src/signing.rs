use vstd::prelude::*;

use ethers_core::k256::ecdsa::signature::hazmat::PrehashSigner;

use crate::address::Address;
use crate::error::TransferError;
use crate::rlp::{
    append_rlp_bytes, append_rlp_uint, lemma_trim_len, rlp_bytes, rlp_list, rlp_uint,
    rlp_wrap_list, trim_leading_zeros, trim_zeros,
};

verus! {

/// What the curve library reports when a key is unusable or signing fails.
#[verifier::external_type_specification]
#[verifier::external_body]
pub struct ExEcdsaError(ethers_core::k256::ecdsa::Error);

/// The Keccak-256 digest of a byte string; a function of the bytes alone.
pub uninterp spec fn keccak256_of(b: Seq<u8>) -> Seq<u8>;

/// The ECDSA signature the curve library computes over a 32-byte digest
/// with a 32-byte secret: the two 32-byte big-endian signature words and
/// the recovery id. The signing is deterministic (RFC 6979), so this is a
/// function of key and digest alone; `None` for the pairs the library
/// rejects (a secret that is no usable scalar for the curve).
pub uninterp spec fn ecdsa_sig_of(key: Seq<u8>, digest: Seq<u8>) -> Option<(Seq<u8>, Seq<u8>, u64)>;

/// Relies on ethers_core::utils::keccak256: the Keccak-256 digest of the
/// input, 32 bytes, depending on the input bytes alone.
#[verifier::external_body]
fn keccak_digest(b: &Vec<u8>) -> (r: Vec<u8>)
    ensures
        r@ == keccak256_of(b@),
        r@.len() == 32,
{
    ethers_core::utils::keccak256(b.as_slice()).to_vec()
}

/// Relies on k256's ECDSA signer, the same calls a locally held wallet
/// makes: SigningKey::from_bytes on the 32-byte secret, then sign_prehash
/// over the 32-byte digest — deterministic (RFC 6979) in key and digest
/// alone, so the call succeeds or fails, and yields the same words, for
/// the same pair every time. The signature comes back as two 32-byte
/// big-endian words and the recovery id, which is at most 3.
#[verifier::external_body]
fn sign_digest(key: &Vec<u8>, digest: &Vec<u8>) -> (res: Result<
    (Vec<u8>, Vec<u8>, u64),
    ethers_core::k256::ecdsa::Error,
>)
    requires
        key@.len() == 32,
        digest@.len() == 32,
    ensures
        (res is Ok) <==> ecdsa_sig_of(key@, digest@) is Some,
        res matches Ok(sig) ==> ecdsa_sig_of(key@, digest@) == Some((sig.0@, sig.1@, sig.2))
            && sig.0@.len() == 32 && sig.1@.len() == 32 && sig.2 <= 3,
{
    let signer = match ethers_core::k256::ecdsa::SigningKey::from_bytes(
        ethers_core::k256::FieldBytes::from_slice(key.as_slice()),
    ) {
        Ok(s) => s,
        Err(e) => return Err(e),
    };
    let parts: (ethers_core::k256::ecdsa::Signature, ethers_core::k256::ecdsa::RecoveryId) =
        match signer.sign_prehash(digest.as_slice()) {
            Ok(p) => p,
            Err(e) => return Err(e),
        };
    let bytes = parts.0.to_bytes();
    Ok((bytes[..32].to_vec(), bytes[32..].to_vec(), parts.1.to_byte() as u64))
}

/// An unsigned legacy transfer: every field the network needs, bound to one
/// chain. Created fresh per submission attempt; immutable once signed.
#[derive(Debug)]
pub struct TransactionRequest {
    pub from: Address,
    pub to: Address,
    pub value: u128,
    pub gas_price: u128,
    pub gas_limit: u64,
    pub nonce: u64,
    pub chain_id: u64,
}

impl TransactionRequest {
    /// Addresses have their full width and the chain identifier leaves room
    /// for the replay-protected recovery value.
    pub open spec fn wf(&self) -> bool {
        &&& self.from.wf()
        &&& self.to.wf()
        &&& 2 * self.chain_id + 38 <= u64::MAX
    }

    /// Assembles a transfer request from validated inputs; every field is
    /// taken unchanged.
    pub fn new(
        from: Address,
        to: Address,
        value: u128,
        gas_price: u128,
        gas_limit: u64,
        nonce: u64,
        chain_id: u64,
    ) -> (r: TransactionRequest)
        ensures
            r.from@ == from@,
            r.to@ == to@,
            r.value == value,
            r.gas_price == gas_price,
            r.gas_limit == gas_limit,
            r.nonce == nonce,
            r.chain_id == chain_id,
    {
        TransactionRequest { from, to, value, gas_price, gas_limit, nonce, chain_id }
    }

    /// A field-for-field copy.
    pub fn duplicate(&self) -> (r: TransactionRequest)
        requires
            self.wf(),
        ensures
            r.wf(),
            r.from@ == self.from@,
            r.to@ == self.to@,
            r.value == self.value,
            r.gas_price == self.gas_price,
            r.gas_limit == self.gas_limit,
            r.nonce == self.nonce,
            r.chain_id == self.chain_id,
    {
        TransactionRequest {
            from: Address::from_bytes(self.from.as_bytes().clone()),
            to: Address::from_bytes(self.to.as_bytes().clone()),
            value: self.value,
            gas_price: self.gas_price,
            gas_limit: self.gas_limit,
            nonce: self.nonce,
            chain_id: self.chain_id,
        }
    }
}

/// The item sequence that is hashed for signing, from the transfer's
/// plain values: its fields followed by the chain identifier and two empty
/// words, as replay protection across chains demands.
pub open spec fn unsigned_payload_of(
    nonce: u64,
    gas_price: u128,
    gas_limit: u64,
    to: Seq<u8>,
    value: u128,
    chain_id: u64,
) -> Seq<u8> {
    rlp_uint(nonce as nat) + rlp_uint(gas_price as nat) + rlp_uint(gas_limit as nat) + rlp_bytes(
        to,
    ) + rlp_uint(value as nat) + rlp_bytes(Seq::<u8>::empty()) + rlp_uint(chain_id as nat)
        + rlp_uint(0) + rlp_uint(0)
}

/// The item sequence that is hashed for signing a request.
pub open spec fn unsigned_tx_payload(tx: TransactionRequest) -> Seq<u8> {
    unsigned_payload_of(tx.nonce, tx.gas_price, tx.gas_limit, tx.to@, tx.value, tx.chain_id)
}

/// The encoding whose digest the wallet signs.
pub open spec fn unsigned_tx_rlp(tx: TransactionRequest) -> Seq<u8> {
    rlp_list(unsigned_tx_payload(tx))
}

/// The digest a transfer's signature is computed over, from the
/// transfer's plain values.
pub open spec fn signing_digest_of(
    nonce: u64,
    gas_price: u128,
    gas_limit: u64,
    to: Seq<u8>,
    value: u128,
    chain_id: u64,
) -> Seq<u8> {
    keccak256_of(rlp_list(unsigned_payload_of(nonce, gas_price, gas_limit, to, value, chain_id)))
}

/// The item sequence of the network-ready encoding: the transfer's fields
/// followed by the recovery value and the two signature words.
pub open spec fn signed_tx_payload(tx: TransactionRequest, v: u64, r: Seq<u8>, s: Seq<u8>) -> Seq<
    u8,
> {
    rlp_uint(tx.nonce as nat) + rlp_uint(tx.gas_price as nat) + rlp_uint(tx.gas_limit as nat)
        + rlp_bytes(tx.to@) + rlp_uint(tx.value as nat) + rlp_bytes(Seq::<u8>::empty()) + rlp_uint(
        v as nat,
    ) + rlp_bytes(trim_leading_zeros(r)) + rlp_bytes(trim_leading_zeros(s))
}

/// The network-ready encoding of a signed transfer.
pub open spec fn signed_tx_rlp(tx: TransactionRequest, v: u64, r: Seq<u8>, s: Seq<u8>) -> Seq<u8> {
    rlp_list(signed_tx_payload(tx, v, r, s))
}

/// A signed, network-ready transfer: the request it was made from, the
/// signature, the raw encoding, and the transaction hash that identifies it
/// before broadcast. Never mutated; submitted at most once per instance.
#[derive(Debug)]
pub struct SignedTransaction {
    pub request: TransactionRequest,
    pub v: u64,
    pub sig_r: Vec<u8>,
    pub sig_s: Vec<u8>,
    pub raw: Vec<u8>,
    pub hash: Vec<u8>,
}

impl SignedTransaction {
    /// The raw encoding is exactly the encoding of the request's fields
    /// with this signature, and the hash is its digest.
    pub open spec fn wf(&self) -> bool {
        &&& self.request.wf()
        &&& self.sig_r@.len() == 32
        &&& self.sig_s@.len() == 32
        &&& self.raw@ == signed_tx_rlp(self.request, self.v, self.sig_r@, self.sig_s@)
        &&& self.hash@ == keccak256_of(self.raw@)
        &&& self.hash@.len() == 32
    }
}

/// Signs a transfer request with the caller's 32-byte secret key, borrowed
/// only for this one signature and never stored. Succeeds exactly when
/// the curve library signs this key-and-digest pair; the resulting
/// transaction carries the request unchanged — no field is altered by
/// signing — its signature is the one the library computed, and its raw
/// bytes are exactly the replay-protected encoding of those fields with
/// that signature. A refusal of the wallet's key is surfaced as a
/// submission failure, as a rejected broadcast would be.
pub fn sign_transfer(key: &Vec<u8>, tx: &TransactionRequest) -> (r: Result<
    SignedTransaction,
    TransferError,
>)
    requires
        key@.len() == 32,
        tx.wf(),
    ensures
        (r is Ok) <==> ecdsa_sig_of(
            key@,
            signing_digest_of(tx.nonce, tx.gas_price, tx.gas_limit, tx.to@, tx.value, tx.chain_id),
        ) is Some,
        r matches Ok(stx) ==> {
            &&& stx.wf()
            &&& stx.request.from@ == tx.from@
            &&& stx.request.to@ == tx.to@
            &&& stx.request.value == tx.value
            &&& stx.request.gas_price == tx.gas_price
            &&& stx.request.gas_limit == tx.gas_limit
            &&& stx.request.nonce == tx.nonce
            &&& stx.request.chain_id == tx.chain_id
            &&& 35 + 2 * tx.chain_id <= stx.v <= 38 + 2 * tx.chain_id
            &&& (ecdsa_sig_of(
                key@,
                signing_digest_of(
                    tx.nonce,
                    tx.gas_price,
                    tx.gas_limit,
                    tx.to@,
                    tx.value,
                    tx.chain_id,
                ),
            ) matches Some(sig) ==> stx.sig_r@ == sig.0 && stx.sig_s@ == sig.1 && stx.v == sig.2
                + 35 + 2 * tx.chain_id)
        },
        r matches Err(e) ==> e == TransferError::Submission,
{
    let mut payload: Vec<u8> = Vec::new();
    append_rlp_uint(&mut payload, tx.nonce as u128);
    append_rlp_uint(&mut payload, tx.gas_price);
    append_rlp_uint(&mut payload, tx.gas_limit as u128);
    append_rlp_bytes(&mut payload, tx.to.as_bytes());
    append_rlp_uint(&mut payload, tx.value);
    let empty: Vec<u8> = Vec::new();
    append_rlp_bytes(&mut payload, &empty);
    append_rlp_uint(&mut payload, tx.chain_id as u128);
    append_rlp_uint(&mut payload, 0);
    append_rlp_uint(&mut payload, 0);
    assert(payload@ =~= unsigned_tx_payload(*tx));
    let unsigned = rlp_wrap_list(&payload);
    assert(unsigned@ == unsigned_tx_rlp(*tx));
    let digest = keccak_digest(&unsigned);
    let (sig_r, sig_s, recovery_id) = match sign_digest(key, &digest) {
        Ok(t) => t,
        Err(_) => {
            return Err(TransferError::Submission);
        },
    };
    let v: u64 = recovery_id + 35 + 2 * tx.chain_id;
    let trimmed_r = trim_zeros(&sig_r);
    let trimmed_s = trim_zeros(&sig_s);
    proof {
        lemma_trim_len(sig_r@);
        lemma_trim_len(sig_s@);
    }
    let request = tx.duplicate();
    let mut spayload: Vec<u8> = Vec::new();
    append_rlp_uint(&mut spayload, request.nonce as u128);
    append_rlp_uint(&mut spayload, request.gas_price);
    append_rlp_uint(&mut spayload, request.gas_limit as u128);
    append_rlp_bytes(&mut spayload, request.to.as_bytes());
    append_rlp_uint(&mut spayload, request.value);
    append_rlp_bytes(&mut spayload, &empty);
    append_rlp_uint(&mut spayload, v as u128);
    append_rlp_bytes(&mut spayload, &trimmed_r);
    append_rlp_bytes(&mut spayload, &trimmed_s);
    assert(spayload@ =~= signed_tx_payload(request, v, sig_r@, sig_s@));
    let raw = rlp_wrap_list(&spayload);
    let hash = keccak_digest(&raw);
    Ok(SignedTransaction { request, v, sig_r, sig_s, raw, hash })
}

} // verus!
