use vstd::prelude::*;
use vstd::string::StringExecFns;
use crate::hex::{hex_of, lemma_hex_of_len, to_hex};
use ed25519_dalek::Signer;

verus! {

/// The Ed25519 public key derived from a 32-byte secret seed.
pub uninterp spec fn public_of(seed: Seq<u8>) -> Seq<u8>;

/// The Ed25519 signature of a message under a 32-byte secret seed. Ed25519
/// signing is deterministic, so the signature is a function of the seed and
/// the message alone.
pub uninterp spec fn sig_of(seed: Seq<u8>, msg: Seq<u8>) -> Seq<u8>;

/// Relies on ed25519_dalek::SigningKey::from_bytes and
/// VerifyingKey::to_bytes: the 32-byte public key depends on the 32-byte
/// secret seed alone.
#[verifier::external_body]
fn derive_public(seed: &Vec<u8>) -> (r: Vec<u8>)
    requires
        seed@.len() == 32,
    ensures
        r@ == public_of(seed@),
        r@.len() == 32,
{
    let bytes: [u8; 32] = seed.as_slice().try_into().unwrap();
    let key = ed25519_dalek::SigningKey::from_bytes(&bytes);
    key.verifying_key().to_bytes().to_vec()
}

/// Relies on ed25519_dalek::SigningKey::sign (RFC 8032 deterministic
/// signing): the 64-byte signature depends on the seed and message alone.
#[verifier::external_body]
fn sign_with_seed(seed: &Vec<u8>, msg: &Vec<u8>) -> (r: Vec<u8>)
    requires
        seed@.len() == 32,
    ensures
        r@ == sig_of(seed@, msg@),
        r@.len() == 64,
{
    let bytes: [u8; 32] = seed.as_slice().try_into().unwrap();
    let key = ed25519_dalek::SigningKey::from_bytes(&bytes);
    key.sign(msg.as_slice()).to_bytes().to_vec()
}

/// Relies on getrandom::getrandom to fill the buffer from the operating
/// system's entropy source; nothing is assumed of the bytes themselves. A
/// failure is reported under the crypto-kind prefix the body writes.
#[verifier::external_body]
fn os_entropy_32() -> (r: Result<Vec<u8>, String>)
    ensures
        r matches Ok(b) ==> b@.len() == 32,
        r matches Err(e) ==> e@.len() >= 14 && e@.subrange(0, 14) == "Crypto error: "@,
{
    let mut buf = vec![0u8; 32];
    match getrandom::getrandom(&mut buf) {
        Ok(()) => Ok(buf),
        Err(e) => Err(format!("Crypto error: {}", e)),
    }
}

/// The node's asymmetric signing credential, held as its 32-byte secret seed.
pub struct CryptoKeypair {
    seed: Vec<u8>,
}

impl CryptoKeypair {
    /// The secret seed the keypair holds.
    pub closed spec fn seed_view(&self) -> Seq<u8> {
        self.seed@
    }

    /// A keypair is well formed when its seed has the full 32 bytes.
    pub open spec fn wf(&self) -> bool {
        self.seed_view().len() == 32
    }

    /// Draws a fresh keypair from the operating system's entropy source; a
    /// failure carries a crypto-kind error message.
    pub fn generate() -> (r: Result<CryptoKeypair, String>)
        ensures
            r matches Ok(k) ==> k.wf(),
            r matches Err(e) ==> e@.len() >= 14 && e@.subrange(0, 14) == "Crypto error: "@,
    {
        match os_entropy_32() {
            Ok(seed) => Ok(CryptoKeypair { seed }),
            Err(e) => Err(e),
        }
    }

    /// Rebuilds a keypair from serialized bytes; exactly 32 bytes are valid.
    pub fn from_bytes(bytes: &Vec<u8>) -> (r: Result<CryptoKeypair, String>)
        ensures
            r is Ok <==> bytes@.len() == 32,
            r matches Ok(k) ==> k.wf() && k.seed_view() == bytes@,
            r matches Err(e) ==> e@ == "Crypto error: invalid keypair length"@,
    {
        if bytes.len() == 32 {
            let mut seed: Vec<u8> = Vec::new();
            let mut i: usize = 0;
            while i < bytes.len()
                invariant
                    i <= bytes.len(),
                    seed@ =~= bytes@.take(i as int),
                decreases bytes.len() - i,
            {
                seed.push(bytes[i]);
                proof {
                    assert(bytes@.take((i + 1) as int) =~= bytes@.take(i as int).push(
                        bytes@[i as int],
                    ));
                }
                i = i + 1;
            }
            proof {
                assert(bytes@.take(bytes@.len() as int) =~= bytes@);
            }
            Ok(CryptoKeypair { seed })
        } else {
            Err(String::from_str("Crypto error: invalid keypair length"))
        }
    }

    /// Serializes the keypair; `from_bytes` accepts the result back.
    pub fn to_bytes(&self) -> (r: Vec<u8>)
        ensures
            r@ == self.seed_view(),
    {
        let mut out: Vec<u8> = Vec::new();
        let mut i: usize = 0;
        while i < self.seed.len()
            invariant
                i <= self.seed.len(),
                out@ =~= self.seed@.take(i as int),
            decreases self.seed.len() - i,
        {
            out.push(self.seed[i]);
            proof {
                assert(self.seed@.take((i + 1) as int) =~= self.seed@.take(i as int).push(
                    self.seed@[i as int],
                ));
            }
            i = i + 1;
        }
        proof {
            assert(self.seed@.take(self.seed@.len() as int) =~= self.seed@);
        }
        out
    }

    /// The hex rendering of the keypair's public key: the node's identifier.
    pub fn public_key_hex(&self) -> (r: String)
        requires
            self.wf(),
        ensures
            r@ == hex_of(public_of(self.seed_view())),
            r@.len() == 64,
    {
        let pk = derive_public(&self.seed);
        let h = to_hex(&pk);
        proof {
            lemma_hex_of_len(pk@);
        }
        h
    }

    /// Signs a message with the keypair's secret seed.
    pub fn sign(&self, msg: &Vec<u8>) -> (r: Vec<u8>)
        requires
            self.wf(),
        ensures
            r@ == sig_of(self.seed_view(), msg@),
            r@.len() == 64,
    {
        sign_with_seed(&self.seed, msg)
    }
}

} // verus!
