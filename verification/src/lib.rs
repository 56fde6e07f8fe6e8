//! Asymmetric-key signing and verification for JWT-style payloads.
//!
//! Three key families (RSA, ECDSA, Ed25519) share two capability traits:
//! [`SigningKey`] produces signatures over byte payloads and
//! [`VerificationKey`] checks them. Every `verify` binds the caller-supplied
//! algorithm name to the key's own configured algorithm before any
//! cryptographic work runs, so a signature is never accepted under an
//! algorithm the key owner did not choose. The arithmetic itself (hashing,
//! modular exponentiation, curve operations) is delegated to OpenSSL behind
//! a small set of trusted wrappers.

use vstd::prelude::*;

mod b64;
mod backend;
pub mod bytes;
pub mod ecdsa;
pub mod eddsa;
pub mod jwk;
pub mod rsa;

pub use jwk::AnyVerificationKey;
pub use jwk::Jwk;

verus! {

use crate::jwk::JwkView;
use crate::rsa::RsaAlgorithm;
use crate::rsa::rsa_name_spec;
use crate::ecdsa::EcdsaAlgorithm;
use crate::ecdsa::ecdsa_name_spec;
use crate::eddsa::eddsa_name_spec;

/// Errors reported by every fallible operation of this crate.
///
/// `UnsupportedOrInvalidKey` covers malformed PEM or JWK input, a key of the
/// wrong family for the requested operation, an RSA modulus below the
/// 2048-bit floor, and algorithm names outside the catalog at binding time.
/// `VerificationError` is the single, deliberately undifferentiated failure
/// of `verify`: an algorithm-name mismatch, an unresolvable name on an
/// algorithm-agnostic key, and a genuine cryptographic rejection all look the
/// same to the caller. `Crypto` passes an underlying OpenSSL failure through
/// unchanged.
#[derive(Debug)]
pub enum Error {
    UnsupportedOrInvalidKey,
    VerificationError,
    Crypto(openssl::error::ErrorStack),
}

/// The hash applied to the payload before the signature transform.
#[derive(Clone, Copy, PartialEq, Eq, Structural, Debug)]
pub enum DigestKind {
    Sha256,
    Sha384,
    Sha512,
}

/// The largest byte length a single input to the OpenSSL bindings may
/// have: the bindings assert that lengths fit the C `int` type and panic
/// beyond it, so every boundary function bounds its inputs here and the
/// library rejects longer ones as invalid before any call.
pub const FFI_LEN_MAX: usize = 0x7fff_ffff;

/// Catalog-wide uniqueness: no two algorithms of different families share
/// a wire name. Together with each family's own injectivity this makes
/// the canonical name unique across the whole catalog, so resolving a
/// claimed name can never land on an unintended algorithm.
pub proof fn lemma_catalog_names_unique(a: RsaAlgorithm, b: EcdsaAlgorithm)
    ensures
        rsa_name_spec(a) != ecdsa_name_spec(b),
        rsa_name_spec(a) != eddsa_name_spec(),
        ecdsa_name_spec(b) != eddsa_name_spec(),
{
    reveal_strlit("RS256");
    reveal_strlit("RS384");
    reveal_strlit("RS512");
    reveal_strlit("PS256");
    reveal_strlit("PS384");
    reveal_strlit("PS512");
    reveal_strlit("ES256");
    reveal_strlit("ES384");
    reveal_strlit("ES512");
    reveal_strlit("EdDSA");
    assert(rsa_name_spec(a)[0] != ecdsa_name_spec(b)[0]);
    assert(rsa_name_spec(a)[0] != eddsa_name_spec()[0]);
    assert(ecdsa_name_spec(b)[1] != eddsa_name_spec()[1]);
}

/// The capability of producing signatures over byte payloads with a key
/// bound to one algorithm.
pub trait SigningKey: Sized {
    /// Well-formedness of the key's stored material.
    spec fn sk_wf(&self) -> bool;

    /// The canonical wire name of the algorithm this key is bound to.
    spec fn sk_alg_name(&self) -> Seq<char>;

    /// The JWK record that `public_key_to_jwk` exports.
    spec fn sk_jwk_spec(&self) -> JwkView;

    /// Whether `sig` is a cryptographically valid signature over `v` for
    /// this key's public counterpart under its bound algorithm.
    spec fn sk_sig_ok(&self, v: Seq<u8>, sig: Seq<u8>) -> bool;

    /// The one signature this key can produce over `v` when its scheme is
    /// deterministic; `None` when the scheme is probabilistic.
    spec fn sk_fixed_sig(&self, v: Seq<u8>) -> Option<Seq<u8>>;

    /// The exact byte length of every signature this key produces, when
    /// the scheme fixes one; `None` when it varies.
    spec fn sk_sig_len(&self) -> Option<nat>;

    /// Signs `v` with this key's bound algorithm. Every signature handed
    /// out verifies under the key's own public components; a deterministic
    /// scheme yields its one fixed signature, and a scheme with a fixed
    /// signature width fills exactly that many bytes.
    ///
    /// The signature bytes come from the underlying cryptography provider;
    /// for probabilistic paddings two calls on equal input may differ.
    fn sign(&self, v: &[u8]) -> (r: Result<Vec<u8>, Error>)
        requires
            self.sk_wf(),
        ensures
            r matches Ok(sig) ==> self.sk_sig_ok(v@, sig@),
            r matches Ok(sig) ==> (self.sk_fixed_sig(v@) matches Some(s) ==> sig@ == s),
            r matches Ok(sig) ==> (self.sk_sig_len() matches Some(l) ==> sig@.len() == l),
            r matches Err(e) ==> e is Crypto,
    ;

    /// Exports the public counterpart of this key as a JSON Web Key.
    fn public_key_to_jwk(&self) -> (r: Result<Jwk, Error>)
        requires
            self.sk_wf(),
        ensures
            r matches Ok(j) && j@ == self.sk_jwk_spec(),
    ;

    /// The canonical name of the bound algorithm.
    fn alg(&self) -> (r: &'static str)
        ensures
            r@ == self.sk_alg_name(),
    ;
}

/// The capability of checking signatures over byte payloads.
///
/// Every implementation runs the algorithm-confusion guard before any
/// cryptographic comparison: the caller-supplied algorithm name must be one
/// the key accepts (`accepts_alg`), or the call fails with
/// `VerificationError` without consulting the cryptography provider.
pub trait VerificationKey: Sized {
    /// Well-formedness of the key's stored material.
    spec fn vk_wf(&self) -> bool;

    /// Whether this key is willing to verify under the claimed algorithm
    /// name. Algorithm-bound keys accept exactly their own canonical name;
    /// algorithm-agnostic keys accept every name of their family's catalog.
    spec fn accepts_alg(&self, alg: Seq<char>) -> bool;

    /// The JWK record that `public_key_to_jwk` exports.
    spec fn vk_jwk_spec(&self) -> JwkView;

    /// Whether `sig` is a cryptographically valid signature over `v` for
    /// this key under the algorithm the claimed name selects. A
    /// deterministic function of the key's public components and the
    /// arguments, so repeated calls decide alike.
    spec fn sig_ok(&self, alg: Seq<char>, v: Seq<u8>, sig: Seq<u8>) -> bool;

    /// Checks `sig` over `v` under the claimed algorithm name `alg`:
    /// succeeds exactly when the name passes the confusion guard and the
    /// signature is cryptographically valid, up to passthrough errors of
    /// the underlying library. Every failure the caller can observe is the
    /// single undifferentiated `VerificationError`.
    fn verify(&self, v: &[u8], sig: &[u8], alg: &str) -> (r: Result<(), Error>)
        requires
            self.vk_wf(),
        ensures
            r is Ok ==> self.accepts_alg(alg@) && self.sig_ok(alg@, v@, sig@),
            self.accepts_alg(alg@) && self.sig_ok(alg@, v@, sig@) ==> (r is Ok || (r matches Err(e)
                && e is Crypto)),
            !self.accepts_alg(alg@) ==> (r matches Err(e) && e is VerificationError),
            r matches Err(e) ==> (e is VerificationError || e is Crypto),
    ;

    /// Exports this key as a JSON Web Key.
    fn public_key_to_jwk(&self) -> (r: Result<Jwk, Error>)
        requires
            self.vk_wf(),
        ensures
            r matches Ok(j) && j@ == self.vk_jwk_spec(),
    ;
}

} // verus!
