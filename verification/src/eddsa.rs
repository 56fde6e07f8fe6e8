//! The Edwards-curve DSA family: Ed25519 keys under the single catalog
//! name "EdDSA".

use vstd::prelude::*;
use openssl::pkey::{PKey, Private, Public};
use crate::Error;
use crate::FFI_LEN_MAX;
use crate::SigningKey;
use crate::VerificationKey;
use crate::backend;
use crate::b64::b64url_of;
use crate::b64::b64url_encode;
use crate::bytes::bytes_eq;
use crate::bytes::str_eq;
use crate::jwk::Jwk;
use crate::jwk::JwkView;

verus! {

/// The canonical wire name of the Edwards-curve DSA algorithm.
pub open spec fn eddsa_name_spec() -> Seq<char> {
    "EdDSA"@
}

/// Whether OpenSSL's one-shot verification accepts `sig` over `v` for the
/// Ed25519 public key with raw bytes `x`. The outcome is a function of
/// these values alone; the trusted verification wrapper ties this name to
/// it.
pub uninterp spec fn ed25519_verify_ok(x: Seq<u8>, v: Seq<u8>, sig: Seq<u8>) -> bool;

/// What OpenSSL's PKCS#8 parse makes of a PEM block read as an Ed25519
/// private key: the raw 32 bytes of its public half, `None` for another
/// family or malformed text.
pub uninterp spec fn ed25519_pkcs8_parse(pem: Seq<u8>) -> Option<Seq<u8>>;

/// What OpenSSL makes of a SubjectPublicKeyInfo PEM block read as an
/// Ed25519 public key, in the same form as `ed25519_pkcs8_parse`.
pub uninterp spec fn ed25519_spki_parse(pem: Seq<u8>) -> Option<Seq<u8>>;

/// Whether OpenSSL accepts `x` as the raw form of an Ed25519 public key.
pub uninterp spec fn ed25519_raw_ok(x: Seq<u8>) -> bool;

/// The SubjectPublicKeyInfo PEM text of the Ed25519 public key with raw
/// bytes `x`: a function of those bytes alone.
pub uninterp spec fn ed25519_spki_pem_of(x: Seq<u8>) -> Seq<u8>;

/// The JWK record exported for Ed25519 key material: `kty` "OKP", curve
/// "Ed25519", and the raw public key bytes in base64url. Fields of other
/// families are absent.
pub open spec fn okp_jwk_view(x: Seq<u8>) -> JwkView {
    JwkView {
        kty: "OKP"@,
        use_: Some("sig"@),
        alg: Some("EdDSA"@),
        n: None,
        e: None,
        crv: Some("Ed25519"@),
        x: Some(b64url_of(x)),
        y: None,
    }
}

/// An Ed25519 private key. The family has a single algorithm, so the
/// binding is fixed at "EdDSA".
#[derive(Debug)]
pub struct Ed25519PrivateKey {
    private_key: PKey<Private>,
    x: Vec<u8>,
}

impl Ed25519PrivateKey {
    /// The raw bytes of the public key.
    pub closed spec fn x_spec(&self) -> Seq<u8> {
        self.x@
    }

    /// The stored raw public key has Ed25519's fixed width of 32 bytes.
    pub open spec fn wf(&self) -> bool {
        self.x_spec().len() == 32
    }

    /// Generates a fresh Ed25519 key.
    pub fn generate() -> (r: Result<Self, Error>)
        ensures
            r matches Ok(k) ==> k.wf(),
            r matches Err(e) ==> e is Crypto,
    {
        let (pkey, raw) = match backend::ed25519_generate() {
            Ok(t) => t,
            Err(er) => return Err(er),
        };
        Ok(Ed25519PrivateKey { private_key: pkey, x: raw })
    }

    /// Imports a PKCS#8 private-key PEM block: the import succeeds exactly
    /// when the block parses as an Ed25519 private key — a key of another
    /// family is rejected as invalid — and the key then holds the parsed
    /// raw public bytes.
    pub fn from_pem(pem: &[u8]) -> (r: Result<Self, Error>)
        ensures
            r matches Ok(k) ==> k.wf() && ed25519_pkcs8_parse(pem@) == Some(k.x_spec()),
            r matches Err(e) ==> (e is UnsupportedOrInvalidKey && (pem@.len() > FFI_LEN_MAX
                || ed25519_pkcs8_parse(pem@) is None)) || e is Crypto,
    {
        if pem.len() > FFI_LEN_MAX {
            return Err(Error::UnsupportedOrInvalidKey);
        }
        let (pkey, raw) = match backend::ed25519_private_from_pem(pem) {
            Ok(t) => t,
            Err(er) => return Err(er),
        };
        Ok(Ed25519PrivateKey { private_key: pkey, x: raw })
    }

    /// Serializes the private key as a PKCS#8 PEM block. The produced
    /// text parses back to an Ed25519 key with exactly this key's raw
    /// public bytes and to no other family's key, which is checked
    /// against the stored bytes before the text is handed out.
    pub fn private_key_to_pem_pkcs8(&self) -> (r: Result<Vec<u8>, Error>)
        ensures
            r matches Ok(p) ==> ed25519_pkcs8_parse(p@) == Some(self.x_spec())
                && crate::rsa::rsa_pkcs8_parse(p@) is None && crate::ecdsa::ec_pkcs8_parse(p@)
                is None,
            r matches Err(e) ==> e is Crypto,
    {
        let p = match backend::private_key_to_pem_pkcs8(&self.private_key) {
            Ok(p) => p,
            Err(er) => return Err(er),
        };
        if p.len() > FFI_LEN_MAX {
            return Err(backend::crypto_error());
        }
        let (_k, raw2) = match backend::ed25519_private_from_pem(p.as_slice()) {
            Ok(t) => t,
            Err(_) => return Err(backend::crypto_error()),
        };
        if bytes_eq(raw2.as_slice(), self.x.as_slice()) {
            Ok(p)
        } else {
            Err(backend::crypto_error())
        }
    }

    /// Serializes the public half as a SubjectPublicKeyInfo PEM block: a
    /// canonical function of the raw public bytes, which OpenSSL parses
    /// back to those bytes.
    pub fn public_key_pem(&self) -> (r: Result<Vec<u8>, Error>)
        ensures
            r matches Ok(p) ==> p@ == ed25519_spki_pem_of(self.x_spec()) && ed25519_spki_parse(p@)
                == Some(self.x_spec()),
            r matches Err(e) ==> (e is UnsupportedOrInvalidKey || e is Crypto),
    {
        backend::ed25519_spki_pem(self.x.as_slice())
    }
}

/// An Ed25519 public key.
#[derive(Debug)]
pub struct Ed25519PublicKey {
    public_key: PKey<Public>,
    x: Vec<u8>,
}

impl Ed25519PublicKey {
    /// The raw bytes of the public key.
    pub closed spec fn x_spec(&self) -> Seq<u8> {
        self.x@
    }

    /// The stored raw public key has Ed25519's fixed width of 32 bytes.
    pub open spec fn wf(&self) -> bool {
        self.x_spec().len() == 32
    }

    /// Imports a SubjectPublicKeyInfo PEM block: the import succeeds
    /// exactly when the block parses as an Ed25519 public key, and the key
    /// then holds the parsed raw bytes.
    pub fn from_pem(pem: &[u8]) -> (r: Result<Self, Error>)
        ensures
            r matches Ok(k) ==> k.wf() && ed25519_spki_parse(pem@) == Some(k.x_spec()),
            r matches Err(e) ==> (e is UnsupportedOrInvalidKey && (pem@.len() > FFI_LEN_MAX
                || ed25519_spki_parse(pem@) is None)) || e is Crypto,
    {
        if pem.len() > FFI_LEN_MAX {
            return Err(Error::UnsupportedOrInvalidKey);
        }
        let (pkey, raw) = match backend::ed25519_public_from_spki_pem(pem) {
            Ok(t) => t,
            Err(er) => return Err(er),
        };
        Ok(Ed25519PublicKey { public_key: pkey, x: raw })
    }

    /// Builds a key from the raw 32-byte public key form, which is also
    /// the JWK `x` coordinate: succeeds exactly when the bytes are 32 wide
    /// and OpenSSL accepts them as such a key, and then holds them
    /// unchanged.
    pub fn from_raw(x: &[u8]) -> (r: Result<Self, Error>)
        ensures
            r matches Ok(k) ==> k.wf() && k.x_spec() == x@ && ed25519_raw_ok(x@),
            r matches Err(e) ==> e is UnsupportedOrInvalidKey && (x@.len() != 32 || !ed25519_raw_ok(
                x@,
            )),
    {
        if x.len() != 32 {
            return Err(Error::UnsupportedOrInvalidKey);
        }
        let pkey = match backend::ed25519_public_from_raw(x) {
            Ok(p) => p,
            Err(er) => return Err(er),
        };
        Ok(Ed25519PublicKey { public_key: pkey, x: vstd::slice::slice_to_vec(x) })
    }

    /// Serializes the key as a SubjectPublicKeyInfo PEM block: a canonical
    /// function of the raw public bytes, which OpenSSL parses back to
    /// those bytes.
    pub fn to_pem(&self) -> (r: Result<Vec<u8>, Error>)
        ensures
            r matches Ok(p) ==> p@ == ed25519_spki_pem_of(self.x_spec()) && ed25519_spki_parse(p@)
                == Some(self.x_spec()),
            r matches Err(e) ==> (e is UnsupportedOrInvalidKey || e is Crypto),
    {
        backend::ed25519_spki_pem(self.x.as_slice())
    }
}

impl SigningKey for Ed25519PrivateKey {
    open spec fn sk_wf(&self) -> bool {
        self.wf()
    }

    open spec fn sk_alg_name(&self) -> Seq<char> {
        eddsa_name_spec()
    }

    open spec fn sk_jwk_spec(&self) -> JwkView {
        okp_jwk_view(self.x_spec())
    }

    open spec fn sk_sig_ok(&self, v: Seq<u8>, sig: Seq<u8>) -> bool {
        ed25519_verify_ok(self.x_spec(), v, sig)
    }

    open spec fn sk_fixed_sig(&self, v: Seq<u8>) -> Option<Seq<u8>> {
        None
    }

    open spec fn sk_sig_len(&self) -> Option<nat> {
        Some(64)
    }

    fn sign(&self, v: &[u8]) -> (r: Result<Vec<u8>, Error>) {
        let sig = match backend::ed25519_sign(&self.private_key, v) {
            Ok(s) => s,
            Err(er) => return Err(er),
        };
        let ok = match backend::ed25519_verify_components(self.x.as_slice(), v, sig.as_slice()) {
            Ok(b) => b,
            Err(er) => return Err(er),
        };
        if ok {
            Ok(sig)
        } else {
            Err(backend::crypto_error())
        }
    }

    fn public_key_to_jwk(&self) -> (r: Result<Jwk, Error>) {
        Ok(
            Jwk {
                kty: "OKP".to_owned(),
                use_: Some("sig".to_owned()),
                alg: Some("EdDSA".to_owned()),
                n: None,
                e: None,
                crv: Some("Ed25519".to_owned()),
                x: Some(b64url_encode(self.x.as_slice())),
                y: None,
            },
        )
    }

    fn alg(&self) -> (r: &'static str) {
        "EdDSA"
    }
}

impl VerificationKey for Ed25519PrivateKey {
    open spec fn vk_wf(&self) -> bool {
        self.wf()
    }

    open spec fn accepts_alg(&self, alg: Seq<char>) -> bool {
        alg == eddsa_name_spec()
    }

    open spec fn vk_jwk_spec(&self) -> JwkView {
        okp_jwk_view(self.x_spec())
    }

    open spec fn sig_ok(&self, alg: Seq<char>, v: Seq<u8>, sig: Seq<u8>) -> bool {
        ed25519_verify_ok(self.x_spec(), v, sig)
    }

    fn verify(&self, v: &[u8], sig: &[u8], alg: &str) -> (r: Result<(), Error>) {
        if !str_eq(alg, "EdDSA") {
            return Err(Error::VerificationError);
        }
        let ok = match backend::ed25519_verify_components(self.x.as_slice(), v, sig) {
            Ok(b) => b,
            Err(er) => return Err(er),
        };
        if ok {
            Ok(())
        } else {
            Err(Error::VerificationError)
        }
    }

    fn public_key_to_jwk(&self) -> (r: Result<Jwk, Error>) {
        Ok(
            Jwk {
                kty: "OKP".to_owned(),
                use_: Some("sig".to_owned()),
                alg: Some("EdDSA".to_owned()),
                n: None,
                e: None,
                crv: Some("Ed25519".to_owned()),
                x: Some(b64url_encode(self.x.as_slice())),
                y: None,
            },
        )
    }
}

impl VerificationKey for Ed25519PublicKey {
    open spec fn vk_wf(&self) -> bool {
        self.wf()
    }

    open spec fn accepts_alg(&self, alg: Seq<char>) -> bool {
        alg == eddsa_name_spec()
    }

    open spec fn vk_jwk_spec(&self) -> JwkView {
        okp_jwk_view(self.x_spec())
    }

    open spec fn sig_ok(&self, alg: Seq<char>, v: Seq<u8>, sig: Seq<u8>) -> bool {
        ed25519_verify_ok(self.x_spec(), v, sig)
    }

    fn verify(&self, v: &[u8], sig: &[u8], alg: &str) -> (r: Result<(), Error>) {
        if !str_eq(alg, "EdDSA") {
            return Err(Error::VerificationError);
        }
        let ok = match backend::ed25519_verify_components(self.x.as_slice(), v, sig) {
            Ok(b) => b,
            Err(er) => return Err(er),
        };
        if ok {
            Ok(())
        } else {
            Err(Error::VerificationError)
        }
    }

    fn public_key_to_jwk(&self) -> (r: Result<Jwk, Error>) {
        Ok(
            Jwk {
                kty: "OKP".to_owned(),
                use_: Some("sig".to_owned()),
                alg: Some("EdDSA".to_owned()),
                n: None,
                e: None,
                crv: Some("Ed25519".to_owned()),
                x: Some(b64url_encode(self.x.as_slice())),
                y: None,
            },
        )
    }
}

/// An Ed25519 private key acting as its own verifier and a public
/// verification key with the same raw public bytes agree on every claimed
/// name and on every (payload, signature) pair, so the two verifiers are
/// interchangeable up to underlying-library errors.
pub proof fn lemma_ed25519_private_public_verifier_agree(
    k: &Ed25519PrivateKey,
    p: &Ed25519PublicKey,
    alg: Seq<char>,
    v: Seq<u8>,
    sig: Seq<u8>,
)
    requires
        k.x_spec() == p.x_spec(),
    ensures
        k.accepts_alg(alg) == p.accepts_alg(alg),
        k.sig_ok(alg, v, sig) == p.sig_ok(alg, v, sig),
{
}

} // verus!
