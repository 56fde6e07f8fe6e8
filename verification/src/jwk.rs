//! The JSON Web Key interchange record and its reconstruction into
//! verification keys.

use vstd::prelude::*;
use crate::Error;
use crate::FFI_LEN_MAX;
use crate::VerificationKey;
use crate::b64::b64url_decode;
use crate::b64::b64url_of;
use crate::bytes::pad_spec;
use crate::bytes::str_eq;
use crate::bytes::strip_spec;
use crate::bytes::lemma_pad_strip_identity;
use crate::bytes::lemma_strip_normalized;
use crate::ecdsa::EcdsaAlgorithm;
use crate::ecdsa::EcdsaPrivateKey;
use crate::ecdsa::EcdsaPublicKey;
use crate::ecdsa::ecdsa_coord_len_spec;
use crate::ecdsa::ecdsa_curve_spec;
use crate::ecdsa::lemma_ecdsa_curve_round_trip;
use crate::eddsa::Ed25519PrivateKey;
use crate::eddsa::Ed25519PublicKey;
use crate::rsa::RsaAlgorithm;
use crate::rsa::RsaAnyPublicKey;
use crate::rsa::RsaPrivateKey;
use crate::rsa::RsaPublicKey;
use crate::rsa::lemma_rsa_name_round_trip;
use crate::rsa::rsa_from_name_spec;
use crate::rsa::rsa_name_spec;
use crate::SigningKey;

verus! {

/// The mathematical content of a [`Jwk`]: each field as a character
/// sequence. Binary fields hold base64url text without padding.
#[verifier::ext_equal]
pub ghost struct JwkView {
    pub kty: Seq<char>,
    pub use_: Option<Seq<char>>,
    pub alg: Option<Seq<char>>,
    pub n: Option<Seq<char>>,
    pub e: Option<Seq<char>>,
    pub crv: Option<Seq<char>>,
    pub x: Option<Seq<char>>,
    pub y: Option<Seq<char>>,
}

/// A flat JSON Web Key record covering all three families.
///
/// Fields outside the key's family are absent (`None`), never empty-valued.
/// All binary fields are base64url-encoded without `=` padding.
pub struct Jwk {
    pub kty: String,
    pub use_: Option<String>,
    pub alg: Option<String>,
    pub n: Option<String>,
    pub e: Option<String>,
    pub crv: Option<String>,
    pub x: Option<String>,
    pub y: Option<String>,
}

/// The view of an optional string field.
pub open spec fn opt_view(o: Option<String>) -> Option<Seq<char>> {
    match o {
        Some(s) => Some(s@),
        None => None,
    }
}

impl View for Jwk {
    type V = JwkView;

    open spec fn view(&self) -> JwkView {
        JwkView {
            kty: self.kty@,
            use_: opt_view(self.use_),
            alg: opt_view(self.alg),
            n: opt_view(self.n),
            e: opt_view(self.e),
            crv: opt_view(self.crv),
            x: opt_view(self.x),
            y: opt_view(self.y),
        }
    }
}

/// The JWK record `j` carries exactly what reconstructs a bound RSA
/// verification key of algorithm `a` with components `n` and `e`.
pub open spec fn jwk_reconstructs_rsa(j: JwkView, a: RsaAlgorithm, n: Seq<u8>, e: Seq<u8>) -> bool {
    j.kty == "RSA"@ && j.alg == Some(rsa_name_spec(a)) && j.n == Some(b64url_of(n)) && j.e == Some(
        b64url_of(e),
    )
}

/// The JWK record `j` carries exactly what reconstructs an
/// algorithm-agnostic RSA verification key with components `n` and `e`.
pub open spec fn jwk_reconstructs_rsa_any(j: JwkView, n: Seq<u8>, e: Seq<u8>) -> bool {
    j.kty == "RSA"@ && j.alg is None && j.n == Some(b64url_of(n)) && j.e == Some(b64url_of(e))
}

/// The JWK record `j` carries exactly what reconstructs an ECDSA
/// verification key of algorithm `a` with affine coordinates `x` and `y`.
pub open spec fn jwk_reconstructs_ec(
    j: JwkView,
    a: EcdsaAlgorithm,
    x: Seq<u8>,
    y: Seq<u8>,
) -> bool {
    j.kty == "EC"@ && j.crv == Some(ecdsa_curve_spec(a)) && j.x == Some(b64url_of(x)) && j.y
        == Some(b64url_of(y))
}

/// The JWK record `j` carries exactly what reconstructs an Ed25519
/// verification key with raw public bytes `x`.
pub open spec fn jwk_reconstructs_okp(j: JwkView, x: Seq<u8>) -> bool {
    j.kty == "OKP"@ && j.crv == Some("Ed25519"@) && j.x == Some(b64url_of(x))
}

/// A verification key reconstructed from a JWK: one concrete key of any
/// family.
#[derive(Debug)]
pub enum AnyVerificationKey {
    Rsa(RsaPublicKey),
    RsaAny(RsaAnyPublicKey),
    Ecdsa(EcdsaPublicKey),
    Ed25519(Ed25519PublicKey),
}

impl VerificationKey for AnyVerificationKey {
    open spec fn vk_wf(&self) -> bool {
        match self {
            AnyVerificationKey::Rsa(k) => k.wf(),
            AnyVerificationKey::RsaAny(k) => k.wf(),
            AnyVerificationKey::Ecdsa(k) => k.wf(),
            AnyVerificationKey::Ed25519(k) => k.vk_wf(),
        }
    }

    open spec fn accepts_alg(&self, alg: Seq<char>) -> bool {
        match self {
            AnyVerificationKey::Rsa(k) => k.accepts_alg(alg),
            AnyVerificationKey::RsaAny(k) => k.accepts_alg(alg),
            AnyVerificationKey::Ecdsa(k) => k.accepts_alg(alg),
            AnyVerificationKey::Ed25519(k) => k.accepts_alg(alg),
        }
    }

    open spec fn vk_jwk_spec(&self) -> JwkView {
        match self {
            AnyVerificationKey::Rsa(k) => k.vk_jwk_spec(),
            AnyVerificationKey::RsaAny(k) => k.vk_jwk_spec(),
            AnyVerificationKey::Ecdsa(k) => k.vk_jwk_spec(),
            AnyVerificationKey::Ed25519(k) => k.vk_jwk_spec(),
        }
    }

    open spec fn sig_ok(&self, alg: Seq<char>, v: Seq<u8>, sig: Seq<u8>) -> bool {
        match self {
            AnyVerificationKey::Rsa(k) => k.sig_ok(alg, v, sig),
            AnyVerificationKey::RsaAny(k) => k.sig_ok(alg, v, sig),
            AnyVerificationKey::Ecdsa(k) => k.sig_ok(alg, v, sig),
            AnyVerificationKey::Ed25519(k) => k.sig_ok(alg, v, sig),
        }
    }

    fn verify(&self, v: &[u8], sig: &[u8], alg: &str) -> (r: Result<(), Error>) {
        match self {
            AnyVerificationKey::Rsa(k) => k.verify(v, sig, alg),
            AnyVerificationKey::RsaAny(k) => k.verify(v, sig, alg),
            AnyVerificationKey::Ecdsa(k) => k.verify(v, sig, alg),
            AnyVerificationKey::Ed25519(k) => k.verify(v, sig, alg),
        }
    }

    fn public_key_to_jwk(&self) -> (r: Result<Jwk, Error>) {
        match self {
            AnyVerificationKey::Rsa(k) => k.public_key_to_jwk(),
            AnyVerificationKey::RsaAny(k) => k.public_key_to_jwk(),
            AnyVerificationKey::Ecdsa(k) => k.public_key_to_jwk(),
            AnyVerificationKey::Ed25519(k) => k.public_key_to_jwk(),
        }
    }
}

impl Jwk {
    /// Reconstructs a verification key from this record, dispatched on
    /// `kty` alone — the family is never guessed from which other fields
    /// happen to be present. An RSA record with an `alg` name yields a key
    /// bound to that algorithm; one without yields an algorithm-agnostic
    /// key. Missing or malformed family fields are an invalid-key error.
    pub fn to_verification_key(&self) -> (r: Result<AnyVerificationKey, Error>)
        ensures
            r matches Ok(vk) ==> vk.vk_wf(),
            r matches Err(e) ==> (e is UnsupportedOrInvalidKey || e is Crypto),
            forall|a: RsaAlgorithm, nv: Seq<u8>, ev: Seq<u8>|
                jwk_reconstructs_rsa(self@, a, nv, ev) ==> (r matches Ok(vk)
                    && vk matches AnyVerificationKey::Rsa(k) && k.alg_spec() == a && k.n_spec()
                    == strip_spec(nv) && k.e_spec() == strip_spec(ev)) || (r matches Err(e)
                    && e is Crypto) || nv.len() > FFI_LEN_MAX || ev.len() > FFI_LEN_MAX,
            forall|nv: Seq<u8>, ev: Seq<u8>|
                jwk_reconstructs_rsa_any(self@, nv, ev) ==> (r matches Ok(vk)
                    && vk matches AnyVerificationKey::RsaAny(k) && k.n_spec() == strip_spec(nv)
                    && k.e_spec() == strip_spec(ev)) || (r matches Err(e) && e is Crypto)
                    || nv.len() > FFI_LEN_MAX || ev.len() > FFI_LEN_MAX,
            forall|a: EcdsaAlgorithm, xv: Seq<u8>, yv: Seq<u8>|
                jwk_reconstructs_ec(self@, a, xv, yv) ==> (r matches Ok(vk)
                    && vk matches AnyVerificationKey::Ecdsa(k) && k.alg_spec() == a && k.x_spec()
                    == pad_spec(strip_spec(xv), ecdsa_coord_len_spec(a)) && k.y_spec() == pad_spec(
                    strip_spec(yv),
                    ecdsa_coord_len_spec(a),
                )) || (r matches Err(e) && (e is UnsupportedOrInvalidKey || e is Crypto)),
            forall|xv: Seq<u8>|
                jwk_reconstructs_okp(self@, xv) ==> (r matches Ok(vk)
                    && vk matches AnyVerificationKey::Ed25519(k) && k.x_spec() == xv) || (
                r matches Err(e) && e is UnsupportedOrInvalidKey),
            self@.kty != "RSA"@ && self@.kty != "EC"@ && self@.kty != "OKP"@ ==> (r matches Err(e)
                && e is UnsupportedOrInvalidKey),
            self@.kty == "RSA"@ && (self@.n is None || self@.e is None) ==> (r matches Err(e)
                && e is UnsupportedOrInvalidKey),
            self@.kty == "EC"@ && (self@.crv is None || self@.x is None || self@.y is None) ==> (
            r matches Err(e) && e is UnsupportedOrInvalidKey),
            self@.kty == "OKP"@ && (self@.crv is None || self@.x is None) ==> (r matches Err(e)
                && e is UnsupportedOrInvalidKey),
    {
        proof {
            reveal_strlit("RSA");
            reveal_strlit("EC");
            reveal_strlit("OKP");
            assert("RSA"@.len() != "EC"@.len());
            assert("RSA"@[0] != "OKP"@[0]);
            assert("EC"@.len() != "OKP"@.len());
            assert forall|a: RsaAlgorithm|
                rsa_from_name_spec(#[trigger] rsa_name_spec(a)) == Some(a) by {
                lemma_rsa_name_round_trip(a);
            }
            assert forall|a: EcdsaAlgorithm|
                crate::ecdsa::ecdsa_from_curve_spec(#[trigger] ecdsa_curve_spec(a)) == Some(a) by {
                lemma_ecdsa_curve_round_trip(a);
            }
        }
        if str_eq(self.kty.as_str(), "RSA") {
            let ns = match &self.n {
                Some(s) => s,
                None => return Err(Error::UnsupportedOrInvalidKey),
            };
            let es = match &self.e {
                Some(s) => s,
                None => return Err(Error::UnsupportedOrInvalidKey),
            };
            let nv = match b64url_decode(ns.as_str()) {
                Ok(v) => v,
                Err(er) => return Err(er),
            };
            let ev = match b64url_decode(es.as_str()) {
                Ok(v) => v,
                Err(er) => return Err(er),
            };
            if nv.len() > FFI_LEN_MAX || ev.len() > FFI_LEN_MAX {
                return Err(Error::UnsupportedOrInvalidKey);
            }
            match &self.alg {
                Some(astr) => {
                    let algorithm = match RsaAlgorithm::from_name(astr.as_str()) {
                        Ok(a) => a,
                        Err(er) => return Err(er),
                    };
                    match RsaPublicKey::from_components(nv.as_slice(), ev.as_slice(), algorithm) {
                        Ok(k) => Ok(AnyVerificationKey::Rsa(k)),
                        Err(er) => Err(er),
                    }
                },
                None => {
                    match RsaAnyPublicKey::from_components(nv.as_slice(), ev.as_slice()) {
                        Ok(k) => Ok(AnyVerificationKey::RsaAny(k)),
                        Err(er) => Err(er),
                    }
                },
            }
        } else if str_eq(self.kty.as_str(), "EC") {
            let crv = match &self.crv {
                Some(s) => s,
                None => return Err(Error::UnsupportedOrInvalidKey),
            };
            let xs = match &self.x {
                Some(s) => s,
                None => return Err(Error::UnsupportedOrInvalidKey),
            };
            let ys = match &self.y {
                Some(s) => s,
                None => return Err(Error::UnsupportedOrInvalidKey),
            };
            let algorithm = match EcdsaAlgorithm::from_curve(crv.as_str()) {
                Ok(a) => a,
                Err(er) => return Err(er),
            };
            let xv = match b64url_decode(xs.as_str()) {
                Ok(v) => v,
                Err(er) => return Err(er),
            };
            let yv = match b64url_decode(ys.as_str()) {
                Ok(v) => v,
                Err(er) => return Err(er),
            };
            match EcdsaPublicKey::from_coordinates(xv.as_slice(), yv.as_slice(), algorithm) {
                Ok(k) => Ok(AnyVerificationKey::Ecdsa(k)),
                Err(er) => Err(er),
            }
        } else if str_eq(self.kty.as_str(), "OKP") {
            let crv = match &self.crv {
                Some(s) => s,
                None => return Err(Error::UnsupportedOrInvalidKey),
            };
            let xs = match &self.x {
                Some(s) => s,
                None => return Err(Error::UnsupportedOrInvalidKey),
            };
            if !str_eq(crv.as_str(), "Ed25519") {
                return Err(Error::UnsupportedOrInvalidKey);
            }
            let xv = match b64url_decode(xs.as_str()) {
                Ok(v) => v,
                Err(er) => return Err(er),
            };
            match Ed25519PublicKey::from_raw(xv.as_slice()) {
                Ok(k) => Ok(AnyVerificationKey::Ed25519(k)),
                Err(er) => Err(er),
            }
        } else {
            Err(Error::UnsupportedOrInvalidKey)
        }
    }
}

/// JWK fidelity for a bound RSA verification key: the record it exports
/// satisfies the reconstruction predicate of `to_verification_key` with
/// the key's own algorithm and components, and those components are
/// normalized, so reconstruction hands them back unchanged.
pub proof fn lemma_rsa_jwk_fidelity(k: &RsaPublicKey)
    requires
        k.wf(),
    ensures
        jwk_reconstructs_rsa(k.vk_jwk_spec(), k.alg_spec(), k.n_spec(), k.e_spec()),
        strip_spec(k.n_spec()) == k.n_spec(),
        strip_spec(k.e_spec()) == k.e_spec(),
{
    lemma_strip_normalized(k.n_spec());
    lemma_strip_normalized(k.e_spec());
}

/// JWK fidelity for an RSA private key: the record its signing capability
/// exports reconstructs the bound public counterpart with the same
/// components.
pub proof fn lemma_rsa_private_jwk_fidelity(k: &RsaPrivateKey)
    requires
        k.wf(),
    ensures
        jwk_reconstructs_rsa(k.sk_jwk_spec(), k.alg_spec(), k.n_spec(), k.e_spec()),
        strip_spec(k.n_spec()) == k.n_spec(),
        strip_spec(k.e_spec()) == k.e_spec(),
{
    lemma_strip_normalized(k.n_spec());
    lemma_strip_normalized(k.e_spec());
}

/// JWK fidelity for an algorithm-agnostic RSA verification key.
pub proof fn lemma_rsa_any_jwk_fidelity(k: &RsaAnyPublicKey)
    requires
        k.wf(),
    ensures
        jwk_reconstructs_rsa_any(k.vk_jwk_spec(), k.n_spec(), k.e_spec()),
        strip_spec(k.n_spec()) == k.n_spec(),
        strip_spec(k.e_spec()) == k.e_spec(),
{
    lemma_strip_normalized(k.n_spec());
    lemma_strip_normalized(k.e_spec());
}

/// JWK fidelity for an ECDSA verification key: the exported record
/// reconstructs a key with the same algorithm and the same fixed-width
/// coordinates.
pub proof fn lemma_ec_jwk_fidelity(k: &EcdsaPublicKey)
    requires
        k.wf(),
    ensures
        jwk_reconstructs_ec(k.vk_jwk_spec(), k.alg_spec(), k.x_spec(), k.y_spec()),
        pad_spec(strip_spec(k.x_spec()), ecdsa_coord_len_spec(k.alg_spec())) == k.x_spec(),
        pad_spec(strip_spec(k.y_spec()), ecdsa_coord_len_spec(k.alg_spec())) == k.y_spec(),
{
    lemma_pad_strip_identity(k.x_spec());
    lemma_pad_strip_identity(k.y_spec());
}

/// JWK fidelity for an ECDSA private key, through its signing capability.
pub proof fn lemma_ec_private_jwk_fidelity(k: &EcdsaPrivateKey)
    requires
        k.wf(),
    ensures
        jwk_reconstructs_ec(k.sk_jwk_spec(), k.alg_spec(), k.x_spec(), k.y_spec()),
        pad_spec(strip_spec(k.x_spec()), ecdsa_coord_len_spec(k.alg_spec())) == k.x_spec(),
        pad_spec(strip_spec(k.y_spec()), ecdsa_coord_len_spec(k.alg_spec())) == k.y_spec(),
{
    lemma_pad_strip_identity(k.x_spec());
    lemma_pad_strip_identity(k.y_spec());
}

/// JWK fidelity for an Ed25519 verification key: the exported record
/// reconstructs a key with the same raw public bytes.
pub proof fn lemma_okp_jwk_fidelity(k: &Ed25519PublicKey)
    ensures
        jwk_reconstructs_okp(k.vk_jwk_spec(), k.x_spec()),
{
}

/// JWK fidelity for an Ed25519 private key, through its signing
/// capability.
pub proof fn lemma_okp_private_jwk_fidelity(k: &Ed25519PrivateKey)
    ensures
        jwk_reconstructs_okp(k.sk_jwk_spec(), k.x_spec()),
{
}

} // verus!

