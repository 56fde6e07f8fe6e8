//! The trusted boundary to OpenSSL: type declarations and thin wrappers
//! around the cryptographic primitives. Each wrapper's body makes one
//! OpenSSL call chain and converts arguments and results; everything it
//! promises is stated in its contract and believed, not proved. Wrappers
//! whose outcome is a function of plain values alone (parsing, encoding,
//! verification) tie that outcome to a named spec function, so that
//! verified callers can state when success is owed.

use vstd::prelude::*;
use openssl::bn::{BigNum, BigNumContext};
use openssl::ec::{EcGroup, EcKey};
use openssl::hash::MessageDigest;
use openssl::nid::Nid;
use openssl::pkey::{Id, PKey, Private, Public};
use openssl::rsa::{Padding, Rsa};
use openssl::sign::{RsaPssSaltlen, Signer, Verifier};
use crate::DigestKind;
use crate::Error;
use crate::Error::Crypto;
use crate::Error::UnsupportedOrInvalidKey;
use crate::FFI_LEN_MAX;
use crate::bytes::bit_len_spec;
use crate::bytes::contains_seq;
use crate::bytes::no_leading_zero;
use crate::bytes::strip_spec;
use crate::ecdsa::EcdsaAlgorithm;
use crate::ecdsa::ec_pkcs8_parse;
use crate::ecdsa::ec_point_acceptable;
use crate::ecdsa::ec_spki_parse;
use crate::ecdsa::ec_spki_pem_of;
use crate::ecdsa::ecdsa_verify_ok;
use crate::eddsa::ed25519_pkcs8_parse;
use crate::eddsa::ed25519_raw_ok;
use crate::eddsa::ed25519_spki_parse;
use crate::eddsa::ed25519_spki_pem_of;
use crate::eddsa::ed25519_verify_ok;
use crate::rsa::begin_rsa_marker;
use crate::rsa::rsa_pkcs1_parse;
use crate::rsa::rsa_pkcs1_pem_of;
use crate::rsa::proc_type_marker;
use crate::rsa::rsa_pkcs1_sig_of;
use crate::rsa::rsa_pkcs8_parse;
use crate::rsa::rsa_spki_parse;
use crate::rsa::rsa_spki_pem_of;
use crate::rsa::rsa_verify_ok;

verus! {

#[verifier::external_type_specification]
#[verifier::external_body]
#[verifier::reject_recursive_types(T)]
pub struct ExPKey<T>(PKey<T>);

#[verifier::external_type_specification]
#[verifier::external_body]
pub struct ExPrivate(Private);

#[verifier::external_type_specification]
#[verifier::external_body]
pub struct ExPublic(Public);

#[verifier::external_type_specification]
#[verifier::external_body]
pub struct ExErrorStack(openssl::error::ErrorStack);

/// Relies on `ErrorStack::get`: drains the thread's OpenSSL error queue
/// into a passthrough error value.
#[verifier::external_body]
pub(crate) fn crypto_error() -> (r: Error)
    ensures
        r is Crypto,
{
    Error::Crypto(openssl::error::ErrorStack::get())
}

/// Relies on `openssl::rsa::Rsa::generate`: generates a fresh RSA key of
/// `bits` modulus bits and returns it with the big-endian bytes of its
/// modulus and public exponent. The modulus of a generated key has exactly
/// `bits` bits in minimal big-endian form, and the public exponent is
/// 65537, as the call's documentation states.
#[verifier::external_body]
pub(crate) fn rsa_generate(bits: u32) -> (r: Result<(PKey<Private>, Vec<u8>, Vec<u8>), Error>)
    ensures
        r matches Ok(t) ==> no_leading_zero(t.1@) && bit_len_spec(t.1@) == bits as nat && t.2@
            == seq![1u8, 0u8, 1u8],
        r matches Err(e) ==> e is Crypto,
{
    let rsa = Rsa::generate(bits).map_err(Error::Crypto)?;
    let n = rsa.n().to_vec();
    let e = rsa.e().to_vec();
    let pkey = PKey::from_rsa(rsa).map_err(Error::Crypto)?;
    Ok((pkey, n, e))
}

/// Relies on `PKey::private_key_from_pem_passphrase`, `PKey::rsa`,
/// `Rsa::check_key`, `Rsa::n` and `Rsa::e`: parses a PKCS#8 PEM block as a
/// valid RSA private key and returns it with its components in minimal
/// big-endian form, no longer than the block itself. A fixed empty
/// passphrase is supplied, never a terminal prompt, so the outcome is a
/// function of the input bytes; any block that is not such a key — one of
/// another family included, which is also no EC or Ed25519 key — is an
/// invalid-key error.
#[verifier::external_body]
pub(crate) fn rsa_private_from_pem(pem: &[u8]) -> (r: Result<
    (PKey<Private>, Vec<u8>, Vec<u8>),
    Error,
>)
    requires
        pem@.len() <= FFI_LEN_MAX,
    ensures
        r matches Ok(t) ==> rsa_pkcs8_parse(pem@) == Some((t.1@, t.2@)) && no_leading_zero(t.1@)
            && no_leading_zero(t.2@) && t.1@.len() <= FFI_LEN_MAX && t.2@.len() <= FFI_LEN_MAX
            && ec_pkcs8_parse(pem@) is None && ed25519_pkcs8_parse(pem@) is None,
        r matches Err(e) ==> e is UnsupportedOrInvalidKey && rsa_pkcs8_parse(pem@) is None,
{
    let pkey = PKey::private_key_from_pem_passphrase(pem, &[]).map_err(
        |_| Error::UnsupportedOrInvalidKey,
    )?;
    let rsa = pkey.rsa().map_err(|_| Error::UnsupportedOrInvalidKey)?;
    match rsa.check_key() {
        Ok(true) => Ok((pkey, rsa.n().to_vec(), rsa.e().to_vec())),
        _ => Err(Error::UnsupportedOrInvalidKey),
    }
}

/// Relies on `PKey::public_key_from_pem_passphrase`, `PKey::rsa`, `Rsa::n`
/// and `Rsa::e`: parses a SubjectPublicKeyInfo PEM block as an RSA public
/// key and returns it with its components in minimal big-endian form, no
/// longer than the block itself. A fixed empty passphrase is supplied,
/// never a terminal prompt, so the outcome is a function of the input
/// bytes; a block of another family is also no EC or Ed25519 public key.
#[verifier::external_body]
pub(crate) fn rsa_public_from_spki_pem(pem: &[u8]) -> (r: Result<
    (PKey<Public>, Vec<u8>, Vec<u8>),
    Error,
>)
    requires
        pem@.len() <= FFI_LEN_MAX,
    ensures
        r matches Ok(t) ==> rsa_spki_parse(pem@) == Some((t.1@, t.2@)) && no_leading_zero(t.1@)
            && no_leading_zero(t.2@) && t.1@.len() <= FFI_LEN_MAX && t.2@.len() <= FFI_LEN_MAX
            && ec_spki_parse(pem@) is None && ed25519_spki_parse(pem@) is None,
        r matches Err(e) ==> e is UnsupportedOrInvalidKey && rsa_spki_parse(pem@) is None,
{
    let pkey = PKey::public_key_from_pem_passphrase(pem, &[]).map_err(
        |_| Error::UnsupportedOrInvalidKey,
    )?;
    let rsa = pkey.rsa().map_err(|_| Error::UnsupportedOrInvalidKey)?;
    let n = rsa.n().to_vec();
    let e = rsa.e().to_vec();
    Ok((pkey, n, e))
}

/// Relies on `Rsa::public_key_from_pem_pkcs1`, `Rsa::n` and `Rsa::e`:
/// parses a legacy `BEGIN RSA PUBLIC KEY` PEM block and returns the key
/// with its components in minimal big-endian form, no longer than the
/// block itself. This reader has no passphrase-taking form, so blocks
/// carrying the legacy encrypted header are excluded by precondition; on
/// the remaining blocks the parse outcome is a function of the input
/// bytes.
#[verifier::external_body]
pub(crate) fn rsa_public_from_pkcs1_pem(pem: &[u8]) -> (r: Result<
    (PKey<Public>, Vec<u8>, Vec<u8>),
    Error,
>)
    requires
        pem@.len() <= FFI_LEN_MAX,
        !contains_seq(pem@, proc_type_marker()),
    ensures
        r matches Ok(t) ==> rsa_pkcs1_parse(pem@) == Some((t.1@, t.2@)) && no_leading_zero(t.1@)
            && no_leading_zero(t.2@) && t.1@.len() <= FFI_LEN_MAX && t.2@.len() <= FFI_LEN_MAX,
        r matches Err(e) ==> (e is UnsupportedOrInvalidKey && rsa_pkcs1_parse(pem@) is None)
            || e is Crypto,
{
    let rsa = Rsa::public_key_from_pem_pkcs1(pem).map_err(|_| Error::UnsupportedOrInvalidKey)?;
    let n = rsa.n().to_vec();
    let e = rsa.e().to_vec();
    let pkey = PKey::from_rsa(rsa).map_err(Error::Crypto)?;
    Ok((pkey, n, e))
}

/// Relies on `BigNum::from_slice` and `Rsa::from_public_components`: builds
/// an RSA public key from big-endian modulus and exponent bytes. OpenSSL
/// fails only on allocation or internal errors here, which pass through.
#[verifier::external_body]
pub(crate) fn rsa_public_from_components(n: &[u8], e: &[u8]) -> (r: Result<PKey<Public>, Error>)
    requires
        n@.len() <= FFI_LEN_MAX,
        e@.len() <= FFI_LEN_MAX,
    ensures
        r matches Err(e) ==> e is Crypto,
{
    let nb = BigNum::from_slice(n).map_err(Error::Crypto)?;
    let eb = BigNum::from_slice(e).map_err(Error::Crypto)?;
    let rsa = Rsa::from_public_components(nb, eb).map_err(Error::Crypto)?;
    PKey::from_rsa(rsa).map_err(Error::Crypto)
}

/// Relies on `PKeyRef::private_key_to_pem_pkcs8`: serializes the private
/// key as a PKCS#8 PEM block. The text is a function of the full secret
/// material, which is not part of this crate's plain-value model, so
/// nothing more is stated of it.
#[verifier::external_body]
pub(crate) fn private_key_to_pem_pkcs8(pkey: &PKey<Private>) -> (r: Result<Vec<u8>, Error>)
    ensures
        r matches Err(e) ==> e is Crypto,
{
    pkey.private_key_to_pem_pkcs8().map_err(Error::Crypto)
}

/// Relies on `Rsa::from_public_components` and `PKeyRef::public_key_to_pem`:
/// the SubjectPublicKeyInfo PEM text of an RSA public key is a function of
/// the component bytes alone; OpenSSL's own parse of that text returns the
/// same components in minimal form — and, being an RSA structure, it is
/// no EC or Ed25519 public key — and the text carries the
/// `BEGIN PUBLIC KEY` header, never the legacy `BEGIN RSA` marker.
#[verifier::external_body]
pub(crate) fn rsa_spki_pem(n: &[u8], e: &[u8]) -> (r: Result<Vec<u8>, Error>)
    requires
        n@.len() <= FFI_LEN_MAX,
        e@.len() <= FFI_LEN_MAX,
    ensures
        r matches Ok(p) ==> p@ == rsa_spki_pem_of(n@, e@) && rsa_spki_parse(p@) == Some(
            (strip_spec(n@), strip_spec(e@)),
        ) && ec_spki_parse(p@) is None && ed25519_spki_parse(p@) is None && !contains_seq(
            p@,
            begin_rsa_marker(),
        ),
        r matches Err(er) ==> er is Crypto,
{
    let nb = BigNum::from_slice(n).map_err(Error::Crypto)?;
    let eb = BigNum::from_slice(e).map_err(Error::Crypto)?;
    let rsa = Rsa::from_public_components(nb, eb).map_err(Error::Crypto)?;
    let pkey = PKey::from_rsa(rsa).map_err(Error::Crypto)?;
    pkey.public_key_to_pem().map_err(Error::Crypto)
}

/// Relies on `Rsa::from_public_components` and
/// `Rsa::public_key_to_pem_pkcs1`: the legacy PKCS#1 PEM text is a
/// function of the component bytes alone; OpenSSL's own parse of that text
/// returns the same components in minimal form, and the text carries the
/// `BEGIN RSA PUBLIC KEY` header, so the legacy marker occurs in it.
#[verifier::external_body]
pub(crate) fn rsa_pkcs1_pem(n: &[u8], e: &[u8]) -> (r: Result<Vec<u8>, Error>)
    requires
        n@.len() <= FFI_LEN_MAX,
        e@.len() <= FFI_LEN_MAX,
    ensures
        r matches Ok(p) ==> p@ == rsa_pkcs1_pem_of(n@, e@) && rsa_pkcs1_parse(p@) == Some(
            (strip_spec(n@), strip_spec(e@)),
        ) && contains_seq(p@, begin_rsa_marker()) && !contains_seq(p@, proc_type_marker()),
        r matches Err(er) ==> er is Crypto,
{
    let nb = BigNum::from_slice(n).map_err(Error::Crypto)?;
    let eb = BigNum::from_slice(e).map_err(Error::Crypto)?;
    let rsa = Rsa::from_public_components(nb, eb).map_err(Error::Crypto)?;
    rsa.public_key_to_pem_pkcs1().map_err(Error::Crypto)
}

/// Relies on `openssl::sign::Signer`: signs `v` with the given digest;
/// with `rsa_pss`, PSS padding with a salt as long as the digest is used,
/// else the key type's standard padding. The signature bytes are otherwise
/// unspecified here; for PSS they also depend on a fresh random salt. The
/// verified callers check each fresh signature against the key's public
/// components before handing it out.
#[verifier::external_body]
pub(crate) fn sign_digest(
    pkey: &PKey<Private>,
    d: DigestKind,
    rsa_pss: bool,
    v: &[u8],
) -> (r: Result<Vec<u8>, Error>)
    ensures
        r matches Err(e) ==> e is Crypto,
{
    let md = match d {
        DigestKind::Sha256 => MessageDigest::sha256(),
        DigestKind::Sha384 => MessageDigest::sha384(),
        DigestKind::Sha512 => MessageDigest::sha512(),
    };
    let mut signer = Signer::new(md, pkey).map_err(Error::Crypto)?;
    if rsa_pss {
        signer.set_rsa_padding(Padding::PKCS1_PSS).map_err(Error::Crypto)?;
        signer.set_rsa_pss_saltlen(RsaPssSaltlen::DIGEST_LENGTH).map_err(Error::Crypto)?;
    }
    signer.update(v).map_err(Error::Crypto)?;
    signer.sign_to_vec().map_err(Error::Crypto)
}

/// Relies on `PKey::rsa` and `openssl::sign::Signer`: signs `v` with the
/// given digest and padding and returns the signature together with the
/// key's own modulus and exponent bytes in minimal big-endian form. For
/// the deterministic PKCS#1 v1.5 padding the signature is the one value
/// `rsa_pkcs1_sig_of` names for those components; with PSS it also
/// depends on a fresh random salt. Every RSA signature is exactly as long
/// as the modulus.
#[verifier::external_body]
pub(crate) fn rsa_sign_components(
    pkey: &PKey<Private>,
    d: DigestKind,
    rsa_pss: bool,
    v: &[u8],
) -> (r: Result<(Vec<u8>, Vec<u8>, Vec<u8>), Error>)
    ensures
        r matches Ok(t) ==> no_leading_zero(t.1@) && no_leading_zero(t.2@) && t.1@.len()
            <= FFI_LEN_MAX && t.2@.len() <= FFI_LEN_MAX && t.0@.len() == t.1@.len() && (!rsa_pss
            ==> t.0@ == rsa_pkcs1_sig_of(t.1@, t.2@, d, v@)),
        r matches Err(e) ==> e is Crypto,
{
    let rsa = pkey.rsa().map_err(Crypto)?;
    let md = match d {
        DigestKind::Sha256 => MessageDigest::sha256(),
        DigestKind::Sha384 => MessageDigest::sha384(),
        DigestKind::Sha512 => MessageDigest::sha512(),
    };
    let mut signer = Signer::new(md, pkey).map_err(Crypto)?;
    if rsa_pss {
        signer.set_rsa_padding(Padding::PKCS1_PSS).map_err(Crypto)?;
        signer.set_rsa_pss_saltlen(RsaPssSaltlen::DIGEST_LENGTH).map_err(Crypto)?;
    }
    signer.update(v).map_err(Crypto)?;
    Ok((signer.sign_to_vec().map_err(Crypto)?, rsa.n().to_vec(), rsa.e().to_vec()))
}

/// Relies on `Rsa::from_public_components` and `openssl::sign::Verifier`:
/// checks `sig` against `v` for the RSA public key rebuilt from `(n, e)`,
/// under the given digest and padding, so the outcome is a function of the
/// wrapper's arguments alone. Every cryptographic rejection, malformed
/// signatures included, is `false`; only a setup failure passes through.
#[verifier::external_body]
pub(crate) fn rsa_verify_components(
    n: &[u8],
    e: &[u8],
    d: DigestKind,
    rsa_pss: bool,
    v: &[u8],
    sig: &[u8],
) -> (r: Result<bool, Error>)
    requires
        n@.len() <= FFI_LEN_MAX,
        e@.len() <= FFI_LEN_MAX,
    ensures
        r matches Ok(b) ==> b == rsa_verify_ok(n@, e@, d, rsa_pss, v@, sig@),
        r matches Err(er) ==> er is Crypto,
{
    let md = match d {
        DigestKind::Sha256 => MessageDigest::sha256(),
        DigestKind::Sha384 => MessageDigest::sha384(),
        DigestKind::Sha512 => MessageDigest::sha512(),
    };
    let nb = BigNum::from_slice(n).map_err(Crypto)?;
    let eb = BigNum::from_slice(e).map_err(Crypto)?;
    let rsa = Rsa::from_public_components(nb, eb).map_err(Crypto)?;
    let pkey = PKey::from_rsa(rsa).map_err(Crypto)?;
    let mut vf = Verifier::new(md, &pkey).map_err(Crypto)?;
    if rsa_pss {
        vf.set_rsa_padding(Padding::PKCS1_PSS).map_err(Crypto)?;
        vf.set_rsa_pss_saltlen(RsaPssSaltlen::DIGEST_LENGTH).map_err(Crypto)?;
    }
    Ok(vf.verify_oneshot(sig, v).unwrap_or(false))
}

/// Relies on `EcGroup::from_curve_name` and `EcKey::generate`: generates
/// a fresh key on the algorithm's curve.
#[verifier::external_body]
pub(crate) fn ec_generate(alg: EcdsaAlgorithm) -> (r: Result<PKey<Private>, Error>)
    ensures
        r matches Err(e) ==> e is Crypto,
{
    let nid = match alg {
        EcdsaAlgorithm::ES256 => Nid::X9_62_PRIME256V1,
        EcdsaAlgorithm::ES384 => Nid::SECP384R1,
        EcdsaAlgorithm::ES512 => Nid::SECP521R1,
    };
    let group = EcGroup::from_curve_name(nid).map_err(Error::Crypto)?;
    let key = EcKey::generate(&group).map_err(Error::Crypto)?;
    PKey::from_ec_key(key).map_err(Error::Crypto)
}

/// Relies on `PKey::ec_key` and `EcPointRef::affine_coordinates`: returns
/// the big-endian bytes of the public point's affine coordinates of an EC
/// private key. A key of another family is an invalid-key error.
#[verifier::external_body]
pub(crate) fn ec_coords_of_private(pkey: &PKey<Private>) -> (r: Result<(Vec<u8>, Vec<u8>), Error>)
    ensures
        r matches Err(e) ==> (e is UnsupportedOrInvalidKey || e is Crypto),
{
    let key = pkey.ec_key().map_err(|_| Error::UnsupportedOrInvalidKey)?;
    let mut ctx = BigNumContext::new().map_err(Error::Crypto)?;
    let mut x = BigNum::new().map_err(Error::Crypto)?;
    let mut y = BigNum::new().map_err(Error::Crypto)?;
    let point = key.public_key();
    point.affine_coordinates(key.group(), &mut x, &mut y, &mut ctx).map_err(Error::Crypto)?;
    Ok((x.to_vec(), y.to_vec()))
}

/// Relies on `PKey::private_key_from_pem`, `PKey::ec_key`,
/// `EcGroupRef::curve_name` and `EcPointRef::affine_coordinates`: parses a
/// PKCS#8 PEM block as an EC private key on the curve of `alg` and returns
/// it with the public point's coordinates in minimal big-endian form. A
/// fixed empty passphrase is supplied, never a terminal prompt, so the
/// parse outcome is a function of the input bytes; a block of another
/// family — then also no RSA or Ed25519 key — or another curve is an
/// invalid-key error.
#[verifier::external_body]
pub(crate) fn ec_private_from_pem(pem: &[u8], alg: EcdsaAlgorithm) -> (r: Result<
    (PKey<Private>, Vec<u8>, Vec<u8>),
    Error,
>)
    requires
        pem@.len() <= FFI_LEN_MAX,
    ensures
        r matches Ok(t) ==> ec_pkcs8_parse(pem@) == Some((alg, t.1@, t.2@)) && rsa_pkcs8_parse(
            pem@,
        ) is None && ed25519_pkcs8_parse(pem@) is None,
        r matches Err(e) ==> (e is UnsupportedOrInvalidKey && !(ec_pkcs8_parse(pem@)
            matches Some(c) && c.0 == alg)) || e is Crypto,
{
    let pkey = PKey::private_key_from_pem_passphrase(pem, &[]).map_err(|_| UnsupportedOrInvalidKey)?;
    let key = pkey.ec_key().map_err(|_| UnsupportedOrInvalidKey)?;
    let nid = match alg {
        EcdsaAlgorithm::ES256 => Nid::X9_62_PRIME256V1,
        EcdsaAlgorithm::ES384 => Nid::SECP384R1,
        EcdsaAlgorithm::ES512 => Nid::SECP521R1,
    };
    if key.group().curve_name() != Some(nid) {
        return Err(UnsupportedOrInvalidKey);
    }
    let mut ctx = BigNumContext::new().map_err(Crypto)?;
    let mut x = BigNum::new().map_err(Crypto)?;
    let mut y = BigNum::new().map_err(Crypto)?;
    key.public_key().affine_coordinates(key.group(), &mut x, &mut y, &mut ctx).map_err(Crypto)?;
    Ok((pkey, x.to_vec(), y.to_vec()))
}

/// Relies on the same OpenSSL calls as `ec_private_from_pem`, through
/// `PKey::public_key_from_pem_passphrase`, reading a SubjectPublicKeyInfo
/// PEM block as an EC public key on the curve of `alg`.
#[verifier::external_body]
pub(crate) fn ec_public_from_spki_pem(pem: &[u8], alg: EcdsaAlgorithm) -> (r: Result<
    (PKey<Public>, Vec<u8>, Vec<u8>),
    Error,
>)
    requires
        pem@.len() <= FFI_LEN_MAX,
    ensures
        r matches Ok(t) ==> ec_spki_parse(pem@) == Some((alg, t.1@, t.2@)) && rsa_spki_parse(pem@)
            is None && ed25519_spki_parse(pem@) is None,
        r matches Err(e) ==> (e is UnsupportedOrInvalidKey && !(ec_spki_parse(pem@)
            matches Some(c) && c.0 == alg)) || e is Crypto,
{
    let pkey = PKey::public_key_from_pem_passphrase(pem, &[]).map_err(|_| UnsupportedOrInvalidKey)?;
    let key = pkey.ec_key().map_err(|_| UnsupportedOrInvalidKey)?;
    let nid = match alg {
        EcdsaAlgorithm::ES256 => Nid::X9_62_PRIME256V1,
        EcdsaAlgorithm::ES384 => Nid::SECP384R1,
        EcdsaAlgorithm::ES512 => Nid::SECP521R1,
    };
    if key.group().curve_name() != Some(nid) {
        return Err(UnsupportedOrInvalidKey);
    }
    let mut ctx = BigNumContext::new().map_err(Crypto)?;
    let mut x = BigNum::new().map_err(Crypto)?;
    let mut y = BigNum::new().map_err(Crypto)?;
    key.public_key().affine_coordinates(key.group(), &mut x, &mut y, &mut ctx).map_err(Crypto)?;
    Ok((pkey, x.to_vec(), y.to_vec()))
}

/// Relies on `EcKey::from_public_key_affine_coordinates`: builds an EC
/// public key on the algorithm's curve from big-endian coordinate bytes.
/// Whether OpenSSL accepts the point is a function of these values alone;
/// a rejected point is an invalid-key error.
#[verifier::external_body]
pub(crate) fn ec_public_from_coordinates(
    alg: EcdsaAlgorithm,
    x: &[u8],
    y: &[u8],
) -> (r: Result<PKey<Public>, Error>)
    requires
        x@.len() <= FFI_LEN_MAX,
        y@.len() <= FFI_LEN_MAX,
    ensures
        r matches Ok(p) ==> ec_point_acceptable(alg, x@, y@),
        r matches Err(e) ==> (e is UnsupportedOrInvalidKey && !ec_point_acceptable(alg, x@, y@))
            || e is Crypto,
{
    let nid = match alg {
        EcdsaAlgorithm::ES256 => Nid::X9_62_PRIME256V1,
        EcdsaAlgorithm::ES384 => Nid::SECP384R1,
        EcdsaAlgorithm::ES512 => Nid::SECP521R1,
    };
    let group = EcGroup::from_curve_name(nid).map_err(Error::Crypto)?;
    let xb = BigNum::from_slice(x).map_err(Error::Crypto)?;
    let yb = BigNum::from_slice(y).map_err(Error::Crypto)?;
    let key = EcKey::from_public_key_affine_coordinates(&group, &xb, &yb).map_err(
        |_| Error::UnsupportedOrInvalidKey,
    )?;
    PKey::from_ec_key(key).map_err(Error::Crypto)
}

/// Relies on `EcKey::from_public_key_affine_coordinates` and
/// `PKeyRef::public_key_to_pem`: the SubjectPublicKeyInfo PEM text of an
/// EC public key is a function of the curve and coordinate bytes alone;
/// OpenSSL's own parse of that text returns the same curve and
/// coordinates in minimal form.
#[verifier::external_body]
pub(crate) fn ec_spki_pem(alg: EcdsaAlgorithm, x: &[u8], y: &[u8]) -> (r: Result<Vec<u8>, Error>)
    requires
        x@.len() <= FFI_LEN_MAX,
        y@.len() <= FFI_LEN_MAX,
    ensures
        r matches Ok(p) ==> p@ == ec_spki_pem_of(alg, x@, y@) && ec_spki_parse(p@) == Some(
            (alg, strip_spec(x@), strip_spec(y@)),
        ) && rsa_spki_parse(p@) is None && ed25519_spki_parse(p@) is None,
        r matches Err(e) ==> (e is UnsupportedOrInvalidKey && !ec_point_acceptable(alg, x@, y@))
            || e is Crypto,
{
    let nid = match alg {
        EcdsaAlgorithm::ES256 => Nid::X9_62_PRIME256V1,
        EcdsaAlgorithm::ES384 => Nid::SECP384R1,
        EcdsaAlgorithm::ES512 => Nid::SECP521R1,
    };
    let group = EcGroup::from_curve_name(nid).map_err(Error::Crypto)?;
    let xb = BigNum::from_slice(x).map_err(Error::Crypto)?;
    let yb = BigNum::from_slice(y).map_err(Error::Crypto)?;
    let key = EcKey::from_public_key_affine_coordinates(&group, &xb, &yb).map_err(
        |_| Error::UnsupportedOrInvalidKey,
    )?;
    let pkey = PKey::from_ec_key(key).map_err(Error::Crypto)?;
    pkey.public_key_to_pem().map_err(Error::Crypto)
}

/// Relies on `EcKey::from_public_key_affine_coordinates` and
/// `openssl::sign::Verifier`: checks the DER signature `sig` against `v`
/// for the public point rebuilt from `(x, y)` on the algorithm's curve,
/// so the outcome is a function of the wrapper's arguments alone. Every
/// cryptographic rejection is `false`; setup failures pass through.
#[verifier::external_body]
pub(crate) fn ec_verify_components(
    alg: EcdsaAlgorithm,
    x: &[u8],
    y: &[u8],
    v: &[u8],
    sig: &[u8],
) -> (r: Result<bool, Error>)
    requires
        x@.len() <= FFI_LEN_MAX,
        y@.len() <= FFI_LEN_MAX,
    ensures
        r matches Ok(b) ==> b == ecdsa_verify_ok(alg, x@, y@, v@, sig@),
        r matches Err(e) ==> e is Crypto,
{
    let (nid, md) = match alg {
        EcdsaAlgorithm::ES256 => (Nid::X9_62_PRIME256V1, MessageDigest::sha256()),
        EcdsaAlgorithm::ES384 => (Nid::SECP384R1, MessageDigest::sha384()),
        EcdsaAlgorithm::ES512 => (Nid::SECP521R1, MessageDigest::sha512()),
    };
    let group = EcGroup::from_curve_name(nid).map_err(Crypto)?;
    let xb = BigNum::from_slice(x).map_err(Crypto)?;
    let yb = BigNum::from_slice(y).map_err(Crypto)?;
    let key = EcKey::from_public_key_affine_coordinates(&group, &xb, &yb).map_err(Crypto)?;
    let pkey = PKey::from_ec_key(key).map_err(Crypto)?;
    let mut vf = Verifier::new(md, &pkey).map_err(Crypto)?;
    Ok(vf.verify_oneshot(sig, v).unwrap_or(false))
}

/// Relies on `PKey::generate_ed25519` and `PKeyRef::raw_public_key`:
/// generates a fresh Ed25519 key and returns it with its raw public key,
/// which for Ed25519 is exactly 32 bytes.
#[verifier::external_body]
pub(crate) fn ed25519_generate() -> (r: Result<(PKey<Private>, Vec<u8>), Error>)
    ensures
        r matches Ok(t) ==> t.1@.len() == 32,
        r matches Err(e) ==> e is Crypto,
{
    let pkey = PKey::generate_ed25519().map_err(Error::Crypto)?;
    let raw = pkey.raw_public_key().map_err(Error::Crypto)?;
    Ok((pkey, raw))
}

/// Relies on `PKey::private_key_from_pem_passphrase`, `PKeyRef::id` and
/// `PKeyRef::raw_public_key`: parses a PKCS#8 PEM block as an Ed25519
/// private key and returns it with its raw 32-byte public half. A fixed
/// empty passphrase is supplied, never a terminal prompt, so the parse
/// outcome is a function of the input bytes; a block of another family is
/// then also no RSA or EC key.
#[verifier::external_body]
pub(crate) fn ed25519_private_from_pem(pem: &[u8]) -> (r: Result<(PKey<Private>, Vec<u8>), Error>)
    requires
        pem@.len() <= FFI_LEN_MAX,
    ensures
        r matches Ok(t) ==> ed25519_pkcs8_parse(pem@) == Some(t.1@) && t.1@.len() == 32
            && rsa_pkcs8_parse(pem@) is None && ec_pkcs8_parse(pem@) is None,
        r matches Err(e) ==> (e is UnsupportedOrInvalidKey && ed25519_pkcs8_parse(pem@) is None)
            || e is Crypto,
{
    let pkey = PKey::private_key_from_pem_passphrase(pem, &[]).map_err(
        |_| Error::UnsupportedOrInvalidKey,
    )?;
    if pkey.id() != Id::ED25519 {
        return Err(Error::UnsupportedOrInvalidKey);
    }
    let raw = pkey.raw_public_key().map_err(Error::Crypto)?;
    Ok((pkey, raw))
}

/// Relies on the same OpenSSL calls as `ed25519_private_from_pem`, reading
/// a SubjectPublicKeyInfo PEM block as an Ed25519 public key.
#[verifier::external_body]
pub(crate) fn ed25519_public_from_spki_pem(pem: &[u8]) -> (r: Result<
    (PKey<Public>, Vec<u8>),
    Error,
>)
    requires
        pem@.len() <= FFI_LEN_MAX,
    ensures
        r matches Ok(t) ==> ed25519_spki_parse(pem@) == Some(t.1@) && t.1@.len() == 32
            && rsa_spki_parse(pem@) is None && ec_spki_parse(pem@) is None,
        r matches Err(e) ==> (e is UnsupportedOrInvalidKey && ed25519_spki_parse(pem@) is None)
            || e is Crypto,
{
    let pkey = PKey::public_key_from_pem_passphrase(pem, &[]).map_err(
        |_| Error::UnsupportedOrInvalidKey,
    )?;
    if pkey.id() != Id::ED25519 {
        return Err(Error::UnsupportedOrInvalidKey);
    }
    let raw = pkey.raw_public_key().map_err(Error::Crypto)?;
    Ok((pkey, raw))
}

/// Relies on `PKey::public_key_from_raw_bytes` with the Ed25519 algorithm
/// identifier: builds a public key from its raw form. Whether OpenSSL
/// accepts the bytes is a function of those bytes alone; rejected bytes
/// are an invalid-key error.
#[verifier::external_body]
pub(crate) fn ed25519_public_from_raw(x: &[u8]) -> (r: Result<PKey<Public>, Error>)
    ensures
        r matches Ok(p) ==> ed25519_raw_ok(x@),
        r matches Err(e) ==> e is UnsupportedOrInvalidKey && !ed25519_raw_ok(x@),
{
    PKey::public_key_from_raw_bytes(x, Id::ED25519).map_err(|_| Error::UnsupportedOrInvalidKey)
}

/// Relies on `PKey::public_key_from_raw_bytes` and
/// `PKeyRef::public_key_to_pem`: the SubjectPublicKeyInfo PEM text of an
/// Ed25519 public key is a function of its raw bytes alone; OpenSSL's own
/// parse of that text returns exactly those bytes.
#[verifier::external_body]
pub(crate) fn ed25519_spki_pem(x: &[u8]) -> (r: Result<Vec<u8>, Error>)
    ensures
        r matches Ok(p) ==> p@ == ed25519_spki_pem_of(x@) && ed25519_spki_parse(p@) == Some(x@)
            && rsa_spki_parse(p@) is None && ec_spki_parse(p@) is None,
        r matches Err(e) ==> (e is UnsupportedOrInvalidKey && !ed25519_raw_ok(x@)) || e is Crypto,
{
    let pkey = PKey::public_key_from_raw_bytes(x, Id::ED25519).map_err(
        |_| Error::UnsupportedOrInvalidKey,
    )?;
    pkey.public_key_to_pem().map_err(Error::Crypto)
}

/// Relies on `Signer::new_without_digest` and `Signer::sign_oneshot_to_vec`:
/// produces an Ed25519 signature over `v`, 64 bytes as the scheme fixes.
/// The verified caller checks the fresh signature against the key's raw
/// public bytes before handing it out.
#[verifier::external_body]
pub(crate) fn ed25519_sign(pkey: &PKey<Private>, v: &[u8]) -> (r: Result<Vec<u8>, Error>)
    ensures
        r matches Ok(sig) ==> sig@.len() == 64,
        r matches Err(e) ==> e is Crypto,
{
    let mut signer = Signer::new_without_digest(pkey).map_err(Error::Crypto)?;
    signer.sign_oneshot_to_vec(v).map_err(Error::Crypto)
}

/// Relies on `PKey::public_key_from_raw_bytes` and
/// `openssl::sign::Verifier`: checks an Ed25519 signature against `v` for
/// the public key rebuilt from the raw bytes `x`, so the outcome is a
/// function of the wrapper's arguments alone. Every cryptographic
/// rejection is `false`; setup failures pass through.
#[verifier::external_body]
pub(crate) fn ed25519_verify_components(x: &[u8], v: &[u8], sig: &[u8]) -> (r: Result<bool, Error>)
    ensures
        r matches Ok(b) ==> b == ed25519_verify_ok(x@, v@, sig@),
        r matches Err(e) ==> e is Crypto,
{
    let pkey = PKey::public_key_from_raw_bytes(x, Id::ED25519).map_err(Error::Crypto)?;
    let mut verifier = Verifier::new_without_digest(&pkey).map_err(Error::Crypto)?;
    Ok(verifier.verify_oneshot(sig, v).unwrap_or(false))
}

} // verus!
