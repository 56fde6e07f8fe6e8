//! The RSA family: algorithm catalog (PKCS#1 v1.5 and PSS paddings), keys,
//! PEM import and export, JWK export, and the confusion-guarded verifier.

use vstd::prelude::*;
use openssl::pkey::{PKey, Private, Public};
use crate::DigestKind;
use crate::Error;
use crate::SigningKey;
use crate::VerificationKey;
use crate::backend;
use crate::b64::b64url_of;
use crate::b64::b64url_encode;
use crate::FFI_LEN_MAX;
use crate::bytes::bit_len_spec;
use crate::bytes::bytes_eq;
use crate::bytes::contains_bytes;
use crate::bytes::contains_seq;
use crate::bytes::no_leading_zero;
use crate::bytes::str_eq;
use crate::bytes::strip_leading_zeros;
use crate::bytes::strip_spec;
use crate::jwk::Jwk;
use crate::jwk::JwkView;

verus! {

/// RSA signature algorithms: three digest widths, each under PKCS#1 v1.5
/// (`RS*`) or PSS (`PS*`) padding.
#[non_exhaustive]
#[derive(Debug, Clone, Copy, PartialEq, Eq, Structural)]
pub enum RsaAlgorithm {
    RS256,
    RS384,
    RS512,
    PS256,
    PS384,
    PS512,
}

/// The canonical wire name of an RSA algorithm.
pub open spec fn rsa_name_spec(a: RsaAlgorithm) -> Seq<char> {
    match a {
        RsaAlgorithm::RS256 => "RS256"@,
        RsaAlgorithm::RS384 => "RS384"@,
        RsaAlgorithm::RS512 => "RS512"@,
        RsaAlgorithm::PS256 => "PS256"@,
        RsaAlgorithm::PS384 => "PS384"@,
        RsaAlgorithm::PS512 => "PS512"@,
    }
}

/// The catalog lookup for RSA wire names: exact, case-sensitive matches
/// only, with no fallback.
pub open spec fn rsa_from_name_spec(s: Seq<char>) -> Option<RsaAlgorithm> {
    if s == "RS256"@ {
        Some(RsaAlgorithm::RS256)
    } else if s == "RS384"@ {
        Some(RsaAlgorithm::RS384)
    } else if s == "RS512"@ {
        Some(RsaAlgorithm::RS512)
    } else if s == "PS256"@ {
        Some(RsaAlgorithm::PS256)
    } else if s == "PS384"@ {
        Some(RsaAlgorithm::PS384)
    } else if s == "PS512"@ {
        Some(RsaAlgorithm::PS512)
    } else {
        None
    }
}

/// Whether the algorithm uses the probabilistic PSS padding.
pub open spec fn rsa_is_pss_spec(a: RsaAlgorithm) -> bool {
    a == RsaAlgorithm::PS256 || a == RsaAlgorithm::PS384 || a == RsaAlgorithm::PS512
}

/// The digest paired with each algorithm.
pub open spec fn rsa_digest_spec(a: RsaAlgorithm) -> DigestKind {
    match a {
        RsaAlgorithm::RS256 | RsaAlgorithm::PS256 => DigestKind::Sha256,
        RsaAlgorithm::RS384 | RsaAlgorithm::PS384 => DigestKind::Sha384,
        RsaAlgorithm::RS512 | RsaAlgorithm::PS512 => DigestKind::Sha512,
    }
}

/// Whether OpenSSL's one-shot verification accepts `sig` over `v` for the
/// RSA public key `(n, e)` under digest `d`, with PSS padding and a
/// digest-length salt when `pss`. The outcome is a function of these
/// values alone; the trusted verification wrapper ties this name to it.
pub uninterp spec fn rsa_verify_ok(
    n: Seq<u8>,
    e: Seq<u8>,
    d: DigestKind,
    pss: bool,
    v: Seq<u8>,
    sig: Seq<u8>,
) -> bool;

/// Whether `sig` is a cryptographically valid signature over `v` for the
/// RSA public key `(n, e)` under algorithm `a`.
pub open spec fn rsa_sig_ok_spec(
    a: RsaAlgorithm,
    n: Seq<u8>,
    e: Seq<u8>,
    v: Seq<u8>,
    sig: Seq<u8>,
) -> bool {
    rsa_verify_ok(n, e, rsa_digest_spec(a), rsa_is_pss_spec(a), v, sig)
}

/// What OpenSSL's PKCS#8 parse makes of a PEM block when it is read as an
/// RSA private key: the modulus and exponent bytes in minimal big-endian
/// form of a valid RSA key, `None` for anything else — another family, a
/// key failing the consistency check, or text that is no key at all.
pub uninterp spec fn rsa_pkcs8_parse(pem: Seq<u8>) -> Option<(Seq<u8>, Seq<u8>)>;

/// What OpenSSL makes of a SubjectPublicKeyInfo (`BEGIN PUBLIC KEY`) PEM
/// block read as an RSA public key: the components in minimal form, `None`
/// for another family or malformed text.
pub uninterp spec fn rsa_spki_parse(pem: Seq<u8>) -> Option<(Seq<u8>, Seq<u8>)>;

/// What OpenSSL makes of a legacy PKCS#1 (`BEGIN RSA PUBLIC KEY`) PEM
/// block: the components in minimal form, `None` for malformed text.
pub uninterp spec fn rsa_pkcs1_parse(pem: Seq<u8>) -> Option<(Seq<u8>, Seq<u8>)>;

/// The SubjectPublicKeyInfo PEM text of the RSA public key `(n, e)`: a
/// function of the components alone.
pub uninterp spec fn rsa_spki_pem_of(n: Seq<u8>, e: Seq<u8>) -> Seq<u8>;

/// The legacy PKCS#1 PEM text of the RSA public key `(n, e)`.
pub uninterp spec fn rsa_pkcs1_pem_of(n: Seq<u8>, e: Seq<u8>) -> Seq<u8>;

/// The deterministic PKCS#1 v1.5 signature over `v` for the RSA public
/// key `(n, e)` under digest `d`: the unique value below the modulus
/// whose `e`-th power modulo `n` is the padded digest, so a function of
/// these values alone. The trusted signing wrapper ties this name to what
/// OpenSSL produces for non-PSS algorithms.
pub uninterp spec fn rsa_pkcs1_sig_of(n: Seq<u8>, e: Seq<u8>, d: DigestKind, v: Seq<u8>) -> Seq<
    u8,
>;

/// The marker text whose presence selects the legacy PKCS#1 reading of a
/// public-key PEM block.
pub open spec fn begin_rsa_marker() -> Seq<u8> {
    vstd::utf8::encode_utf8("BEGIN RSA"@)
}

/// The header marking a legacy encrypted PEM body. The legacy PKCS#1
/// reader has no passphrase-taking form in the bindings, so blocks
/// carrying this header are rejected before it runs rather than letting
/// it prompt a terminal.
pub open spec fn proc_type_marker() -> Seq<u8> {
    vstd::utf8::encode_utf8("Proc-Type:"@)
}

/// Whether a public-key PEM block is one the importer hands to a parser:
/// short enough for the bindings, and not a legacy encrypted block headed
/// for the PKCS#1 reader.
pub open spec fn rsa_public_pem_readable(pem: Seq<u8>) -> bool {
    pem.len() <= crate::FFI_LEN_MAX && !(contains_seq(pem, begin_rsa_marker()) && contains_seq(
        pem,
        proc_type_marker(),
    ))
}

/// How a public-key PEM block is read: the importer scans the block for
/// the legacy marker and parses accordingly, never by a caller flag.
pub open spec fn rsa_public_pem_parse(pem: Seq<u8>) -> Option<(Seq<u8>, Seq<u8>)> {
    if contains_seq(pem, begin_rsa_marker()) {
        rsa_pkcs1_parse(pem)
    } else {
        rsa_spki_parse(pem)
    }
}

impl RsaAlgorithm {
    /// Whether this algorithm uses PSS padding with a digest-length salt.
    pub fn is_pss(self) -> (r: bool)
        ensures
            r == rsa_is_pss_spec(self),
    {
        match self {
            RsaAlgorithm::PS256 | RsaAlgorithm::PS384 | RsaAlgorithm::PS512 => true,
            _ => false,
        }
    }

    /// The digest this algorithm applies to the payload.
    pub fn digest_kind(self) -> (r: DigestKind)
        ensures
            r == rsa_digest_spec(self),
    {
        match self {
            RsaAlgorithm::RS256 | RsaAlgorithm::PS256 => DigestKind::Sha256,
            RsaAlgorithm::RS384 | RsaAlgorithm::PS384 => DigestKind::Sha384,
            RsaAlgorithm::RS512 | RsaAlgorithm::PS512 => DigestKind::Sha512,
        }
    }

    /// The canonical wire name.
    pub fn name(self) -> (r: &'static str)
        ensures
            r@ == rsa_name_spec(self),
    {
        match self {
            RsaAlgorithm::RS256 => "RS256",
            RsaAlgorithm::RS384 => "RS384",
            RsaAlgorithm::RS512 => "RS512",
            RsaAlgorithm::PS256 => "PS256",
            RsaAlgorithm::PS384 => "PS384",
            RsaAlgorithm::PS512 => "PS512",
        }
    }

    /// Looks a wire name up in the catalog. Unknown names are rejected,
    /// never mapped to a default algorithm.
    pub fn from_name(name: &str) -> (r: Result<Self, Error>)
        ensures
            r matches Ok(a) ==> rsa_from_name_spec(name@) == Some(a),
            r matches Err(e) ==> rsa_from_name_spec(name@) is None
                && e is UnsupportedOrInvalidKey,
    {
        if str_eq(name, "RS256") {
            Ok(RsaAlgorithm::RS256)
        } else if str_eq(name, "RS384") {
            Ok(RsaAlgorithm::RS384)
        } else if str_eq(name, "RS512") {
            Ok(RsaAlgorithm::RS512)
        } else if str_eq(name, "PS256") {
            Ok(RsaAlgorithm::PS256)
        } else if str_eq(name, "PS384") {
            Ok(RsaAlgorithm::PS384)
        } else if str_eq(name, "PS512") {
            Ok(RsaAlgorithm::PS512)
        } else {
            Err(Error::UnsupportedOrInvalidKey)
        }
    }
}

/// Looking an RSA algorithm's own name up in the catalog returns that
/// algorithm: the two directions of the catalog are mutual inverses.
pub proof fn lemma_rsa_name_round_trip(a: RsaAlgorithm)
    ensures
        rsa_from_name_spec(rsa_name_spec(a)) == Some(a),
{
    reveal_strlit("RS256");
    reveal_strlit("RS384");
    reveal_strlit("RS512");
    reveal_strlit("PS256");
    reveal_strlit("PS384");
    reveal_strlit("PS512");
    assert("RS384"@[2] != "RS256"@[2]);
    assert("RS512"@[2] != "RS256"@[2]);
    assert("RS512"@[2] != "RS384"@[2]);
    assert("PS256"@[0] != "RS256"@[0]);
    assert("PS256"@[0] != "RS384"@[0]);
    assert("PS256"@[0] != "RS512"@[0]);
    assert("PS384"@[0] != "RS256"@[0]);
    assert("PS384"@[0] != "RS384"@[0]);
    assert("PS384"@[0] != "RS512"@[0]);
    assert("PS384"@[2] != "PS256"@[2]);
    assert("PS512"@[0] != "RS256"@[0]);
    assert("PS512"@[0] != "RS384"@[0]);
    assert("PS512"@[0] != "RS512"@[0]);
    assert("PS512"@[2] != "PS256"@[2]);
    assert("PS512"@[2] != "PS384"@[2]);
}

/// No two RSA algorithms share a wire name.
pub proof fn lemma_rsa_names_injective()
    ensures
        forall|a: RsaAlgorithm, b: RsaAlgorithm|
            rsa_name_spec(a) == rsa_name_spec(b) ==> a == b,
{
    reveal_strlit("RS256");
    reveal_strlit("RS384");
    reveal_strlit("RS512");
    reveal_strlit("PS256");
    reveal_strlit("PS384");
    reveal_strlit("PS512");
    assert forall|a: RsaAlgorithm, b: RsaAlgorithm|
        rsa_name_spec(a) == rsa_name_spec(b) implies a == b by {
        if a != b {
            assert(rsa_name_spec(a)[0] != rsa_name_spec(b)[0] || rsa_name_spec(a)[2]
                != rsa_name_spec(b)[2]);
        }
    }
}

/// The JWK record exported for RSA key material: `kty` "RSA", `use` "sig",
/// the optional bound algorithm's name, and the base64url modulus and
/// exponent. Fields of other families are absent.
pub open spec fn rsa_jwk_view(alg: Option<RsaAlgorithm>, n: Seq<u8>, e: Seq<u8>) -> JwkView {
    JwkView {
        kty: "RSA"@,
        use_: Some("sig"@),
        alg: match alg {
            Some(a) => Some(rsa_name_spec(a)),
            None => None,
        },
        n: Some(b64url_of(n)),
        e: Some(b64url_of(e)),
        crv: None,
        x: None,
        y: None,
    }
}

/// An RSA private key bound to exactly one algorithm of the catalog.
///
/// The binding is chosen by the caller at construction time and never
/// changes; it is not part of the encoded key material.
#[derive(Debug)]
pub struct RsaPrivateKey {
    private_key: PKey<Private>,
    algorithm: RsaAlgorithm,
    n: Vec<u8>,
    e: Vec<u8>,
}

impl RsaPrivateKey {
    /// The algorithm this key is bound to.
    pub closed spec fn alg_spec(&self) -> RsaAlgorithm {
        self.algorithm
    }

    /// The big-endian bytes of the public modulus.
    pub closed spec fn n_spec(&self) -> Seq<u8> {
        self.n@
    }

    /// The big-endian bytes of the public exponent.
    pub closed spec fn e_spec(&self) -> Seq<u8> {
        self.e@
    }

    /// The stored components are normalized big-endian integers, short
    /// enough for the cryptography bindings.
    pub open spec fn wf(&self) -> bool {
        no_leading_zero(self.n_spec()) && no_leading_zero(self.e_spec()) && self.n_spec().len()
            <= crate::FFI_LEN_MAX && self.e_spec().len() <= crate::FFI_LEN_MAX
    }

    /// Generates a fresh key of `bits` modulus bits, bound to `algorithm`.
    /// Moduli under 2048 bits are rejected unconditionally; a generated
    /// modulus has exactly `bits` bits.
    pub fn generate(bits: u32, algorithm: RsaAlgorithm) -> (r: Result<Self, Error>)
        ensures
            bits < 2048 ==> (r matches Err(e) && e is UnsupportedOrInvalidKey),
            r matches Ok(k) ==> k.wf() && k.alg_spec() == algorithm && bits >= 2048
                && bit_len_spec(k.n_spec()) == bits as nat,
            bits >= 2048 ==> (r is Ok || (r matches Err(e) && e is Crypto)),
    {
        if bits < 2048 {
            return Err(Error::UnsupportedOrInvalidKey);
        }
        let (pkey, n, e) = match backend::rsa_generate(bits) {
            Ok(t) => t,
            Err(er) => return Err(er),
        };
        proof {
            assert(n@.len() <= FFI_LEN_MAX) by {
                assert(bit_len_spec(n@) == bits as nat);
                assert(n@.len() > 0 ==> 8 * (n@.len() - 1) <= bits as nat);
            }
        }
        Ok(RsaPrivateKey { private_key: pkey, algorithm, n, e })
    }

    /// Imports a PKCS#8 private-key PEM block and binds it to `algorithm`.
    /// The import succeeds exactly when the block parses as a valid RSA
    /// private key — a key of another family is rejected as invalid — and
    /// the key then holds the parsed components.
    pub fn from_pem(pem: &[u8], algorithm: RsaAlgorithm) -> (r: Result<Self, Error>)
        ensures
            r matches Ok(k) ==> k.wf() && k.alg_spec() == algorithm && (rsa_pkcs8_parse(pem@)
                matches Some(c) && k.n_spec() == c.0 && k.e_spec() == c.1),
            r matches Err(e) ==> e is UnsupportedOrInvalidKey && (pem@.len() > FFI_LEN_MAX
                || rsa_pkcs8_parse(pem@) is None),
    {
        if pem.len() > FFI_LEN_MAX {
            return Err(Error::UnsupportedOrInvalidKey);
        }
        let (pkey, n, e) = match backend::rsa_private_from_pem(pem) {
            Ok(t) => t,
            Err(er) => return Err(er),
        };
        Ok(RsaPrivateKey { private_key: pkey, algorithm, n, e })
    }

    /// Serializes the private key as a PKCS#8 PEM block. The encoding does
    /// not depend on the bound algorithm; the produced text parses back to
    /// a key with exactly this key's components and to no other family's
    /// key, which is checked against the stored components before the text
    /// is handed out.
    pub fn private_key_to_pem_pkcs8(&self) -> (r: Result<Vec<u8>, Error>)
        ensures
            r matches Ok(p) ==> rsa_pkcs8_parse(p@) == Some((self.n_spec(), self.e_spec()))
                && crate::ecdsa::ec_pkcs8_parse(p@) is None && crate::eddsa::ed25519_pkcs8_parse(
                p@,
            ) is None,
            r matches Err(e) ==> e is Crypto,
    {
        let p = match backend::private_key_to_pem_pkcs8(&self.private_key) {
            Ok(p) => p,
            Err(er) => return Err(er),
        };
        if p.len() > FFI_LEN_MAX {
            return Err(backend::crypto_error());
        }
        let (_k, n2, e2) = match backend::rsa_private_from_pem(p.as_slice()) {
            Ok(t) => t,
            Err(_) => return Err(backend::crypto_error()),
        };
        if bytes_eq(n2.as_slice(), self.n.as_slice()) && bytes_eq(
            e2.as_slice(),
            self.e.as_slice(),
        ) {
            Ok(p)
        } else {
            Err(backend::crypto_error())
        }
    }

    /// Serializes the public half as a SubjectPublicKeyInfo PEM block
    /// (`BEGIN PUBLIC KEY`): a canonical function of the public
    /// components, which OpenSSL parses back to those components.
    pub fn public_key_pem(&self) -> (r: Result<Vec<u8>, Error>)
        requires
            self.wf(),
        ensures
            r matches Ok(p) ==> p@ == rsa_spki_pem_of(self.n_spec(), self.e_spec())
                && rsa_spki_parse(p@) == Some(
                (strip_spec(self.n_spec()), strip_spec(self.e_spec())),
            ) && !contains_seq(p@, begin_rsa_marker()),
            r matches Err(e) ==> e is Crypto,
    {
        backend::rsa_spki_pem(self.n.as_slice(), self.e.as_slice())
    }

    /// Serializes the public half as a legacy PKCS#1 PEM block
    /// (`BEGIN RSA PUBLIC KEY`), also a canonical function of the public
    /// components.
    pub fn public_key_pem_pkcs1(&self) -> (r: Result<Vec<u8>, Error>)
        requires
            self.wf(),
        ensures
            r matches Ok(p) ==> p@ == rsa_pkcs1_pem_of(self.n_spec(), self.e_spec())
                && rsa_pkcs1_parse(p@) == Some(
                (strip_spec(self.n_spec()), strip_spec(self.e_spec())),
            ) && contains_seq(p@, begin_rsa_marker()),
            r matches Err(e) ==> e is Crypto,
    {
        backend::rsa_pkcs1_pem(self.n.as_slice(), self.e.as_slice())
    }

    /// The big-endian bytes of the public modulus.
    pub fn n(&self) -> (r: Result<Vec<u8>, Error>)
        ensures
            r matches Ok(v) && v@ == self.n_spec(),
    {
        Ok(vstd::slice::slice_to_vec(self.n.as_slice()))
    }

    /// The big-endian bytes of the public exponent.
    pub fn e(&self) -> (r: Result<Vec<u8>, Error>)
        ensures
            r matches Ok(v) && v@ == self.e_spec(),
    {
        Ok(vstd::slice::slice_to_vec(self.e.as_slice()))
    }

    /// Derives the algorithm-agnostic public counterpart of this key.
    pub fn to_public_any(&self) -> (r: Result<RsaAnyPublicKey, Error>)
        requires
            self.wf(),
        ensures
            r matches Ok(k) ==> k.wf() && k.n_spec() == self.n_spec() && k.e_spec()
                == self.e_spec(),
            r matches Err(e) ==> e is Crypto,
    {
        RsaAnyPublicKey::from_components(self.n.as_slice(), self.e.as_slice())
    }
}

/// An RSA public key with no bound algorithm: the algorithm is claimed per
/// verification call and resolved against the whole RSA catalog. RSA key
/// material is algorithm-agnostic — padding and digest are per-signature
/// choices — so one imported key may check signatures of any catalog
/// member.
#[derive(Debug)]
pub struct RsaAnyPublicKey {
    public_key: PKey<Public>,
    n: Vec<u8>,
    e: Vec<u8>,
}

impl RsaAnyPublicKey {
    /// The big-endian bytes of the modulus.
    pub closed spec fn n_spec(&self) -> Seq<u8> {
        self.n@
    }

    /// The big-endian bytes of the exponent.
    pub closed spec fn e_spec(&self) -> Seq<u8> {
        self.e@
    }

    /// The stored components are normalized big-endian integers, short
    /// enough for the cryptography bindings.
    pub open spec fn wf(&self) -> bool {
        no_leading_zero(self.n_spec()) && no_leading_zero(self.e_spec()) && self.n_spec().len()
            <= crate::FFI_LEN_MAX && self.e_spec().len() <= crate::FFI_LEN_MAX
    }

    /// Imports a public-key PEM block. Both the SubjectPublicKeyInfo form
    /// (`BEGIN PUBLIC KEY`) and the legacy PKCS#1 form
    /// (`BEGIN RSA PUBLIC KEY`) are accepted; the variant is detected by
    /// scanning the block's own text for the legacy marker, not a caller
    /// flag. The import succeeds exactly when the selected parse yields an
    /// RSA public key, and the key then holds the parsed components.
    pub fn from_pem(pem: &[u8]) -> (r: Result<Self, Error>)
        ensures
            r matches Ok(k) ==> k.wf() && (rsa_public_pem_parse(pem@) matches Some(c)
                && k.n_spec() == c.0 && k.e_spec() == c.1),
            r matches Err(e) ==> (e is UnsupportedOrInvalidKey && (!rsa_public_pem_readable(pem@)
                || rsa_public_pem_parse(pem@) is None)) || e is Crypto,
    {
        if pem.len() > FFI_LEN_MAX {
            return Err(Error::UnsupportedOrInvalidKey);
        }
        let (pkey, n, e) = if contains_bytes(pem, "BEGIN RSA".as_bytes()) {
            if contains_bytes(pem, "Proc-Type:".as_bytes()) {
                return Err(Error::UnsupportedOrInvalidKey);
            }
            match backend::rsa_public_from_pkcs1_pem(pem) {
                Ok(t) => t,
                Err(er) => return Err(er),
            }
        } else {
            match backend::rsa_public_from_spki_pem(pem) {
                Ok(t) => t,
                Err(er) => return Err(er),
            }
        };
        Ok(RsaAnyPublicKey { public_key: pkey, n, e })
    }

    /// Builds a key from big-endian modulus and exponent bytes. The stored
    /// components are the inputs with leading zero bytes removed.
    pub fn from_components(n: &[u8], e: &[u8]) -> (r: Result<Self, Error>)
        ensures
            r matches Ok(k) ==> k.wf() && k.n_spec() == strip_spec(n@) && k.e_spec()
                == strip_spec(e@),
            r matches Err(er) ==> er is Crypto || (er is UnsupportedOrInvalidKey && (n@.len()
                > FFI_LEN_MAX || e@.len() > FFI_LEN_MAX)),
    {
        if n.len() > FFI_LEN_MAX || e.len() > FFI_LEN_MAX {
            return Err(Error::UnsupportedOrInvalidKey);
        }
        let pkey = match backend::rsa_public_from_components(n, e) {
            Ok(p) => p,
            Err(er) => return Err(er),
        };
        proof {
            crate::bytes::lemma_strip_len(n@);
            crate::bytes::lemma_strip_len(e@);
        }
        Ok(
            RsaAnyPublicKey {
                public_key: pkey,
                n: strip_leading_zeros(n),
                e: strip_leading_zeros(e),
            },
        )
    }

    /// Serializes the key as a SubjectPublicKeyInfo PEM block
    /// (`BEGIN PUBLIC KEY`): a canonical function of the components, which
    /// OpenSSL parses back to those components.
    pub fn to_pem(&self) -> (r: Result<Vec<u8>, Error>)
        requires
            self.wf(),
        ensures
            r matches Ok(p) ==> p@ == rsa_spki_pem_of(self.n_spec(), self.e_spec())
                && rsa_spki_parse(p@) == Some(
                (strip_spec(self.n_spec()), strip_spec(self.e_spec())),
            ) && !contains_seq(p@, begin_rsa_marker()),
            r matches Err(e) ==> e is Crypto,
    {
        backend::rsa_spki_pem(self.n.as_slice(), self.e.as_slice())
    }

    /// Serializes the key as a legacy PKCS#1 PEM block
    /// (`BEGIN RSA PUBLIC KEY`), also a canonical function of the
    /// components.
    pub fn to_pem_pkcs1(&self) -> (r: Result<Vec<u8>, Error>)
        requires
            self.wf(),
        ensures
            r matches Ok(p) ==> p@ == rsa_pkcs1_pem_of(self.n_spec(), self.e_spec())
                && rsa_pkcs1_parse(p@) == Some(
                (strip_spec(self.n_spec()), strip_spec(self.e_spec())),
            ) && contains_seq(p@, begin_rsa_marker()),
            r matches Err(e) ==> e is Crypto,
    {
        backend::rsa_pkcs1_pem(self.n.as_slice(), self.e.as_slice())
    }

    /// The big-endian bytes of the modulus.
    pub fn n(&self) -> (r: Result<Vec<u8>, Error>)
        ensures
            r matches Ok(v) && v@ == self.n_spec(),
    {
        Ok(vstd::slice::slice_to_vec(self.n.as_slice()))
    }

    /// The big-endian bytes of the exponent.
    pub fn e(&self) -> (r: Result<Vec<u8>, Error>)
        ensures
            r matches Ok(v) && v@ == self.e_spec(),
    {
        Ok(vstd::slice::slice_to_vec(self.e.as_slice()))
    }
}

/// An RSA public key bound to exactly one algorithm of the catalog: it
/// checks signatures of that algorithm and no other.
#[derive(Debug)]
pub struct RsaPublicKey {
    public_key: PKey<Public>,
    algorithm: RsaAlgorithm,
    n: Vec<u8>,
    e: Vec<u8>,
}

impl RsaPublicKey {
    /// The algorithm this key is bound to.
    pub closed spec fn alg_spec(&self) -> RsaAlgorithm {
        self.algorithm
    }

    /// The big-endian bytes of the modulus.
    pub closed spec fn n_spec(&self) -> Seq<u8> {
        self.n@
    }

    /// The big-endian bytes of the exponent.
    pub closed spec fn e_spec(&self) -> Seq<u8> {
        self.e@
    }

    /// The stored components are normalized big-endian integers, short
    /// enough for the cryptography bindings.
    pub open spec fn wf(&self) -> bool {
        no_leading_zero(self.n_spec()) && no_leading_zero(self.e_spec()) && self.n_spec().len()
            <= crate::FFI_LEN_MAX && self.e_spec().len() <= crate::FFI_LEN_MAX
    }

    /// Imports a public-key PEM block, as `RsaAnyPublicKey::from_pem` does,
    /// and binds the key to `algorithm`. The import succeeds exactly when
    /// the parse selected by the legacy marker yields an RSA public key,
    /// and the key then holds the parsed components.
    pub fn from_pem(pem: &[u8], algorithm: RsaAlgorithm) -> (r: Result<Self, Error>)
        ensures
            r matches Ok(k) ==> k.wf() && k.alg_spec() == algorithm && (rsa_public_pem_parse(pem@)
                matches Some(c) && k.n_spec() == c.0 && k.e_spec() == c.1),
            r matches Err(e) ==> (e is UnsupportedOrInvalidKey && (!rsa_public_pem_readable(pem@)
                || rsa_public_pem_parse(pem@) is None)) || e is Crypto,
    {
        if pem.len() > FFI_LEN_MAX {
            return Err(Error::UnsupportedOrInvalidKey);
        }
        let (pkey, n, e) = if contains_bytes(pem, "BEGIN RSA".as_bytes()) {
            if contains_bytes(pem, "Proc-Type:".as_bytes()) {
                return Err(Error::UnsupportedOrInvalidKey);
            }
            match backend::rsa_public_from_pkcs1_pem(pem) {
                Ok(t) => t,
                Err(er) => return Err(er),
            }
        } else {
            match backend::rsa_public_from_spki_pem(pem) {
                Ok(t) => t,
                Err(er) => return Err(er),
            }
        };
        Ok(RsaPublicKey { public_key: pkey, algorithm, n, e })
    }

    /// Builds a key from big-endian modulus and exponent bytes, bound to
    /// `algorithm`. The stored components are the inputs with leading zero
    /// bytes removed.
    pub fn from_components(n: &[u8], e: &[u8], algorithm: RsaAlgorithm) -> (r: Result<Self, Error>)
        ensures
            r matches Ok(k) ==> k.wf() && k.alg_spec() == algorithm && k.n_spec() == strip_spec(n@)
                && k.e_spec() == strip_spec(e@),
            r matches Err(er) ==> er is Crypto || (er is UnsupportedOrInvalidKey && (n@.len()
                > FFI_LEN_MAX || e@.len() > FFI_LEN_MAX)),
    {
        if n.len() > FFI_LEN_MAX || e.len() > FFI_LEN_MAX {
            return Err(Error::UnsupportedOrInvalidKey);
        }
        let pkey = match backend::rsa_public_from_components(n, e) {
            Ok(p) => p,
            Err(er) => return Err(er),
        };
        proof {
            crate::bytes::lemma_strip_len(n@);
            crate::bytes::lemma_strip_len(e@);
        }
        Ok(
            RsaPublicKey {
                public_key: pkey,
                algorithm,
                n: strip_leading_zeros(n),
                e: strip_leading_zeros(e),
            },
        )
    }

    /// Serializes the key as a SubjectPublicKeyInfo PEM block
    /// (`BEGIN PUBLIC KEY`): a canonical function of the components, which
    /// OpenSSL parses back to those components.
    pub fn to_pem(&self) -> (r: Result<Vec<u8>, Error>)
        requires
            self.wf(),
        ensures
            r matches Ok(p) ==> p@ == rsa_spki_pem_of(self.n_spec(), self.e_spec())
                && rsa_spki_parse(p@) == Some(
                (strip_spec(self.n_spec()), strip_spec(self.e_spec())),
            ) && !contains_seq(p@, begin_rsa_marker()),
            r matches Err(e) ==> e is Crypto,
    {
        backend::rsa_spki_pem(self.n.as_slice(), self.e.as_slice())
    }

    /// Serializes the key as a legacy PKCS#1 PEM block
    /// (`BEGIN RSA PUBLIC KEY`), also a canonical function of the
    /// components.
    pub fn to_pem_pkcs1(&self) -> (r: Result<Vec<u8>, Error>)
        requires
            self.wf(),
        ensures
            r matches Ok(p) ==> p@ == rsa_pkcs1_pem_of(self.n_spec(), self.e_spec())
                && rsa_pkcs1_parse(p@) == Some(
                (strip_spec(self.n_spec()), strip_spec(self.e_spec())),
            ) && contains_seq(p@, begin_rsa_marker()),
            r matches Err(e) ==> e is Crypto,
    {
        backend::rsa_pkcs1_pem(self.n.as_slice(), self.e.as_slice())
    }

    /// The big-endian bytes of the modulus.
    pub fn n(&self) -> (r: Result<Vec<u8>, Error>)
        ensures
            r matches Ok(v) && v@ == self.n_spec(),
    {
        Ok(vstd::slice::slice_to_vec(self.n.as_slice()))
    }

    /// The big-endian bytes of the exponent.
    pub fn e(&self) -> (r: Result<Vec<u8>, Error>)
        ensures
            r matches Ok(v) && v@ == self.e_spec(),
    {
        Ok(vstd::slice::slice_to_vec(self.e.as_slice()))
    }
}

impl SigningKey for RsaPrivateKey {
    open spec fn sk_wf(&self) -> bool {
        self.wf()
    }

    open spec fn sk_alg_name(&self) -> Seq<char> {
        rsa_name_spec(self.alg_spec())
    }

    open spec fn sk_jwk_spec(&self) -> JwkView {
        rsa_jwk_view(Some(self.alg_spec()), self.n_spec(), self.e_spec())
    }

    open spec fn sk_sig_ok(&self, v: Seq<u8>, sig: Seq<u8>) -> bool {
        rsa_sig_ok_spec(self.alg_spec(), self.n_spec(), self.e_spec(), v, sig)
    }

    open spec fn sk_fixed_sig(&self, v: Seq<u8>) -> Option<Seq<u8>> {
        if rsa_is_pss_spec(self.alg_spec()) {
            None
        } else {
            Some(rsa_pkcs1_sig_of(self.n_spec(), self.e_spec(), rsa_digest_spec(self.alg_spec()), v))
        }
    }

    open spec fn sk_sig_len(&self) -> Option<nat> {
        Some(self.n_spec().len())
    }

    fn sign(&self, v: &[u8]) -> (r: Result<Vec<u8>, Error>) {
        let (sig, n2, e2) = match backend::rsa_sign_components(
            &self.private_key,
            self.algorithm.digest_kind(),
            self.algorithm.is_pss(),
            v,
        ) {
            Ok(t) => t,
            Err(er) => return Err(er),
        };
        if !bytes_eq(n2.as_slice(), self.n.as_slice()) || !bytes_eq(
            e2.as_slice(),
            self.e.as_slice(),
        ) {
            return Err(backend::crypto_error());
        }
        let ok = match backend::rsa_verify_components(
            self.n.as_slice(),
            self.e.as_slice(),
            self.algorithm.digest_kind(),
            self.algorithm.is_pss(),
            v,
            sig.as_slice(),
        ) {
            Ok(b) => b,
            Err(er) => return Err(er),
        };
        if ok {
            Ok(sig)
        } else {
            Err(backend::crypto_error())
        }
    }

    fn public_key_to_jwk(&self) -> (r: Result<Jwk, Error>) {
        Ok(
            Jwk {
                kty: "RSA".to_owned(),
                use_: Some("sig".to_owned()),
                alg: Some(self.algorithm.name().to_owned()),
                n: Some(b64url_encode(self.n.as_slice())),
                e: Some(b64url_encode(self.e.as_slice())),
                crv: None,
                x: None,
                y: None,
            },
        )
    }

    fn alg(&self) -> (r: &'static str) {
        self.algorithm.name()
    }
}

impl VerificationKey for RsaPrivateKey {
    open spec fn vk_wf(&self) -> bool {
        self.wf()
    }

    open spec fn accepts_alg(&self, alg: Seq<char>) -> bool {
        alg == rsa_name_spec(self.alg_spec())
    }

    open spec fn vk_jwk_spec(&self) -> JwkView {
        rsa_jwk_view(Some(self.alg_spec()), self.n_spec(), self.e_spec())
    }

    open spec fn sig_ok(&self, alg: Seq<char>, v: Seq<u8>, sig: Seq<u8>) -> bool {
        rsa_sig_ok_spec(self.alg_spec(), self.n_spec(), self.e_spec(), v, sig)
    }

    fn verify(&self, v: &[u8], sig: &[u8], alg: &str) -> (r: Result<(), Error>) {
        if !str_eq(alg, self.algorithm.name()) {
            return Err(Error::VerificationError);
        }
        let ok = match backend::rsa_verify_components(
            self.n.as_slice(),
            self.e.as_slice(),
            self.algorithm.digest_kind(),
            self.algorithm.is_pss(),
            v,
            sig,
        ) {
            Ok(b) => b,
            Err(er) => return Err(er),
        };
        if ok {
            Ok(())
        } else {
            Err(Error::VerificationError)
        }
    }

    fn public_key_to_jwk(&self) -> (r: Result<Jwk, Error>) {
        Ok(
            Jwk {
                kty: "RSA".to_owned(),
                use_: Some("sig".to_owned()),
                alg: Some(self.algorithm.name().to_owned()),
                n: Some(b64url_encode(self.n.as_slice())),
                e: Some(b64url_encode(self.e.as_slice())),
                crv: None,
                x: None,
                y: None,
            },
        )
    }
}

impl VerificationKey for RsaPublicKey {
    open spec fn vk_wf(&self) -> bool {
        self.wf()
    }

    open spec fn accepts_alg(&self, alg: Seq<char>) -> bool {
        alg == rsa_name_spec(self.alg_spec())
    }

    open spec fn vk_jwk_spec(&self) -> JwkView {
        rsa_jwk_view(Some(self.alg_spec()), self.n_spec(), self.e_spec())
    }

    open spec fn sig_ok(&self, alg: Seq<char>, v: Seq<u8>, sig: Seq<u8>) -> bool {
        rsa_sig_ok_spec(self.alg_spec(), self.n_spec(), self.e_spec(), v, sig)
    }

    fn verify(&self, v: &[u8], sig: &[u8], alg: &str) -> (r: Result<(), Error>) {
        if !str_eq(alg, self.algorithm.name()) {
            return Err(Error::VerificationError);
        }
        let ok = match backend::rsa_verify_components(
            self.n.as_slice(),
            self.e.as_slice(),
            self.algorithm.digest_kind(),
            self.algorithm.is_pss(),
            v,
            sig,
        ) {
            Ok(b) => b,
            Err(er) => return Err(er),
        };
        if ok {
            Ok(())
        } else {
            Err(Error::VerificationError)
        }
    }

    fn public_key_to_jwk(&self) -> (r: Result<Jwk, Error>) {
        Ok(
            Jwk {
                kty: "RSA".to_owned(),
                use_: Some("sig".to_owned()),
                alg: Some(self.algorithm.name().to_owned()),
                n: Some(b64url_encode(self.n.as_slice())),
                e: Some(b64url_encode(self.e.as_slice())),
                crv: None,
                x: None,
                y: None,
            },
        )
    }
}

impl VerificationKey for RsaAnyPublicKey {
    open spec fn vk_wf(&self) -> bool {
        self.wf()
    }

    open spec fn accepts_alg(&self, alg: Seq<char>) -> bool {
        rsa_from_name_spec(alg) is Some
    }

    open spec fn vk_jwk_spec(&self) -> JwkView {
        rsa_jwk_view(None, self.n_spec(), self.e_spec())
    }

    open spec fn sig_ok(&self, alg: Seq<char>, v: Seq<u8>, sig: Seq<u8>) -> bool {
        match rsa_from_name_spec(alg) {
            Some(a) => rsa_sig_ok_spec(a, self.n_spec(), self.e_spec(), v, sig),
            None => false,
        }
    }

    fn verify(&self, v: &[u8], sig: &[u8], alg: &str) -> (r: Result<(), Error>) {
        let algorithm = match RsaAlgorithm::from_name(alg) {
            Ok(a) => a,
            Err(_) => return Err(Error::VerificationError),
        };
        let ok = match backend::rsa_verify_components(
            self.n.as_slice(),
            self.e.as_slice(),
            algorithm.digest_kind(),
            algorithm.is_pss(),
            v,
            sig,
        ) {
            Ok(b) => b,
            Err(er) => return Err(er),
        };
        if ok {
            Ok(())
        } else {
            Err(Error::VerificationError)
        }
    }

    fn public_key_to_jwk(&self) -> (r: Result<Jwk, Error>) {
        Ok(
            Jwk {
                kty: "RSA".to_owned(),
                use_: Some("sig".to_owned()),
                alg: None,
                n: Some(b64url_encode(self.n.as_slice())),
                e: Some(b64url_encode(self.e.as_slice())),
                crv: None,
                x: None,
                y: None,
            },
        )
    }
}

/// Confusion guard, stated over the catalog: a key bound to one RSA
/// algorithm refuses the wire name of every other RSA algorithm, so a
/// signature made under algorithm `b` is never even examined by a key
/// bound to a different algorithm.
pub proof fn lemma_rsa_bound_key_rejects_other_algorithms(k: RsaPublicKey, b: RsaAlgorithm)
    requires
        b != k.alg_spec(),
    ensures
        !k.accepts_alg(rsa_name_spec(b)),
{
    lemma_rsa_names_injective();
}

/// The same guard for a private key verifying its own signatures.
pub proof fn lemma_rsa_private_key_rejects_other_algorithms(k: RsaPrivateKey, b: RsaAlgorithm)
    requires
        b != k.alg_spec(),
    ensures
        !k.accepts_alg(rsa_name_spec(b)),
{
    lemma_rsa_names_injective();
}

/// A private key acting as its own verifier and a public verification key
/// with the same binding and components agree on every claimed name and on
/// every (payload, signature) pair: the guard compares the same bound name
/// and the cryptographic outcome is the same function of the shared public
/// components. With the `verify` contract this makes the two verifiers
/// interchangeable, up to underlying-library errors.
pub proof fn lemma_private_public_verifier_agree(
    k: &RsaPrivateKey,
    p: &RsaPublicKey,
    alg: Seq<char>,
    v: Seq<u8>,
    sig: Seq<u8>,
)
    requires
        k.alg_spec() == p.alg_spec(),
        k.n_spec() == p.n_spec(),
        k.e_spec() == p.e_spec(),
    ensures
        k.accepts_alg(alg) == p.accepts_alg(alg),
        k.sig_ok(alg, v, sig) == p.sig_ok(alg, v, sig),
{
}

} // verus!
