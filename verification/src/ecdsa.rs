//! The elliptic-curve DSA family: algorithm catalog and keys bound to one
//! curve-and-digest pair.

use vstd::prelude::*;
use openssl::pkey::{PKey, Private, Public};
use crate::DigestKind;
use crate::FFI_LEN_MAX;
use crate::Error;
use crate::SigningKey;
use crate::VerificationKey;
use crate::backend;
use crate::b64::b64url_of;
use crate::b64::b64url_encode;
use crate::bytes::bytes_eq;
use crate::bytes::left_pad;
use crate::bytes::pad_spec;
use crate::bytes::str_eq;
use crate::bytes::strip_leading_zeros;
use crate::bytes::strip_spec;
use crate::jwk::Jwk;
use crate::jwk::JwkView;

verus! {

/// ECDSA signature algorithms. Each one fixes a curve and a digest.
#[non_exhaustive]
#[derive(Debug, Clone, Copy, PartialEq, Eq, Structural)]
pub enum EcdsaAlgorithm {
    ES256,
    ES384,
    ES512,
}

/// The canonical wire name of an ECDSA algorithm.
pub open spec fn ecdsa_name_spec(a: EcdsaAlgorithm) -> Seq<char> {
    match a {
        EcdsaAlgorithm::ES256 => "ES256"@,
        EcdsaAlgorithm::ES384 => "ES384"@,
        EcdsaAlgorithm::ES512 => "ES512"@,
    }
}

/// The catalog lookup for ECDSA wire names: exact, case-sensitive matches
/// only, with no fallback.
pub open spec fn ecdsa_from_name_spec(s: Seq<char>) -> Option<EcdsaAlgorithm> {
    if s == "ES256"@ {
        Some(EcdsaAlgorithm::ES256)
    } else if s == "ES384"@ {
        Some(EcdsaAlgorithm::ES384)
    } else if s == "ES512"@ {
        Some(EcdsaAlgorithm::ES512)
    } else {
        None
    }
}

/// The JWK curve name of an ECDSA algorithm.
pub open spec fn ecdsa_curve_spec(a: EcdsaAlgorithm) -> Seq<char> {
    match a {
        EcdsaAlgorithm::ES256 => "P-256"@,
        EcdsaAlgorithm::ES384 => "P-384"@,
        EcdsaAlgorithm::ES512 => "P-521"@,
    }
}

/// The curve lookup for JWK curve names.
pub open spec fn ecdsa_from_curve_spec(s: Seq<char>) -> Option<EcdsaAlgorithm> {
    if s == "P-256"@ {
        Some(EcdsaAlgorithm::ES256)
    } else if s == "P-384"@ {
        Some(EcdsaAlgorithm::ES384)
    } else if s == "P-521"@ {
        Some(EcdsaAlgorithm::ES512)
    } else {
        None
    }
}

/// The digest paired with each algorithm's curve.
pub open spec fn ecdsa_digest_spec(a: EcdsaAlgorithm) -> DigestKind {
    match a {
        EcdsaAlgorithm::ES256 => DigestKind::Sha256,
        EcdsaAlgorithm::ES384 => DigestKind::Sha384,
        EcdsaAlgorithm::ES512 => DigestKind::Sha512,
    }
}

/// Whether OpenSSL's one-shot verification accepts the DER signature `sig`
/// over `v` for the public point `(x, y)` on the curve of `a`, under that
/// algorithm's digest. The outcome is a function of these values alone;
/// the trusted verification wrapper ties this name to it.
pub uninterp spec fn ecdsa_verify_ok(
    a: EcdsaAlgorithm,
    x: Seq<u8>,
    y: Seq<u8>,
    v: Seq<u8>,
    sig: Seq<u8>,
) -> bool;

/// What OpenSSL's PKCS#8 parse makes of a PEM block read as an EC private
/// key: the curve's algorithm and the public point's coordinate bytes in
/// minimal big-endian form, `None` for another family, an unsupported
/// curve, or malformed text.
pub uninterp spec fn ec_pkcs8_parse(pem: Seq<u8>) -> Option<(EcdsaAlgorithm, Seq<u8>, Seq<u8>)>;

/// What OpenSSL makes of a SubjectPublicKeyInfo PEM block read as an EC
/// public key, in the same form as `ec_pkcs8_parse`.
pub uninterp spec fn ec_spki_parse(pem: Seq<u8>) -> Option<(EcdsaAlgorithm, Seq<u8>, Seq<u8>)>;

/// Whether OpenSSL accepts `(x, y)` as a public point on the curve of `a`.
pub uninterp spec fn ec_point_acceptable(a: EcdsaAlgorithm, x: Seq<u8>, y: Seq<u8>) -> bool;

/// The SubjectPublicKeyInfo PEM text of the EC public point `(x, y)` on
/// the curve of `a`: a function of these values alone.
pub uninterp spec fn ec_spki_pem_of(a: EcdsaAlgorithm, x: Seq<u8>, y: Seq<u8>) -> Seq<u8>;

/// The byte width of one field coordinate of the algorithm's curve.
pub open spec fn ecdsa_coord_len_spec(a: EcdsaAlgorithm) -> nat {
    match a {
        EcdsaAlgorithm::ES256 => 32,
        EcdsaAlgorithm::ES384 => 48,
        EcdsaAlgorithm::ES512 => 66,
    }
}

impl EcdsaAlgorithm {
    /// The digest paired with this algorithm's curve.
    pub fn digest_kind(self) -> (r: DigestKind)
        ensures
            r == ecdsa_digest_spec(self),
    {
        match self {
            EcdsaAlgorithm::ES256 => DigestKind::Sha256,
            EcdsaAlgorithm::ES384 => DigestKind::Sha384,
            EcdsaAlgorithm::ES512 => DigestKind::Sha512,
        }
    }

    /// The canonical wire name.
    pub fn name(self) -> (r: &'static str)
        ensures
            r@ == ecdsa_name_spec(self),
    {
        match self {
            EcdsaAlgorithm::ES256 => "ES256",
            EcdsaAlgorithm::ES384 => "ES384",
            EcdsaAlgorithm::ES512 => "ES512",
        }
    }

    /// Looks a wire name up in the catalog. Unknown names are rejected,
    /// never mapped to a default algorithm.
    pub fn from_name(name: &str) -> (r: Result<Self, Error>)
        ensures
            r matches Ok(a) ==> ecdsa_from_name_spec(name@) == Some(a),
            r matches Err(e) ==> ecdsa_from_name_spec(name@) is None
                && e is UnsupportedOrInvalidKey,
    {
        if str_eq(name, "ES256") {
            Ok(EcdsaAlgorithm::ES256)
        } else if str_eq(name, "ES384") {
            Ok(EcdsaAlgorithm::ES384)
        } else if str_eq(name, "ES512") {
            Ok(EcdsaAlgorithm::ES512)
        } else {
            Err(Error::UnsupportedOrInvalidKey)
        }
    }

    /// The JWK curve name of this algorithm's curve.
    pub fn curve(self) -> (r: &'static str)
        ensures
            r@ == ecdsa_curve_spec(self),
    {
        match self {
            EcdsaAlgorithm::ES256 => "P-256",
            EcdsaAlgorithm::ES384 => "P-384",
            EcdsaAlgorithm::ES512 => "P-521",
        }
    }

    /// Looks a JWK curve name up in the catalog.
    pub fn from_curve(crv: &str) -> (r: Result<Self, Error>)
        ensures
            r matches Ok(a) ==> ecdsa_from_curve_spec(crv@) == Some(a),
            r matches Err(e) ==> ecdsa_from_curve_spec(crv@) is None
                && e is UnsupportedOrInvalidKey,
    {
        if str_eq(crv, "P-256") {
            Ok(EcdsaAlgorithm::ES256)
        } else if str_eq(crv, "P-384") {
            Ok(EcdsaAlgorithm::ES384)
        } else if str_eq(crv, "P-521") {
            Ok(EcdsaAlgorithm::ES512)
        } else {
            Err(Error::UnsupportedOrInvalidKey)
        }
    }

    /// The byte width of one field coordinate of this algorithm's curve.
    pub fn coordinate_len(self) -> (r: usize)
        ensures
            r as nat == ecdsa_coord_len_spec(self),
    {
        match self {
            EcdsaAlgorithm::ES256 => 32,
            EcdsaAlgorithm::ES384 => 48,
            EcdsaAlgorithm::ES512 => 66,
        }
    }
}

/// Looking an ECDSA algorithm's own name up in the catalog returns that
/// algorithm: the two directions of the catalog are mutual inverses.
pub proof fn lemma_ecdsa_name_round_trip(a: EcdsaAlgorithm)
    ensures
        ecdsa_from_name_spec(ecdsa_name_spec(a)) == Some(a),
{
    reveal_strlit("ES256");
    reveal_strlit("ES384");
    reveal_strlit("ES512");
    assert("ES384"@[2] != "ES256"@[2]);
    assert("ES512"@[2] != "ES256"@[2]);
    assert("ES512"@[2] != "ES384"@[2]);
}

/// The curve lookup inverts the curve name in the same way.
pub proof fn lemma_ecdsa_curve_round_trip(a: EcdsaAlgorithm)
    ensures
        ecdsa_from_curve_spec(ecdsa_curve_spec(a)) == Some(a),
{
    reveal_strlit("P-256");
    reveal_strlit("P-384");
    reveal_strlit("P-521");
    assert("P-384"@[2] != "P-256"@[2]);
    assert("P-521"@[2] != "P-256"@[2]);
    assert("P-521"@[2] != "P-384"@[2]);
}

/// No two ECDSA algorithms share a wire name.
pub proof fn lemma_ecdsa_names_injective()
    ensures
        forall|a: EcdsaAlgorithm, b: EcdsaAlgorithm|
            ecdsa_name_spec(a) == ecdsa_name_spec(b) ==> a == b,
{
    reveal_strlit("ES256");
    reveal_strlit("ES384");
    reveal_strlit("ES512");
    assert forall|a: EcdsaAlgorithm, b: EcdsaAlgorithm|
        ecdsa_name_spec(a) == ecdsa_name_spec(b) implies a == b by {
        if a != b {
            assert(ecdsa_name_spec(a)[2] != ecdsa_name_spec(b)[2]);
        }
    }
}

/// The JWK record exported for ECDSA key material: `kty` "EC", `use`
/// "sig", the bound algorithm's name and curve, and the base64url affine
/// coordinates, each padded to the curve's coordinate width. Fields of
/// other families are absent.
pub open spec fn ec_jwk_view(alg: EcdsaAlgorithm, x: Seq<u8>, y: Seq<u8>) -> JwkView {
    JwkView {
        kty: "EC"@,
        use_: Some("sig"@),
        alg: Some(ecdsa_name_spec(alg)),
        n: None,
        e: None,
        crv: Some(ecdsa_curve_spec(alg)),
        x: Some(b64url_of(x)),
        y: Some(b64url_of(y)),
    }
}

/// An ECDSA private key bound to exactly one algorithm of the catalog.
#[derive(Debug)]
pub struct EcdsaPrivateKey {
    private_key: PKey<Private>,
    algorithm: EcdsaAlgorithm,
    x: Vec<u8>,
    y: Vec<u8>,
}

impl EcdsaPrivateKey {
    /// The algorithm this key is bound to.
    pub closed spec fn alg_spec(&self) -> EcdsaAlgorithm {
        self.algorithm
    }

    /// The big-endian bytes of the public point's x coordinate.
    pub closed spec fn x_spec(&self) -> Seq<u8> {
        self.x@
    }

    /// The big-endian bytes of the public point's y coordinate.
    pub closed spec fn y_spec(&self) -> Seq<u8> {
        self.y@
    }

    /// Both stored coordinates have exactly the curve's byte width.
    pub open spec fn wf(&self) -> bool {
        self.x_spec().len() == ecdsa_coord_len_spec(self.alg_spec()) && self.y_spec().len()
            == ecdsa_coord_len_spec(self.alg_spec())
    }

    /// Generates a fresh key on the curve of `algorithm`.
    pub fn generate(algorithm: EcdsaAlgorithm) -> (r: Result<Self, Error>)
        ensures
            r matches Ok(k) ==> k.wf() && k.alg_spec() == algorithm,
            r matches Err(e) ==> (e is Crypto || e is UnsupportedOrInvalidKey),
    {
        let pkey = match backend::ec_generate(algorithm) {
            Ok(p) => p,
            Err(er) => return Err(er),
        };
        let (x, y) = match backend::ec_coords_of_private(&pkey) {
            Ok(t) => t,
            Err(er) => return Err(er),
        };
        let coord = algorithm.coordinate_len();
        let xp = left_pad(x.as_slice(), coord);
        let yp = left_pad(y.as_slice(), coord);
        if xp.len() != coord || yp.len() != coord {
            return Err(Error::UnsupportedOrInvalidKey);
        }
        Ok(EcdsaPrivateKey { private_key: pkey, algorithm, x: xp, y: yp })
    }

    /// Imports a PKCS#8 private-key PEM block and checks it against
    /// `algorithm`: the import succeeds exactly when the block parses as
    /// an EC private key on that algorithm's curve whose coordinates fit
    /// the curve's width, and the key then holds the parsed coordinates
    /// padded to that width. A block of another family, or an EC key on a
    /// different curve, is rejected as an invalid key.
    pub fn from_pem(pem: &[u8], algorithm: EcdsaAlgorithm) -> (r: Result<Self, Error>)
        ensures
            r matches Ok(k) ==> k.wf() && k.alg_spec() == algorithm && (ec_pkcs8_parse(pem@)
                matches Some(c) && c.0 == algorithm && k.x_spec() == pad_spec(
                c.1,
                ecdsa_coord_len_spec(algorithm),
            ) && k.y_spec() == pad_spec(c.2, ecdsa_coord_len_spec(algorithm))),
            r matches Err(e) ==> e is Crypto || (e is UnsupportedOrInvalidKey && (pem@.len()
                > FFI_LEN_MAX || !(ec_pkcs8_parse(pem@) matches Some(c) && c.0 == algorithm
                && c.1.len() <= ecdsa_coord_len_spec(algorithm) && c.2.len()
                <= ecdsa_coord_len_spec(algorithm)))),
    {
        if pem.len() > FFI_LEN_MAX {
            return Err(Error::UnsupportedOrInvalidKey);
        }
        let (pkey, x, y) = match backend::ec_private_from_pem(pem, algorithm) {
            Ok(t) => t,
            Err(er) => return Err(er),
        };
        let coord = algorithm.coordinate_len();
        let xp = left_pad(x.as_slice(), coord);
        let yp = left_pad(y.as_slice(), coord);
        if xp.len() != coord || yp.len() != coord {
            return Err(Error::UnsupportedOrInvalidKey);
        }
        Ok(EcdsaPrivateKey { private_key: pkey, algorithm, x: xp, y: yp })
    }

    /// Serializes the private key as a PKCS#8 PEM block. The produced
    /// text parses back to a key on this key's curve with exactly its
    /// public point and to no other family's key, which is checked
    /// against the stored coordinates before the text is handed out.
    pub fn private_key_to_pem_pkcs8(&self) -> (r: Result<Vec<u8>, Error>)
        requires
            self.wf(),
        ensures
            r matches Ok(p) ==> (ec_pkcs8_parse(p@) matches Some(c) && c.0 == self.alg_spec()
                && pad_spec(c.1, ecdsa_coord_len_spec(self.alg_spec())) == self.x_spec()
                && pad_spec(c.2, ecdsa_coord_len_spec(self.alg_spec())) == self.y_spec())
                && crate::rsa::rsa_pkcs8_parse(p@) is None && crate::eddsa::ed25519_pkcs8_parse(
                p@,
            ) is None,
            r matches Err(e) ==> e is Crypto,
    {
        let p = match backend::private_key_to_pem_pkcs8(&self.private_key) {
            Ok(p) => p,
            Err(er) => return Err(er),
        };
        if p.len() > FFI_LEN_MAX {
            return Err(backend::crypto_error());
        }
        let (_k, x2, y2) = match backend::ec_private_from_pem(p.as_slice(), self.algorithm) {
            Ok(t) => t,
            Err(_) => return Err(backend::crypto_error()),
        };
        let coord = self.algorithm.coordinate_len();
        let xp = left_pad(x2.as_slice(), coord);
        let yp = left_pad(y2.as_slice(), coord);
        if bytes_eq(xp.as_slice(), self.x.as_slice()) && bytes_eq(
            yp.as_slice(),
            self.y.as_slice(),
        ) {
            Ok(p)
        } else {
            Err(backend::crypto_error())
        }
    }

    /// Serializes the public half as a SubjectPublicKeyInfo PEM block: a
    /// canonical function of the curve and coordinates, which OpenSSL
    /// parses back to the same point.
    pub fn public_key_pem(&self) -> (r: Result<Vec<u8>, Error>)
        requires
            self.wf(),
        ensures
            r matches Ok(p) ==> p@ == ec_spki_pem_of(self.alg_spec(), self.x_spec(), self.y_spec())
                && ec_spki_parse(p@) == Some(
                (self.alg_spec(), strip_spec(self.x_spec()), strip_spec(self.y_spec())),
            ),
            r matches Err(e) ==> (e is UnsupportedOrInvalidKey || e is Crypto),
    {
        backend::ec_spki_pem(self.algorithm, self.x.as_slice(), self.y.as_slice())
    }
}

/// An ECDSA public key bound to exactly one algorithm of the catalog.
#[derive(Debug)]
pub struct EcdsaPublicKey {
    public_key: PKey<Public>,
    algorithm: EcdsaAlgorithm,
    x: Vec<u8>,
    y: Vec<u8>,
}

impl EcdsaPublicKey {
    /// The algorithm this key is bound to.
    pub closed spec fn alg_spec(&self) -> EcdsaAlgorithm {
        self.algorithm
    }

    /// The big-endian bytes of the public point's x coordinate.
    pub closed spec fn x_spec(&self) -> Seq<u8> {
        self.x@
    }

    /// The big-endian bytes of the public point's y coordinate.
    pub closed spec fn y_spec(&self) -> Seq<u8> {
        self.y@
    }

    /// Both stored coordinates have exactly the curve's byte width.
    pub open spec fn wf(&self) -> bool {
        self.x_spec().len() == ecdsa_coord_len_spec(self.alg_spec()) && self.y_spec().len()
            == ecdsa_coord_len_spec(self.alg_spec())
    }

    /// Imports a SubjectPublicKeyInfo PEM block and checks it against
    /// `algorithm`, exactly as `EcdsaPrivateKey::from_pem` reads its
    /// PKCS#8 block.
    pub fn from_pem(pem: &[u8], algorithm: EcdsaAlgorithm) -> (r: Result<Self, Error>)
        ensures
            r matches Ok(k) ==> k.wf() && k.alg_spec() == algorithm && (ec_spki_parse(pem@)
                matches Some(c) && c.0 == algorithm && k.x_spec() == pad_spec(
                c.1,
                ecdsa_coord_len_spec(algorithm),
            ) && k.y_spec() == pad_spec(c.2, ecdsa_coord_len_spec(algorithm))),
            r matches Err(e) ==> e is Crypto || (e is UnsupportedOrInvalidKey && (pem@.len()
                > FFI_LEN_MAX || !(ec_spki_parse(pem@) matches Some(c) && c.0 == algorithm
                && c.1.len() <= ecdsa_coord_len_spec(algorithm) && c.2.len()
                <= ecdsa_coord_len_spec(algorithm)))),
    {
        if pem.len() > FFI_LEN_MAX {
            return Err(Error::UnsupportedOrInvalidKey);
        }
        let (pkey, x, y) = match backend::ec_public_from_spki_pem(pem, algorithm) {
            Ok(t) => t,
            Err(er) => return Err(er),
        };
        let coord = algorithm.coordinate_len();
        let xp = left_pad(x.as_slice(), coord);
        let yp = left_pad(y.as_slice(), coord);
        if xp.len() != coord || yp.len() != coord {
            return Err(Error::UnsupportedOrInvalidKey);
        }
        Ok(EcdsaPublicKey { public_key: pkey, algorithm, x: xp, y: yp })
    }

    /// Builds a key from big-endian affine coordinate bytes on the curve
    /// of `algorithm`. The stored coordinates are the inputs normalized
    /// and padded to the curve's coordinate width; a point that is not on
    /// the curve, or a coordinate too wide for it, is rejected.
    pub fn from_coordinates(x: &[u8], y: &[u8], algorithm: EcdsaAlgorithm) -> (r: Result<
        Self,
        Error,
    >)
        ensures
            r matches Ok(k) ==> k.wf() && k.alg_spec() == algorithm && ec_point_acceptable(
                algorithm,
                x@,
                y@,
            ) && k.x_spec() == pad_spec(strip_spec(x@), ecdsa_coord_len_spec(algorithm))
                && k.y_spec() == pad_spec(strip_spec(y@), ecdsa_coord_len_spec(algorithm)),
            r matches Err(e) ==> e is Crypto || (e is UnsupportedOrInvalidKey && (x@.len()
                > FFI_LEN_MAX || y@.len() > FFI_LEN_MAX || !(ec_point_acceptable(algorithm, x@, y@)
                && strip_spec(x@).len() <= ecdsa_coord_len_spec(algorithm) && strip_spec(
                y@,
            ).len() <= ecdsa_coord_len_spec(algorithm)))),
    {
        if x.len() > FFI_LEN_MAX || y.len() > FFI_LEN_MAX {
            return Err(Error::UnsupportedOrInvalidKey);
        }
        let pkey = match backend::ec_public_from_coordinates(algorithm, x, y) {
            Ok(p) => p,
            Err(er) => return Err(er),
        };
        let coord = algorithm.coordinate_len();
        let xs = strip_leading_zeros(x);
        let ys = strip_leading_zeros(y);
        let xp = left_pad(xs.as_slice(), coord);
        let yp = left_pad(ys.as_slice(), coord);
        if xp.len() != coord || yp.len() != coord {
            return Err(Error::UnsupportedOrInvalidKey);
        }
        Ok(EcdsaPublicKey { public_key: pkey, algorithm, x: xp, y: yp })
    }

    /// Serializes the key as a SubjectPublicKeyInfo PEM block: a canonical
    /// function of the curve and coordinates, which OpenSSL parses back to
    /// the same point.
    pub fn to_pem(&self) -> (r: Result<Vec<u8>, Error>)
        requires
            self.wf(),
        ensures
            r matches Ok(p) ==> p@ == ec_spki_pem_of(self.alg_spec(), self.x_spec(), self.y_spec())
                && ec_spki_parse(p@) == Some(
                (self.alg_spec(), strip_spec(self.x_spec()), strip_spec(self.y_spec())),
            ),
            r matches Err(e) ==> (e is UnsupportedOrInvalidKey || e is Crypto),
    {
        backend::ec_spki_pem(self.algorithm, self.x.as_slice(), self.y.as_slice())
    }
}

impl SigningKey for EcdsaPrivateKey {
    open spec fn sk_wf(&self) -> bool {
        self.wf()
    }

    open spec fn sk_alg_name(&self) -> Seq<char> {
        ecdsa_name_spec(self.alg_spec())
    }

    open spec fn sk_jwk_spec(&self) -> JwkView {
        ec_jwk_view(self.alg_spec(), self.x_spec(), self.y_spec())
    }

    open spec fn sk_sig_ok(&self, v: Seq<u8>, sig: Seq<u8>) -> bool {
        ecdsa_verify_ok(self.alg_spec(), self.x_spec(), self.y_spec(), v, sig)
    }

    open spec fn sk_fixed_sig(&self, v: Seq<u8>) -> Option<Seq<u8>> {
        None
    }

    open spec fn sk_sig_len(&self) -> Option<nat> {
        None
    }

    fn sign(&self, v: &[u8]) -> (r: Result<Vec<u8>, Error>) {
        let sig = match backend::sign_digest(
            &self.private_key,
            self.algorithm.digest_kind(),
            false,
            v,
        ) {
            Ok(s) => s,
            Err(er) => return Err(er),
        };
        let ok = match backend::ec_verify_components(
            self.algorithm,
            self.x.as_slice(),
            self.y.as_slice(),
            v,
            sig.as_slice(),
        ) {
            Ok(b) => b,
            Err(er) => return Err(er),
        };
        if ok {
            Ok(sig)
        } else {
            Err(backend::crypto_error())
        }
    }

    fn public_key_to_jwk(&self) -> (r: Result<Jwk, Error>) {
        Ok(
            Jwk {
                kty: "EC".to_owned(),
                use_: Some("sig".to_owned()),
                alg: Some(self.algorithm.name().to_owned()),
                n: None,
                e: None,
                crv: Some(self.algorithm.curve().to_owned()),
                x: Some(b64url_encode(self.x.as_slice())),
                y: Some(b64url_encode(self.y.as_slice())),
            },
        )
    }

    fn alg(&self) -> (r: &'static str) {
        self.algorithm.name()
    }
}

impl VerificationKey for EcdsaPrivateKey {
    open spec fn vk_wf(&self) -> bool {
        self.wf()
    }

    open spec fn accepts_alg(&self, alg: Seq<char>) -> bool {
        alg == ecdsa_name_spec(self.alg_spec())
    }

    open spec fn vk_jwk_spec(&self) -> JwkView {
        ec_jwk_view(self.alg_spec(), self.x_spec(), self.y_spec())
    }

    open spec fn sig_ok(&self, alg: Seq<char>, v: Seq<u8>, sig: Seq<u8>) -> bool {
        ecdsa_verify_ok(self.alg_spec(), self.x_spec(), self.y_spec(), v, sig)
    }

    fn verify(&self, v: &[u8], sig: &[u8], alg: &str) -> (r: Result<(), Error>) {
        if !str_eq(alg, self.algorithm.name()) {
            return Err(Error::VerificationError);
        }
        let ok = match backend::ec_verify_components(
            self.algorithm,
            self.x.as_slice(),
            self.y.as_slice(),
            v,
            sig,
        ) {
            Ok(b) => b,
            Err(er) => return Err(er),
        };
        if ok {
            Ok(())
        } else {
            Err(Error::VerificationError)
        }
    }

    fn public_key_to_jwk(&self) -> (r: Result<Jwk, Error>) {
        Ok(
            Jwk {
                kty: "EC".to_owned(),
                use_: Some("sig".to_owned()),
                alg: Some(self.algorithm.name().to_owned()),
                n: None,
                e: None,
                crv: Some(self.algorithm.curve().to_owned()),
                x: Some(b64url_encode(self.x.as_slice())),
                y: Some(b64url_encode(self.y.as_slice())),
            },
        )
    }
}

impl VerificationKey for EcdsaPublicKey {
    open spec fn vk_wf(&self) -> bool {
        self.wf()
    }

    open spec fn accepts_alg(&self, alg: Seq<char>) -> bool {
        alg == ecdsa_name_spec(self.alg_spec())
    }

    open spec fn vk_jwk_spec(&self) -> JwkView {
        ec_jwk_view(self.alg_spec(), self.x_spec(), self.y_spec())
    }

    open spec fn sig_ok(&self, alg: Seq<char>, v: Seq<u8>, sig: Seq<u8>) -> bool {
        ecdsa_verify_ok(self.alg_spec(), self.x_spec(), self.y_spec(), v, sig)
    }

    fn verify(&self, v: &[u8], sig: &[u8], alg: &str) -> (r: Result<(), Error>) {
        if !str_eq(alg, self.algorithm.name()) {
            return Err(Error::VerificationError);
        }
        let ok = match backend::ec_verify_components(
            self.algorithm,
            self.x.as_slice(),
            self.y.as_slice(),
            v,
            sig,
        ) {
            Ok(b) => b,
            Err(er) => return Err(er),
        };
        if ok {
            Ok(())
        } else {
            Err(Error::VerificationError)
        }
    }

    fn public_key_to_jwk(&self) -> (r: Result<Jwk, Error>) {
        Ok(
            Jwk {
                kty: "EC".to_owned(),
                use_: Some("sig".to_owned()),
                alg: Some(self.algorithm.name().to_owned()),
                n: None,
                e: None,
                crv: Some(self.algorithm.curve().to_owned()),
                x: Some(b64url_encode(self.x.as_slice())),
                y: Some(b64url_encode(self.y.as_slice())),
            },
        )
    }
}

/// Confusion guard, stated over the catalog: a key bound to one ECDSA
/// algorithm refuses the wire name of every other ECDSA algorithm.
pub proof fn lemma_ecdsa_bound_key_rejects_other_algorithms(k: EcdsaPublicKey, b: EcdsaAlgorithm)
    requires
        b != k.alg_spec(),
    ensures
        !k.accepts_alg(ecdsa_name_spec(b)),
{
    lemma_ecdsa_names_injective();
}

/// An ECDSA private key acting as its own verifier and a public
/// verification key with the same binding and coordinates agree on every
/// claimed name and on every (payload, signature) pair, so the two
/// verifiers are interchangeable up to underlying-library errors.
pub proof fn lemma_ecdsa_private_public_verifier_agree(
    k: &EcdsaPrivateKey,
    p: &EcdsaPublicKey,
    alg: Seq<char>,
    v: Seq<u8>,
    sig: Seq<u8>,
)
    requires
        k.alg_spec() == p.alg_spec(),
        k.x_spec() == p.x_spec(),
        k.y_spec() == p.y_spec(),
    ensures
        k.accepts_alg(alg) == p.accepts_alg(alg),
        k.sig_ok(alg, v, sig) == p.sig_ok(alg, v, sig),
{
}

} // verus!
