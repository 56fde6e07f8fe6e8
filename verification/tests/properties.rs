use jwtk::Error;
use jwtk::SigningKey;
use jwtk::VerificationKey;
use jwtk::ecdsa::{EcdsaAlgorithm, EcdsaPrivateKey};
use jwtk::eddsa::Ed25519PrivateKey;
use jwtk::jwk::Jwk;
use jwtk::rsa::{RsaAlgorithm, RsaPrivateKey, RsaPublicKey};

const RSA_ALGS: [RsaAlgorithm; 6] = [
    RsaAlgorithm::RS256,
    RsaAlgorithm::RS384,
    RsaAlgorithm::RS512,
    RsaAlgorithm::PS256,
    RsaAlgorithm::PS384,
    RsaAlgorithm::PS512,
];

const EC_ALGS: [EcdsaAlgorithm; 3] =
    [EcdsaAlgorithm::ES256, EcdsaAlgorithm::ES384, EcdsaAlgorithm::ES512];

#[test]
fn algorithm_name_round_trip() {
    for alg in RSA_ALGS {
        assert_eq!(RsaAlgorithm::from_name(alg.name()).unwrap(), alg);
    }
    for alg in EC_ALGS {
        assert_eq!(EcdsaAlgorithm::from_name(alg.name()).unwrap(), alg);
        assert_eq!(EcdsaAlgorithm::from_curve(alg.curve()).unwrap(), alg);
    }
    assert!(matches!(
        RsaAlgorithm::from_name("rs256"),
        Err(Error::UnsupportedOrInvalidKey)
    ));
    assert!(matches!(
        RsaAlgorithm::from_name("ES256"),
        Err(Error::UnsupportedOrInvalidKey)
    ));
    assert!(matches!(
        EcdsaAlgorithm::from_name("EdDSA"),
        Err(Error::UnsupportedOrInvalidKey)
    ));
}

#[test]
fn cross_family_rejection() {
    let ec_pem = EcdsaPrivateKey::generate(EcdsaAlgorithm::ES256)
        .unwrap()
        .private_key_to_pem_pkcs8()
        .unwrap();
    let ed_pem = Ed25519PrivateKey::generate()
        .unwrap()
        .private_key_to_pem_pkcs8()
        .unwrap();
    for alg in RSA_ALGS {
        assert!(matches!(
            RsaPrivateKey::from_pem(&ec_pem, alg),
            Err(Error::UnsupportedOrInvalidKey)
        ));
        assert!(matches!(
            RsaPrivateKey::from_pem(&ed_pem, alg),
            Err(Error::UnsupportedOrInvalidKey)
        ));
    }
    let rsa_pem = RsaPrivateKey::generate(2048, RsaAlgorithm::RS256)
        .unwrap()
        .private_key_to_pem_pkcs8()
        .unwrap();
    assert!(matches!(
        EcdsaPrivateKey::from_pem(&rsa_pem, EcdsaAlgorithm::ES256),
        Err(Error::UnsupportedOrInvalidKey)
    ));
    assert!(matches!(
        Ed25519PrivateKey::from_pem(&rsa_pem),
        Err(Error::UnsupportedOrInvalidKey)
    ));
    // An EC key on one curve does not import under another curve's algorithm.
    assert!(matches!(
        EcdsaPrivateKey::from_pem(&ec_pem, EcdsaAlgorithm::ES384),
        Err(Error::UnsupportedOrInvalidKey)
    ));
}

#[test]
fn confusion_guard() -> Result<(), Error> {
    for a in RSA_ALGS {
        let k = RsaPrivateKey::generate(2048, a)?;
        let sig = k.sign(b"msg")?;
        assert!(k.verify(b"msg", &sig, a.name()).is_ok());
        for b in RSA_ALGS {
            if b != a {
                assert!(matches!(
                    k.verify(b"msg", &sig, b.name()),
                    Err(Error::VerificationError)
                ));
            }
        }
        let any = k.to_public_any()?;
        assert!(any.verify(b"msg", &sig, a.name()).is_ok());
        // A name outside the RSA catalog fails with the undifferentiated
        // verification error, not the invalid-key error.
        assert!(matches!(
            any.verify(b"msg", &sig, "ES256"),
            Err(Error::VerificationError)
        ));
        assert!(matches!(
            any.verify(b"msg", &sig, "no such algorithm"),
            Err(Error::VerificationError)
        ));
    }
    let ek = EcdsaPrivateKey::generate(EcdsaAlgorithm::ES256)?;
    let esig = ek.sign(b"msg")?;
    assert!(ek.verify(b"msg", &esig, "ES256").is_ok());
    assert!(matches!(
        ek.verify(b"msg", &esig, "ES384"),
        Err(Error::VerificationError)
    ));
    let edk = Ed25519PrivateKey::generate()?;
    let edsig = edk.sign(b"msg")?;
    assert!(edk.verify(b"msg", &edsig, "EdDSA").is_ok());
    assert!(matches!(
        edk.verify(b"msg", &edsig, "Ed25519"),
        Err(Error::VerificationError)
    ));
    Ok(())
}

#[test]
fn minimum_key_size() {
    assert!(matches!(
        RsaPrivateKey::generate(1024, RsaAlgorithm::RS256),
        Err(Error::UnsupportedOrInvalidKey)
    ));
    assert!(matches!(
        RsaPrivateKey::generate(2047, RsaAlgorithm::RS256),
        Err(Error::UnsupportedOrInvalidKey)
    ));
    assert!(RsaPrivateKey::generate(2048, RsaAlgorithm::RS256).is_ok());
}

#[test]
fn tamper_sensitivity() -> Result<(), Error> {
    let payload = b"tamper.."; // every bit of it gets flipped below
    for alg in RSA_ALGS {
        let k = RsaPrivateKey::generate(2048, alg)?;
        let pk = RsaPublicKey::from_pem(&k.public_key_pem()?, alg)?;
        let sig = k.sign(payload)?;
        assert!(pk.verify(payload, &sig, alg.name()).is_ok());
        for i in 0..payload.len() {
            for b in 0..8 {
                let mut p = payload.to_vec();
                p[i] ^= 1u8 << b;
                assert!(pk.verify(&p, &sig, alg.name()).is_err());
            }
        }
        for i in 0..sig.len() {
            for b in 0..8 {
                let mut s = sig.clone();
                s[i] ^= 1u8 << b;
                assert!(pk.verify(payload, &s, alg.name()).is_err());
            }
        }
    }
    Ok(())
}

#[test]
fn jwk_round_trip_rsa() -> Result<(), Error> {
    let k = RsaPrivateKey::generate(2048, RsaAlgorithm::RS256)?;
    let sig = k.sign(b"payload")?;
    let jwk = SigningKey::public_key_to_jwk(&k)?;
    assert_eq!(jwk.kty, "RSA");
    assert_eq!(jwk.alg.as_deref(), Some("RS256"));
    assert_eq!(jwk.use_.as_deref(), Some("sig"));
    assert!(jwk.crv.is_none() && jwk.x.is_none() && jwk.y.is_none());
    let vk = jwk.to_verification_key()?;
    assert!(vk.verify(b"payload", &sig, "RS256").is_ok());
    assert!(matches!(
        vk.verify(b"payload", &sig, "RS384"),
        Err(Error::VerificationError)
    ));
    assert!(vk.verify(b"other payload", &sig, "RS256").is_err());
    Ok(())
}

#[test]
fn jwk_round_trip_ec() -> Result<(), Error> {
    for alg in EC_ALGS {
        let k = EcdsaPrivateKey::generate(alg)?;
        let sig = k.sign(b"payload")?;
        let jwk = SigningKey::public_key_to_jwk(&k)?;
        assert_eq!(jwk.kty, "EC");
        assert_eq!(jwk.crv.as_deref(), Some(alg.curve()));
        assert!(jwk.n.is_none() && jwk.e.is_none());
        let vk = jwk.to_verification_key()?;
        assert!(vk.verify(b"payload", &sig, alg.name()).is_ok());
        assert!(vk.verify(b"payload!", &sig, alg.name()).is_err());
    }
    Ok(())
}

#[test]
fn jwk_round_trip_ed25519() -> Result<(), Error> {
    let k = Ed25519PrivateKey::generate()?;
    let sig = k.sign(b"payload")?;
    let jwk = SigningKey::public_key_to_jwk(&k)?;
    assert_eq!(jwk.kty, "OKP");
    assert_eq!(jwk.crv.as_deref(), Some("Ed25519"));
    assert_eq!(jwk.alg.as_deref(), Some("EdDSA"));
    assert!(jwk.n.is_none() && jwk.e.is_none() && jwk.y.is_none());
    let vk = jwk.to_verification_key()?;
    assert!(vk.verify(b"payload", &sig, "EdDSA").is_ok());
    assert!(matches!(
        vk.verify(b"payload", &sig, "RS256"),
        Err(Error::VerificationError)
    ));
    assert!(vk.verify(b"payloaD", &sig, "EdDSA").is_err());
    Ok(())
}

#[test]
fn jwk_components_exact() -> Result<(), Error> {
    // Leading zero bytes of the modulus are normalized away; the base64url
    // fields hold exactly the normalized components.
    let pk = RsaPublicKey::from_components(
        &[0x00, 0xAB, 0xCD],
        &[0x01, 0x00, 0x01],
        RsaAlgorithm::RS256,
    )?;
    assert_eq!(pk.n()?, vec![0xAB, 0xCD]);
    assert_eq!(pk.e()?, vec![0x01, 0x00, 0x01]);
    let jwk = pk.public_key_to_jwk()?;
    assert_eq!(jwk.n.as_deref(), Some("q80"));
    assert_eq!(jwk.e.as_deref(), Some("AQAB"));
    Ok(())
}

#[test]
fn jwk_rejects_malformed_records() {
    let jwk = Jwk {
        kty: "RSA".to_owned(),
        use_: None,
        alg: None,
        n: None,
        e: Some("AQAB".to_owned()),
        crv: None,
        x: None,
        y: None,
    };
    assert!(matches!(
        jwk.to_verification_key(),
        Err(Error::UnsupportedOrInvalidKey)
    ));

    let jwk = Jwk {
        kty: "RSA".to_owned(),
        use_: None,
        alg: None,
        n: Some("!!! not base64url !!!".to_owned()),
        e: Some("AQAB".to_owned()),
        crv: None,
        x: None,
        y: None,
    };
    assert!(matches!(
        jwk.to_verification_key(),
        Err(Error::UnsupportedOrInvalidKey)
    ));

    let jwk = Jwk {
        kty: "oct".to_owned(),
        use_: None,
        alg: None,
        n: None,
        e: None,
        crv: None,
        x: None,
        y: None,
    };
    assert!(matches!(
        jwk.to_verification_key(),
        Err(Error::UnsupportedOrInvalidKey)
    ));

    let jwk = Jwk {
        kty: "EC".to_owned(),
        use_: None,
        alg: None,
        n: None,
        e: None,
        crv: Some("P-999".to_owned()),
        x: Some("AA".to_owned()),
        y: Some("AA".to_owned()),
    };
    assert!(matches!(
        jwk.to_verification_key(),
        Err(Error::UnsupportedOrInvalidKey)
    ));

    let jwk = Jwk {
        kty: "OKP".to_owned(),
        use_: None,
        alg: None,
        n: None,
        e: None,
        crv: Some("X25519".to_owned()),
        x: Some("AA".to_owned()),
        y: None,
    };
    assert!(matches!(
        jwk.to_verification_key(),
        Err(Error::UnsupportedOrInvalidKey)
    ));
}

#[test]
fn rs256_scenario() -> Result<(), Error> {
    let k = RsaPrivateKey::generate(2048, RsaAlgorithm::RS256)?;
    let sig = k.sign(b"...")?;
    assert!(k.verify(b"...", &sig, "RS256").is_ok());
    assert!(matches!(
        k.verify(b"...", &sig, "RS384"),
        Err(Error::VerificationError)
    ));
    assert!(matches!(
        k.verify(b"....", &sig, "RS256"),
        Err(Error::VerificationError)
    ));
    Ok(())
}

#[test]
fn pem_round_trip_verifies_same_signatures() -> Result<(), Error> {
    let k = RsaPrivateKey::generate(2048, RsaAlgorithm::RS512)?;
    let sig = k.sign(b"round trip")?;
    let k2 = RsaPrivateKey::from_pem(&k.private_key_to_pem_pkcs8()?, RsaAlgorithm::RS512)?;
    assert!(k2.verify(b"round trip", &sig, "RS512").is_ok());
    let sig2 = k2.sign(b"round trip")?;
    assert!(k.verify(b"round trip", &sig2, "RS512").is_ok());

    let any = jwtk::rsa::RsaAnyPublicKey::from_pem(&k.public_key_pem()?)?;
    assert!(any.verify(b"round trip", &sig, "RS512").is_ok());
    let any1 = jwtk::rsa::RsaAnyPublicKey::from_pem(&k.public_key_pem_pkcs1()?)?;
    assert!(any1.verify(b"round trip", &sig, "RS512").is_ok());
    Ok(())
}

#[test]
fn any_public_key_components() -> Result<(), Error> {
    let k = RsaPrivateKey::generate(2048, RsaAlgorithm::PS256)?;
    let any = k.to_public_any()?;
    assert_eq!(any.n()?, k.n()?);
    assert_eq!(any.e()?, k.e()?);
    let rebuilt = jwtk::rsa::RsaAnyPublicKey::from_components(&any.n()?, &any.e()?)?;
    let sig = k.sign(b"components")?;
    assert!(rebuilt.verify(b"components", &sig, "PS256").is_ok());
    Ok(())
}

#[test]
fn public_pem_import_ec_ed() -> Result<(), Error> {
    let ek = EcdsaPrivateKey::generate(EcdsaAlgorithm::ES384)?;
    let sig = ek.sign(b"pem")?;
    let pk = jwtk::ecdsa::EcdsaPublicKey::from_pem(&ek.public_key_pem()?, EcdsaAlgorithm::ES384)?;
    assert!(pk.verify(b"pem", &sig, "ES384").is_ok());
    assert!(matches!(
        jwtk::ecdsa::EcdsaPublicKey::from_pem(&ek.public_key_pem()?, EcdsaAlgorithm::ES256),
        Err(Error::UnsupportedOrInvalidKey)
    ));
    let _ = pk.to_pem()?;
    let dk = Ed25519PrivateKey::generate()?;
    let dsig = dk.sign(b"pem")?;
    let dpk = jwtk::eddsa::Ed25519PublicKey::from_pem(&dk.public_key_pem()?)?;
    assert!(dpk.verify(b"pem", &dsig, "EdDSA").is_ok());
    let _ = dpk.to_pem()?;
    Ok(())
}

#[test]
fn jwk_round_trip_rsa_any() -> Result<(), Error> {
    let k = RsaPrivateKey::generate(2048, RsaAlgorithm::PS512)?;
    let any = k.to_public_any()?;
    let jwk = any.public_key_to_jwk()?;
    assert!(jwk.alg.is_none());
    let vk = jwk.to_verification_key()?;
    let sig = k.sign(b"payload")?;
    assert!(vk.verify(b"payload", &sig, "PS512").is_ok());
    assert!(matches!(
        vk.verify(b"payload", &sig, "totally unknown"),
        Err(Error::VerificationError)
    ));
    Ok(())
}
