use jwtk::Error;
use jwtk::SigningKey;
use jwtk::VerificationKey;
use jwtk::ecdsa::{EcdsaAlgorithm, EcdsaPrivateKey};
use jwtk::rsa::{RsaAlgorithm, RsaPrivateKey, RsaPublicKey};

#[test]
fn conversion() -> Result<(), Error> {
    let k = RsaPrivateKey::generate(2048, RsaAlgorithm::PS384)?;
    let pem = k.private_key_to_pem_pkcs8()?;
    RsaPrivateKey::from_pem(&pem, RsaAlgorithm::PS384)?;

    let es256key_pem =
        EcdsaPrivateKey::generate(EcdsaAlgorithm::ES256)?.private_key_to_pem_pkcs8()?;
    assert!(RsaPrivateKey::from_pem(&es256key_pem, RsaAlgorithm::PS384).is_err());

    let pk_pem = k.public_key_pem()?;
    let pk_pem_pkcs1 = k.public_key_pem_pkcs1()?;

    let pk = RsaPublicKey::from_pem(&pk_pem, RsaAlgorithm::PS384)?;
    let pk1 = RsaPublicKey::from_pem(&pk_pem_pkcs1, RsaAlgorithm::PS384)?;

    println!("pk: {:?}", pk);

    let pk_pem1 = pk1.to_pem()?;
    let pk_pem_pkcs1_1 = pk.to_pem_pkcs1()?;

    assert_eq!(pk_pem, pk_pem1);
    assert_eq!(pk_pem_pkcs1, pk_pem_pkcs1_1);

    assert_eq!(k.alg(), "PS384");

    SigningKey::public_key_to_jwk(&k)?.to_verification_key()?;
    pk.public_key_to_jwk()?;

    Ok(())
}

#[test]
fn sign_verify() -> Result<(), Error> {
    for alg in [
        RsaAlgorithm::RS256,
        RsaAlgorithm::RS384,
        RsaAlgorithm::RS512,
        RsaAlgorithm::PS256,
        RsaAlgorithm::PS384,
        RsaAlgorithm::PS512,
    ] {
        let k = RsaPrivateKey::generate(2048, alg)?;
        let pk = RsaPublicKey::from_pem(&k.public_key_pem()?, alg)?;
        let sig = k.sign(b"...")?;
        assert!(k.verify(b"...", &sig, alg.name()).is_ok());
        assert!(k.verify(b"...", &sig, "WRONG ALG").is_err());
        assert!(k.verify(b"....", &sig, alg.name()).is_err());
        assert!(pk.verify(b"...", &sig, alg.name()).is_ok());
        assert!(pk.verify(b"....", &sig, alg.name()).is_err());
    }
    Ok(())
}
