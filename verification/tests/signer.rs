use std::sync::Arc;

use crypto_agility::enums::{SignatureAlgorithm, SignatureScheme};
use crypto_agility::error::Error;
use crypto_agility::signer::{CertifiedKey, Signer, SigningKey};
use rustls_pki_types::CertificateDer;

#[derive(Debug)]
struct TestSigner {
    fixed: SignatureScheme,
}

impl Signer for TestSigner {
    // Ghost member of the trait; never called at runtime.
    fn spec_scheme(&self) -> SignatureScheme {
        unreachable!()
    }

    fn sign(&self, message: &[u8]) -> Result<Vec<u8>, Error> {
        Ok(message.to_vec())
    }

    fn scheme(&self) -> SignatureScheme {
        self.fixed
    }
}

#[derive(Debug)]
struct TestKey {
    supported: Vec<SignatureScheme>,
}

impl SigningKey for TestKey {
    type Chosen = TestSigner;

    // Ghost members of the trait; never called at runtime.
    fn spec_supports(&self, _scheme: SignatureScheme) -> bool {
        unreachable!()
    }

    fn spec_algorithm(&self) -> SignatureAlgorithm {
        unreachable!()
    }

    fn choose_scheme(&self, offered: &[SignatureScheme]) -> Option<TestSigner> {
        for candidate in offered {
            if self.supported.contains(candidate) {
                return Some(TestSigner { fixed: *candidate });
            }
        }
        None
    }

    fn algorithm(&self) -> SignatureAlgorithm {
        SignatureAlgorithm::ECDSA
    }
}

fn two_scheme_key() -> TestKey {
    TestKey {
        supported: vec![
            SignatureScheme::ECDSA_NISTP256_SHA256,
            SignatureScheme::ED25519,
        ],
    }
}

#[test]
fn negotiation_takes_first_offered_match() {
    let key = two_scheme_key();

    let offered = [
        SignatureScheme::ED25519,
        SignatureScheme::ECDSA_NISTP256_SHA256,
    ];
    let signer = key.choose_scheme(&offered).unwrap();
    assert_eq!(signer.scheme(), SignatureScheme::ED25519);

    let offered = [
        SignatureScheme::ECDSA_NISTP256_SHA256,
        SignatureScheme::ED25519,
    ];
    let signer = key.choose_scheme(&offered).unwrap();
    assert_eq!(signer.scheme(), SignatureScheme::ECDSA_NISTP256_SHA256);
}

#[test]
fn negotiation_skips_unsupported_schemes() {
    let key = two_scheme_key();
    let offered = [
        SignatureScheme::RSA_PKCS1_SHA256,
        SignatureScheme::ECDSA_NISTP256_SHA256,
    ];
    let signer = key.choose_scheme(&offered).unwrap();
    assert_eq!(signer.scheme(), SignatureScheme::ECDSA_NISTP256_SHA256);
}

#[test]
fn negotiation_fails_when_nothing_offered_matches() {
    let key = two_scheme_key();
    let offered = [SignatureScheme::RSA_PKCS1_SHA256, SignatureScheme::RSA_PSS_SHA256];
    assert!(key.choose_scheme(&offered).is_none());
    assert!(key.choose_scheme(&[]).is_none());
}

#[test]
fn signer_scheme_is_stable_across_calls() {
    let key = two_scheme_key();
    let signer = key
        .choose_scheme(&[SignatureScheme::ED25519])
        .unwrap();
    assert_eq!(signer.scheme(), SignatureScheme::ED25519);
    let _ = signer.sign(b"first message").unwrap();
    assert_eq!(signer.scheme(), SignatureScheme::ED25519);
    let _ = signer.sign(b"second message").unwrap();
    assert_eq!(signer.scheme(), SignatureScheme::ED25519);
}

#[test]
fn empty_chain_is_detected_on_retrieval() {
    let certified = CertifiedKey::new(Vec::new(), Arc::new(two_scheme_key()));
    let outcome = certified.end_entity_cert();
    assert_eq!(outcome.unwrap_err(), Error::NoCertificatesPresented);
}

#[test]
fn non_empty_chain_yields_end_entity_certificate() {
    let end_entity = CertificateDer::from(vec![0x30, 0x82, 0x01, 0x0a]);
    let issuer = CertificateDer::from(vec![0x30, 0x82, 0x02, 0x0b]);
    let chain = vec![end_entity.clone(), issuer];
    let certified = CertifiedKey::new(chain, Arc::new(two_scheme_key()));

    let retrieved = certified.end_entity_cert().unwrap();
    assert_eq!(retrieved.as_ref(), end_entity.as_ref());
    assert!(certified.ocsp.is_none());
    assert_eq!(certified.key.algorithm(), SignatureAlgorithm::ECDSA);
}
