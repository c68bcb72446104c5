//! Signing keys, scheme negotiation, and certified keys.
//!
//! A signing key negotiates a signature scheme against a peer-offered list
//! — taking the first offered scheme it supports — and produces a one-shot
//! signer fixed to that scheme. A `CertifiedKey` packages the key with its
//! certificate chain and an optional stapled OCSP response.

use vstd::prelude::*;

use std::sync::Arc;

use crate::enums::{SignatureAlgorithm, SignatureScheme};
use crate::error::Error;

verus! {

#[verifier::external_type_specification]
#[verifier::external_body]
pub struct ExCertificateDer<'a>(rustls_pki_types::CertificateDer<'a>);

/// Holds at `i` exactly when `i` indexes the first scheme of `offered`
/// satisfying `supports`.
pub open spec fn first_supported(
    supports: spec_fn(SignatureScheme) -> bool,
    offered: Seq<SignatureScheme>,
    i: int,
) -> bool {
    &&& 0 <= i < offered.len()
    &&& supports(offered[i])
    &&& forall|j: int| 0 <= j < i ==> !supports(#[trigger] offered[j])
}

/// Holds when `chosen` is the correct outcome of negotiating against the
/// peer-offered list `offered` for a key that supports exactly the schemes
/// satisfying `supports`: the first offered scheme the key supports, or
/// nothing when it supports none of them. The offered list's order — the
/// peer's preference — decides, not the key's own preference.
pub open spec fn negotiation_ok(
    supports: spec_fn(SignatureScheme) -> bool,
    offered: Seq<SignatureScheme>,
    chosen: Option<SignatureScheme>,
) -> bool {
    match chosen {
        Some(scheme) => exists|i: int|
            #[trigger] first_supported(supports, offered, i) && offered[i] == scheme,
        None => forall|i: int| 0 <= i < offered.len() ==> !supports(#[trigger] offered[i]),
    }
}

/// A one-shot signing capability bound to one negotiated scheme.
pub trait Signer: Sized {
    /// The scheme fixed when this signer was produced.
    spec fn spec_scheme(&self) -> SignatureScheme;

    /// Signs `message` under the fixed scheme.
    ///
    /// `message` is not hashed: the signer applies the hashing and padding
    /// the scheme prescribes. Failure reports an underlying key operation
    /// error; it is recoverable, never fatal.
    fn sign(&self, message: &[u8]) -> (r: Result<Vec<u8>, Error>);

    /// Reveals the fixed scheme; stable across repeated calls.
    fn scheme(&self) -> (r: SignatureScheme)
        ensures
            r == self.spec_scheme(),
    ;
}

/// An abstract private signing key.
pub trait SigningKey: Sized {
    /// The signer type this key produces.
    type Chosen: Signer;

    /// Whether the key can sign under `scheme`, at the spec level.
    spec fn spec_supports(&self, scheme: SignatureScheme) -> bool;

    /// The key's public-key algorithm family, at the spec level.
    spec fn spec_algorithm(&self) -> SignatureAlgorithm;

    /// Chooses a scheme from those offered, in the offered order, and
    /// expresses the choice as a signer fixed to that scheme; `None` means
    /// this key cannot authenticate under any offered scheme — a normal
    /// outcome, not an error.
    fn choose_scheme(&self, offered: &[SignatureScheme]) -> (r: Option<Self::Chosen>)
        ensures
            negotiation_ok(
                (|scheme: SignatureScheme| self.spec_supports(scheme)),
                offered@,
                match r {
                    Some(ref signer) => Some(signer.spec_scheme()),
                    None => None,
                },
            ),
    ;

    /// What kind of key this is, independent of any specific scheme.
    fn algorithm(&self) -> (r: SignatureAlgorithm)
        ensures
            r == self.spec_algorithm(),
    ;
}

/// Offered-order sensitivity: a key that supports both of two schemes,
/// offered them as the list [y, x], takes y — the first offered match —
/// never x.
pub proof fn lemma_negotiation_respects_offered_order(
    supports: spec_fn(SignatureScheme) -> bool,
    x: SignatureScheme,
    y: SignatureScheme,
    chosen: Option<SignatureScheme>,
)
    ensures
        supports(x) && supports(y) && negotiation_ok(supports, seq![y, x], chosen) ==> chosen
            == Some(y),
{
    let offered = seq![y, x];
    if supports(x) && supports(y) && negotiation_ok(supports, offered, chosen) {
        match chosen {
            Some(scheme) => {
                let i = choose|i: int|
                    #[trigger] first_supported(supports, offered, i) && offered[i] == scheme;
                assert(i == 0) by {
                    if i != 0 {
                        assert(!supports(offered[0]));
                    }
                }
            },
            None => {
                assert(!supports(offered[0]));
            },
        }
    }
}

/// A packaged-together certificate chain, matching `SigningKey` and
/// optional stapled OCSP response.
#[derive(Clone, Debug)]
pub struct CertifiedKey<K: SigningKey> {
    /// The certificate chain; the first entry is the end-entity
    /// certificate. Expected to be non-empty, re-checked on retrieval.
    pub cert: Vec<rustls_pki_types::CertificateDer<'static>>,
    /// The certified key, shared across the connections it authenticates.
    pub key: Arc<K>,
    /// An optional OCSP response from the certificate issuer, attesting to
    /// its continued validity; freshness is not managed here.
    pub ocsp: Option<Vec<u8>>,
}

impl<K: SigningKey> CertifiedKey<K> {
    /// Makes a new `CertifiedKey` with the given chain and key and no OCSP
    /// response. The chain is not validated here; it must not be empty and
    /// must lead with the end-entity certificate.
    pub fn new(cert: Vec<rustls_pki_types::CertificateDer<'static>>, key: Arc<K>) -> (r: Self)
        ensures
            r.cert == cert,
            r.key == key,
            r.ocsp is None,
    {
        Self { cert, key, ocsp: None }
    }

    /// The end-entity certificate: the chain's first element, or a
    /// "no certificates presented" failure when the chain is empty.
    pub fn end_entity_cert(&self) -> (r: Result<&rustls_pki_types::CertificateDer<'static>, Error>)
        ensures
            self.cert@.len() > 0 ==> (r matches Ok(cert) && *cert == self.cert@[0]),
            self.cert@.len() == 0 ==> (r matches Err(e) && e == Error::NoCertificatesPresented),
    {
        if self.cert.len() > 0 {
            Ok(&self.cert[0])
        } else {
            Err(Error::NoCertificatesPresented)
        }
    }
}

} // verus!
