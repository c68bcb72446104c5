//! Algorithm identifiers shared with the wire protocol's negotiation fields.

use vstd::prelude::*;

verus! {

/// Names a fixed-output-length cryptographic hash function.
#[derive(Clone, Copy, Debug, PartialEq, Eq, Structural)]
pub enum HashAlgorithm {
    SHA256,
}

/// Names a (public-key algorithm, hash algorithm, encoding) triple
/// negotiated between peers.
#[derive(Clone, Copy, Debug, PartialEq, Eq, Structural)]
#[allow(non_camel_case_types)]
pub enum SignatureScheme {
    RSA_PKCS1_SHA256,
    RSA_PSS_SHA256,
    ECDSA_NISTP256_SHA256,
    ECDSA_NISTP384_SHA384,
    ED25519,
}

/// Names a public-key algorithm family, independent of any specific scheme.
#[derive(Clone, Copy, Debug, PartialEq, Eq, Structural)]
pub enum SignatureAlgorithm {
    RSA,
    ECDSA,
    ED25519,
}

/// Names a certificate compression algorithm, matching the protocol-level
/// negotiation value.
#[derive(Clone, Copy, Debug, PartialEq, Eq, Structural)]
pub enum CertificateCompressionAlgorithm {
    Zlib,
    Brotli,
}

} // verus!
