//! Bindings for Apple's Security.framework, with their logic verified: the
//! mapping of status codes to errors, the option flag sets, the checks on
//! every argument handed to the framework bridge, the JSON documents sent to
//! it and the decoding of what it hands back. Each operation takes the bridge
//! call that performs it, so the library itself makes no foreign call.

/// Authorization Services: option bits and `AuthorizationRef`.
pub mod authorization;
/// Decisions of the callback-based asynchronous APIs.
pub mod async_api;
/// Bit-level facts shared by the flag sets.
pub mod bitset;
/// Argument checks and reply decoding shared by every bridge call.
pub mod bridge;
/// Certificates, public keys and PEM input.
pub mod certificate;
/// CMS encoder and decoder settings and signer reports.
pub mod cms;
/// Code signing: flags, code objects and signing metadata.
pub mod code;
/// Code-signing metadata read from Core Foundation values.
pub mod code_signing;
/// Base64 decoding.
pub mod encoding;
/// Sorted key-value lists.
pub mod entries;
/// Error types.
pub mod error;
/// Identities.
pub mod identity;
/// JSON documents read from the bridge.
pub mod json;
/// JSON documents written for the bridge.
pub mod json_text;
/// Key formats, types and algorithms, and private keys.
pub mod key;
/// Key agreement.
pub mod key_agreement;
/// Password-based key derivation.
pub mod key_derivation;
/// Keychain items and access control.
pub mod keychain;
/// Trust policies.
pub mod policy;
/// Common imports for users of this crate.
pub mod prelude;
/// Secure random bytes, called directly.
pub mod random;
/// Secure random bytes through the bridge.
pub mod random_bytes;
/// Secret bytes wiped on drop.
pub mod secret;
/// Secure Transport sessions.
pub mod secure_transport;
/// Decimal text.
pub mod text;
/// Security Transforms.
pub mod transform;
/// Trust evaluation.
pub mod trust;

pub use authorization::{Authorization, AuthorizationOptions};
pub use certificate::{Certificate, PublicKey};
pub use cms::{
    Cms, CmsCertificateChainMode, CmsDecoder, CmsDigestAlgorithm, CmsEncoder, CmsSignedAttributes,
};
pub use code::{
    Code, CodeLookup, CodeSigningFlags, Requirement, SigningInformation, SigningValue, StaticCode,
    Task,
};
pub use error::{OsStatus, Result, SecurityError, StatusError};
pub use identity::Identity;
pub use key::{
    EncryptionAlgorithm, ExternalFormat, ExternalItemType, KeyType, PrivateKey, SignatureAlgorithm,
};
pub use key_agreement::{AgreementPrivateKey, AgreementPublicKey};
pub use key_derivation::{DerivedKey, KeyDerivation};
pub use keychain::{
    AccessControl, AccessControlFlags, AccessControlProtection, Keychain, KeychainEntry,
};
pub use policy::{Policy, PolicyIdentifier, PolicyName, PolicyProperties, RevocationFlags};
pub use random_bytes::SecureRandom;
pub use secure_transport::{ProtocolVersion, SecureTransportContext, SecureTransportState};
pub use transform::Transform;
pub use trust::{Trust, TrustOptions, TrustResultType};
