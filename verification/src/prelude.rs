//! Common imports for users of this crate.

pub use crate::authorization::{Authorization, AuthorizationOptions};
pub use crate::certificate::{Certificate, PublicKey};
pub use crate::cms::{
    Cms, CmsCertificateChainMode, CmsDecoder, CmsDigestAlgorithm, CmsEncoder, CmsSignedAttributes,
};
pub use crate::code::{
    Code, CodeSigningFlags, Requirement, SigningInformation, SigningValue, StaticCode, Task,
};
pub use crate::error::{OsStatus, Result, SecurityError, StatusError};
pub use crate::identity::Identity;
pub use crate::key::{
    EncryptionAlgorithm, ExternalFormat, ExternalItemType, KeyType, PrivateKey, SignatureAlgorithm,
};
pub use crate::key_agreement::{AgreementPrivateKey, AgreementPublicKey};
pub use crate::key_derivation::{DerivedKey, KeyDerivation};
pub use crate::keychain::{
    AccessControl, AccessControlFlags, AccessControlProtection, Keychain, KeychainEntry,
};
pub use crate::policy::{Policy, PolicyIdentifier, PolicyName, PolicyProperties, RevocationFlags};
pub use crate::random_bytes::SecureRandom;
pub use crate::secure_transport::{ProtocolVersion, SecureTransportContext, SecureTransportState};
pub use crate::transform::Transform;
pub use crate::trust::{Trust, TrustOptions, TrustResultType};
