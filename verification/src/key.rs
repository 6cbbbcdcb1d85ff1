//! Keys: the raw selectors of key formats, types and algorithms, and the
//! private-key handle.

use vstd::prelude::*;

verus! {

/// Mirrors `SecExternalFormat`, the format of imported or exported key data.
#[derive(Debug, Clone, Copy, PartialEq, Eq, Hash, Structural)]
pub enum ExternalFormat {
    /// `kSecFormatUnknown`: let the framework decide.
    Unknown,
    /// `kSecFormatOpenSSL`.
    OpenSsl,
    /// `kSecFormatSSH`.
    Ssh,
    /// `kSecFormatBSAFE`.
    Bsafe,
    /// `kSecFormatRawKey`.
    RawKey,
    /// `kSecFormatWrappedPKCS8`.
    WrappedPkcs8,
    /// `kSecFormatWrappedOpenSSL`.
    WrappedOpenSsl,
    /// `kSecFormatWrappedSSH`.
    WrappedSsh,
    /// `kSecFormatWrappedLSH`.
    WrappedLsh,
    /// `kSecFormatX509Cert`.
    X509Certificate,
    /// `kSecFormatPEMSequence`.
    PemSequence,
    /// `kSecFormatPKCS7`.
    Pkcs7,
    /// `kSecFormatPKCS12`.
    Pkcs12,
    /// `kSecFormatNetscapeCertSequence`.
    NetscapeCertificateSequence,
    /// `kSecFormatSSHv2`.
    SshV2,
}

/// The raw value the framework uses for a `ExternalFormat`.
pub open spec fn external_format_raw(value: ExternalFormat) -> u32 {
    match value {
        ExternalFormat::Unknown => 0,
        ExternalFormat::OpenSsl => 1,
        ExternalFormat::Ssh => 2,
        ExternalFormat::Bsafe => 3,
        ExternalFormat::RawKey => 4,
        ExternalFormat::WrappedPkcs8 => 5,
        ExternalFormat::WrappedOpenSsl => 6,
        ExternalFormat::WrappedSsh => 7,
        ExternalFormat::WrappedLsh => 8,
        ExternalFormat::X509Certificate => 9,
        ExternalFormat::PemSequence => 10,
        ExternalFormat::Pkcs7 => 11,
        ExternalFormat::Pkcs12 => 12,
        ExternalFormat::NetscapeCertificateSequence => 13,
        ExternalFormat::SshV2 => 14,
    }
}

impl ExternalFormat {
    /// The raw value the framework uses for this value.
    pub fn raw(self) -> (raw: u32)
        ensures
            raw == external_format_raw(self),
    {
        match self {
            ExternalFormat::Unknown => 0,
            ExternalFormat::OpenSsl => 1,
            ExternalFormat::Ssh => 2,
            ExternalFormat::Bsafe => 3,
            ExternalFormat::RawKey => 4,
            ExternalFormat::WrappedPkcs8 => 5,
            ExternalFormat::WrappedOpenSsl => 6,
            ExternalFormat::WrappedSsh => 7,
            ExternalFormat::WrappedLsh => 8,
            ExternalFormat::X509Certificate => 9,
            ExternalFormat::PemSequence => 10,
            ExternalFormat::Pkcs7 => 11,
            ExternalFormat::Pkcs12 => 12,
            ExternalFormat::NetscapeCertificateSequence => 13,
            ExternalFormat::SshV2 => 14,
        }
    }
}

/// Distinct values have distinct raw values.
pub proof fn lemma_external_format_raw_distinct(a: ExternalFormat, b: ExternalFormat)
    ensures
        external_format_raw(a) == external_format_raw(b) ==> a == b,
{
}

/// Mirrors `SecExternalItemType`, the kind of an imported item.
#[derive(Debug, Clone, Copy, PartialEq, Eq, Hash, Structural)]
pub enum ExternalItemType {
    /// `kSecItemTypeUnknown`: let the framework decide.
    Unknown,
    /// `kSecItemTypePrivateKey`.
    PrivateKey,
    /// `kSecItemTypePublicKey`.
    PublicKey,
    /// `kSecItemTypeSessionKey`.
    SessionKey,
    /// `kSecItemTypeCertificate`.
    Certificate,
    /// `kSecItemTypeAggregate`.
    Aggregate,
}

/// The raw value the framework uses for a `ExternalItemType`.
pub open spec fn external_item_type_raw(value: ExternalItemType) -> u32 {
    match value {
        ExternalItemType::Unknown => 0,
        ExternalItemType::PrivateKey => 1,
        ExternalItemType::PublicKey => 2,
        ExternalItemType::SessionKey => 3,
        ExternalItemType::Certificate => 4,
        ExternalItemType::Aggregate => 5,
    }
}

impl ExternalItemType {
    /// The raw value the framework uses for this value.
    pub fn raw(self) -> (raw: u32)
        ensures
            raw == external_item_type_raw(self),
    {
        match self {
            ExternalItemType::Unknown => 0,
            ExternalItemType::PrivateKey => 1,
            ExternalItemType::PublicKey => 2,
            ExternalItemType::SessionKey => 3,
            ExternalItemType::Certificate => 4,
            ExternalItemType::Aggregate => 5,
        }
    }
}

/// Distinct values have distinct raw values.
pub proof fn lemma_external_item_type_raw_distinct(a: ExternalItemType, b: ExternalItemType)
    ensures
        external_item_type_raw(a) == external_item_type_raw(b) ==> a == b,
{
}

/// The key types the bridge creates keys of.
#[derive(Debug, Clone, Copy, PartialEq, Eq, Hash, Structural)]
pub enum KeyType {
    /// `kSecAttrKeyTypeRSA`.
    Rsa,
    /// `kSecAttrKeyTypeECSECPrimeRandom`.
    EcSecPrimeRandom,
}

/// The raw value the framework uses for a `KeyType`.
pub open spec fn key_type_raw(value: KeyType) -> u32 {
    match value {
        KeyType::Rsa => 0,
        KeyType::EcSecPrimeRandom => 1,
    }
}

impl KeyType {
    /// The raw value the framework uses for this value.
    pub fn raw(self) -> (raw: u32)
        ensures
            raw == key_type_raw(self),
    {
        match self {
            KeyType::Rsa => 0,
            KeyType::EcSecPrimeRandom => 1,
        }
    }
}

/// Distinct values have distinct raw values.
pub proof fn lemma_key_type_raw_distinct(a: KeyType, b: KeyType)
    ensures
        key_type_raw(a) == key_type_raw(b) ==> a == b,
{
}

/// The `SecKeyAlgorithm` signature algorithms the bridge supports.
#[derive(Debug, Clone, Copy, PartialEq, Eq, Hash, Structural)]
pub enum SignatureAlgorithm {
    /// `kSecKeyAlgorithmRSASignatureMessagePKCS1v15SHA256`.
    RsaSignatureMessagePkcs1v15Sha256,
    /// `kSecKeyAlgorithmRSASignatureDigestPKCS1v15SHA256`.
    RsaSignatureDigestPkcs1v15Sha256,
    /// `kSecKeyAlgorithmRSASignatureMessagePSSSHA256`.
    RsaSignatureMessagePssSha256,
    /// `kSecKeyAlgorithmECDSASignatureMessageX962SHA256`.
    EcdsaSignatureMessageX962Sha256,
    /// `kSecKeyAlgorithmECDSASignatureDigestX962SHA256`.
    EcdsaSignatureDigestX962Sha256,
}

/// The raw value the framework uses for a `SignatureAlgorithm`.
pub open spec fn signature_algorithm_raw(value: SignatureAlgorithm) -> u32 {
    match value {
        SignatureAlgorithm::RsaSignatureMessagePkcs1v15Sha256 => 0,
        SignatureAlgorithm::RsaSignatureDigestPkcs1v15Sha256 => 1,
        SignatureAlgorithm::RsaSignatureMessagePssSha256 => 2,
        SignatureAlgorithm::EcdsaSignatureMessageX962Sha256 => 3,
        SignatureAlgorithm::EcdsaSignatureDigestX962Sha256 => 4,
    }
}

impl SignatureAlgorithm {
    /// The raw value the framework uses for this value.
    pub fn raw(self) -> (raw: u32)
        ensures
            raw == signature_algorithm_raw(self),
    {
        match self {
            SignatureAlgorithm::RsaSignatureMessagePkcs1v15Sha256 => 0,
            SignatureAlgorithm::RsaSignatureDigestPkcs1v15Sha256 => 1,
            SignatureAlgorithm::RsaSignatureMessagePssSha256 => 2,
            SignatureAlgorithm::EcdsaSignatureMessageX962Sha256 => 3,
            SignatureAlgorithm::EcdsaSignatureDigestX962Sha256 => 4,
        }
    }
}

/// Distinct values have distinct raw values.
pub proof fn lemma_signature_algorithm_raw_distinct(a: SignatureAlgorithm, b: SignatureAlgorithm)
    ensures
        signature_algorithm_raw(a) == signature_algorithm_raw(b) ==> a == b,
{
}

/// The `SecKeyAlgorithm` encryption algorithms the bridge supports.
#[derive(Debug, Clone, Copy, PartialEq, Eq, Hash, Structural)]
pub enum EncryptionAlgorithm {
    /// `kSecKeyAlgorithmRSAEncryptionRaw`.
    RsaEncryptionRaw,
    /// `kSecKeyAlgorithmRSAEncryptionPKCS1`.
    RsaEncryptionPkcs1,
    /// `kSecKeyAlgorithmRSAEncryptionOAEPSHA1`.
    RsaEncryptionOaepSha1,
    /// `kSecKeyAlgorithmRSAEncryptionOAEPSHA224`.
    RsaEncryptionOaepSha224,
    /// `kSecKeyAlgorithmRSAEncryptionOAEPSHA256`.
    RsaEncryptionOaepSha256,
    /// `kSecKeyAlgorithmRSAEncryptionOAEPSHA384`.
    RsaEncryptionOaepSha384,
    /// `kSecKeyAlgorithmRSAEncryptionOAEPSHA512`.
    RsaEncryptionOaepSha512,
    /// `kSecKeyAlgorithmRSAEncryptionOAEPSHA1AESGCM`.
    RsaEncryptionOaepSha1AesGcm,
    /// `kSecKeyAlgorithmRSAEncryptionOAEPSHA224AESGCM`.
    RsaEncryptionOaepSha224AesGcm,
    /// `kSecKeyAlgorithmRSAEncryptionOAEPSHA256AESGCM`.
    RsaEncryptionOaepSha256AesGcm,
    /// `kSecKeyAlgorithmRSAEncryptionOAEPSHA384AESGCM`.
    RsaEncryptionOaepSha384AesGcm,
    /// `kSecKeyAlgorithmRSAEncryptionOAEPSHA512AESGCM`.
    RsaEncryptionOaepSha512AesGcm,
}

/// The raw value the framework uses for a `EncryptionAlgorithm`.
pub open spec fn encryption_algorithm_raw(value: EncryptionAlgorithm) -> u32 {
    match value {
        EncryptionAlgorithm::RsaEncryptionRaw => 0,
        EncryptionAlgorithm::RsaEncryptionPkcs1 => 1,
        EncryptionAlgorithm::RsaEncryptionOaepSha1 => 2,
        EncryptionAlgorithm::RsaEncryptionOaepSha224 => 3,
        EncryptionAlgorithm::RsaEncryptionOaepSha256 => 4,
        EncryptionAlgorithm::RsaEncryptionOaepSha384 => 5,
        EncryptionAlgorithm::RsaEncryptionOaepSha512 => 6,
        EncryptionAlgorithm::RsaEncryptionOaepSha1AesGcm => 7,
        EncryptionAlgorithm::RsaEncryptionOaepSha224AesGcm => 8,
        EncryptionAlgorithm::RsaEncryptionOaepSha256AesGcm => 9,
        EncryptionAlgorithm::RsaEncryptionOaepSha384AesGcm => 10,
        EncryptionAlgorithm::RsaEncryptionOaepSha512AesGcm => 11,
    }
}

impl EncryptionAlgorithm {
    /// The raw value the framework uses for this value.
    pub fn raw(self) -> (raw: u32)
        ensures
            raw == encryption_algorithm_raw(self),
    {
        match self {
            EncryptionAlgorithm::RsaEncryptionRaw => 0,
            EncryptionAlgorithm::RsaEncryptionPkcs1 => 1,
            EncryptionAlgorithm::RsaEncryptionOaepSha1 => 2,
            EncryptionAlgorithm::RsaEncryptionOaepSha224 => 3,
            EncryptionAlgorithm::RsaEncryptionOaepSha256 => 4,
            EncryptionAlgorithm::RsaEncryptionOaepSha384 => 5,
            EncryptionAlgorithm::RsaEncryptionOaepSha512 => 6,
            EncryptionAlgorithm::RsaEncryptionOaepSha1AesGcm => 7,
            EncryptionAlgorithm::RsaEncryptionOaepSha224AesGcm => 8,
            EncryptionAlgorithm::RsaEncryptionOaepSha256AesGcm => 9,
            EncryptionAlgorithm::RsaEncryptionOaepSha384AesGcm => 10,
            EncryptionAlgorithm::RsaEncryptionOaepSha512AesGcm => 11,
        }
    }
}

/// Distinct values have distinct raw values.
pub proof fn lemma_encryption_algorithm_raw_distinct(a: EncryptionAlgorithm, b: EncryptionAlgorithm)
    ensures
        encryption_algorithm_raw(a) == encryption_algorithm_raw(b) ==> a == b,
{
}

/// Wraps a private `SecKeyRef`.
#[derive(Debug)]
pub struct PrivateKey<H> {
    handle: H,
}

impl<H> PrivateKey<H> {
    /// The bridge handle this value holds.
    pub closed spec fn spec_handle(&self) -> H {
        self.handle
    }

    /// Wraps a handle that the bridge returned.
    pub fn from_handle(handle: H) -> (value: Self)
        ensures
            value.spec_handle() == handle,
    {
        PrivateKey { handle: handle }
    }

    /// The bridge handle this value holds.
    pub fn handle(&self) -> (handle: &H)
        ensures
            *handle == self.spec_handle(),
    {
        &self.handle
    }
}

/// The block size of a key as the bridge reports it, with a negative report
/// read as zero.
pub fn key_block_size(reported: isize) -> (size: usize)
    ensures
        reported >= 0 ==> size == reported,
        reported < 0 ==> size == 0,
{
    crate::bridge::count_or_zero(reported)
}

/// Each format is sent as the number of its `SecExternalFormat` constant, and only that number names it: `kSecFormatUnknown` 0 through `kSecFormatSSHv2` 14.
pub proof fn lemma_external_format_numbers(format: ExternalFormat)
    ensures
        (format == ExternalFormat::Unknown) == (external_format_raw(format) == 0),
        (format == ExternalFormat::OpenSsl) == (external_format_raw(format) == 1),
        (format == ExternalFormat::Ssh) == (external_format_raw(format) == 2),
        (format == ExternalFormat::Bsafe) == (external_format_raw(format) == 3),
        (format == ExternalFormat::RawKey) == (external_format_raw(format) == 4),
        (format == ExternalFormat::WrappedPkcs8) == (external_format_raw(format) == 5),
        (format == ExternalFormat::WrappedOpenSsl) == (external_format_raw(format) == 6),
        (format == ExternalFormat::WrappedSsh) == (external_format_raw(format) == 7),
        (format == ExternalFormat::WrappedLsh) == (external_format_raw(format) == 8),
        (format == ExternalFormat::X509Certificate) == (external_format_raw(format) == 9),
        (format == ExternalFormat::PemSequence) == (external_format_raw(format) == 10),
        (format == ExternalFormat::Pkcs7) == (external_format_raw(format) == 11),
        (format == ExternalFormat::Pkcs12) == (external_format_raw(format) == 12),
        (format == ExternalFormat::NetscapeCertificateSequence) == (external_format_raw(format) == 13),
        (format == ExternalFormat::SshV2) == (external_format_raw(format) == 14),
{
}

/// Each item type is sent as the number of its `SecExternalItemType` constant, and only that number names it.
pub proof fn lemma_external_item_type_numbers(item_type: ExternalItemType)
    ensures
        (item_type == ExternalItemType::Unknown) == (external_item_type_raw(item_type) == 0),
        (item_type == ExternalItemType::PrivateKey) == (external_item_type_raw(item_type) == 1),
        (item_type == ExternalItemType::PublicKey) == (external_item_type_raw(item_type) == 2),
        (item_type == ExternalItemType::SessionKey) == (external_item_type_raw(item_type) == 3),
        (item_type == ExternalItemType::Certificate) == (external_item_type_raw(item_type) == 4),
        (item_type == ExternalItemType::Aggregate) == (external_item_type_raw(item_type) == 5),
{
}

/// Each key type is sent as the bridge's number for it: RSA 0, elliptic-curve 1.
pub proof fn lemma_key_type_numbers(key_type: KeyType)
    ensures
        (key_type == KeyType::Rsa) == (key_type_raw(key_type) == 0),
        (key_type == KeyType::EcSecPrimeRandom) == (key_type_raw(key_type) == 1),
{
}

/// Each signature algorithm is sent as the bridge's number for it, and only that number names it: RSA PKCS#1 v1.5 SHA-256 over a message 0, over a digest 1, RSA-PSS SHA-256 2, ECDSA X9.62 SHA-256 over a message 3, over a digest 4.
pub proof fn lemma_signature_algorithm_numbers(algorithm: SignatureAlgorithm)
    ensures
        (algorithm == SignatureAlgorithm::RsaSignatureMessagePkcs1v15Sha256) == (signature_algorithm_raw(algorithm) == 0),
        (algorithm == SignatureAlgorithm::RsaSignatureDigestPkcs1v15Sha256) == (signature_algorithm_raw(algorithm) == 1),
        (algorithm == SignatureAlgorithm::RsaSignatureMessagePssSha256) == (signature_algorithm_raw(algorithm) == 2),
        (algorithm == SignatureAlgorithm::EcdsaSignatureMessageX962Sha256) == (signature_algorithm_raw(algorithm) == 3),
        (algorithm == SignatureAlgorithm::EcdsaSignatureDigestX962Sha256) == (signature_algorithm_raw(algorithm) == 4),
{
}

/// Each encryption algorithm is sent as the bridge's number for it, and only that number names it: raw RSA 0, PKCS#1 1, then OAEP with SHA-1, 224, 256, 384, 512 (2 to 6) and the same with AES-GCM (7 to 11).
pub proof fn lemma_encryption_algorithm_numbers(algorithm: EncryptionAlgorithm)
    ensures
        (algorithm == EncryptionAlgorithm::RsaEncryptionRaw) == (encryption_algorithm_raw(algorithm) == 0),
        (algorithm == EncryptionAlgorithm::RsaEncryptionPkcs1) == (encryption_algorithm_raw(algorithm) == 1),
        (algorithm == EncryptionAlgorithm::RsaEncryptionOaepSha1) == (encryption_algorithm_raw(algorithm) == 2),
        (algorithm == EncryptionAlgorithm::RsaEncryptionOaepSha224) == (encryption_algorithm_raw(algorithm) == 3),
        (algorithm == EncryptionAlgorithm::RsaEncryptionOaepSha256) == (encryption_algorithm_raw(algorithm) == 4),
        (algorithm == EncryptionAlgorithm::RsaEncryptionOaepSha384) == (encryption_algorithm_raw(algorithm) == 5),
        (algorithm == EncryptionAlgorithm::RsaEncryptionOaepSha512) == (encryption_algorithm_raw(algorithm) == 6),
        (algorithm == EncryptionAlgorithm::RsaEncryptionOaepSha1AesGcm) == (encryption_algorithm_raw(algorithm) == 7),
        (algorithm == EncryptionAlgorithm::RsaEncryptionOaepSha224AesGcm) == (encryption_algorithm_raw(algorithm) == 8),
        (algorithm == EncryptionAlgorithm::RsaEncryptionOaepSha256AesGcm) == (encryption_algorithm_raw(algorithm) == 9),
        (algorithm == EncryptionAlgorithm::RsaEncryptionOaepSha384AesGcm) == (encryption_algorithm_raw(algorithm) == 10),
        (algorithm == EncryptionAlgorithm::RsaEncryptionOaepSha512AesGcm) == (encryption_algorithm_raw(algorithm) == 11),
{
}

} // verus!

