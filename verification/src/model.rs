//! The data model of the engine: decoded certificates, policy settings,
//! validation statuses and verdicts. Every field is a plain value; DER
//! decoding is a collaborator's concern and happens before values of these
//! types are formed.
use vstd::prelude::*;

verus! {

/// One general name, as decoded from a subject-alternative-name entry or a
/// name-constraint subtree base. Directory names are carried as their DER
/// encoding; textual forms as their byte strings. `Other` and `EdiParty`
/// carry no value: the engine never evaluates them, it only detects them.
#[derive(Clone)]
pub enum GeneralNameValue {
    Dns(Vec<u8>),
    Rfc822(Vec<u8>),
    Uri(Vec<u8>),
    Directory(Vec<u8>),
    UserPrincipal(Vec<u8>),
    IpAddress(Vec<u8>),
    Other,
    EdiParty,
}

/// A decoded name-constraints extension: optional permitted and excluded
/// subtree base names.
#[derive(Clone)]
pub struct NameConstraintsData {
    pub permitted: Option<Vec<GeneralNameValue>>,
    pub excluded: Option<Vec<GeneralNameValue>>,
}

/// A decoded basic-constraints extension.
#[derive(Clone)]
pub struct BasicConstraintsData {
    pub ca: bool,
    pub path_len: Option<u64>,
}

/// Key-usage bits, as this engine numbers them. Certificate key-usage
/// extensions and requested target usages are both mapped onto these bits.
pub const KU_DIGITAL_SIGNATURE: u16 = 0x001;
pub const KU_NON_REPUDIATION: u16 = 0x002;
pub const KU_KEY_ENCIPHERMENT: u16 = 0x004;
pub const KU_DATA_ENCIPHERMENT: u16 = 0x008;
pub const KU_KEY_AGREEMENT: u16 = 0x010;
pub const KU_KEY_CERT_SIGN: u16 = 0x020;
pub const KU_CRL_SIGN: u16 = 0x040;
pub const KU_ENCIPHER_ONLY: u16 = 0x080;
pub const KU_DECIPHER_ONLY: u16 = 0x100;

/// One decoded certificate. `tbs` is the DER encoding of the to-be-signed
/// portion (the message the issuer signed), `signature` the signature bits,
/// `spki` the DER subject-public-key-info. `subject` and `issuer` are DER
/// name encodings compared byte for byte. Times are seconds since the epoch.
#[derive(Clone)]
pub struct CertData {
    pub tbs: Vec<u8>,
    pub signature: Vec<u8>,
    pub spki: Vec<u8>,
    pub subject: Vec<u8>,
    pub issuer: Vec<u8>,
    pub not_before: u64,
    pub not_after: u64,
    pub basic_constraints: Option<BasicConstraintsData>,
    pub key_usage: Option<u16>,
    pub extended_key_usage: Option<Vec<Vec<u8>>>,
    pub subject_alt_name: Option<Vec<GeneralNameValue>>,
    pub name_constraints: Option<NameConstraintsData>,
    /// Whether the certificate carries a policy-constraints, policy-mappings
    /// or inhibit-any-policy extension. Policy processing is not implemented;
    /// its presence must surface as an unsupported feature, never be ignored.
    pub has_policy_processing_extension: bool,
}

/// Whether a certificate is self-issued: subject and issuer encode the same
/// name. Self-issued intermediates do not consume path-length budget.
pub open spec fn spec_self_issued(c: CertData) -> bool {
    c.subject@ == c.issuer@
}

/// Policy configuration for one validation attempt.
#[derive(Clone)]
pub struct CertificationPathSettings {
    pub time_of_interest: u64,
    pub target_key_usage: Option<u16>,
    pub extended_key_usage: Option<Vec<Vec<u8>>>,
    pub extended_key_usage_path: bool,
    pub initial_path_length_constraint: Option<u64>,
    pub enforce_trust_anchor_constraints: bool,
}

/// Settings as the Enforcer narrows them for one trust anchor (RFC 5937):
/// an effective initial path-length budget, and whether the anchor's own
/// name-constraints extension seeds the accumulated constraint set.
#[derive(Clone, Copy, PartialEq, Eq, Structural, Debug)]
pub struct EffectiveSettings {
    pub initial_max_path: u64,
    pub apply_trust_anchor_name_constraints: bool,
}

#[derive(Clone, Copy, PartialEq, Eq, Structural, Debug)]
pub enum EnforcementError {
    ContradictoryTrustAnchorConstraints,
}

/// Outcome of validating one candidate path.
#[derive(Clone, Copy, PartialEq, Eq, Structural, Debug)]
pub enum PathValidationStatus {
    Valid,
    InvalidValidity,
    InvalidSignature,
    InvalidNameChaining,
    InvalidBasicConstraints,
    InvalidPathLength,
    InvalidKeyUsage,
    InvalidExtendedKeyUsage,
    InvalidNameConstraints,
}

/// A validator-level error: the path could not be judged at all. Distinct
/// from an Invalid status, which is an authoritative rejection.
#[derive(Clone, Copy, PartialEq, Eq, Structural, Debug)]
pub enum ValidatorError {
    PolicyProcessingUnsupported,
}

/// Expected outcome a test vector declares.
#[derive(Clone, Copy, PartialEq, Eq, Structural, Debug)]
pub enum ExpectedOutcome {
    Success,
    Failure,
}

/// The form of an expected peer name.
#[derive(Clone, Copy, PartialEq, Eq, Structural, Debug)]
pub enum PeerKind {
    Dns,
    Rfc822,
    Ip,
}

/// One expected peer name from a test vector.
#[derive(Clone)]
pub struct PeerNameData {
    pub kind: PeerKind,
    pub value: Vec<u8>,
}

/// Requested key-usage entries of a test vector.
#[derive(Clone, Copy, PartialEq, Eq, Structural, Debug)]
pub enum KeyUsageFlag {
    DigitalSignature,
    ContentCommitment,
    KeyEncipherment,
    DataEncipherment,
    KeyAgreement,
    KeyCertSign,
    CrlSign,
    EncipherOnly,
    DecipherOnly,
}

/// Requested extended-key-usage entries of a test vector.
#[derive(Clone, Copy, PartialEq, Eq, Structural, Debug)]
pub enum KnownEku {
    ServerAuth,
    ClientAuth,
    CodeSigning,
    EmailProtection,
    OcspSigning,
    TimeStamping,
    AnyExtendedKeyUsage,
}

/// One test vector, with its certificates already decoded. A target that
/// failed to decode is `None`: such a vector fails, it is never skipped.
#[derive(Clone)]
pub struct TestcaseData {
    pub id: Vec<u8>,
    pub expected: ExpectedOutcome,
    pub peer_names: Vec<PeerNameData>,
    pub has_signature_algorithm_constraints: bool,
    pub max_chain_depth: Option<u64>,
    pub key_usage: Vec<KeyUsageFlag>,
    pub extended_key_usage: Vec<KnownEku>,
    pub validation_time: Option<u64>,
    pub trusted: Vec<CertData>,
    pub intermediates: Vec<CertData>,
    pub target: Option<CertData>,
}

/// Why a vector was skipped rather than judged.
#[derive(Clone, Copy, PartialEq, Eq, Structural, Debug)]
pub enum SkipReason {
    SignatureAlgorithmConstraints,
    UnsupportedNameConstraint,
    UnsupportedSanInLeaf,
    PolicyProcessingUnsupported,
}

/// Why a vector failed.
#[derive(Clone, Copy, PartialEq, Eq, Structural, Debug)]
pub enum FailureReason {
    UnparseableTarget,
    TrustAnchorConstraintProcessing,
    PeerNameMismatch,
    PeerNameWithoutSan,
    PathsExhausted,
}

/// The verdict for one test vector.
#[derive(Clone, Copy, PartialEq, Eq, Structural, Debug)]
pub enum TestcaseVerdict {
    Success,
    Failure(FailureReason),
    Skipped(SkipReason),
}

/// A verdict together with the non-valid statuses observed on candidate
/// paths before it was reached, for diagnosis.
#[derive(Clone)]
pub struct EvaluationOutcome {
    pub verdict: TestcaseVerdict,
    pub observed: Vec<PathValidationStatus>,
}

/// Classification lists of known test-vector identifiers whose expected
/// results this engine deliberately deviates from. Supplied as explicit
/// configuration by the caller, never embedded here.
#[derive(Clone)]
pub struct KnownCaseConfig {
    pub weak_key_checks: Vec<Vec<u8>>,
    pub known_bugs: Vec<Vec<u8>>,
    pub pathological_checks: Vec<Vec<u8>>,
    pub unsupported_application_checks: Vec<Vec<u8>>,
    pub busted_test_cases: Vec<Vec<u8>>,
    pub linter_tests: Vec<Vec<u8>>,
}

} // verus!
