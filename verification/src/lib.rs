//! Protocol contracts for the Alani MVK: transport envelopes, IPC message
//! schemas, audit-event records, config payloads, device descriptors, corpus
//! metadata and model metadata, each with the validation rules that decide
//! whether a record may cross a repository boundary.

pub mod audit;
pub mod config;
pub mod ipc;
pub mod message;
pub mod schema;
pub mod text;

pub use audit::{
    AuditDecision, AuditDescriptor, AuditEvent, AuditEventKind, AuditRecordHeader, AuditStatus,
    AUDIT_EVENT_SCHEMA_VERSION, MAX_AUDIT_LABEL_LEN,
};
pub use config::{
    ConfigDescriptor, ConfigDocument, ConfigDomain, ConfigEntry, ConfigFormat, ConfigValue,
    ConfigValueKind, CONFIG_SCHEMA_VERSION, MAX_CONFIG_ENTRIES, MAX_CONFIG_KEY_LEN,
};
pub use ipc::{
    EndpointKind, IpcDescriptor, IpcEndpoint, IpcEnvelope, IpcFlow, IpcRouteHint, IpcStatus,
    MAX_ENDPOINT_LABEL_LEN,
};
pub use message::{
    MessageDescriptor, MessageEnvelope, MessageHeader, MessageKind, PayloadRef, PayloadStorage,
    MAX_MESSAGE_LABEL_LEN, MAX_PAYLOAD_REFS, MESSAGE_FLAG_AUDIT_REQUIRED, MESSAGE_FLAG_COMPRESSED,
    MESSAGE_FLAG_ENCRYPTED, MESSAGE_FLAG_REQUIRES_REPLY, MESSAGE_FLAG_SHARED_MEMORY,
    MESSAGE_KNOWN_FLAGS, MESSAGE_SCHEMA_VERSION,
};
pub use schema::{
    CorpusMetadata, DeviceClass, DeviceDescriptor, DeviceState, MetadataRecord, ModelFormat,
    ModelMetadata, SchemaDescriptor, SchemaKind, SchemaRegistry, SchemaVersion,
    CORPUS_METADATA_SCHEMA_VERSION, DEVICE_DESCRIPTOR_SCHEMA_VERSION,
    MODEL_METADATA_SCHEMA_VERSION, SCHEMA_REGISTRY_VERSION,
};

use vstd::prelude::*;
use vstd::string::StringSliceAdditionalSpecFns;

use crate::text::{ends_with_bytes, starts_with_bytes, str_ends_with, str_starts_with};

verus! {

/// Repository name.
pub const REPOSITORY: &'static str = "alani-protocol";

/// Crate version.
pub const VERSION: &'static str = "0.1.0";

/// Public module names exposed by this crate.
pub const MODULES: [&'static str; 5] = ["message", "ipc", "audit", "config", "schema"];

/// Number of public protocol modules.
pub const MODULE_COUNT: usize = 5;

/// Feature bit for transport message envelopes.
pub const PROTOCOL_FEATURE_MESSAGES: u64 = 0x01;

/// Feature bit for IPC endpoint and route schemas.
pub const PROTOCOL_FEATURE_IPC: u64 = 0x02;

/// Feature bit for audit-event schema records.
pub const PROTOCOL_FEATURE_AUDIT: u64 = 0x04;

/// Feature bit for config payload schemas.
pub const PROTOCOL_FEATURE_CONFIG: u64 = 0x08;

/// Feature bit for shared metadata schemas.
pub const PROTOCOL_FEATURE_SCHEMA_REGISTRY: u64 = 0x10;

/// Feature bit for trace context propagation.
pub const PROTOCOL_FEATURE_TRACE_CONTEXT: u64 = 0x20;

/// Feature bit for redaction and data-class metadata.
pub const PROTOCOL_FEATURE_REDACTION: u64 = 0x40;

/// All protocol feature bits known by this crate version (the union of the
/// seven feature bits above).
pub const PROTOCOL_KNOWN_FEATURES: u64 = 0x7f;

/// Maximum schema-version label length.
pub const MAX_SCHEMA_VERSION_LEN: usize = 64;

/// Maximum component, operation, resource, or generic metadata label length.
pub const MAX_PROTOCOL_LABEL_LEN: usize = 128;

/// Invalid event/message/record identifier.
pub const INVALID_PROTOCOL_ID: u128 = 0;

/// Result alias used by protocol validation APIs.
pub type ProtocolResult<T> = Result<T, ProtocolError>;

/// The outcome of running check `first` and, only when it passes, check
/// `second`: the first failure wins.
pub open spec fn first_failure(first: ProtocolResult<()>, second: ProtocolResult<()>) -> ProtocolResult<()> {
    match first {
        Err(e) => Err(e),
        Ok(_) => second,
    }
}

/// Error taxonomy for protocol schemas and envelopes.
#[derive(Clone, Copy, Debug, PartialEq, Eq, Structural)]
pub enum ProtocolError {
    /// A required field was empty or omitted.
    MissingField,
    /// A bounded string field exceeded its documented limit.
    FieldTooLong,
    /// Reserved flag, feature, kind, or rights bits were supplied.
    ReservedBits,
    /// Schema version was missing, malformed, or incompatible.
    InvalidSchemaVersion,
    /// Message envelope or payload metadata was invalid.
    InvalidMessage,
    /// Inline or referenced payload exceeded bounds.
    PayloadTooLarge,
    /// IPC endpoint, route, or flow metadata was invalid.
    InvalidIpc,
    /// Audit event or audit record metadata was invalid.
    InvalidAudit,
    /// Configuration document or entry metadata was invalid.
    InvalidConfig,
    /// Shared metadata schema record was invalid.
    InvalidMetadata,
    /// Data classification and redaction state are incompatible.
    InvalidRedaction,
    /// Trace identifiers are malformed.
    InvalidTrace,
    /// Requested operation requires authority that is not represented.
    AccessDenied,
    /// Fixed-capacity collection is full.
    CapacityExceeded,
    /// Internal invariant failed.
    Internal,
}

impl ProtocolError {
    /// Stable reason label for diagnostics, audit records, and tests.
    #[verifier::allow_in_spec]
    pub fn reason(self) -> &'static str
        returns
            match self {
                ProtocolError::MissingField => "missing_field",
                ProtocolError::FieldTooLong => "field_too_long",
                ProtocolError::ReservedBits => "reserved_bits",
                ProtocolError::InvalidSchemaVersion => "invalid_schema_version",
                ProtocolError::InvalidMessage => "invalid_message",
                ProtocolError::PayloadTooLarge => "payload_too_large",
                ProtocolError::InvalidIpc => "invalid_ipc",
                ProtocolError::InvalidAudit => "invalid_audit",
                ProtocolError::InvalidConfig => "invalid_config",
                ProtocolError::InvalidMetadata => "invalid_metadata",
                ProtocolError::InvalidRedaction => "invalid_redaction",
                ProtocolError::InvalidTrace => "invalid_trace",
                ProtocolError::AccessDenied => "access_denied",
                ProtocolError::CapacityExceeded => "capacity_exceeded",
                ProtocolError::Internal => "internal",
            },
    {
        match self {
            ProtocolError::MissingField => "missing_field",
            ProtocolError::FieldTooLong => "field_too_long",
            ProtocolError::ReservedBits => "reserved_bits",
            ProtocolError::InvalidSchemaVersion => "invalid_schema_version",
            ProtocolError::InvalidMessage => "invalid_message",
            ProtocolError::PayloadTooLarge => "payload_too_large",
            ProtocolError::InvalidIpc => "invalid_ipc",
            ProtocolError::InvalidAudit => "invalid_audit",
            ProtocolError::InvalidConfig => "invalid_config",
            ProtocolError::InvalidMetadata => "invalid_metadata",
            ProtocolError::InvalidRedaction => "invalid_redaction",
            ProtocolError::InvalidTrace => "invalid_trace",
            ProtocolError::AccessDenied => "access_denied",
            ProtocolError::CapacityExceeded => "capacity_exceeded",
            ProtocolError::Internal => "internal",
        }
    }

    /// Returns `true` when the error represents a fail-closed trust boundary:
    /// every error but a missing or overlong field, a full collection, or an
    /// internal failure.
    #[verifier::allow_in_spec]
    pub fn is_security_relevant(self) -> bool
        returns
            !(self is MissingField || self is FieldTooLong || self is CapacityExceeded
                || self is Internal),
    {
        match self {
            ProtocolError::ReservedBits
            | ProtocolError::InvalidSchemaVersion
            | ProtocolError::InvalidMessage
            | ProtocolError::PayloadTooLarge
            | ProtocolError::InvalidIpc
            | ProtocolError::InvalidAudit
            | ProtocolError::InvalidConfig
            | ProtocolError::InvalidMetadata
            | ProtocolError::InvalidRedaction
            | ProtocolError::InvalidTrace
            | ProtocolError::AccessDenied => true,
            ProtocolError::MissingField
            | ProtocolError::FieldTooLong
            | ProtocolError::CapacityExceeded
            | ProtocolError::Internal => false,
        }
    }
}

/// Implementation maturity marker for repository metadata.
#[derive(Clone, Copy, Debug, PartialEq, Eq, Structural)]
pub enum ComponentStatus {
    /// API is present as a draft skeleton.
    Draft,
    /// API is implemented enough for host-mode experimentation.
    Experimental,
    /// API is compatible and stable.
    Stable,
}

/// Stable component identity record.
#[derive(Clone, Debug, PartialEq, Eq)]
pub struct ComponentInfo {
    /// Repository name.
    pub repository: &'static str,
    /// Crate version.
    pub version: &'static str,
    /// Current implementation status.
    pub status: ComponentStatus,
}

/// Returns stable component identity metadata.
pub fn component_info() -> (r: ComponentInfo)
    ensures
        r.repository == REPOSITORY,
        r.version == VERSION,
        r.status == ComponentStatus::Experimental,
{
    ComponentInfo { repository: REPOSITORY, version: VERSION, status: ComponentStatus::Experimental }
}

/// Returns the repository name.
pub fn repository_name() -> (r: &'static str)
    ensures
        r == REPOSITORY,
{
    REPOSITORY
}

/// Returns public module names.
pub fn module_names() -> (r: &'static [&'static str])
    ensures
        r@ == MODULES@,
{
    &MODULES
}

/// Stable trace context propagated across protocol boundaries.
#[derive(Clone, Copy, Debug, Default, PartialEq, Eq)]
pub struct TraceContext {
    /// Trace identifier.
    pub trace_id: u64,
    /// Span identifier.
    pub span_id: u64,
    /// Parent span identifier when known.
    pub parent_span_id: u64,
    /// Trace flags.
    pub flags: u32,
}

impl TraceContext {
    /// Empty trace context used when no trace exists.
    #[verifier::allow_in_spec]
    pub fn empty() -> Self
        returns
            (TraceContext { trace_id: 0, span_id: 0, parent_span_id: 0, flags: 0 }),
    {
        TraceContext { trace_id: 0, span_id: 0, parent_span_id: 0, flags: 0 }
    }

    /// Creates a trace context with trace and span identifiers.
    #[verifier::allow_in_spec]
    pub fn new(trace_id: u64, span_id: u64) -> Self
        returns
            (TraceContext { trace_id, span_id, parent_span_id: 0, flags: 0 }),
    {
        TraceContext { trace_id, span_id, parent_span_id: 0, flags: 0 }
    }

    /// Sets parent span identifier.
    #[verifier::allow_in_spec]
    pub fn with_parent(self, parent_span_id: u64) -> Self
        returns
            (TraceContext { parent_span_id, ..self }),
    {
        let mut r = self;
        r.parent_span_id = parent_span_id;
        r
    }

    /// Sets trace flags.
    #[verifier::allow_in_spec]
    pub fn with_flags(self, flags: u32) -> Self
        returns
            (TraceContext { flags, ..self }),
    {
        let mut r = self;
        r.flags = flags;
        r
    }

    /// Returns `true` when trace and span identifiers are both present.
    #[verifier::allow_in_spec]
    pub fn is_present(self) -> bool
        returns
            self.trace_id != 0 && self.span_id != 0,
    {
        self.trace_id != 0 && self.span_id != 0
    }

    /// Validates trace identifiers: trace and span identifiers are both
    /// present or both absent, and a parent span only accompanies a present
    /// trace.
    #[verifier::allow_in_spec]
    pub fn validate(self) -> ProtocolResult<()>
        returns
            if (self.trace_id == 0) != (self.span_id == 0) {
                Err(ProtocolError::InvalidTrace)
            } else if self.parent_span_id != 0 && !self.is_present() {
                Err(ProtocolError::InvalidTrace)
            } else {
                Ok(())
            },
    {
        if (self.trace_id == 0) != (self.span_id == 0) {
            return Err(ProtocolError::InvalidTrace);
        }
        if self.parent_span_id != 0 && !self.is_present() {
            return Err(ProtocolError::InvalidTrace);
        }
        Ok(())
    }
}

/// Data sensitivity classification for protocol records.
#[derive(Clone, Copy, Debug, PartialEq, Eq, Structural)]
pub enum DataClass {
    /// Public metadata.
    Public,
    /// Operational metadata suitable for trusted operators.
    Operational,
    /// Sensitive metadata requiring redaction before broad export.
    Sensitive,
    /// Secret metadata that must never be exported in raw form.
    Secret,
}

impl DataClass {
    /// Stable numeric wire code of the data class.
    #[verifier::allow_in_spec]
    pub fn code(self) -> u8
        returns
            match self {
                DataClass::Public => 0u8,
                DataClass::Operational => 1u8,
                DataClass::Sensitive => 2u8,
                DataClass::Secret => 3u8,
            },
    {
        match self {
            DataClass::Public => 0,
            DataClass::Operational => 1,
            DataClass::Sensitive => 2,
            DataClass::Secret => 3,
        }
    }

    /// Stable class label.
    #[verifier::allow_in_spec]
    pub fn label(self) -> &'static str
        returns
            match self {
                DataClass::Public => "public",
                DataClass::Operational => "operational",
                DataClass::Sensitive => "sensitive",
                DataClass::Secret => "secret",
            },
    {
        match self {
            DataClass::Public => "public",
            DataClass::Operational => "operational",
            DataClass::Sensitive => "sensitive",
            DataClass::Secret => "secret",
        }
    }

    /// Returns `true` when broad export requires redaction.
    #[verifier::allow_in_spec]
    pub fn requires_redaction(self) -> bool
        returns
            self is Sensitive || self is Secret,
    {
        matches!(self, DataClass::Sensitive | DataClass::Secret)
    }
}

/// Redaction state for payloads and metadata.
#[derive(Clone, Copy, Debug, PartialEq, Eq, Structural)]
pub enum RedactionState {
    /// Public content.
    Public,
    /// Operational metadata.
    Operational,
    /// Sensitive fields were redacted.
    SensitiveRedacted,
    /// Secret fields were redacted.
    SecretRedacted,
    /// Sensitive fields are present and must not be exported broadly.
    UnredactedSensitive,
}

impl RedactionState {
    /// Stable numeric wire code of the redaction state.
    #[verifier::allow_in_spec]
    pub fn code(self) -> u8
        returns
            match self {
                RedactionState::Public => 0u8,
                RedactionState::Operational => 1u8,
                RedactionState::SensitiveRedacted => 2u8,
                RedactionState::SecretRedacted => 3u8,
                RedactionState::UnredactedSensitive => 4u8,
            },
    {
        match self {
            RedactionState::Public => 0,
            RedactionState::Operational => 1,
            RedactionState::SensitiveRedacted => 2,
            RedactionState::SecretRedacted => 3,
            RedactionState::UnredactedSensitive => 4,
        }
    }

    /// Stable redaction label.
    #[verifier::allow_in_spec]
    pub fn label(self) -> &'static str
        returns
            match self {
                RedactionState::Public => "public",
                RedactionState::Operational => "operational",
                RedactionState::SensitiveRedacted => "sensitive_redacted",
                RedactionState::SecretRedacted => "secret_redacted",
                RedactionState::UnredactedSensitive => "unredacted_sensitive",
            },
    {
        match self {
            RedactionState::Public => "public",
            RedactionState::Operational => "operational",
            RedactionState::SensitiveRedacted => "sensitive_redacted",
            RedactionState::SecretRedacted => "secret_redacted",
            RedactionState::UnredactedSensitive => "unredacted_sensitive",
        }
    }
}

/// Which redaction states each data class accepts: public data is only
/// public, operational data is operational or public, sensitive data must be
/// sensitive-redacted and secret data must be secret-redacted.
pub open spec fn redaction_compatible(data_class: DataClass, redaction: RedactionState) -> bool {
    match data_class {
        DataClass::Public => redaction is Public,
        DataClass::Operational => redaction is Operational || redaction is Public,
        DataClass::Sensitive => redaction is SensitiveRedacted,
        DataClass::Secret => redaction is SecretRedacted,
    }
}

/// Validates that a data class has an acceptable redaction state.
#[verifier::allow_in_spec]
pub fn validate_redaction(data_class: DataClass, redaction: RedactionState) -> ProtocolResult<()>
    returns
        if redaction_compatible(data_class, redaction) {
            Ok(())
        } else {
            Err(ProtocolError::InvalidRedaction)
        },
{
    match data_class {
        DataClass::Public => {
            if matches!(redaction, RedactionState::Public) {
                Ok(())
            } else {
                Err(ProtocolError::InvalidRedaction)
            }
        },
        DataClass::Operational => {
            if matches!(redaction, RedactionState::Operational | RedactionState::Public) {
                Ok(())
            } else {
                Err(ProtocolError::InvalidRedaction)
            }
        },
        DataClass::Sensitive => {
            if matches!(redaction, RedactionState::SensitiveRedacted) {
                Ok(())
            } else {
                Err(ProtocolError::InvalidRedaction)
            }
        },
        DataClass::Secret => {
            if matches!(redaction, RedactionState::SecretRedacted) {
                Ok(())
            } else {
                Err(ProtocolError::InvalidRedaction)
            }
        },
    }
}

/// Validates a protocol-facing label: it must not be empty, and its UTF-8
/// encoding must not be longer than `max_len` bytes.
#[verifier::allow_in_spec]
pub fn validate_label(label: &str, max_len: usize) -> ProtocolResult<()>
    returns
        if label@.len() == 0 {
            Err(ProtocolError::MissingField)
        } else if label.len() > max_len {
            Err(ProtocolError::FieldTooLong)
        } else {
            Ok(())
        },
{
    if label.is_empty() {
        return Err(ProtocolError::MissingField);
    }
    if label.len() > max_len {
        return Err(ProtocolError::FieldTooLong);
    }
    Ok(())
}

/// Validates a schema version label: a label of at most
/// `MAX_SCHEMA_VERSION_LEN` bytes whose UTF-8 encoding starts with the bytes
/// of `alani.` and ends with the bytes of `.v1`.
#[verifier::allow_in_spec]
pub fn validate_schema_version(version: &str) -> ProtocolResult<()>
    returns
        first_failure(
            validate_label(version, MAX_SCHEMA_VERSION_LEN),
            if !starts_with_bytes(version.spec_bytes(), "alani.".spec_bytes()) || !ends_with_bytes(
                version.spec_bytes(),
                ".v1".spec_bytes(),
            ) {
                Err(ProtocolError::InvalidSchemaVersion)
            } else {
                Ok(())
            },
        ),
{
    validate_label(version, MAX_SCHEMA_VERSION_LEN)?;
    if !str_starts_with(version, "alani.") || !str_ends_with(version, ".v1") {
        return Err(ProtocolError::InvalidSchemaVersion);
    }
    Ok(())
}

/// Compact root view of the protocol crate contract.
#[derive(Clone, Copy, Debug, PartialEq, Eq)]
pub struct ProtocolCatalog {
    /// Repository name.
    pub repository: &'static str,
    /// Crate version.
    pub version: &'static str,
    /// Feature bitmap.
    pub features: u64,
    /// Public module count.
    pub module_count: usize,
    /// Maximum generic protocol label length.
    pub max_label_len: usize,
}

impl ProtocolCatalog {
    /// Returns the current protocol catalog.
    #[verifier::allow_in_spec]
    pub fn current() -> Self
        returns
            (ProtocolCatalog {
                repository: REPOSITORY,
                version: VERSION,
                features: PROTOCOL_KNOWN_FEATURES,
                module_count: MODULE_COUNT,
                max_label_len: MAX_PROTOCOL_LABEL_LEN,
            }),
    {
        ProtocolCatalog {
            repository: REPOSITORY,
            version: VERSION,
            features: PROTOCOL_KNOWN_FEATURES,
            module_count: MODULE_COUNT,
            max_label_len: MAX_PROTOCOL_LABEL_LEN,
        }
    }

    /// Validates catalog metadata.
    #[verifier::allow_in_spec]
    pub fn validate(self) -> ProtocolResult<()>
        returns
            if self.repository@.len() == 0 || self.version@.len() == 0 {
                Err(ProtocolError::MissingField)
            } else if self.features & !PROTOCOL_KNOWN_FEATURES != 0 {
                Err(ProtocolError::ReservedBits)
            } else if self.module_count != MODULE_COUNT || self.max_label_len == 0 {
                Err(ProtocolError::InvalidMetadata)
            } else {
                Ok(())
            },
    {
        if self.repository.is_empty() || self.version.is_empty() {
            return Err(ProtocolError::MissingField);
        }
        if self.features & !PROTOCOL_KNOWN_FEATURES != 0 {
            return Err(ProtocolError::ReservedBits);
        }
        if self.module_count != MODULE_COUNT || self.max_label_len == 0 {
            return Err(ProtocolError::InvalidMetadata);
        }
        Ok(())
    }
}

/// Returns the current protocol catalog.
#[verifier::allow_in_spec]
pub fn protocol_catalog() -> ProtocolCatalog
    returns
        ProtocolCatalog::current(),
{
    ProtocolCatalog::current()
}

/// A data class that requires redaction only validates against a redacted
/// state.
pub proof fn law_redaction_required_means_redacted(data_class: DataClass, redaction: RedactionState)
    requires
        validate_redaction(data_class, redaction) is Ok,
        data_class.requires_redaction(),
    ensures
        redaction is SensitiveRedacted || redaction is SecretRedacted,
{
}

/// Unredacted sensitive content validates against no data class.
pub proof fn law_unredacted_never_validates(data_class: DataClass)
    ensures
        validate_redaction(data_class, RedactionState::UnredactedSensitive) == Err::<(), ProtocolError>(
            ProtocolError::InvalidRedaction,
        ),
{
}

/// The empty trace and every trace whose trace and span identifiers are
/// both present validate, whatever their parent span and flags; a trace
/// with only one of the two identifiers does not.
pub proof fn law_trace_validity(trace: TraceContext)
    ensures
        TraceContext::empty().validate() is Ok,
        trace.is_present() ==> trace.validate() is Ok,
        (trace.trace_id == 0) != (trace.span_id == 0) ==> trace.validate() == Err::<
            (),
            ProtocolError,
        >(ProtocolError::InvalidTrace),
{
}

/// Text is empty exactly when its UTF-8 encoding has no bytes.
pub proof fn lemma_empty_iff_no_bytes(s: &str)
    ensures
        (s@.len() == 0) == (s.spec_bytes().len() == 0),
{
    if s@.len() > 0 {
        assert(vstd::utf8::encode_scalar(s@[0] as u32).len() >= 1);
    }
}

/// Measured in UTF-8 bytes, a label is valid exactly when it has between one
/// and `max_len` bytes: no bytes is a missing field, more is too long. (The
/// byte count of any text held in memory fits in `usize`.)
pub proof fn law_label_by_bytes(label: &str, max_len: usize)
    requires
        label.spec_bytes().len() <= usize::MAX,
    ensures
        validate_label(label, max_len) == if label.spec_bytes().len() == 0 {
            Err::<(), ProtocolError>(ProtocolError::MissingField)
        } else if label.spec_bytes().len() > max_len {
            Err(ProtocolError::FieldTooLong)
        } else {
            Ok(())
        },
{
    lemma_empty_iff_no_bytes(label);
}

/// A schema version is valid exactly when its UTF-8 encoding has between one
/// and `MAX_SCHEMA_VERSION_LEN` bytes, its first six bytes are those of
/// `alani.` (0x61 0x6c 0x61 0x6e 0x69 0x2e) and its last three bytes are
/// those of `.v1` (0x2e 0x76 0x31). (The byte count of any text held in
/// memory fits in `usize`.)
pub proof fn law_schema_version_by_bytes(version: &str)
    requires
        version.spec_bytes().len() <= usize::MAX,
    ensures
        (validate_schema_version(version) is Ok) == ({
            let b = version.spec_bytes();
            &&& 1 <= b.len() <= MAX_SCHEMA_VERSION_LEN
            &&& b.len() >= 6
            &&& b[0] == 0x61 && b[1] == 0x6c && b[2] == 0x61 && b[3] == 0x6e && b[4] == 0x69
                && b[5] == 0x2e
            &&& b[b.len() - 3] == 0x2e && b[b.len() - 2] == 0x76 && b[b.len() - 1] == 0x31
        }),
{
    reveal_strlit("alani.");
    reveal_strlit(".v1");
    lemma_ascii_bytes("alani.");
    lemma_ascii_bytes(".v1");
    law_label_by_bytes(version, MAX_SCHEMA_VERSION_LEN);
    let b = version.spec_bytes();
    crate::text::law_starts_with_bytes_is_prefix(b, "alani.".spec_bytes());
    crate::text::law_ends_with_bytes_is_suffix(b, ".v1".spec_bytes());
    let p = "alani.".spec_bytes();
    let q = ".v1".spec_bytes();
    assert(p[0] == 0x61 && p[1] == 0x6c && p[2] == 0x61 && p[3] == 0x6e && p[4] == 0x69 && p[5]
        == 0x2e);
    assert(q[0] == 0x2e && q[1] == 0x76 && q[2] == 0x31);
    if b.len() >= 6 {
        let k = b.len() - 3;
        assert(b[k + 0] == b[k] && b[k + 1] == b[b.len() - 2] && b[k + 2] == b[b.len() - 1]);
        if b[0] == 0x61 && b[1] == 0x6c && b[2] == 0x61 && b[3] == 0x6e && b[4] == 0x69 && b[5]
            == 0x2e {
            assert forall|i: int| 0 <= i < p.len() implies #[trigger] b[i] == p[i] by {}
        }
        if b[k] == 0x2e && b[k + 1] == 0x76 && b[k + 2] == 0x31 {
            assert forall|i: int| 0 <= i < q.len() implies #[trigger] b[b.len() - q.len() + i]
                == q[i] by {}
        }
    }
}

/// The UTF-8 encoding of a valid schema version begins with that of
/// `alani.` and ends with that of `.v1`.
pub proof fn law_valid_schema_version_affixes(version: &str)
    requires
        validate_schema_version(version) is Ok,
    ensures
        version.spec_bytes().len() >= 6,
        version.spec_bytes().subrange(0, 6) == "alani.".spec_bytes(),
        version.spec_bytes().subrange(
            version.spec_bytes().len() - 3,
            version.spec_bytes().len() as int,
        ) == ".v1".spec_bytes(),
{
    reveal_strlit("alani.");
    reveal_strlit(".v1");
    lemma_ascii_bytes("alani.");
    lemma_ascii_bytes(".v1");
}

/// The redaction table: public data accepts only the public state,
/// operational data the operational or public state, sensitive data only the
/// sensitive-redacted state and secret data only the secret-redacted state;
/// every other pair is an invalid redaction.
pub proof fn law_redaction_table(data_class: DataClass, redaction: RedactionState)
    ensures
        (validate_redaction(data_class, redaction) is Ok) == ((data_class is Public
            && redaction is Public) || (data_class is Operational && (redaction is Operational
            || redaction is Public)) || (data_class is Sensitive && redaction is SensitiveRedacted)
            || (data_class is Secret && redaction is SecretRedacted)),
        validate_redaction(data_class, redaction) is Err ==> validate_redaction(
            data_class,
            redaction,
        ) == Err::<(), ProtocolError>(ProtocolError::InvalidRedaction),
{
}

/// A trace validates exactly when its trace and span identifiers are both
/// zero or both non-zero, and a non-zero parent span comes only with
/// non-zero trace and span identifiers; otherwise it is an invalid trace.
pub proof fn law_trace_rules(trace: TraceContext)
    ensures
        (trace.validate() is Ok) == ((trace.trace_id == 0) == (trace.span_id == 0) && (
        trace.parent_span_id != 0 ==> trace.trace_id != 0 && trace.span_id != 0)),
        trace.validate() is Err ==> trace.validate() == Err::<(), ProtocolError>(
            ProtocolError::InvalidTrace,
        ),
{
}

/// A catalog validates exactly when its repository and version are
/// non-empty, it sets no feature bit outside `PROTOCOL_KNOWN_FEATURES`, it
/// counts `MODULE_COUNT` modules, and its label limit is non-zero.
pub proof fn law_catalog_rules(catalog: ProtocolCatalog)
    ensures
        (catalog.validate() is Ok) == (catalog.repository@.len() > 0 && catalog.version@.len() > 0
            && catalog.features & !PROTOCOL_KNOWN_FEATURES == 0 && catalog.module_count == 5
            && catalog.max_label_len > 0),
{
}

/// The current protocol catalog validates.
pub proof fn law_current_catalog_validates()
    ensures
        protocol_catalog().validate() == Ok::<(), ProtocolError>(()),
{
    reveal_strlit("alani-protocol");
    reveal_strlit("0.1.0");
    assert(0x7fu64 & !0x7fu64 == 0) by (bit_vector);
}

/// An ASCII label of at most `MAX_SCHEMA_VERSION_LEN` characters that
/// starts with `alani.` and ends with `.v1` is a valid schema version.
pub proof fn lemma_ascii_schema_version(version: &str)
    requires
        vstd::string::is_ascii(version),
        0 < version@.len() <= MAX_SCHEMA_VERSION_LEN,
        version@.len() >= 6,
        version@.subrange(0, 6) =~= "alani."@,
        version@.subrange(version@.len() - 3, version@.len() as int) =~= ".v1"@,
    ensures
        validate_schema_version(version) == Ok::<(), ProtocolError>(()),
{
    reveal_strlit("alani.");
    reveal_strlit(".v1");
    lemma_ascii_bytes(version);
    lemma_ascii_bytes("alani.");
    lemma_ascii_bytes(".v1");
    let v = version.spec_bytes();
    assert(v.subrange(0, 6) =~= "alani.".spec_bytes()) by {
        assert forall|i: int| 0 <= i < 6 implies v.subrange(0, 6)[i] == "alani.".spec_bytes()[i] by {
            assert(version@.subrange(0, 6)[i] == version@[i]);
        }
    }
    assert(v.subrange(v.len() - 3, v.len() as int) =~= ".v1".spec_bytes()) by {
        assert forall|i: int| 0 <= i < 3 implies v.subrange(v.len() - 3, v.len() as int)[i]
            == ".v1".spec_bytes()[i] by {
            assert(version@.subrange(version@.len() - 3, version@.len() as int)[i] == version@[
                version@.len() - 3 + i]);
        }
    }
}

/// The schema versions that this crate stamps on the records it creates
/// all validate.
pub proof fn law_crate_schema_versions_validate()
    ensures
        validate_schema_version(crate::message::MESSAGE_SCHEMA_VERSION) == Ok::<(), ProtocolError>(()),
        validate_schema_version(crate::ipc::IPC_SCHEMA_VERSION) == Ok::<(), ProtocolError>(()),
        validate_schema_version(crate::audit::AUDIT_EVENT_SCHEMA_VERSION) == Ok::<(), ProtocolError>(()),
        validate_schema_version(crate::config::CONFIG_SCHEMA_VERSION) == Ok::<(), ProtocolError>(()),
        validate_schema_version(crate::schema::SCHEMA_REGISTRY_VERSION) == Ok::<(), ProtocolError>(()),
        validate_schema_version(crate::schema::DEVICE_DESCRIPTOR_SCHEMA_VERSION) == Ok::<(), ProtocolError>(()),
        validate_schema_version(crate::schema::CORPUS_METADATA_SCHEMA_VERSION) == Ok::<(), ProtocolError>(()),
        validate_schema_version(crate::schema::MODEL_METADATA_SCHEMA_VERSION) == Ok::<(), ProtocolError>(()),
{
    reveal_strlit("alani.");
    reveal_strlit(".v1");
    reveal_strlit("alani.message.v1");
    reveal_strlit("alani.ipc.v1");
    reveal_strlit("alani.event.v1");
    reveal_strlit("alani.config.v1");
    reveal_strlit("alani.schema_registry.v1");
    reveal_strlit("alani.device.v1");
    reveal_strlit("alani.corpus.v1");
    reveal_strlit("alani.model.v1");
    lemma_ascii_schema_version(crate::message::MESSAGE_SCHEMA_VERSION);
    lemma_ascii_schema_version(crate::ipc::IPC_SCHEMA_VERSION);
    lemma_ascii_schema_version(crate::audit::AUDIT_EVENT_SCHEMA_VERSION);
    lemma_ascii_schema_version(crate::config::CONFIG_SCHEMA_VERSION);
    lemma_ascii_schema_version(crate::schema::SCHEMA_REGISTRY_VERSION);
    lemma_ascii_schema_version(crate::schema::DEVICE_DESCRIPTOR_SCHEMA_VERSION);
    lemma_ascii_schema_version(crate::schema::CORPUS_METADATA_SCHEMA_VERSION);
    lemma_ascii_schema_version(crate::schema::MODEL_METADATA_SCHEMA_VERSION);
}

/// The UTF-8 encoding of ASCII text is its characters, one byte each.
pub(crate) proof fn lemma_ascii_bytes(s: &str)
    requires
        vstd::string::is_ascii(s),
    ensures
        s.spec_bytes() =~= Seq::new(s@.len(), |i: int| s@[i] as u8),
{
    broadcast use vstd::string::is_ascii_spec_bytes;
}

/// Distinct errors have distinct reason labels, so a reason label names its
/// error.
pub proof fn law_reasons_distinct(a: ProtocolError, b: ProtocolError)
    requires
        a != b,
    ensures
        a.reason()@ != b.reason()@,
{
    reveal_strlit("missing_field");
    reveal_strlit("field_too_long");
    reveal_strlit("reserved_bits");
    reveal_strlit("invalid_schema_version");
    reveal_strlit("invalid_message");
    reveal_strlit("payload_too_large");
    reveal_strlit("invalid_ipc");
    reveal_strlit("invalid_audit");
    reveal_strlit("invalid_config");
    reveal_strlit("invalid_metadata");
    reveal_strlit("invalid_redaction");
    reveal_strlit("invalid_trace");
    reveal_strlit("access_denied");
    reveal_strlit("capacity_exceeded");
    reveal_strlit("internal");
    let x = a.reason()@;
    let y = b.reason()@;
    if x.len() == y.len() {
        assert(x[0] != y[0] || x[1] != y[1] || x[2] != y[2] || x[8] != y[8] || x[9] != y[9]
            || x[10] != y[10]);
    }
}

} // verus!
