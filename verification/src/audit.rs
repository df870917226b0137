//! Audit event schema records shared across repositories.
//!
//! Durable storage, hash-chain append behavior, and query enforcement live
//! elsewhere. This module owns the stable protocol fields and validation rules
//! that those consumers rely on.

use vstd::prelude::*;

use crate::{
    first_failure, validate_label, validate_redaction, validate_schema_version, DataClass,
    ProtocolError, ProtocolResult, RedactionState, TraceContext, INVALID_PROTOCOL_ID,
};

verus! {

/// Audit event schema version.
pub const AUDIT_EVENT_SCHEMA_VERSION: &'static str = "alani.event.v1";

/// Maximum audit label length.
pub const MAX_AUDIT_LABEL_LEN: usize = 128;

/// Hash byte length used by audit record headers.
pub const AUDIT_HASH_LEN: usize = 32;

/// Audit hash bytes.
pub type AuditHash = [u8; AUDIT_HASH_LEN];

/// Every byte of the hash is zero (the placeholder hash).
pub open spec fn is_zero_hash(hash: AuditHash) -> bool {
    forall|i: int| 0 <= i < AUDIT_HASH_LEN ==> #[trigger] hash@[i] == 0
}

/// Zero hash placeholder: the previous hash of a segment's first record.
pub fn zero_audit_hash() -> (r: AuditHash)
    ensures
        is_zero_hash(r),
        forall|i: int| 0 <= i < AUDIT_HASH_LEN ==> #[trigger] r@[i] == 0u8,
{
    [0u8; AUDIT_HASH_LEN]
}

/// Returns `true` when every byte of `hash` is zero.
fn hash_is_zero(hash: &AuditHash) -> (r: bool)
    ensures
        r == is_zero_hash(*hash),
{
    let mut i: usize = 0;
    while i < AUDIT_HASH_LEN
        invariant
            i <= AUDIT_HASH_LEN,
            forall|j: int| 0 <= j < i ==> #[trigger] hash@[j] == 0,
        decreases AUDIT_HASH_LEN - i,
    {
        if hash[i] != 0 {
            return false;
        }
        i = i + 1;
    }
    true
}

/// Audit event category.
#[derive(Clone, Copy, Debug, PartialEq, Eq, Structural)]
pub enum AuditEventKind {
    /// Unknown placeholder.
    Unknown,
    /// Security denial or sandbox violation.
    SecurityDenial,
    /// Capability derivation, attenuation, or revocation.
    CapabilityDerivation,
    /// Device open or privileged device use.
    DeviceOpen,
    /// Memory sharing, sealing, or ownership transfer.
    MemoryShare,
    /// Model inference or cognitive memory access.
    ModelInference,
    /// Corpus import or generated-data ingest.
    CorpusImport,
    /// Release packaging, signing, or evidence generation.
    ReleasePackaging,
    /// CI waiver or policy exception.
    CiWaiver,
    /// Audit query or export request.
    AuditQuery,
    /// Audit hash-chain verification.
    AuditVerification,
    /// Task lifecycle transition with security impact.
    TaskLifecycle,
    /// Persistent storage mutation.
    StorageMutation,
    /// Policy decision for an operation.
    PolicyDecision,
    /// Configuration mutation or policy-affecting config read.
    ConfigAccess,
}

impl AuditEventKind {
    /// Stable numeric wire code of the audit event kind.
    #[verifier::allow_in_spec]
    pub fn code(self) -> u16
        returns
            match self {
                AuditEventKind::Unknown => 0u16,
                AuditEventKind::SecurityDenial => 1u16,
                AuditEventKind::CapabilityDerivation => 2u16,
                AuditEventKind::DeviceOpen => 3u16,
                AuditEventKind::MemoryShare => 4u16,
                AuditEventKind::ModelInference => 5u16,
                AuditEventKind::CorpusImport => 6u16,
                AuditEventKind::ReleasePackaging => 7u16,
                AuditEventKind::CiWaiver => 8u16,
                AuditEventKind::AuditQuery => 9u16,
                AuditEventKind::AuditVerification => 10u16,
                AuditEventKind::TaskLifecycle => 11u16,
                AuditEventKind::StorageMutation => 12u16,
                AuditEventKind::PolicyDecision => 13u16,
                AuditEventKind::ConfigAccess => 14u16,
            },
    {
        match self {
            AuditEventKind::Unknown => 0,
            AuditEventKind::SecurityDenial => 1,
            AuditEventKind::CapabilityDerivation => 2,
            AuditEventKind::DeviceOpen => 3,
            AuditEventKind::MemoryShare => 4,
            AuditEventKind::ModelInference => 5,
            AuditEventKind::CorpusImport => 6,
            AuditEventKind::ReleasePackaging => 7,
            AuditEventKind::CiWaiver => 8,
            AuditEventKind::AuditQuery => 9,
            AuditEventKind::AuditVerification => 10,
            AuditEventKind::TaskLifecycle => 11,
            AuditEventKind::StorageMutation => 12,
            AuditEventKind::PolicyDecision => 13,
            AuditEventKind::ConfigAccess => 14,
        }
    }

    /// Stable event-kind label.
    #[verifier::allow_in_spec]
    pub fn label(self) -> &'static str
        returns
            match self {
                AuditEventKind::Unknown => "unknown",
                AuditEventKind::SecurityDenial => "security_denial",
                AuditEventKind::CapabilityDerivation => "capability_derivation",
                AuditEventKind::DeviceOpen => "device_open",
                AuditEventKind::MemoryShare => "memory_share",
                AuditEventKind::ModelInference => "model_inference",
                AuditEventKind::CorpusImport => "corpus_import",
                AuditEventKind::ReleasePackaging => "release_packaging",
                AuditEventKind::CiWaiver => "ci_waiver",
                AuditEventKind::AuditQuery => "audit_query",
                AuditEventKind::AuditVerification => "audit_verification",
                AuditEventKind::TaskLifecycle => "task_lifecycle",
                AuditEventKind::StorageMutation => "storage_mutation",
                AuditEventKind::PolicyDecision => "policy_decision",
                AuditEventKind::ConfigAccess => "config_access",
            },
    {
        match self {
            AuditEventKind::Unknown => "unknown",
            AuditEventKind::SecurityDenial => "security_denial",
            AuditEventKind::CapabilityDerivation => "capability_derivation",
            AuditEventKind::DeviceOpen => "device_open",
            AuditEventKind::MemoryShare => "memory_share",
            AuditEventKind::ModelInference => "model_inference",
            AuditEventKind::CorpusImport => "corpus_import",
            AuditEventKind::ReleasePackaging => "release_packaging",
            AuditEventKind::CiWaiver => "ci_waiver",
            AuditEventKind::AuditQuery => "audit_query",
            AuditEventKind::AuditVerification => "audit_verification",
            AuditEventKind::TaskLifecycle => "task_lifecycle",
            AuditEventKind::StorageMutation => "storage_mutation",
            AuditEventKind::PolicyDecision => "policy_decision",
            AuditEventKind::ConfigAccess => "config_access",
        }
    }

    /// Returns `true` when this event must not be sampled out.
    #[verifier::allow_in_spec]
    pub fn is_audit_critical(self) -> bool
        returns
            !(self is Unknown),
    {
        !matches!(self, AuditEventKind::Unknown)
    }
}

/// Policy decision recorded by the audit event.
#[derive(Clone, Copy, Debug, PartialEq, Eq, Structural)]
pub enum AuditDecision {
    /// Operation was allowed.
    Allow,
    /// Operation was denied.
    Deny,
    /// Operation required escalation.
    Escalate,
    /// No policy decision applied.
    NotApplicable,
}

impl AuditDecision {
    /// Stable numeric wire code of the audit decision.
    #[verifier::allow_in_spec]
    pub fn code(self) -> u8
        returns
            match self {
                AuditDecision::Allow => 1u8,
                AuditDecision::Deny => 2u8,
                AuditDecision::Escalate => 3u8,
                AuditDecision::NotApplicable => 4u8,
            },
    {
        match self {
            AuditDecision::Allow => 1,
            AuditDecision::Deny => 2,
            AuditDecision::Escalate => 3,
            AuditDecision::NotApplicable => 4,
        }
    }

    /// Stable decision label.
    #[verifier::allow_in_spec]
    pub fn label(self) -> &'static str
        returns
            match self {
                AuditDecision::Allow => "allow",
                AuditDecision::Deny => "deny",
                AuditDecision::Escalate => "escalate",
                AuditDecision::NotApplicable => "not_applicable",
            },
    {
        match self {
            AuditDecision::Allow => "allow",
            AuditDecision::Deny => "deny",
            AuditDecision::Escalate => "escalate",
            AuditDecision::NotApplicable => "not_applicable",
        }
    }
}

/// Operation status captured by an audit event.
#[derive(Clone, Copy, Debug, PartialEq, Eq, Structural)]
pub enum AuditStatus {
    /// Operation started.
    Started,
    /// Operation completed successfully.
    Succeeded,
    /// Operation failed.
    Failed,
    /// Operation was denied before execution.
    Denied,
    /// Operation was skipped or cancelled.
    Cancelled,
}

impl AuditStatus {
    /// Stable numeric wire code of the audit status.
    #[verifier::allow_in_spec]
    pub fn code(self) -> u8
        returns
            match self {
                AuditStatus::Started => 1u8,
                AuditStatus::Succeeded => 2u8,
                AuditStatus::Failed => 3u8,
                AuditStatus::Denied => 4u8,
                AuditStatus::Cancelled => 5u8,
            },
    {
        match self {
            AuditStatus::Started => 1,
            AuditStatus::Succeeded => 2,
            AuditStatus::Failed => 3,
            AuditStatus::Denied => 4,
            AuditStatus::Cancelled => 5,
        }
    }

    /// Stable status label.
    #[verifier::allow_in_spec]
    pub fn label(self) -> &'static str
        returns
            match self {
                AuditStatus::Started => "started",
                AuditStatus::Succeeded => "succeeded",
                AuditStatus::Failed => "failed",
                AuditStatus::Denied => "denied",
                AuditStatus::Cancelled => "cancelled",
            },
    {
        match self {
            AuditStatus::Started => "started",
            AuditStatus::Succeeded => "succeeded",
            AuditStatus::Failed => "failed",
            AuditStatus::Denied => "denied",
            AuditStatus::Cancelled => "cancelled",
        }
    }
}

/// Structured audit event protocol record.
#[derive(Clone, Copy, Debug, PartialEq, Eq)]
pub struct AuditEvent<'a> {
    /// Schema version.
    pub schema_version: &'a str,
    /// Stable event identifier.
    pub event_id: u128,
    /// Monotonic sequence in the producing segment.
    pub sequence: u64,
    /// Timestamp in nanoseconds when available.
    pub timestamp_ns: u64,
    /// Monotonic counter supplied by producer.
    pub monotonic_counter: u64,
    /// Event category.
    pub kind: AuditEventKind,
    /// Principal responsible for the event.
    pub principal: &'a str,
    /// Emitting component.
    pub component: &'a str,
    /// Operation label.
    pub operation: &'a str,
    /// Resource label.
    pub resource: &'a str,
    /// Decision label.
    pub decision: AuditDecision,
    /// Operation status.
    pub status: AuditStatus,
    /// Data class.
    pub data_class: DataClass,
    /// Redaction state.
    pub redaction: RedactionState,
    /// Trace context.
    pub trace: TraceContext,
}

impl<'a> AuditEvent<'a> {
    /// Creates an audit event with conservative defaults: no time, component
    /// `unknown`, no decision, status started, operational data, no trace.
    #[verifier::allow_in_spec]
    pub fn new(
        event_id: u128,
        sequence: u64,
        kind: AuditEventKind,
        principal: &'a str,
        operation: &'a str,
        resource: &'a str,
    ) -> Self
        returns
            (AuditEvent {
                schema_version: AUDIT_EVENT_SCHEMA_VERSION,
                event_id,
                sequence,
                timestamp_ns: 0,
                monotonic_counter: 0,
                kind,
                principal,
                component: "unknown",
                operation,
                resource,
                decision: AuditDecision::NotApplicable,
                status: AuditStatus::Started,
                data_class: DataClass::Operational,
                redaction: RedactionState::Operational,
                trace: TraceContext::empty(),
            }),
    {
        AuditEvent {
            schema_version: AUDIT_EVENT_SCHEMA_VERSION,
            event_id,
            sequence,
            timestamp_ns: 0,
            monotonic_counter: 0,
            kind,
            principal,
            component: "unknown",
            operation,
            resource,
            decision: AuditDecision::NotApplicable,
            status: AuditStatus::Started,
            data_class: DataClass::Operational,
            redaction: RedactionState::Operational,
            trace: TraceContext::empty(),
        }
    }

    /// Creates an event for a security denial: a denied decision and status
    /// on sensitive, redacted data.
    #[verifier::allow_in_spec]
    pub fn security_denial(
        event_id: u128,
        sequence: u64,
        principal: &'a str,
        operation: &'a str,
        resource: &'a str,
    ) -> Self
        returns
            (AuditEvent {
                decision: AuditDecision::Deny,
                status: AuditStatus::Denied,
                data_class: DataClass::Sensitive,
                redaction: RedactionState::SensitiveRedacted,
                ..AuditEvent::new(
                    event_id,
                    sequence,
                    AuditEventKind::SecurityDenial,
                    principal,
                    operation,
                    resource,
                )
            }),
    {
        AuditEvent {
            decision: AuditDecision::Deny,
            status: AuditStatus::Denied,
            data_class: DataClass::Sensitive,
            redaction: RedactionState::SensitiveRedacted,
            ..AuditEvent::new(
                event_id,
                sequence,
                AuditEventKind::SecurityDenial,
                principal,
                operation,
                resource,
            )
        }
    }

    /// Sets timestamp and monotonic counter.
    #[verifier::allow_in_spec]
    pub fn with_time(self, timestamp_ns: u64, monotonic_counter: u64) -> Self
        returns
            (AuditEvent { timestamp_ns, monotonic_counter, ..self }),
    {
        let mut r = self;
        r.timestamp_ns = timestamp_ns;
        r.monotonic_counter = monotonic_counter;
        r
    }

    /// Sets emitting component.
    #[verifier::allow_in_spec]
    pub fn with_component(self, component: &'a str) -> Self
        returns
            (AuditEvent { component, ..self }),
    {
        let mut r = self;
        r.component = component;
        r
    }

    /// Sets decision and status.
    #[verifier::allow_in_spec]
    pub fn with_outcome(self, decision: AuditDecision, status: AuditStatus) -> Self
        returns
            (AuditEvent { decision, status, ..self }),
    {
        let mut r = self;
        r.decision = decision;
        r.status = status;
        r
    }

    /// Sets redaction metadata.
    #[verifier::allow_in_spec]
    pub fn with_redaction(self, data_class: DataClass, redaction: RedactionState) -> Self
        returns
            (AuditEvent { data_class, redaction, ..self }),
    {
        let mut r = self;
        r.data_class = data_class;
        r.redaction = redaction;
        r
    }

    /// Sets trace context.
    #[verifier::allow_in_spec]
    pub fn with_trace(self, trace: TraceContext) -> Self
        returns
            (AuditEvent { trace, ..self }),
    {
        let mut r = self;
        r.trace = trace;
        r
    }

    /// Returns `true` when the event is audit critical.
    #[verifier::allow_in_spec]
    pub fn is_audit_critical(self) -> bool
        returns
            self.kind.is_audit_critical() || self.decision is Deny,
    {
        self.kind.is_audit_critical() || matches!(self.decision, AuditDecision::Deny)
    }

    /// Validates the event fields: schema version, a non-zero event id, a
    /// timestamp or monotonic counter, the four labels, a known kind, a
    /// denial recorded as denied or failed, the trace context and the
    /// redaction state, in that order.
    #[verifier::allow_in_spec]
    pub fn validate(self) -> ProtocolResult<()>
        returns
            first_failure(
                validate_schema_version(self.schema_version),
                if self.event_id == INVALID_PROTOCOL_ID {
                    Err(ProtocolError::InvalidAudit)
                } else if self.timestamp_ns == 0 && self.monotonic_counter == 0 {
                    Err(ProtocolError::MissingField)
                } else {
                    first_failure(
                        validate_label(self.principal, MAX_AUDIT_LABEL_LEN),
                        first_failure(
                            validate_label(self.component, MAX_AUDIT_LABEL_LEN),
                            first_failure(
                                validate_label(self.operation, MAX_AUDIT_LABEL_LEN),
                                first_failure(
                                    validate_label(self.resource, MAX_AUDIT_LABEL_LEN),
                                    if self.kind is Unknown {
                                        Err(ProtocolError::InvalidAudit)
                                    } else if self.decision is Deny && !(self.status is Denied
                                        || self.status is Failed) {
                                        Err(ProtocolError::InvalidAudit)
                                    } else {
                                        first_failure(
                                            self.trace.validate(),
                                            validate_redaction(self.data_class, self.redaction),
                                        )
                                    },
                                ),
                            ),
                        ),
                    )
                },
            ),
    {
        validate_schema_version(self.schema_version)?;
        if self.event_id == INVALID_PROTOCOL_ID {
            return Err(ProtocolError::InvalidAudit);
        }
        if self.timestamp_ns == 0 && self.monotonic_counter == 0 {
            return Err(ProtocolError::MissingField);
        }
        validate_label(self.principal, MAX_AUDIT_LABEL_LEN)?;
        validate_label(self.component, MAX_AUDIT_LABEL_LEN)?;
        validate_label(self.operation, MAX_AUDIT_LABEL_LEN)?;
        validate_label(self.resource, MAX_AUDIT_LABEL_LEN)?;
        if matches!(self.kind, AuditEventKind::Unknown) {
            return Err(ProtocolError::InvalidAudit);
        }
        if matches!(self.decision, AuditDecision::Deny) && !matches!(
            self.status,
            AuditStatus::Denied | AuditStatus::Failed
        ) {
            return Err(ProtocolError::InvalidAudit);
        }
        self.trace.validate()?;
        validate_redaction(self.data_class, self.redaction)
    }
}

/// Audit record header for append-only segment protocols.
#[derive(Clone, Copy, Debug, PartialEq, Eq)]
pub struct AuditRecordHeader<'a> {
    /// Schema version.
    pub schema_version: &'a str,
    /// Segment identifier.
    pub segment_id: u64,
    /// Sequence within the segment.
    pub sequence: u64,
    /// Previous record hash.
    pub previous_hash: AuditHash,
    /// Current event hash.
    pub event_hash: AuditHash,
}

impl<'a> AuditRecordHeader<'a> {
    /// Creates an audit record header.
    #[verifier::allow_in_spec]
    pub fn new(segment_id: u64, sequence: u64, previous_hash: AuditHash, event_hash: AuditHash) -> Self
        returns
            (AuditRecordHeader {
                schema_version: AUDIT_EVENT_SCHEMA_VERSION,
                segment_id,
                sequence,
                previous_hash,
                event_hash,
            }),
    {
        AuditRecordHeader {
            schema_version: AUDIT_EVENT_SCHEMA_VERSION,
            segment_id,
            sequence,
            previous_hash,
            event_hash,
        }
    }

    /// Validates header metadata: schema version, a non-zero segment, a
    /// non-zero event hash, and, for the first record of a segment, a zero
    /// previous hash.
    #[verifier::allow_in_spec]
    pub fn validate(self) -> ProtocolResult<()>
        returns
            first_failure(
                validate_schema_version(self.schema_version),
                if self.segment_id == 0 {
                    Err(ProtocolError::InvalidAudit)
                } else if is_zero_hash(self.event_hash) {
                    Err(ProtocolError::InvalidAudit)
                } else if self.sequence == 0 && !is_zero_hash(self.previous_hash) {
                    Err(ProtocolError::InvalidAudit)
                } else {
                    Ok(())
                },
            ),
    {
        validate_schema_version(self.schema_version)?;
        if self.segment_id == 0 {
            return Err(ProtocolError::InvalidAudit);
        }
        if hash_is_zero(&self.event_hash) {
            return Err(ProtocolError::InvalidAudit);
        }
        if self.sequence == 0 && !hash_is_zero(&self.previous_hash) {
            return Err(ProtocolError::InvalidAudit);
        }
        Ok(())
    }
}

/// A validated event that records a denial records the operation as
/// denied or failed, and is audit critical.
pub proof fn law_valid_denial_is_consistent<'a>(event: AuditEvent<'a>)
    requires
        event.validate() is Ok,
        event.decision is Deny,
    ensures
        event.status is Denied || event.status is Failed,
        event.is_audit_critical(),
{
}

/// A security-denial event validates once it carries a time, provided its
/// identifier is non-zero and its principal, operation and resource are
/// valid audit labels; it is always audit critical.
pub proof fn law_security_denial_validates<'a>(
    event_id: u128,
    sequence: u64,
    principal: &'a str,
    operation: &'a str,
    resource: &'a str,
    timestamp_ns: u64,
    monotonic_counter: u64,
)
    requires
        event_id != INVALID_PROTOCOL_ID,
        timestamp_ns != 0 || monotonic_counter != 0,
        validate_label(principal, MAX_AUDIT_LABEL_LEN) is Ok,
        validate_label(operation, MAX_AUDIT_LABEL_LEN) is Ok,
        validate_label(resource, MAX_AUDIT_LABEL_LEN) is Ok,
    ensures
        AuditEvent::security_denial(event_id, sequence, principal, operation, resource).with_time(
            timestamp_ns,
            monotonic_counter,
        ).validate() == Ok::<(), ProtocolError>(()),
        AuditEvent::security_denial(
            event_id,
            sequence,
            principal,
            operation,
            resource,
        ).is_audit_critical(),
{
    crate::law_crate_schema_versions_validate();
    reveal_strlit("unknown");
    crate::lemma_ascii_bytes("unknown");
}

/// A validated record header that opens its segment (sequence zero) has
/// the zero hash as its previous hash, and every validated header has a
/// non-zero event hash.
pub proof fn law_valid_header_hash_chain<'a>(header: AuditRecordHeader<'a>)
    requires
        header.validate() is Ok,
    ensures
        !is_zero_hash(header.event_hash),
        header.sequence == 0 ==> is_zero_hash(header.previous_hash),
{
}

/// An event validates exactly when its schema version is valid, its id is
/// non-zero, it carries a timestamp or a monotonic counter, its principal,
/// component, operation and resource are valid labels of at most
/// `MAX_AUDIT_LABEL_LEN` bytes, its kind is known, a denial is recorded as
/// denied or failed, and its trace and redaction state validate. An invalid
/// schema version gives its own error; past a valid one, a zero id is an
/// invalid audit and a missing time a missing field.
pub proof fn law_event_validation_fields<'a>(event: AuditEvent<'a>)
    ensures
        (event.validate() is Ok) == (validate_schema_version(event.schema_version) is Ok
            && event.event_id != 0 && (event.timestamp_ns != 0 || event.monotonic_counter != 0)
            && validate_label(event.principal, MAX_AUDIT_LABEL_LEN) is Ok && validate_label(
            event.component,
            MAX_AUDIT_LABEL_LEN,
        ) is Ok && validate_label(event.operation, MAX_AUDIT_LABEL_LEN) is Ok && validate_label(
            event.resource,
            MAX_AUDIT_LABEL_LEN,
        ) is Ok && !(event.kind is Unknown) && (event.decision is Deny ==> event.status is Denied
            || event.status is Failed) && event.trace.validate() is Ok && validate_redaction(
            event.data_class,
            event.redaction,
        ) is Ok),
        validate_schema_version(event.schema_version) is Ok && event.event_id == 0 ==> event.validate()
            == Err::<(), ProtocolError>(ProtocolError::InvalidAudit),
        validate_schema_version(event.schema_version) is Ok && event.event_id != 0
            && event.timestamp_ns == 0 && event.monotonic_counter == 0 ==> event.validate() == Err::<
            (),
            ProtocolError,
        >(ProtocolError::MissingField),
        validate_schema_version(event.schema_version) is Err ==> event.validate()
            == validate_schema_version(event.schema_version),
{
}

/// A record header validates exactly when its schema version is valid, its
/// segment id is non-zero, some byte of its event hash is non-zero, and a
/// header at sequence zero has a previous hash of zero bytes only. An
/// invalid schema version gives its own error; past a valid one every
/// failure is an invalid audit.
pub proof fn law_header_validation_by_bytes<'a>(header: AuditRecordHeader<'a>)
    ensures
        (header.validate() is Ok) == (validate_schema_version(header.schema_version) is Ok
            && header.segment_id != 0 && (exists|i: int|
            0 <= i < AUDIT_HASH_LEN && #[trigger] header.event_hash@[i] != 0u8) && (header.sequence
            == 0 ==> forall|i: int|
            0 <= i < AUDIT_HASH_LEN ==> #[trigger] header.previous_hash@[i] == 0u8)),
        validate_schema_version(header.schema_version) is Ok && header.validate() is Err
            ==> header.validate() == Err::<(), ProtocolError>(ProtocolError::InvalidAudit),
        validate_schema_version(header.schema_version) is Err ==> header.validate()
            == validate_schema_version(header.schema_version),
{
}

/// Module boundary descriptor.
#[derive(Clone, Debug, PartialEq, Eq)]
pub struct AuditDescriptor<'a> {
    /// Human-readable descriptor name.
    pub name: &'a str,
    /// Descriptor version.
    pub version: u32,
}

impl<'a> AuditDescriptor<'a> {
    /// Creates an audit descriptor.
    pub fn new(name: &'a str, version: u32) -> (r: Self)
        ensures
            r.name == name,
            r.version == version,
    {
        AuditDescriptor { name, version }
    }
}

} // verus!
