//! Shared metadata schema records.
//!
//! This crate owns the device descriptors, corpus metadata, and model
//! metadata that cross repository boundaries. Feature crates may refine
//! implementation details, but cross-repository contracts flow through these
//! stable protocol schemas.

use vstd::prelude::*;
use vstd::string::StringSliceAdditionalSpecFns;

use crate::text::str_eq;
use crate::{
    first_failure, redaction_compatible, validate_label, validate_redaction,
    validate_schema_version, DataClass, ProtocolError, ProtocolResult, RedactionState,
    TraceContext,
};

verus! {

/// Schema registry version.
pub const SCHEMA_REGISTRY_VERSION: &'static str = "alani.schema_registry.v1";

/// Device descriptor schema version.
pub const DEVICE_DESCRIPTOR_SCHEMA_VERSION: &'static str = "alani.device.v1";

/// Corpus metadata schema version.
pub const CORPUS_METADATA_SCHEMA_VERSION: &'static str = "alani.corpus.v1";

/// Model metadata schema version.
pub const MODEL_METADATA_SCHEMA_VERSION: &'static str = "alani.model.v1";

/// Maximum metadata identifier length.
pub const MAX_METADATA_ID_LEN: usize = 96;

/// Maximum metadata label length.
pub const MAX_METADATA_LABEL_LEN: usize = 128;

/// Maximum artifact/source URI length.
pub const MAX_METADATA_URI_LEN: usize = 256;

/// Maximum corpus labels.
pub const MAX_CORPUS_LABELS: usize = 8;

/// Schema version record.
#[derive(Clone, Copy, Debug, PartialEq, Eq)]
pub struct SchemaVersion<'a> {
    /// Schema kind.
    pub kind: SchemaKind,
    /// Version label.
    pub version: &'a str,
}

impl<'a> SchemaVersion<'a> {
    /// Creates a schema version record.
    #[verifier::allow_in_spec]
    pub fn new(kind: SchemaKind, version: &'a str) -> Self
        returns
            (SchemaVersion { kind, version }),
    {
        SchemaVersion { kind, version }
    }

    /// Validates schema version metadata.
    #[verifier::allow_in_spec]
    pub fn validate(self) -> ProtocolResult<()>
        returns
            validate_schema_version(self.version),
    {
        validate_schema_version(self.version)
    }
}

/// Schema family owned by this crate.
#[derive(Clone, Copy, Debug, PartialEq, Eq, Structural)]
pub enum SchemaKind {
    /// Message envelope schema.
    Message,
    /// IPC envelope schema.
    Ipc,
    /// Audit event schema.
    AuditEvent,
    /// Config payload schema.
    Config,
    /// Device descriptor schema.
    DeviceDescriptor,
    /// Corpus metadata schema.
    CorpusMetadata,
    /// Model metadata schema.
    ModelMetadata,
}

impl SchemaKind {
    /// Stable numeric wire code of the schema kind.
    #[verifier::allow_in_spec]
    pub fn code(self) -> u8
        returns
            match self {
                SchemaKind::Message => 1u8,
                SchemaKind::Ipc => 2u8,
                SchemaKind::AuditEvent => 3u8,
                SchemaKind::Config => 4u8,
                SchemaKind::DeviceDescriptor => 5u8,
                SchemaKind::CorpusMetadata => 6u8,
                SchemaKind::ModelMetadata => 7u8,
            },
    {
        match self {
            SchemaKind::Message => 1,
            SchemaKind::Ipc => 2,
            SchemaKind::AuditEvent => 3,
            SchemaKind::Config => 4,
            SchemaKind::DeviceDescriptor => 5,
            SchemaKind::CorpusMetadata => 6,
            SchemaKind::ModelMetadata => 7,
        }
    }

    /// Stable schema-kind label.
    #[verifier::allow_in_spec]
    pub fn label(self) -> &'static str
        returns
            match self {
                SchemaKind::Message => "message",
                SchemaKind::Ipc => "ipc",
                SchemaKind::AuditEvent => "audit_event",
                SchemaKind::Config => "config",
                SchemaKind::DeviceDescriptor => "device_descriptor",
                SchemaKind::CorpusMetadata => "corpus_metadata",
                SchemaKind::ModelMetadata => "model_metadata",
            },
    {
        match self {
            SchemaKind::Message => "message",
            SchemaKind::Ipc => "ipc",
            SchemaKind::AuditEvent => "audit_event",
            SchemaKind::Config => "config",
            SchemaKind::DeviceDescriptor => "device_descriptor",
            SchemaKind::CorpusMetadata => "corpus_metadata",
            SchemaKind::ModelMetadata => "model_metadata",
        }
    }
}

/// Device class shared in protocol descriptors.
#[derive(Clone, Copy, Debug, PartialEq, Eq, Structural)]
pub enum DeviceClass {
    /// Generic device.
    Generic,
    /// Block storage.
    Block,
    /// Network adapter.
    Network,
    /// Display or terminal I/O.
    Display,
    /// Entropy source.
    Entropy,
    /// Cognitive model/accelerator device.
    Cognitive,
    /// Audit storage device.
    AuditStorage,
}

impl DeviceClass {
    /// Stable numeric wire code of the device class.
    #[verifier::allow_in_spec]
    pub fn code(self) -> u8
        returns
            match self {
                DeviceClass::Generic => 1u8,
                DeviceClass::Block => 2u8,
                DeviceClass::Network => 3u8,
                DeviceClass::Display => 4u8,
                DeviceClass::Entropy => 5u8,
                DeviceClass::Cognitive => 6u8,
                DeviceClass::AuditStorage => 7u8,
            },
    {
        match self {
            DeviceClass::Generic => 1,
            DeviceClass::Block => 2,
            DeviceClass::Network => 3,
            DeviceClass::Display => 4,
            DeviceClass::Entropy => 5,
            DeviceClass::Cognitive => 6,
            DeviceClass::AuditStorage => 7,
        }
    }

    /// Stable class label.
    #[verifier::allow_in_spec]
    pub fn label(self) -> &'static str
        returns
            match self {
                DeviceClass::Generic => "generic",
                DeviceClass::Block => "block",
                DeviceClass::Network => "network",
                DeviceClass::Display => "display",
                DeviceClass::Entropy => "entropy",
                DeviceClass::Cognitive => "cognitive",
                DeviceClass::AuditStorage => "audit_storage",
            },
    {
        match self {
            DeviceClass::Generic => "generic",
            DeviceClass::Block => "block",
            DeviceClass::Network => "network",
            DeviceClass::Display => "display",
            DeviceClass::Entropy => "entropy",
            DeviceClass::Cognitive => "cognitive",
            DeviceClass::AuditStorage => "audit_storage",
        }
    }

    /// Returns `true` when access is security/audit critical by default.
    #[verifier::allow_in_spec]
    pub fn requires_audit(self) -> bool
        returns
            self is Cognitive || self is AuditStorage || self is Block || self is Network,
    {
        matches!(
            self,
            DeviceClass::Cognitive | DeviceClass::AuditStorage | DeviceClass::Block
                | DeviceClass::Network
        )
    }
}

/// Device lifecycle state.
#[derive(Clone, Copy, Debug, PartialEq, Eq, Structural)]
pub enum DeviceState {
    /// Device was discovered.
    Discovered,
    /// Device was registered.
    Registered,
    /// Device was configured.
    Configured,
    /// Device is open.
    Open,
    /// Device is suspended.
    Suspended,
    /// Device was removed.
    Removed,
    /// Device faulted.
    Faulted,
}

impl DeviceState {
    /// Stable numeric wire code of the device state.
    #[verifier::allow_in_spec]
    pub fn code(self) -> u8
        returns
            match self {
                DeviceState::Discovered => 1u8,
                DeviceState::Registered => 2u8,
                DeviceState::Configured => 3u8,
                DeviceState::Open => 4u8,
                DeviceState::Suspended => 5u8,
                DeviceState::Removed => 6u8,
                DeviceState::Faulted => 7u8,
            },
    {
        match self {
            DeviceState::Discovered => 1,
            DeviceState::Registered => 2,
            DeviceState::Configured => 3,
            DeviceState::Open => 4,
            DeviceState::Suspended => 5,
            DeviceState::Removed => 6,
            DeviceState::Faulted => 7,
        }
    }

    /// Stable state label.
    #[verifier::allow_in_spec]
    pub fn label(self) -> &'static str
        returns
            match self {
                DeviceState::Discovered => "discovered",
                DeviceState::Registered => "registered",
                DeviceState::Configured => "configured",
                DeviceState::Open => "open",
                DeviceState::Suspended => "suspended",
                DeviceState::Removed => "removed",
                DeviceState::Faulted => "faulted",
            },
    {
        match self {
            DeviceState::Discovered => "discovered",
            DeviceState::Registered => "registered",
            DeviceState::Configured => "configured",
            DeviceState::Open => "open",
            DeviceState::Suspended => "suspended",
            DeviceState::Removed => "removed",
            DeviceState::Faulted => "faulted",
        }
    }
}

/// Protocol-owned device descriptor.
#[derive(Clone, Copy, Debug, PartialEq, Eq)]
pub struct DeviceDescriptor<'a> {
    /// Schema version.
    pub schema_version: &'a str,
    /// Stable device identifier.
    pub device_id: u64,
    /// Device name.
    pub name: &'a str,
    /// Device class.
    pub class: DeviceClass,
    /// Vendor/provider label.
    pub vendor: &'a str,
    /// Device state.
    pub state: DeviceState,
    /// Device capability bits as declared by the device crate.
    pub capability_bits: u64,
    /// Maximum payload bytes for direct calls.
    pub max_payload_len: u64,
    /// Data class.
    pub data_class: DataClass,
    /// Redaction state.
    pub redaction: RedactionState,
    /// Trace context for descriptor export.
    pub trace: TraceContext,
}

impl<'a> DeviceDescriptor<'a> {
    /// Creates a registered device descriptor from vendor `unknown`.
    #[verifier::allow_in_spec]
    pub fn new(device_id: u64, name: &'a str, class: DeviceClass) -> Self
        returns
            (DeviceDescriptor {
                schema_version: DEVICE_DESCRIPTOR_SCHEMA_VERSION,
                device_id,
                name,
                class,
                vendor: "unknown",
                state: DeviceState::Registered,
                capability_bits: 0,
                max_payload_len: 0,
                data_class: DataClass::Operational,
                redaction: RedactionState::Operational,
                trace: TraceContext::empty(),
            }),
    {
        DeviceDescriptor {
            schema_version: DEVICE_DESCRIPTOR_SCHEMA_VERSION,
            device_id,
            name,
            class,
            vendor: "unknown",
            state: DeviceState::Registered,
            capability_bits: 0,
            max_payload_len: 0,
            data_class: DataClass::Operational,
            redaction: RedactionState::Operational,
            trace: TraceContext::empty(),
        }
    }

    /// Sets vendor.
    #[verifier::allow_in_spec]
    pub fn with_vendor(self, vendor: &'a str) -> Self
        returns
            (DeviceDescriptor { vendor, ..self }),
    {
        let mut r = self;
        r.vendor = vendor;
        r
    }

    /// Sets capability bits and max payload length.
    #[verifier::allow_in_spec]
    pub fn with_capabilities(self, capability_bits: u64, max_payload_len: u64) -> Self
        returns
            (DeviceDescriptor { capability_bits, max_payload_len, ..self }),
    {
        let mut r = self;
        r.capability_bits = capability_bits;
        r.max_payload_len = max_payload_len;
        r
    }

    /// Sets trace context.
    #[verifier::allow_in_spec]
    pub fn with_trace(self, trace: TraceContext) -> Self
        returns
            (DeviceDescriptor { trace, ..self }),
    {
        let mut r = self;
        r.trace = trace;
        r
    }

    /// Returns `true` when descriptor access should be audited.
    #[verifier::allow_in_spec]
    pub fn requires_audit(self) -> bool
        returns
            self.class.requires_audit() || self.state is Faulted,
    {
        self.class.requires_audit() || matches!(self.state, DeviceState::Faulted)
    }

    /// Validates descriptor metadata: schema version, a non-zero id, name and
    /// vendor labels, a device that is neither removed nor faulted, the trace
    /// context and the redaction state.
    #[verifier::allow_in_spec]
    pub fn validate(self) -> ProtocolResult<()>
        returns
            first_failure(
                validate_schema_version(self.schema_version),
                if self.device_id == 0 {
                    Err(ProtocolError::InvalidMetadata)
                } else {
                    first_failure(
                        validate_label(self.name, MAX_METADATA_LABEL_LEN),
                        first_failure(
                            validate_label(self.vendor, MAX_METADATA_LABEL_LEN),
                            if self.state is Removed || self.state is Faulted {
                                Err(ProtocolError::InvalidMetadata)
                            } else {
                                first_failure(
                                    self.trace.validate(),
                                    validate_redaction(self.data_class, self.redaction),
                                )
                            },
                        ),
                    )
                },
            ),
    {
        validate_schema_version(self.schema_version)?;
        if self.device_id == 0 {
            return Err(ProtocolError::InvalidMetadata);
        }
        validate_label(self.name, MAX_METADATA_LABEL_LEN)?;
        validate_label(self.vendor, MAX_METADATA_LABEL_LEN)?;
        if matches!(self.state, DeviceState::Removed | DeviceState::Faulted) {
            return Err(ProtocolError::InvalidMetadata);
        }
        self.trace.validate()?;
        validate_redaction(self.data_class, self.redaction)
    }
}

/// Corpus split.
#[derive(Clone, Copy, Debug, PartialEq, Eq, Structural)]
pub enum CorpusSplit {
    /// Training split.
    Train,
    /// Validation split.
    Validation,
    /// Test split.
    Test,
    /// Fixture or smoke-test split.
    Fixture,
}

impl CorpusSplit {
    /// Stable numeric wire code of the corpus split.
    #[verifier::allow_in_spec]
    pub fn code(self) -> u8
        returns
            match self {
                CorpusSplit::Train => 1u8,
                CorpusSplit::Validation => 2u8,
                CorpusSplit::Test => 3u8,
                CorpusSplit::Fixture => 4u8,
            },
    {
        match self {
            CorpusSplit::Train => 1,
            CorpusSplit::Validation => 2,
            CorpusSplit::Test => 3,
            CorpusSplit::Fixture => 4,
        }
    }

    /// Stable split label.
    #[verifier::allow_in_spec]
    pub fn label(self) -> &'static str
        returns
            match self {
                CorpusSplit::Train => "train",
                CorpusSplit::Validation => "validation",
                CorpusSplit::Test => "test",
                CorpusSplit::Fixture => "fixture",
            },
    {
        match self {
            CorpusSplit::Train => "train",
            CorpusSplit::Validation => "validation",
            CorpusSplit::Test => "test",
            CorpusSplit::Fixture => "fixture",
        }
    }
}

/// License review state.
#[derive(Clone, Copy, Debug, PartialEq, Eq, Structural)]
pub enum LicenseState {
    /// Approved for release-facing use.
    Approved,
    /// Internal synthetic draft accepted for MVK fixtures.
    InternalDraft,
    /// Review is required before release.
    NeedsReview,
    /// Restricted and requires policy gating.
    Restricted,
    /// Prohibited and must fail closed.
    Prohibited,
}

impl LicenseState {
    /// Stable numeric wire code of the license state.
    #[verifier::allow_in_spec]
    pub fn code(self) -> u8
        returns
            match self {
                LicenseState::Approved => 1u8,
                LicenseState::InternalDraft => 2u8,
                LicenseState::NeedsReview => 3u8,
                LicenseState::Restricted => 4u8,
                LicenseState::Prohibited => 5u8,
            },
    {
        match self {
            LicenseState::Approved => 1,
            LicenseState::InternalDraft => 2,
            LicenseState::NeedsReview => 3,
            LicenseState::Restricted => 4,
            LicenseState::Prohibited => 5,
        }
    }

    /// Stable label.
    #[verifier::allow_in_spec]
    pub fn label(self) -> &'static str
        returns
            match self {
                LicenseState::Approved => "approved",
                LicenseState::InternalDraft => "internal_draft",
                LicenseState::NeedsReview => "needs_review",
                LicenseState::Restricted => "restricted",
                LicenseState::Prohibited => "prohibited",
            },
    {
        match self {
            LicenseState::Approved => "approved",
            LicenseState::InternalDraft => "internal_draft",
            LicenseState::NeedsReview => "needs_review",
            LicenseState::Restricted => "restricted",
            LicenseState::Prohibited => "prohibited",
        }
    }

    /// Returns `true` when data may be used in MVK fixtures.
    #[verifier::allow_in_spec]
    pub fn allows_mvk(self) -> bool
        returns
            self is Approved || self is InternalDraft,
    {
        matches!(self, LicenseState::Approved | LicenseState::InternalDraft)
    }
}

/// The outcome of validating stored corpus labels front to back: the first
/// empty slot is an internal failure, the first invalid label gives its own
/// error.
pub open spec fn labels_outcome<'a>(slots: Seq<Option<&'a str>>) -> ProtocolResult<()>
    decreases slots.len(),
{
    if slots.len() == 0 {
        Ok(())
    } else {
        match slots[0] {
            None => Err(ProtocolError::Internal),
            Some(l) => first_failure(
                validate_label(l, MAX_METADATA_LABEL_LEN),
                labels_outcome(slots.drop_first()),
            ),
        }
    }
}

/// Abstract state of corpus metadata: its public fields, its
/// `MAX_CORPUS_LABELS` label slots, and how many of them are in use.
pub ghost struct CorpusMetadataView<'a> {
    pub schema_version: &'a str,
    pub record_id: &'a str,
    pub split: CorpusSplit,
    pub task: &'a str,
    pub source: &'a str,
    pub license: LicenseState,
    pub data_class: DataClass,
    pub redaction: RedactionState,
    pub slots: Seq<Option<&'a str>>,
    pub count: nat,
}

impl<'a> CorpusMetadataView<'a> {
    /// The labels in use, oldest first.
    pub open spec fn labels(self) -> Seq<Option<&'a str>> {
        self.slots.subrange(0, self.count as int)
    }

    /// The label count never exceeds the slot count.
    pub open spec fn bounded(self) -> bool {
        self.slots.len() == MAX_CORPUS_LABELS && self.count <= MAX_CORPUS_LABELS
    }

    /// The state that every record built by `new` and `add_label` is in:
    /// bounded, with every label in use present and valid.
    pub open spec fn well_formed(self) -> bool {
        &&& self.bounded()
        &&& forall|i: int|
            0 <= i < self.count ==> (#[trigger] self.slots[i] matches Some(l) && validate_label(
                l,
                MAX_METADATA_LABEL_LEN,
            ) is Ok)
    }

    /// The label at `index`, if that slot is in use.
    pub open spec fn label_at(self, index: int) -> Option<&'a str> {
        if 0 <= index < self.count {
            self.slots[index]
        } else {
            None
        }
    }

    /// What `add_label` answers: there must be room, then the label must be
    /// valid.
    pub open spec fn add_outcome(self, label: &'a str) -> ProtocolResult<()> {
        if self.count >= MAX_CORPUS_LABELS {
            Err(ProtocolError::CapacityExceeded)
        } else {
            validate_label(label, MAX_METADATA_LABEL_LEN)
        }
    }

    /// The record with `label` stored in the next free slot.
    pub open spec fn with_label(self, label: &'a str) -> CorpusMetadataView<'a> {
        CorpusMetadataView {
            slots: self.slots.update(self.count as int, Some(label)),
            count: self.count + 1,
            ..self
        }
    }

    /// What `validate` answers: schema version, record id, task, source, a
    /// license that allows MVK use, each label in order, then the redaction
    /// state.
    pub open spec fn validation(self) -> ProtocolResult<()> {
        first_failure(
            validate_schema_version(self.schema_version),
            first_failure(
                validate_label(self.record_id, MAX_METADATA_ID_LEN),
                first_failure(
                    validate_label(self.task, MAX_METADATA_LABEL_LEN),
                    first_failure(
                        validate_label(self.source, MAX_METADATA_URI_LEN),
                        if !self.license.allows_mvk() {
                            Err(ProtocolError::InvalidMetadata)
                        } else {
                            first_failure(
                                labels_outcome(self.labels()),
                                validate_redaction(self.data_class, self.redaction),
                            )
                        },
                    ),
                ),
            ),
        )
    }
}

/// Corpus metadata shared across corpus/model/release boundaries.
#[derive(Clone, Copy, Debug, PartialEq, Eq)]
pub struct CorpusMetadata<'a> {
    /// Schema version.
    pub schema_version: &'a str,
    /// Stable record or corpus identifier.
    pub record_id: &'a str,
    /// Corpus split.
    pub split: CorpusSplit,
    /// Task label.
    pub task: &'a str,
    /// Source/provenance label.
    pub source: &'a str,
    /// License review state.
    pub license: LicenseState,
    /// Data class.
    pub data_class: DataClass,
    /// Redaction state.
    pub redaction: RedactionState,
    labels: [Option<&'a str>; MAX_CORPUS_LABELS],
    label_count: usize,
}

impl<'a> View for CorpusMetadata<'a> {
    type V = CorpusMetadataView<'a>;

    closed spec fn view(&self) -> CorpusMetadataView<'a> {
        CorpusMetadataView {
            schema_version: self.schema_version,
            record_id: self.record_id,
            split: self.split,
            task: self.task,
            source: self.source,
            license: self.license,
            data_class: self.data_class,
            redaction: self.redaction,
            slots: self.labels@,
            count: self.label_count as nat,
        }
    }
}

impl<'a> CorpusMetadata<'a> {
    /// The record's invariant (see `CorpusMetadataView::well_formed`).
    pub open spec fn wf(self) -> bool {
        self@.well_formed()
    }

    /// Creates corpus metadata for an internal draft on operational data,
    /// without labels.
    pub fn new(record_id: &'a str, split: CorpusSplit, task: &'a str, source: &'a str) -> (r: Self)
        ensures
            r@.schema_version == CORPUS_METADATA_SCHEMA_VERSION,
            r@.record_id == record_id,
            r@.split == split,
            r@.task == task,
            r@.source == source,
            r@.license == LicenseState::InternalDraft,
            r@.data_class == DataClass::Operational,
            r@.redaction == RedactionState::Operational,
            r@.count == 0,
            r@.slots == Seq::new(MAX_CORPUS_LABELS as nat, |i: int| None::<&'a str>),
            r.wf(),
    {
        let r = CorpusMetadata {
            schema_version: CORPUS_METADATA_SCHEMA_VERSION,
            record_id,
            split,
            task,
            source,
            license: LicenseState::InternalDraft,
            data_class: DataClass::Operational,
            redaction: RedactionState::Operational,
            labels: [None; MAX_CORPUS_LABELS],
            label_count: 0,
        };
        assert(r@.slots =~= Seq::new(MAX_CORPUS_LABELS as nat, |i: int| None::<&'a str>));
        r
    }

    /// Returns the schema version.
    pub fn schema_version(self) -> (r: &'a str)
        ensures
            r == self@.schema_version,
    {
        self.schema_version
    }

    /// Returns the record or corpus identifier.
    pub fn record_id(self) -> (r: &'a str)
        ensures
            r == self@.record_id,
    {
        self.record_id
    }

    /// Returns the corpus split.
    pub fn split(self) -> (r: CorpusSplit)
        ensures
            r == self@.split,
    {
        self.split
    }

    /// Returns the task label.
    pub fn task(self) -> (r: &'a str)
        ensures
            r == self@.task,
    {
        self.task
    }

    /// Returns the source/provenance label.
    pub fn source(self) -> (r: &'a str)
        ensures
            r == self@.source,
    {
        self.source
    }

    /// Returns the license review state.
    pub fn license(self) -> (r: LicenseState)
        ensures
            r == self@.license,
    {
        self.license
    }

    /// Returns the data class.
    pub fn data_class(self) -> (r: DataClass)
        ensures
            r == self@.data_class,
    {
        self.data_class
    }

    /// Returns the redaction state.
    pub fn redaction(self) -> (r: RedactionState)
        ensures
            r == self@.redaction,
    {
        self.redaction
    }

    /// Sets license state.
    pub fn with_license(self, license: LicenseState) -> (r: Self)
        ensures
            r@ == (CorpusMetadataView { license, ..self@ }),
    {
        let mut r = self;
        r.license = license;
        r
    }

    /// Sets redaction metadata.
    pub fn with_redaction(self, data_class: DataClass, redaction: RedactionState) -> (r: Self)
        ensures
            r@ == (CorpusMetadataView { data_class, redaction, ..self@ }),
    {
        let mut r = self;
        r.data_class = data_class;
        r.redaction = redaction;
        r
    }

    /// Adds a label. On success the label occupies the next slot; on failure
    /// the record is unchanged.
    pub fn add_label(&mut self, label: &'a str) -> (r: ProtocolResult<()>)
        ensures
            r == old(self)@.add_outcome(label),
            r is Ok ==> final(self)@ == old(self)@.with_label(label),
            r is Err ==> final(self)@ == old(self)@,
            old(self).wf() ==> final(self).wf(),
    {
        if self.label_count >= MAX_CORPUS_LABELS {
            return Err(ProtocolError::CapacityExceeded);
        }
        validate_label(label, MAX_METADATA_LABEL_LEN)?;
        let ghost before = self@;
        self.labels[self.label_count] = Some(label);
        self.label_count += 1;
        proof {
            assert(final(self)@.slots =~= before.with_label(label).slots);
        }
        Ok(())
    }

    /// Returns label count.
    pub fn label_count(self) -> (r: usize)
        ensures
            r == self@.count,
    {
        self.label_count
    }

    /// Returns a label by index.
    pub fn label(self, index: usize) -> (r: Option<&'a str>)
        requires
            self@.bounded(),
        ensures
            r == self@.label_at(index as int),
    {
        if index >= self.label_count {
            None
        } else {
            self.labels[index]
        }
    }

    /// Validates corpus metadata.
    pub fn validate(self) -> (r: ProtocolResult<()>)
        requires
            self@.bounded(),
        ensures
            r == self@.validation(),
    {
        validate_schema_version(self.schema_version)?;
        validate_label(self.record_id, MAX_METADATA_ID_LEN)?;
        validate_label(self.task, MAX_METADATA_LABEL_LEN)?;
        validate_label(self.source, MAX_METADATA_URI_LEN)?;
        if !self.license.allows_mvk() {
            return Err(ProtocolError::InvalidMetadata);
        }
        let ghost s = self@.labels();
        let mut index: usize = 0;
        assert(s.skip(0) =~= s);
        while index < self.label_count
            invariant
                s == self@.labels(),
                self@.bounded(),
                validate_schema_version(self.schema_version) is Ok,
                validate_label(self.record_id, MAX_METADATA_ID_LEN) is Ok,
                validate_label(self.task, MAX_METADATA_LABEL_LEN) is Ok,
                validate_label(self.source, MAX_METADATA_URI_LEN) is Ok,
                self.license.allows_mvk(),
                index <= self.label_count,
                s.len() == self.label_count,
                labels_outcome(s) == labels_outcome(s.skip(index as int)),
            decreases self.label_count - index,
        {
            assert(s[index as int] == self.labels@[index as int]);
            assert(s.skip(index as int)[0] == s[index as int]);
            assert(s.skip(index as int).drop_first() =~= s.skip(index + 1));
            match self.labels[index] {
                None => {
                    return Err(ProtocolError::Internal);
                },
                Some(label) => {
                    validate_label(label, MAX_METADATA_LABEL_LEN)?;
                },
            }
            index += 1;
        }
        assert(s.skip(index as int).len() == 0);
        validate_redaction(self.data_class, self.redaction)
    }
}

/// Model artifact format.
#[derive(Clone, Copy, Debug, PartialEq, Eq, Structural)]
pub enum ModelFormat {
    /// Deterministic host-mode fixture.
    Mock,
    /// SafeTensors artifact.
    SafeTensors,
    /// GGUF artifact.
    Gguf,
    /// ONNX artifact.
    Onnx,
    /// TorchScript artifact.
    TorchScript,
    /// Custom model pack.
    Custom,
}

impl ModelFormat {
    /// Stable numeric wire code of the model format.
    #[verifier::allow_in_spec]
    pub fn code(self) -> u8
        returns
            match self {
                ModelFormat::Mock => 1u8,
                ModelFormat::SafeTensors => 2u8,
                ModelFormat::Gguf => 3u8,
                ModelFormat::Onnx => 4u8,
                ModelFormat::TorchScript => 5u8,
                ModelFormat::Custom => 6u8,
            },
    {
        match self {
            ModelFormat::Mock => 1,
            ModelFormat::SafeTensors => 2,
            ModelFormat::Gguf => 3,
            ModelFormat::Onnx => 4,
            ModelFormat::TorchScript => 5,
            ModelFormat::Custom => 6,
        }
    }

    /// Stable format label.
    #[verifier::allow_in_spec]
    pub fn label(self) -> &'static str
        returns
            match self {
                ModelFormat::Mock => "mock",
                ModelFormat::SafeTensors => "safetensors",
                ModelFormat::Gguf => "gguf",
                ModelFormat::Onnx => "onnx",
                ModelFormat::TorchScript => "torchscript",
                ModelFormat::Custom => "custom",
            },
    {
        match self {
            ModelFormat::Mock => "mock",
            ModelFormat::SafeTensors => "safetensors",
            ModelFormat::Gguf => "gguf",
            ModelFormat::Onnx => "onnx",
            ModelFormat::TorchScript => "torchscript",
            ModelFormat::Custom => "custom",
        }
    }
}

/// Model metadata shared across cognition, model-pack, and release boundaries.
#[derive(Clone, Copy, Debug, PartialEq, Eq)]
pub struct ModelMetadata<'a> {
    /// Schema version.
    pub schema_version: &'a str,
    /// Stable model identifier.
    pub model_id: &'a str,
    /// Human-readable model family.
    pub family: &'a str,
    /// Model version or revision.
    pub revision: &'a str,
    /// Artifact format.
    pub format: ModelFormat,
    /// Artifact URI or content reference.
    pub artifact_ref: &'a str,
    /// Capability bits declared by model crate.
    pub capability_bits: u64,
    /// License state.
    pub license: LicenseState,
    /// Data class.
    pub data_class: DataClass,
    /// Redaction state.
    pub redaction: RedactionState,
    /// Trace context for model metadata export.
    pub trace: TraceContext,
}

impl<'a> ModelMetadata<'a> {
    /// Creates model metadata for an internal draft on operational data.
    #[verifier::allow_in_spec]
    pub fn new(
        model_id: &'a str,
        family: &'a str,
        revision: &'a str,
        format: ModelFormat,
        artifact_ref: &'a str,
    ) -> Self
        returns
            (ModelMetadata {
                schema_version: MODEL_METADATA_SCHEMA_VERSION,
                model_id,
                family,
                revision,
                format,
                artifact_ref,
                capability_bits: 0,
                license: LicenseState::InternalDraft,
                data_class: DataClass::Operational,
                redaction: RedactionState::Operational,
                trace: TraceContext::empty(),
            }),
    {
        ModelMetadata {
            schema_version: MODEL_METADATA_SCHEMA_VERSION,
            model_id,
            family,
            revision,
            format,
            artifact_ref,
            capability_bits: 0,
            license: LicenseState::InternalDraft,
            data_class: DataClass::Operational,
            redaction: RedactionState::Operational,
            trace: TraceContext::empty(),
        }
    }

    /// Sets capability bits.
    #[verifier::allow_in_spec]
    pub fn with_capabilities(self, capability_bits: u64) -> Self
        returns
            (ModelMetadata { capability_bits, ..self }),
    {
        let mut r = self;
        r.capability_bits = capability_bits;
        r
    }

    /// Sets license state.
    #[verifier::allow_in_spec]
    pub fn with_license(self, license: LicenseState) -> Self
        returns
            (ModelMetadata { license, ..self }),
    {
        let mut r = self;
        r.license = license;
        r
    }

    /// Sets redaction metadata.
    #[verifier::allow_in_spec]
    pub fn with_redaction(self, data_class: DataClass, redaction: RedactionState) -> Self
        returns
            (ModelMetadata { data_class, redaction, ..self }),
    {
        let mut r = self;
        r.data_class = data_class;
        r.redaction = redaction;
        r
    }

    /// Sets trace context.
    #[verifier::allow_in_spec]
    pub fn with_trace(self, trace: TraceContext) -> Self
        returns
            (ModelMetadata { trace, ..self }),
    {
        let mut r = self;
        r.trace = trace;
        r
    }

    /// Validates model metadata: schema version, model id, family, revision,
    /// artifact reference, a license that allows MVK use, the trace context
    /// and the redaction state.
    #[verifier::allow_in_spec]
    pub fn validate(self) -> ProtocolResult<()>
        returns
            first_failure(
                validate_schema_version(self.schema_version),
                first_failure(
                    validate_label(self.model_id, MAX_METADATA_ID_LEN),
                    first_failure(
                        validate_label(self.family, MAX_METADATA_LABEL_LEN),
                        first_failure(
                            validate_label(self.revision, MAX_METADATA_LABEL_LEN),
                            first_failure(
                                validate_label(self.artifact_ref, MAX_METADATA_URI_LEN),
                                if !self.license.allows_mvk() {
                                    Err(ProtocolError::InvalidMetadata)
                                } else {
                                    first_failure(
                                        self.trace.validate(),
                                        validate_redaction(self.data_class, self.redaction),
                                    )
                                },
                            ),
                        ),
                    ),
                ),
            ),
    {
        validate_schema_version(self.schema_version)?;
        validate_label(self.model_id, MAX_METADATA_ID_LEN)?;
        validate_label(self.family, MAX_METADATA_LABEL_LEN)?;
        validate_label(self.revision, MAX_METADATA_LABEL_LEN)?;
        validate_label(self.artifact_ref, MAX_METADATA_URI_LEN)?;
        if !self.license.allows_mvk() {
            return Err(ProtocolError::InvalidMetadata);
        }
        self.trace.validate()?;
        validate_redaction(self.data_class, self.redaction)
    }
}

/// Shared metadata record enum.
#[derive(Clone, Copy, Debug, PartialEq, Eq)]
pub enum MetadataRecord<'a> {
    /// Device descriptor metadata.
    Device(DeviceDescriptor<'a>),
    /// Corpus metadata.
    Corpus(CorpusMetadata<'a>),
    /// Model metadata.
    Model(ModelMetadata<'a>),
}

impl<'a> MetadataRecord<'a> {
    /// A corpus record keeps its label count within its slots.
    pub open spec fn bounded(self) -> bool {
        match self {
            MetadataRecord::Corpus(corpus) => corpus@.bounded(),
            _ => true,
        }
    }

    /// What `validate` answers: the validation of the wrapped record.
    pub open spec fn validation(self) -> ProtocolResult<()> {
        match self {
            MetadataRecord::Device(device) => device.validate(),
            MetadataRecord::Corpus(corpus) => corpus@.validation(),
            MetadataRecord::Model(model) => model.validate(),
        }
    }

    /// The stable identifier of the wrapped record: the device name, the
    /// corpus record id, or the model id.
    pub open spec fn identifier(self) -> &'a str {
        match self {
            MetadataRecord::Device(device) => device.name,
            MetadataRecord::Corpus(corpus) => corpus@.record_id,
            MetadataRecord::Model(model) => model.model_id,
        }
    }

    /// Returns schema kind.
    #[verifier::allow_in_spec]
    pub fn kind(self) -> SchemaKind
        returns
            match self {
                MetadataRecord::Device(_) => SchemaKind::DeviceDescriptor,
                MetadataRecord::Corpus(_) => SchemaKind::CorpusMetadata,
                MetadataRecord::Model(_) => SchemaKind::ModelMetadata,
            },
    {
        match self {
            MetadataRecord::Device(_) => SchemaKind::DeviceDescriptor,
            MetadataRecord::Corpus(_) => SchemaKind::CorpusMetadata,
            MetadataRecord::Model(_) => SchemaKind::ModelMetadata,
        }
    }

    /// Returns stable identifier.
    pub fn id(self) -> (r: &'a str)
        ensures
            r == self.identifier(),
    {
        match self {
            MetadataRecord::Device(device) => device.name,
            MetadataRecord::Corpus(corpus) => corpus.record_id,
            MetadataRecord::Model(model) => model.model_id,
        }
    }

    /// Validates record metadata.
    pub fn validate(self) -> (r: ProtocolResult<()>)
        requires
            self.bounded(),
        ensures
            r == self.validation(),
    {
        match self {
            MetadataRecord::Device(device) => device.validate(),
            MetadataRecord::Corpus(corpus) => corpus.validate(),
            MetadataRecord::Model(model) => model.validate(),
        }
    }
}

/// The record `r` is registered under `kind` and `id`.
pub open spec fn record_matches<'a>(r: MetadataRecord<'a>, kind: SchemaKind, id: Seq<char>) -> bool {
    r.kind() == kind && r.identifier()@ == id
}

/// The first stored record registered under `kind` and `id`, if any.
pub open spec fn find_record<'a>(
    slots: Seq<Option<MetadataRecord<'a>>>,
    kind: SchemaKind,
    id: Seq<char>,
) -> Option<MetadataRecord<'a>>
    decreases slots.len(),
{
    if slots.len() == 0 {
        None
    } else if slots[0] matches Some(r) && record_matches(r, kind, id) {
        slots[0]
    } else {
        find_record(slots.drop_first(), kind, id)
    }
}

/// When no stored record is registered under `kind` and `id`, no slot holds
/// such a record; a record that is found is registered under them and
/// stored in some slot.
pub proof fn lemma_find_record<'a>(
    slots: Seq<Option<MetadataRecord<'a>>>,
    kind: SchemaKind,
    id: Seq<char>,
)
    ensures
        find_record(slots, kind, id) is None ==> forall|i: int|
            0 <= i < slots.len() ==> !(#[trigger] slots[i] matches Some(r) && record_matches(
                r,
                kind,
                id,
            )),
        find_record(slots, kind, id) matches Some(r) ==> record_matches(r, kind, id) && exists|
            i: int,
        | 0 <= i < slots.len() && #[trigger] slots[i] == Some(r),
    decreases slots.len(),
{
    if slots.len() > 0 {
        lemma_find_record(slots.drop_first(), kind, id);
        if find_record(slots, kind, id) is None {
            assert forall|i: int| 0 <= i < slots.len() implies !(#[trigger] slots[i] matches Some(
                r,
            ) && record_matches(r, kind, id)) by {
                if i > 0 {
                    assert(slots[i] == slots.drop_first()[i - 1]);
                }
            }
        }
        if let Some(r) = find_record(slots, kind, id) {
            if !(slots[0] matches Some(r0) && record_matches(r0, kind, id)) {
                let i = choose|i: int|
                    0 <= i < slots.drop_first().len() && #[trigger] slots.drop_first()[i] == Some(
                        r,
                    );
                assert(slots[i + 1] == Some(r));
            }
        }
    }
}

/// Abstract state of a schema registry: its `capacity` record slots and how
/// many of them are in use.
pub ghost struct SchemaRegistryView<'a> {
    pub capacity: nat,
    pub slots: Seq<Option<MetadataRecord<'a>>>,
    pub count: nat,
}

impl<'a> SchemaRegistryView<'a> {
    /// The records in use, oldest first.
    pub open spec fn records(self) -> Seq<Option<MetadataRecord<'a>>> {
        self.slots.subrange(0, self.count as int)
    }

    /// No two stored records share a kind and id.
    pub open spec fn unique_ids(self) -> bool {
        forall|i: int, j: int|
            #![trigger self.slots[i], self.slots[j]]
            0 <= i < self.count && 0 <= j < self.count && i != j && self.slots[i] is Some
                && self.slots[j] is Some ==> !record_matches(
                self.slots[i].unwrap(),
                self.slots[j].unwrap().kind(),
                self.slots[j].unwrap().identifier()@,
            )
    }

    /// The slots in use lie within the registry's capacity.
    pub open spec fn bounded(self) -> bool {
        self.slots.len() == self.capacity && self.count <= self.capacity
    }

    /// The state that every registry built by `new` and `add` is in: no more
    /// records than the capacity, every slot in use holds a bounded record
    /// that validates, and no kind/id pair repeats.
    pub open spec fn well_formed(self) -> bool {
        &&& self.bounded()
        &&& forall|i: int|
            0 <= i < self.count ==> (#[trigger] self.slots[i] matches Some(r) && r.bounded()
                && r.validation() is Ok)
        &&& self.unique_ids()
    }

    /// The first stored record registered under `kind` and `id`.
    pub open spec fn lookup(self, kind: SchemaKind, id: Seq<char>) -> Option<MetadataRecord<'a>> {
        find_record(self.records(), kind, id)
    }

    /// What `add` answers: the registry must have room, the record must
    /// validate, and its kind/id pair must be new.
    pub open spec fn add_outcome(self, record: MetadataRecord<'a>) -> ProtocolResult<()> {
        if self.count >= self.capacity {
            Err(ProtocolError::CapacityExceeded)
        } else {
            first_failure(
                record.validation(),
                if self.lookup(record.kind(), record.identifier()@) is Some {
                    Err(ProtocolError::InvalidMetadata)
                } else {
                    Ok(())
                },
            )
        }
    }

    /// The registry with `record` stored in the next free slot.
    pub open spec fn with_record(self, record: MetadataRecord<'a>) -> SchemaRegistryView<'a> {
        SchemaRegistryView {
            slots: self.slots.update(self.count as int, Some(record)),
            count: self.count + 1,
            ..self
        }
    }
}

/// Fixed-capacity schema registry for host-mode protocol tests.
#[derive(Clone, Copy, Debug, PartialEq, Eq)]
pub struct SchemaRegistry<'a, const N: usize> {
    records: [Option<MetadataRecord<'a>>; N],
    len: usize,
}

impl<'a, const N: usize> View for SchemaRegistry<'a, N> {
    type V = SchemaRegistryView<'a>;

    closed spec fn view(&self) -> SchemaRegistryView<'a> {
        SchemaRegistryView { capacity: N as nat, slots: self.records@, count: self.len as nat }
    }
}

impl<'a, const N: usize> SchemaRegistry<'a, N> {
    /// No more records are in use than the registry has slots.
    #[verifier::type_invariant]
    spec fn len_within_capacity(self) -> bool {
        self.len <= N
    }

    /// The registry's invariant (see `SchemaRegistryView::well_formed`).
    pub open spec fn wf(self) -> bool {
        self@.well_formed() && self@.capacity == N
    }

    /// Creates an empty schema registry.
    pub fn new() -> (r: Self)
        ensures
            r@.capacity == N,
            r@.count == 0,
            r@.slots == Seq::new(N as nat, |i: int| None::<MetadataRecord<'a>>),
            r.wf(),
    {
        let r = SchemaRegistry { records: [None; N], len: 0 };
        assert(r@.slots =~= Seq::new(N as nat, |i: int| None::<MetadataRecord<'a>>));
        r
    }

    /// Returns number of records.
    pub fn len(self) -> (r: usize)
        ensures
            r == self@.count,
    {
        self.len
    }

    /// Returns `true` when no records are registered.
    pub fn is_empty(self) -> (r: bool)
        ensures
            r == (self@.count == 0),
    {
        self.len == 0
    }

    /// Adds a record. On success the record occupies the next slot; on
    /// failure the registry is unchanged.
    pub fn add(&mut self, record: MetadataRecord<'a>) -> (r: ProtocolResult<()>)
        requires
            record.bounded(),
        ensures
            old(self).wf() ==> final(self).wf(),
            final(self)@.capacity == old(self)@.capacity,
            r == old(self)@.add_outcome(record),
            r is Ok ==> final(self)@ == old(self)@.with_record(record),
            r is Err ==> final(self)@ == old(self)@,
    {
        if self.len >= N {
            return Err(ProtocolError::CapacityExceeded);
        }
        record.validate()?;
        if self.find(record.kind(), record.id()).is_some() {
            return Err(ProtocolError::InvalidMetadata);
        }
        let ghost before = self@;
        self.records[self.len] = Some(record);
        self.len += 1;
        proof {
            assert(final(self)@.slots =~= before.with_record(record).slots);
            if before.well_formed() {
                lemma_with_record_well_formed(before, record);
            }
        }
        Ok(())
    }

    /// Finds the first metadata record registered under `kind` and `id`.
    pub fn find(self, kind: SchemaKind, id: &str) -> (r: Option<MetadataRecord<'a>>)
        ensures
            r == self@.lookup(kind, id@),
    {
        proof {
            use_type_invariant(&self);
        }
        let ghost s = self@.records();
        let mut index: usize = 0;
        assert(s.skip(0) =~= s);
        while index < self.len
            invariant
                s == self@.records(),
                self@.bounded(),
                index <= self.len,
                s.len() == self.len,
                find_record(s, kind, id@) == find_record(s.skip(index as int), kind, id@),
            decreases self.len - index,
        {
            assert(s[index as int] == self.records@[index as int]);
            assert(s.skip(index as int)[0] == s[index as int]);
            assert(s.skip(index as int).drop_first() =~= s.skip(index + 1));
            if let Some(record) = self.records[index] {
                if record.kind() == kind && str_eq(record.id(), id) {
                    return Some(record);
                }
            }
            index += 1;
        }
        assert(s.skip(index as int).len() == 0);
        None
    }
}

impl<'a, const N: usize> Default for SchemaRegistry<'a, N> {
    fn default() -> (r: Self)
        ensures
            r@.capacity == N,
            r@.count == 0,
            r@.slots == Seq::new(N as nat, |i: int| None::<MetadataRecord<'a>>),
            r.wf(),
    {
        Self::new()
    }
}

/// Looking up in a sequence with one more slot at the end finds what the
/// shorter sequence finds, or else the new slot when it matches.
pub proof fn lemma_find_record_push<'a>(
    slots: Seq<Option<MetadataRecord<'a>>>,
    last: MetadataRecord<'a>,
    kind: SchemaKind,
    id: Seq<char>,
)
    ensures
        find_record(slots.push(Some(last)), kind, id) == if find_record(slots, kind, id) is Some {
            find_record(slots, kind, id)
        } else if record_matches(last, kind, id) {
            Some(last)
        } else {
            None
        },
    decreases slots.len(),
{
    if slots.len() > 0 {
        assert(slots.push(Some(last)).drop_first() =~= slots.drop_first().push(Some(last)));
        assert(slots.push(Some(last))[0] == slots[0]);
        lemma_find_record_push(slots.drop_first(), last, kind, id);
    } else {
        let e = Seq::<Option<MetadataRecord<'a>>>::empty();
        assert(slots.push(Some(last)).drop_first() =~= e);
        assert(find_record(e, kind, id) is None);
        assert(slots.push(Some(last))[0] == Some(last));
    }
}

/// Storing a record that `add` accepts keeps a registry well-formed.
proof fn lemma_with_record_well_formed<'a>(v: SchemaRegistryView<'a>, record: MetadataRecord<'a>)
    requires
        v.well_formed(),
        record.bounded(),
        v.add_outcome(record) is Ok,
    ensures
        v.with_record(record).well_formed(),
{
    let after = v.with_record(record);
    lemma_find_record(v.records(), record.kind(), record.identifier()@);
    assert forall|i: int, j: int|
        #![trigger after.slots[i], after.slots[j]]
        0 <= i < after.count && 0 <= j < after.count && i != j && after.slots[i] is Some
            && after.slots[j] is Some implies !record_matches(
        after.slots[i].unwrap(),
        after.slots[j].unwrap().kind(),
        after.slots[j].unwrap().identifier()@,
    ) by {
        if i == v.count {
            assert(v.records()[j] == v.slots[j]);
        } else if j == v.count {
            assert(v.records()[i] == v.slots[i]);
        } else {
            assert(v.slots[i] == after.slots[i]);
            assert(v.slots[j] == after.slots[j]);
        }
    }
}

/// A record accepted by `add` is then found under its kind and id, lookups
/// of every other kind/id pair are unchanged, and the registry stays
/// well-formed.
pub proof fn law_added_record_is_found<'a>(v: SchemaRegistryView<'a>, record: MetadataRecord<'a>)
    requires
        v.well_formed(),
        record.bounded(),
        v.add_outcome(record) is Ok,
    ensures
        v.with_record(record).well_formed(),
        v.with_record(record).lookup(record.kind(), record.identifier()@) == Some(record),
        v.with_record(record).count == v.count + 1,
        forall|kind: SchemaKind, id: Seq<char>|
            !record_matches(record, kind, id) ==> #[trigger] v.with_record(record).lookup(kind, id)
                == v.lookup(kind, id),
{
    lemma_with_record_well_formed(v, record);
    let w = v.with_record(record);
    assert(w.records() =~= v.records().push(Some(record)));
    lemma_find_record_push(v.records(), record, record.kind(), record.identifier()@);
    assert forall|kind: SchemaKind, id: Seq<char>|
        !record_matches(record, kind, id) implies #[trigger] w.lookup(kind, id) == v.lookup(
        kind,
        id,
    ) by {
        lemma_find_record_push(v.records(), record, kind, id);
    }
}

/// Once a record is registered, registering another valid record of the
/// same kind and id is refused as invalid metadata, even when there is room.
pub proof fn law_duplicate_record_rejected<'a>(
    v: SchemaRegistryView<'a>,
    first: MetadataRecord<'a>,
    second: MetadataRecord<'a>,
)
    requires
        v.well_formed(),
        first.bounded(),
        v.add_outcome(first) is Ok,
        second.validation() is Ok,
        second.kind() == first.kind(),
        second.identifier()@ == first.identifier()@,
    ensures
        v.with_record(first).add_outcome(second) == Err::<(), ProtocolError>(
            if v.count + 1 >= v.capacity {
                ProtocolError::CapacityExceeded
            } else {
                ProtocolError::InvalidMetadata
            },
        ),
{
    law_added_record_is_found(v, first);
}

/// A label accepted by `add_label` is read back at the index it was added
/// at, earlier labels read back as before, and the record stays
/// well-formed.
pub proof fn law_added_label_read_back<'a>(v: CorpusMetadataView<'a>, label: &'a str)
    requires
        v.well_formed(),
        v.add_outcome(label) is Ok,
    ensures
        v.with_label(label).well_formed(),
        v.with_label(label).label_at(v.count as int) == Some(label),
        forall|i: int| 0 <= i < v.count ==> v.with_label(label).label_at(i) == v.label_at(i),
{
}

/// When every slot holds a valid label, walking the slots finds no failure.
proof fn lemma_valid_labels_outcome<'a>(slots: Seq<Option<&'a str>>)
    requires
        forall|i: int|
            0 <= i < slots.len() ==> (#[trigger] slots[i] matches Some(l) && validate_label(
                l,
                MAX_METADATA_LABEL_LEN,
            ) is Ok),
    ensures
        labels_outcome(slots) == Ok::<(), ProtocolError>(()),
    decreases slots.len(),
{
    if slots.len() > 0 {
        assert forall|i: int| 0 <= i < slots.drop_first().len() implies (
        #[trigger] slots.drop_first()[i] matches Some(l) && validate_label(
            l,
            MAX_METADATA_LABEL_LEN,
        ) is Ok) by {
            assert(slots.drop_first()[i] == slots[i + 1]);
        }
        lemma_valid_labels_outcome(slots.drop_first());
    }
}

/// A well-formed corpus record (one built by `new` and `add_label`) fails
/// validation only through its own fields, license and redaction state: its
/// labels always validate.
pub proof fn law_well_formed_corpus_validation<'a>(v: CorpusMetadataView<'a>)
    requires
        v.well_formed(),
    ensures
        labels_outcome(v.labels()) == Ok::<(), ProtocolError>(()),
{
    assert forall|i: int| 0 <= i < v.labels().len() implies (#[trigger] v.labels()[i] matches Some(
        l,
    ) && validate_label(l, MAX_METADATA_LABEL_LEN) is Ok) by {
        assert(v.labels()[i] == v.slots[i]);
    }
    lemma_valid_labels_outcome(v.labels());
}

/// Looking up a kind/id pair in a bounded registry finds a record exactly
/// when some slot in use holds a record of that kind with that id text, and
/// what it finds is such a record.
pub proof fn law_lookup_matches_registered_pair<'a>(
    v: SchemaRegistryView<'a>,
    kind: SchemaKind,
    id: Seq<char>,
)
    requires
        v.bounded(),
    ensures
        (v.lookup(kind, id) is Some) == (exists|i: int|
            0 <= i < v.count && (#[trigger] v.slots[i] matches Some(r) && r.kind() == kind
                && r.identifier()@ == id)),
        v.lookup(kind, id) matches Some(r) ==> r.kind() == kind && r.identifier()@ == id
            && exists|i: int| 0 <= i < v.count && #[trigger] v.slots[i] == Some(r),
{
    let s = v.records();
    lemma_find_record(s, kind, id);
    if v.lookup(kind, id) is None {
        assert forall|i: int| 0 <= i < v.count implies !(#[trigger] v.slots[i] matches Some(r)
            && r.kind() == kind && r.identifier()@ == id) by {
            assert(s[i] == v.slots[i]);
        }
    } else {
        let r = v.lookup(kind, id).unwrap();
        let i = choose|i: int| 0 <= i < s.len() && #[trigger] s[i] == Some(r);
        assert(v.slots[i] == s[i]);
    }
}

/// Adding to a well-formed registry with room: a record that fails its own
/// validation is refused with that error; a valid record whose kind and id
/// text are both already registered together is refused as invalid
/// metadata; every other valid record is accepted, including a second
/// record of an already registered kind under a new id.
pub proof fn law_add_record_outcome<'a>(v: SchemaRegistryView<'a>, record: MetadataRecord<'a>)
    requires
        v.well_formed(),
        v.count < v.capacity,
    ensures
        record.validation() is Err ==> v.add_outcome(record) == record.validation(),
        record.validation() is Ok && (exists|i: int|
            0 <= i < v.count && (#[trigger] v.slots[i] matches Some(r) && r.kind()
                == record.kind() && r.identifier()@ == record.identifier()@)) ==> v.add_outcome(
            record,
        ) == Err::<(), ProtocolError>(ProtocolError::InvalidMetadata),
        record.validation() is Ok && (forall|i: int|
            0 <= i < v.count ==> !(#[trigger] v.slots[i] matches Some(r) && r.kind()
                == record.kind() && r.identifier()@ == record.identifier()@)) ==> v.add_outcome(
            record,
        ) is Ok,
{
    law_lookup_matches_registered_pair(v, record.kind(), record.identifier()@);
}

/// Two valid records that differ in kind or in id text (two devices under
/// different names among them) are both registered, one after the other,
/// by a well-formed registry with room for both whose slots hold neither
/// pair: the registry then holds two more records and finds each of them.
pub proof fn law_distinct_records_both_added<'a>(
    v: SchemaRegistryView<'a>,
    first: MetadataRecord<'a>,
    second: MetadataRecord<'a>,
)
    requires
        v.well_formed(),
        v.count + 2 <= v.capacity,
        first.bounded(),
        second.bounded(),
        first.validation() is Ok,
        second.validation() is Ok,
        !(first.kind() == second.kind() && first.identifier()@ == second.identifier()@),
        forall|i: int|
            0 <= i < v.count ==> !(#[trigger] v.slots[i] matches Some(r) && ((r.kind()
                == first.kind() && r.identifier()@ == first.identifier()@) || (r.kind()
                == second.kind() && r.identifier()@ == second.identifier()@))),
    ensures
        v.add_outcome(first) is Ok,
        v.with_record(first).add_outcome(second) is Ok,
        v.with_record(first).with_record(second).count == v.count + 2,
        v.with_record(first).with_record(second).lookup(first.kind(), first.identifier()@)
            == Some(first),
        v.with_record(first).with_record(second).lookup(second.kind(), second.identifier()@)
            == Some(second),
{
    law_add_record_outcome(v, first);
    law_added_record_is_found(v, first);
    let w = v.with_record(first);
    assert forall|i: int| 0 <= i < w.count implies !(#[trigger] w.slots[i] matches Some(r)
        && r.kind() == second.kind() && r.identifier()@ == second.identifier()@) by {
        if i < v.count {
            assert(w.slots[i] == v.slots[i]);
        }
    }
    law_add_record_outcome(w, second);
    law_added_record_is_found(w, second);
}

/// A device descriptor validates exactly when its schema version is valid,
/// its id is non-zero, its name and vendor are valid labels of at most
/// `MAX_METADATA_LABEL_LEN` bytes, the device is neither removed nor
/// faulted, and its trace and redaction state validate. An invalid schema
/// version gives its own error; a zero id, or a removed or faulted device,
/// is invalid metadata once the fields before it pass.
pub proof fn law_device_validation_fields<'a>(d: DeviceDescriptor<'a>)
    ensures
        (d.validate() is Ok) == (validate_schema_version(d.schema_version) is Ok && d.device_id != 0
            && validate_label(d.name, MAX_METADATA_LABEL_LEN) is Ok && validate_label(
            d.vendor,
            MAX_METADATA_LABEL_LEN,
        ) is Ok && !(d.state is Removed) && !(d.state is Faulted) && d.trace.validate() is Ok
            && validate_redaction(d.data_class, d.redaction) is Ok),
        validate_schema_version(d.schema_version) is Ok && d.device_id == 0 ==> d.validate()
            == Err::<(), ProtocolError>(ProtocolError::InvalidMetadata),
        validate_schema_version(d.schema_version) is Ok && d.device_id != 0 && validate_label(
            d.name,
            MAX_METADATA_LABEL_LEN,
        ) is Ok && validate_label(d.vendor, MAX_METADATA_LABEL_LEN) is Ok && (d.state is Removed
            || d.state is Faulted) ==> d.validate() == Err::<(), ProtocolError>(
            ProtocolError::InvalidMetadata,
        ),
        validate_schema_version(d.schema_version) is Err ==> d.validate() == validate_schema_version(
            d.schema_version,
        ),
{
}

/// Model metadata validates exactly when its schema version is valid, its
/// model id (at most `MAX_METADATA_ID_LEN` bytes), family and revision (at
/// most `MAX_METADATA_LABEL_LEN` bytes) and artifact reference (at most
/// `MAX_METADATA_URI_LEN` bytes) are valid labels, its license is approved
/// or an internal draft, and its trace and redaction state validate. An
/// invalid schema version gives its own error; any other license is invalid
/// metadata once the labels pass.
pub proof fn law_model_validation_fields<'a>(m: ModelMetadata<'a>)
    ensures
        (m.validate() is Ok) == (validate_schema_version(m.schema_version) is Ok && validate_label(
            m.model_id,
            MAX_METADATA_ID_LEN,
        ) is Ok && validate_label(m.family, MAX_METADATA_LABEL_LEN) is Ok && validate_label(
            m.revision,
            MAX_METADATA_LABEL_LEN,
        ) is Ok && validate_label(m.artifact_ref, MAX_METADATA_URI_LEN) is Ok && (m.license is Approved
            || m.license is InternalDraft) && m.trace.validate() is Ok && validate_redaction(
            m.data_class,
            m.redaction,
        ) is Ok),
        validate_schema_version(m.schema_version) is Ok && validate_label(
            m.model_id,
            MAX_METADATA_ID_LEN,
        ) is Ok && validate_label(m.family, MAX_METADATA_LABEL_LEN) is Ok && validate_label(
            m.revision,
            MAX_METADATA_LABEL_LEN,
        ) is Ok && validate_label(m.artifact_ref, MAX_METADATA_URI_LEN) is Ok && !(m.license is Approved
            || m.license is InternalDraft) ==> m.validate() == Err::<(), ProtocolError>(
            ProtocolError::InvalidMetadata,
        ),
        validate_schema_version(m.schema_version) is Err ==> m.validate() == validate_schema_version(
            m.schema_version,
        ),
{
}

/// Adding a label to corpus metadata succeeds exactly when fewer than
/// `MAX_CORPUS_LABELS` labels are stored and the label has between one and
/// `MAX_METADATA_LABEL_LEN` UTF-8 bytes; a full record is over capacity
/// whatever the label. (The byte count of any text held in memory fits in
/// `usize`.)
pub proof fn law_add_label_outcome<'a>(v: CorpusMetadataView<'a>, label: &'a str)
    requires
        label.spec_bytes().len() <= usize::MAX,
    ensures
        (v.add_outcome(label) is Ok) == (v.count < MAX_CORPUS_LABELS && 1 <= label.spec_bytes().len()
            <= MAX_METADATA_LABEL_LEN),
        v.count >= MAX_CORPUS_LABELS ==> v.add_outcome(label) == Err::<(), ProtocolError>(
            ProtocolError::CapacityExceeded,
        ),
{
    crate::law_label_by_bytes(label, MAX_METADATA_LABEL_LEN);
}

/// Adding to a full registry is refused as over capacity whatever the
/// record.
pub proof fn law_full_registry_refuses<'a>(v: SchemaRegistryView<'a>, record: MetadataRecord<'a>)
    requires
        v.count >= v.capacity,
    ensures
        v.add_outcome(record) == Err::<(), ProtocolError>(ProtocolError::CapacityExceeded),
{
}

/// A validated corpus record has a valid schema version, a record id, task
/// and source of the allowed lengths, a license that allows MVK use, a
/// valid label in every slot in use, and a compatible redaction state; and
/// a bounded record meeting all of these validates. An invalid schema
/// version gives its own error.
pub proof fn law_validated_corpus_fields<'a>(v: CorpusMetadataView<'a>)
    requires
        v.bounded(),
    ensures
        (v.validation() is Ok) == (validate_schema_version(v.schema_version) is Ok
            && validate_label(v.record_id, MAX_METADATA_ID_LEN) is Ok && validate_label(
            v.task,
            MAX_METADATA_LABEL_LEN,
        ) is Ok && validate_label(v.source, MAX_METADATA_URI_LEN) is Ok
            && v.license.allows_mvk() && (forall|i: int|
            0 <= i < v.count ==> (#[trigger] v.slots[i] matches Some(l) && validate_label(
                l,
                MAX_METADATA_LABEL_LEN,
            ) is Ok)) && redaction_compatible(v.data_class, v.redaction)),
        validate_schema_version(v.schema_version) is Err ==> v.validation() == validate_schema_version(
            v.schema_version,
        ),
{
    let s = v.labels();
    lemma_labels_outcome_ok(s);
    assert forall|i: int| 0 <= i < v.count implies #[trigger] v.slots[i] == s[i] by {}
}

/// Walking label slots succeeds exactly when every slot holds a valid label.
proof fn lemma_labels_outcome_ok<'a>(slots: Seq<Option<&'a str>>)
    ensures
        (labels_outcome(slots) is Ok) == (forall|i: int|
            0 <= i < slots.len() ==> (#[trigger] slots[i] matches Some(l) && validate_label(
                l,
                MAX_METADATA_LABEL_LEN,
            ) is Ok)),
    decreases slots.len(),
{
    if slots.len() > 0 {
        lemma_labels_outcome_ok(slots.drop_first());
        assert forall|i: int| 1 <= i < slots.len() implies slots[i] == #[trigger] slots.drop_first()[i
            - 1] by {}
        if labels_outcome(slots) is Ok {
            assert forall|i: int| 0 <= i < slots.len() implies (#[trigger] slots[i] matches Some(l)
                && validate_label(l, MAX_METADATA_LABEL_LEN) is Ok) by {
                if i > 0 {
                    assert(slots[i] == slots.drop_first()[i - 1]);
                }
            }
        } else if forall|i: int|
            0 <= i < slots.len() ==> (#[trigger] slots[i] matches Some(l) && validate_label(
                l,
                MAX_METADATA_LABEL_LEN,
            ) is Ok) {
            assert(slots[0] matches Some(l) && validate_label(l, MAX_METADATA_LABEL_LEN) is Ok);
            assert forall|i: int| 0 <= i < slots.drop_first().len() implies (
            #[trigger] slots.drop_first()[i] matches Some(l) && validate_label(
                l,
                MAX_METADATA_LABEL_LEN,
            ) is Ok) by {
                assert(slots.drop_first()[i] == slots[i + 1]);
            }
        }
    }
}

/// No corpus or model record whose license forbids MVK use validates.
pub proof fn law_license_gates_metadata<'a>(corpus: CorpusMetadataView<'a>, model: ModelMetadata<'a>)
    ensures
        corpus.validation() is Ok ==> corpus.license.allows_mvk(),
        model.validate() is Ok ==> model.license.allows_mvk(),
        corpus.validation() is Ok ==> corpus.license is Approved || corpus.license is InternalDraft,
        model.validate() is Ok ==> model.license is Approved || model.license is InternalDraft,
{
}

/// Module boundary descriptor.
#[derive(Clone, Debug, PartialEq, Eq)]
pub struct SchemaDescriptor<'a> {
    /// Human-readable descriptor name.
    pub name: &'a str,
    /// Descriptor version.
    pub version: u32,
}

impl<'a> SchemaDescriptor<'a> {
    /// Creates a schema descriptor.
    pub fn new(name: &'a str, version: u32) -> (r: Self)
        ensures
            r.name == name,
            r.version == version,
    {
        SchemaDescriptor { name, version }
    }
}

} // verus!
