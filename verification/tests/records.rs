use alani_protocol::schema::{CorpusSplit, LicenseState};
use alani_protocol::{
    AuditDecision, AuditDescriptor, AuditEvent, AuditEventKind, AuditRecordHeader, AuditStatus,
    ConfigDescriptor, ConfigDocument, ConfigDomain, ConfigEntry, ConfigFormat, ConfigValue,
    ConfigValueKind, CorpusMetadata, DataClass, DeviceClass, DeviceDescriptor, DeviceState,
    MetadataRecord, ModelFormat, ModelMetadata, ProtocolError, RedactionState, SchemaDescriptor,
    SchemaKind, SchemaRegistry, SchemaVersion, TraceContext, CONFIG_SCHEMA_VERSION,
};

fn event() -> AuditEvent<'static> {
    AuditEvent::new(7, 2, AuditEventKind::PolicyDecision, "agent", "policy.check", "policy")
        .with_time(5, 0)
}

#[test]
fn audit_event_validation_errors() {
    assert_eq!(event().validate(), Ok(()));
    let mut zero = event();
    zero.event_id = 0;
    assert_eq!(zero.validate(), Err(ProtocolError::InvalidAudit));
    assert_eq!(event().with_time(0, 0).validate(), Err(ProtocolError::MissingField));
    assert_eq!(event().with_time(0, 1).validate(), Ok(()));
    assert_eq!(event().with_component("").validate(), Err(ProtocolError::MissingField));
    let mut unknown = event();
    unknown.kind = AuditEventKind::Unknown;
    assert_eq!(unknown.validate(), Err(ProtocolError::InvalidAudit));
    assert_eq!(
        event().with_outcome(AuditDecision::Deny, AuditStatus::Failed).validate(),
        Ok(())
    );
    assert_eq!(
        event().with_outcome(AuditDecision::Deny, AuditStatus::Started).validate(),
        Err(ProtocolError::InvalidAudit)
    );
    assert_eq!(
        event().with_trace(TraceContext::new(0, 1)).validate(),
        Err(ProtocolError::InvalidTrace)
    );
    assert_eq!(
        event()
            .with_redaction(DataClass::Sensitive, RedactionState::Operational)
            .validate(),
        Err(ProtocolError::InvalidRedaction)
    );
}

#[test]
fn security_denial_defaults() {
    let denial = AuditEvent::security_denial(1, 0, "p", "o", "r");
    assert_eq!(denial.kind, AuditEventKind::SecurityDenial);
    assert_eq!(denial.decision, AuditDecision::Deny);
    assert_eq!(denial.status, AuditStatus::Denied);
    assert_eq!(denial.component, "unknown");
    assert_eq!(denial.data_class, DataClass::Sensitive);
    assert!(denial.is_audit_critical());
    assert_eq!(denial.validate(), Err(ProtocolError::MissingField));
    assert_eq!(denial.with_time(0, 3).validate(), Ok(()));
    let mut unknown = AuditEvent::new(1, 0, AuditEventKind::Unknown, "p", "o", "r");
    assert!(!unknown.is_audit_critical());
    unknown.decision = AuditDecision::Deny;
    assert!(unknown.is_audit_critical());
}

#[test]
fn audit_labels() {
    assert_eq!(AuditEventKind::ConfigAccess.label(), "config_access");
    assert_eq!(AuditEventKind::CiWaiver.label(), "ci_waiver");
    assert!(AuditEventKind::CiWaiver.is_audit_critical());
    assert!(!AuditEventKind::Unknown.is_audit_critical());
    assert_eq!(AuditDecision::NotApplicable.label(), "not_applicable");
    assert_eq!(AuditStatus::Cancelled.label(), "cancelled");
    let d = AuditDescriptor::new("audit", 1);
    assert_eq!((d.name, d.version), ("audit", 1));
}

#[test]
fn audit_record_header_hash_chain_rules() {
    let mut hash = [0u8; 32];
    hash[31] = 9;
    assert_eq!(AuditRecordHeader::new(1, 0, [0u8; 32], hash).validate(), Ok(()));
    assert_eq!(
        AuditRecordHeader::new(0, 0, [0u8; 32], hash).validate(),
        Err(ProtocolError::InvalidAudit)
    );
    assert_eq!(
        AuditRecordHeader::new(1, 0, [0u8; 32], [0u8; 32]).validate(),
        Err(ProtocolError::InvalidAudit)
    );
    assert_eq!(
        AuditRecordHeader::new(1, 0, hash, hash).validate(),
        Err(ProtocolError::InvalidAudit)
    );
    assert_eq!(AuditRecordHeader::new(1, 1, hash, hash).validate(), Ok(()));
}

#[test]
fn config_value_rules() {
    assert_eq!(ConfigValue::Empty.kind(), None);
    assert_eq!(ConfigValue::Integer(3).kind(), Some(ConfigValueKind::Integer));
    assert_eq!(ConfigValue::Boolean(true).kind(), Some(ConfigValueKind::Boolean));
    assert_eq!(ConfigValue::String("s").kind(), Some(ConfigValueKind::String));
    assert_eq!(ConfigValue::Empty.validate(), Err(ProtocolError::InvalidConfig));
    assert_eq!(ConfigValue::String("").validate(), Err(ProtocolError::MissingField));
    let long = "v".repeat(257);
    assert_eq!(ConfigValue::String(&long).validate(), Err(ProtocolError::FieldTooLong));
    assert_eq!(ConfigValue::String(&long[..256]).validate(), Ok(()));
    assert_eq!(ConfigValueKind::Boolean.label(), "boolean");
    assert_eq!(ConfigFormat::Json.label(), "json");
}

#[test]
fn config_domain_audit_relevance() {
    assert!(ConfigDomain::Boot.is_audit_relevant());
    assert!(ConfigDomain::Release.is_audit_relevant());
    assert!(!ConfigDomain::Corpus.is_audit_relevant());
    assert!(!ConfigDomain::Environment.is_audit_relevant());
    assert_eq!(ConfigDomain::Environment.label(), "environment");
    let entry = ConfigEntry::new(ConfigDomain::Corpus, "k", ConfigValue::Integer(1));
    assert!(!entry.requires_audit());
    assert_eq!(entry.with_source_line(12).source_line, 12);
}

#[test]
fn config_document_add_find_and_capacity() {
    let mut document = ConfigDocument::<2>::new("host", ConfigFormat::Binary);
    assert_eq!(document.schema_version, CONFIG_SCHEMA_VERSION);
    assert!(document.is_empty());
    let a = ConfigEntry::new(ConfigDomain::Runtime, "a", ConfigValue::Integer(1));
    let b = ConfigEntry::new(ConfigDomain::Boot, "a", ConfigValue::Boolean(false));
    let c = ConfigEntry::new(ConfigDomain::Boot, "c", ConfigValue::Integer(3));
    assert_eq!(document.add_entry(a), Ok(()));
    // Same key in another domain is a different entry.
    assert_eq!(document.add_entry(b), Ok(()));
    assert_eq!(document.add_entry(c), Err(ProtocolError::CapacityExceeded));
    assert_eq!(document.len(), 2);
    assert_eq!(document.find(ConfigDomain::Runtime, "a"), Some(a));
    assert_eq!(document.find(ConfigDomain::Boot, "a"), Some(b));
    assert_eq!(document.find(ConfigDomain::Boot, "c"), None);
    assert_eq!(document.entry(0), Some(a));
    assert_eq!(document.entry(1), Some(b));
    assert_eq!(document.entry(2), None);
    assert!(!document.contains(ConfigDomain::Policy, "a"));
    assert_eq!(document.validate(), Ok(()));
}

#[test]
fn config_document_rejects_invalid_entries_unchanged() {
    let mut document = ConfigDocument::<4>::new("host", ConfigFormat::Toml);
    let before = document;
    let bad = ConfigEntry::new(ConfigDomain::Runtime, "k", ConfigValue::Empty);
    assert_eq!(document.add_entry(bad), Err(ProtocolError::InvalidConfig));
    assert_eq!(document, before);
    let long_key = "k".repeat(97);
    let long = ConfigEntry::new(ConfigDomain::Runtime, &long_key, ConfigValue::Integer(1));
    assert_eq!(document.add_entry(long), Err(ProtocolError::FieldTooLong));
    assert!(document.is_empty());
}

#[test]
fn config_document_validation_errors() {
    let document = ConfigDocument::<1>::new("", ConfigFormat::Toml);
    assert_eq!(document.validate(), Err(ProtocolError::MissingField));
    let traced = ConfigDocument::<1>::new("p", ConfigFormat::Toml)
        .with_trace(TraceContext::new(0, 0).with_parent(1));
    assert_eq!(traced.validate(), Err(ProtocolError::InvalidTrace));
    let d = ConfigDescriptor::new("config", 2);
    assert_eq!((d.name, d.version), ("config", 2));
}

fn device() -> DeviceDescriptor<'static> {
    DeviceDescriptor::new(1, "dev", DeviceClass::Generic)
}

#[test]
fn device_descriptor_rules() {
    assert_eq!(device().validate(), Ok(()));
    assert_eq!(device().vendor, "unknown");
    assert_eq!(device().state, DeviceState::Registered);
    assert!(!device().requires_audit());
    assert!(DeviceDescriptor::new(1, "n", DeviceClass::Network).requires_audit());
    let mut faulted = device();
    faulted.state = DeviceState::Faulted;
    assert!(faulted.requires_audit());
    assert_eq!(faulted.validate(), Err(ProtocolError::InvalidMetadata));
    let mut removed = device();
    removed.state = DeviceState::Removed;
    assert_eq!(removed.validate(), Err(ProtocolError::InvalidMetadata));
    assert_eq!(
        DeviceDescriptor::new(0, "dev", DeviceClass::Block).validate(),
        Err(ProtocolError::InvalidMetadata)
    );
    assert_eq!(device().with_vendor("").validate(), Err(ProtocolError::MissingField));
    let c = device().with_capabilities(3, 64);
    assert_eq!((c.capability_bits, c.max_payload_len), (3, 64));
    assert_eq!(DeviceClass::AuditStorage.label(), "audit_storage");
    assert_eq!(DeviceState::Suspended.label(), "suspended");
}

#[test]
fn corpus_labels_and_license() {
    let mut corpus = CorpusMetadata::new("rec", CorpusSplit::Train, "task", "src");
    assert_eq!(corpus.license, LicenseState::InternalDraft);
    assert_eq!(corpus.add_label(""), Err(ProtocolError::MissingField));
    for i in 0..8 {
        assert_eq!(corpus.add_label(["a", "b", "c", "d", "e", "f", "g", "h"][i]), Ok(()));
    }
    assert_eq!(corpus.add_label("i"), Err(ProtocolError::CapacityExceeded));
    assert_eq!(corpus.label_count(), 8);
    assert_eq!(corpus.label(0), Some("a"));
    assert_eq!(corpus.label(7), Some("h"));
    assert_eq!(corpus.label(8), None);
    assert_eq!(corpus.validate(), Ok(()));
    assert_eq!(
        corpus.with_license(LicenseState::Restricted).validate(),
        Err(ProtocolError::InvalidMetadata)
    );
    assert_eq!(
        corpus
            .with_redaction(DataClass::Public, RedactionState::SecretRedacted)
            .validate(),
        Err(ProtocolError::InvalidRedaction)
    );
    assert_eq!(CorpusSplit::Validation.label(), "validation");
    assert_eq!(LicenseState::NeedsReview.label(), "needs_review");
    assert!(LicenseState::Approved.allows_mvk());
    assert!(!LicenseState::Prohibited.allows_mvk());
}

#[test]
fn model_metadata_rules() {
    let model = ModelMetadata::new("m", "fam", "rev", ModelFormat::Onnx, "artifact");
    assert_eq!(model.validate(), Ok(()));
    assert_eq!(model.with_capabilities(5).capability_bits, 5);
    assert_eq!(
        model.with_license(LicenseState::NeedsReview).validate(),
        Err(ProtocolError::InvalidMetadata)
    );
    assert_eq!(
        model.with_trace(TraceContext::new(1, 0)).validate(),
        Err(ProtocolError::InvalidTrace)
    );
    let long_id = "m".repeat(97);
    assert_eq!(
        ModelMetadata::new(&long_id, "f", "r", ModelFormat::Mock, "a").validate(),
        Err(ProtocolError::FieldTooLong)
    );
    assert_eq!(
        model
            .with_redaction(DataClass::Sensitive, RedactionState::SensitiveRedacted)
            .validate(),
        Ok(())
    );
    assert_eq!(ModelFormat::SafeTensors.label(), "safetensors");
    assert_eq!(SchemaKind::AuditEvent.label(), "audit_event");
}

#[test]
fn schema_version_records() {
    assert_eq!(SchemaVersion::new(SchemaKind::Ipc, "alani.ipc.v1").validate(), Ok(()));
    assert_eq!(
        SchemaVersion::new(SchemaKind::Ipc, "alani.ipc.v0").validate(),
        Err(ProtocolError::InvalidSchemaVersion)
    );
    let d = SchemaDescriptor::new("schema", 5);
    assert_eq!((d.name, d.version), ("schema", 5));
}

#[test]
fn registry_add_find_duplicates_and_capacity() {
    let mut registry = SchemaRegistry::<2>::default();
    assert!(registry.is_empty());
    let model = ModelMetadata::new("shared-id", "f", "r", ModelFormat::Mock, "a");
    let dev = DeviceDescriptor::new(4, "shared-id", DeviceClass::Display);
    assert_eq!(registry.add(MetadataRecord::Model(model)), Ok(()));
    assert_eq!(
        registry.add(MetadataRecord::Model(model.with_capabilities(1))),
        Err(ProtocolError::InvalidMetadata)
    );
    // Same id under another kind is a different record.
    assert_eq!(registry.add(MetadataRecord::Device(dev)), Ok(()));
    assert_eq!(registry.len(), 2);
    let corpus = CorpusMetadata::new("c", CorpusSplit::Test, "t", "s");
    assert_eq!(
        registry.add(MetadataRecord::Corpus(corpus)),
        Err(ProtocolError::CapacityExceeded)
    );
    assert_eq!(
        registry.find(SchemaKind::ModelMetadata, "shared-id"),
        Some(MetadataRecord::Model(model))
    );
    assert_eq!(
        registry.find(SchemaKind::DeviceDescriptor, "shared-id"),
        Some(MetadataRecord::Device(dev))
    );
    assert_eq!(registry.find(SchemaKind::CorpusMetadata, "shared-id"), None);

    let mut other = SchemaRegistry::<4>::new();
    let invalid = DeviceDescriptor::new(0, "x", DeviceClass::Block);
    assert_eq!(
        other.add(MetadataRecord::Device(invalid)),
        Err(ProtocolError::InvalidMetadata)
    );
    assert!(other.is_empty());
    let record = MetadataRecord::Corpus(corpus);
    assert_eq!(record.kind(), SchemaKind::CorpusMetadata);
    assert_eq!(record.id(), "c");
    assert_eq!(record.validate(), Ok(()));
}

#[test]
fn wire_codes_match_the_numbered_variants() {
    assert_eq!(AuditEventKind::Unknown.code(), 0);
    assert_eq!(AuditEventKind::SecurityDenial.code(), 1);
    assert_eq!(AuditEventKind::ConfigAccess.code(), 14);
    assert_eq!(AuditDecision::Allow.code(), 1);
    assert_eq!(AuditDecision::NotApplicable.code(), 4);
    assert_eq!(AuditStatus::Started.code(), 1);
    assert_eq!(AuditStatus::Cancelled.code(), 5);
    assert_eq!(ConfigDomain::Boot.code(), 1);
    assert_eq!(ConfigDomain::Environment.code(), 8);
    assert_eq!(ConfigFormat::Binary.code(), 3);
    assert_eq!(ConfigValueKind::String.code(), 1);
    assert_eq!(ConfigValueKind::Boolean.code(), 3);
    assert_eq!(SchemaKind::Message.code(), 1);
    assert_eq!(SchemaKind::ModelMetadata.code(), 7);
    assert_eq!(DeviceClass::AuditStorage.code(), 7);
    assert_eq!(DeviceState::Faulted.code(), 7);
    assert_eq!(CorpusSplit::Fixture.code(), 4);
    assert_eq!(LicenseState::Prohibited.code(), 5);
    assert_eq!(ModelFormat::Mock.code(), 1);
    assert_eq!(ModelFormat::Custom.code(), 6);
}

#[test]
fn zero_hash_placeholder_opens_a_segment() {
    let zero = alani_protocol::audit::zero_audit_hash();
    assert_eq!(zero, [0u8; 32]);
    let mut hash = [0u8; 32];
    hash[0] = 1;
    assert_eq!(AuditRecordHeader::new(3, 0, zero, hash).validate(), Ok(()));
}

#[test]
fn document_and_corpus_getters_read_their_fields() {
    let document = ConfigDocument::<3>::new("host", ConfigFormat::Json)
        .with_trace(TraceContext::new(1, 2));
    assert_eq!(document.schema_version(), CONFIG_SCHEMA_VERSION);
    assert_eq!(document.profile(), "host");
    assert_eq!(document.format(), ConfigFormat::Json);
    assert_eq!(document.trace(), TraceContext::new(1, 2));

    let corpus = CorpusMetadata::new("rec", CorpusSplit::Fixture, "task", "src")
        .with_license(LicenseState::Approved)
        .with_redaction(DataClass::Public, RedactionState::Public);
    assert_eq!(corpus.schema_version(), "alani.corpus.v1");
    assert_eq!(corpus.record_id(), "rec");
    assert_eq!(corpus.split(), CorpusSplit::Fixture);
    assert_eq!(corpus.task(), "task");
    assert_eq!(corpus.source(), "src");
    assert_eq!(corpus.license(), LicenseState::Approved);
    assert_eq!(corpus.data_class(), DataClass::Public);
    assert_eq!(corpus.redaction(), RedactionState::Public);
}

#[test]
fn new_entry_validates_by_key_bytes_then_value() {
    let ok = ConfigEntry::new(ConfigDomain::Policy, "k", ConfigValue::Boolean(true));
    assert_eq!(ok.validate(), Ok(()));
    let empty = ConfigEntry::new(ConfigDomain::Policy, "", ConfigValue::Empty);
    assert_eq!(empty.validate(), Err(ProtocolError::MissingField));
    let key = "\u{e9}".repeat(48);
    assert_eq!(key.len(), 96);
    assert_eq!(
        ConfigEntry::new(ConfigDomain::Policy, &key, ConfigValue::Empty).validate(),
        Err(ProtocolError::InvalidConfig)
    );
    let longer = format!("{}x", key);
    assert_eq!(
        ConfigEntry::new(ConfigDomain::Policy, &longer, ConfigValue::Empty).validate(),
        Err(ProtocolError::FieldTooLong)
    );
}
