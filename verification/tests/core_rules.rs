use alani_protocol::text::{str_ends_with, str_eq, str_starts_with};
use alani_protocol::ipc::IPC_SCHEMA_VERSION;
use alani_protocol::{
    protocol_catalog, validate_label, validate_redaction, validate_schema_version,
    AUDIT_EVENT_SCHEMA_VERSION, CONFIG_SCHEMA_VERSION, CORPUS_METADATA_SCHEMA_VERSION,
    DEVICE_DESCRIPTOR_SCHEMA_VERSION, MESSAGE_SCHEMA_VERSION, MODEL_METADATA_SCHEMA_VERSION,
    SCHEMA_REGISTRY_VERSION,
};
use alani_protocol::{
    ComponentStatus, DataClass, ProtocolCatalog, ProtocolError, RedactionState, TraceContext,
    PROTOCOL_KNOWN_FEATURES,
};

const ALL_ERRORS: [ProtocolError; 15] = [
    ProtocolError::MissingField,
    ProtocolError::FieldTooLong,
    ProtocolError::ReservedBits,
    ProtocolError::InvalidSchemaVersion,
    ProtocolError::InvalidMessage,
    ProtocolError::PayloadTooLarge,
    ProtocolError::InvalidIpc,
    ProtocolError::InvalidAudit,
    ProtocolError::InvalidConfig,
    ProtocolError::InvalidMetadata,
    ProtocolError::InvalidRedaction,
    ProtocolError::InvalidTrace,
    ProtocolError::AccessDenied,
    ProtocolError::CapacityExceeded,
    ProtocolError::Internal,
];

#[test]
fn error_reasons_are_stable_labels() {
    let expected = [
        "missing_field",
        "field_too_long",
        "reserved_bits",
        "invalid_schema_version",
        "invalid_message",
        "payload_too_large",
        "invalid_ipc",
        "invalid_audit",
        "invalid_config",
        "invalid_metadata",
        "invalid_redaction",
        "invalid_trace",
        "access_denied",
        "capacity_exceeded",
        "internal",
    ];
    for (error, reason) in ALL_ERRORS.iter().zip(expected.iter()) {
        assert_eq!(error.reason(), *reason);
    }
}

#[test]
fn distinct_errors_have_distinct_reasons() {
    for (i, a) in ALL_ERRORS.iter().enumerate() {
        for (j, b) in ALL_ERRORS.iter().enumerate() {
            if i != j {
                assert_ne!(a.reason(), b.reason());
            }
        }
    }
}

#[test]
fn security_relevance_excludes_only_shape_and_capacity_errors() {
    for error in ALL_ERRORS.iter() {
        let expected = !matches!(
            error,
            ProtocolError::MissingField
                | ProtocolError::FieldTooLong
                | ProtocolError::CapacityExceeded
                | ProtocolError::Internal
        );
        assert_eq!(error.is_security_relevant(), expected);
    }
}

#[test]
fn component_identity() {
    let info = alani_protocol::component_info();
    assert_eq!(info.version, "0.1.0");
    assert_eq!(info.status, ComponentStatus::Experimental);
    assert_eq!(alani_protocol::module_names().len(), 5);
}

#[test]
fn labels_reject_empty_and_overlong_text() {
    assert_eq!(validate_label("", 10), Err(ProtocolError::MissingField));
    assert_eq!(validate_label("abc", 2), Err(ProtocolError::FieldTooLong));
    assert_eq!(validate_label("abc", 3), Ok(()));
    // Length is counted in UTF-8 bytes: one two-byte character.
    assert_eq!(validate_label("\u{e9}", 1), Err(ProtocolError::FieldTooLong));
    assert_eq!(validate_label("\u{e9}", 2), Ok(()));
    let long = "x".repeat(129);
    assert_eq!(validate_label(&long, 128), Err(ProtocolError::FieldTooLong));
    assert_eq!(validate_label(&long[..128], 128), Ok(()));
}

#[test]
fn schema_versions_need_prefix_suffix_and_bounded_length() {
    assert_eq!(validate_schema_version("alani.x.v1"), Ok(()));
    assert_eq!(validate_schema_version("alani.v1"), Ok(()));
    assert_eq!(
        validate_schema_version("alani.x.v2"),
        Err(ProtocolError::InvalidSchemaVersion)
    );
    assert_eq!(
        validate_schema_version("other.x.v1"),
        Err(ProtocolError::InvalidSchemaVersion)
    );
    assert_eq!(validate_schema_version(""), Err(ProtocolError::MissingField));
    let long = format!("alani.{}.v1", "x".repeat(56));
    assert_eq!(long.len(), 65);
    assert_eq!(validate_schema_version(&long), Err(ProtocolError::FieldTooLong));
    assert_eq!(validate_schema_version(&long[1..]), Err(ProtocolError::InvalidSchemaVersion));
}

#[test]
fn crate_schema_versions_validate() {
    for version in [
        MESSAGE_SCHEMA_VERSION,
        IPC_SCHEMA_VERSION,
        AUDIT_EVENT_SCHEMA_VERSION,
        CONFIG_SCHEMA_VERSION,
        SCHEMA_REGISTRY_VERSION,
        DEVICE_DESCRIPTOR_SCHEMA_VERSION,
        CORPUS_METADATA_SCHEMA_VERSION,
        MODEL_METADATA_SCHEMA_VERSION,
    ] {
        assert_eq!(validate_schema_version(version), Ok(()), "{}", version);
    }
}

#[test]
fn redaction_matrix() {
    let classes = [
        DataClass::Public,
        DataClass::Operational,
        DataClass::Sensitive,
        DataClass::Secret,
    ];
    let states = [
        RedactionState::Public,
        RedactionState::Operational,
        RedactionState::SensitiveRedacted,
        RedactionState::SecretRedacted,
        RedactionState::UnredactedSensitive,
    ];
    let allowed = [
        [true, false, false, false, false],
        [true, true, false, false, false],
        [false, false, true, false, false],
        [false, false, false, true, false],
    ];
    for (ci, class) in classes.iter().enumerate() {
        for (si, state) in states.iter().enumerate() {
            let expected = if allowed[ci][si] {
                Ok(())
            } else {
                Err(ProtocolError::InvalidRedaction)
            };
            assert_eq!(validate_redaction(*class, *state), expected);
            if class.requires_redaction() && validate_redaction(*class, *state).is_ok() {
                assert!(matches!(
                    state,
                    RedactionState::SensitiveRedacted | RedactionState::SecretRedacted
                ));
            }
        }
        assert!(validate_redaction(*class, RedactionState::UnredactedSensitive).is_err());
    }
}

#[test]
fn data_class_and_redaction_labels() {
    assert_eq!(DataClass::Public.label(), "public");
    assert_eq!(DataClass::Operational.label(), "operational");
    assert_eq!(DataClass::Sensitive.label(), "sensitive");
    assert_eq!(DataClass::Secret.label(), "secret");
    assert!(!DataClass::Operational.requires_redaction());
    assert!(DataClass::Secret.requires_redaction());
    assert_eq!(RedactionState::SensitiveRedacted.label(), "sensitive_redacted");
    assert_eq!(RedactionState::UnredactedSensitive.label(), "unredacted_sensitive");
}

#[test]
fn trace_context_validity() {
    assert_eq!(TraceContext::empty().validate(), Ok(()));
    assert_eq!(TraceContext::new(1, 2).validate(), Ok(()));
    assert_eq!(TraceContext::new(1, 2).with_parent(3).with_flags(7).validate(), Ok(()));
    assert_eq!(TraceContext::new(1, 0).validate(), Err(ProtocolError::InvalidTrace));
    assert_eq!(TraceContext::new(0, 2).validate(), Err(ProtocolError::InvalidTrace));
    assert_eq!(
        TraceContext::new(0, 0).with_parent(5).validate(),
        Err(ProtocolError::InvalidTrace)
    );
    assert!(TraceContext::new(1, 2).is_present());
    assert!(!TraceContext::empty().is_present());
    let t = TraceContext::new(4, 5).with_parent(6).with_flags(9);
    assert_eq!((t.trace_id, t.span_id, t.parent_span_id, t.flags), (4, 5, 6, 9));
}

#[test]
fn catalog_validation_rules() {
    let current = ProtocolCatalog::current();
    assert_eq!(current, protocol_catalog());
    assert_eq!(current.validate(), Ok(()));
    assert_eq!(current.features, PROTOCOL_KNOWN_FEATURES);
    assert_eq!(current.module_count, 5);
    assert_eq!(current.max_label_len, 128);

    let mut reserved = current;
    reserved.features |= 0x80;
    assert_eq!(reserved.validate(), Err(ProtocolError::ReservedBits));

    let mut missing = current;
    missing.version = "";
    assert_eq!(missing.validate(), Err(ProtocolError::MissingField));

    let mut modules = current;
    modules.module_count = 4;
    assert_eq!(modules.validate(), Err(ProtocolError::InvalidMetadata));

    let mut labels = current;
    labels.max_label_len = 0;
    assert_eq!(labels.validate(), Err(ProtocolError::InvalidMetadata));
}

#[test]
fn text_comparisons_work_on_utf8_bytes() {
    assert!(str_eq("agent:alpha", "agent:alpha"));
    assert!(!str_eq("agent:alpha", "agent:alph"));
    assert!(!str_eq("a", "b"));
    assert!(str_eq("", ""));
    assert!(str_eq("\u{e9}t\u{e9}", "\u{e9}t\u{e9}"));
    assert!(str_starts_with("alani.x", "alani."));
    assert!(!str_starts_with("alan", "alani."));
    assert!(str_starts_with("x", ""));
    assert!(str_ends_with("x.v1", ".v1"));
    assert!(!str_ends_with("x.v2", ".v1"));
    assert!(!str_ends_with("v1", ".v1"));
}

#[test]
fn data_class_and_redaction_codes() {
    assert_eq!(DataClass::Public.code(), 0);
    assert_eq!(DataClass::Secret.code(), 3);
    assert_eq!(RedactionState::Public.code(), 0);
    assert_eq!(RedactionState::UnredactedSensitive.code(), 4);
}
