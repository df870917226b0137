use alani_protocol::ipc::IPC_ENDPOINT_FLAG_AUDIT;
use alani_protocol::{
    DataClass, EndpointKind, IpcDescriptor, IpcEndpoint, IpcEnvelope, IpcFlow, IpcRouteHint,
    IpcStatus, MessageDescriptor, MessageEnvelope, MessageHeader, MessageKind, PayloadRef,
    PayloadStorage, ProtocolError, RedactionState, TraceContext, MESSAGE_FLAG_AUDIT_REQUIRED,
    MESSAGE_FLAG_SHARED_MEMORY,
};

fn header(id: u128) -> MessageHeader<'static> {
    MessageHeader::new(id, "runtime:init", "agent:alpha", "op", MessageKind::Request)
}

#[test]
fn payload_validation_errors() {
    assert_eq!(PayloadRef::inline("p", 0, 1).validate(), Ok(()));
    assert_eq!(PayloadRef::inline("", 0, 1).validate(), Err(ProtocolError::MissingField));
    assert_eq!(PayloadRef::inline("p", 0, 0).validate(), Err(ProtocolError::InvalidMessage));
    assert_eq!(PayloadRef::inline("p", 0, 65536).validate(), Ok(()));
    assert_eq!(
        PayloadRef::inline("p", 0, 65537).validate(),
        Err(ProtocolError::PayloadTooLarge)
    );
    // Inline payloads need no content reference; referenced ones do.
    assert!(!PayloadRef::inline("p", 0, 1).is_referenced());
    assert_eq!(PayloadRef::shared("p", "", 1).validate(), Err(ProtocolError::MissingField));
    assert_eq!(PayloadRef::external("p", "", 1).validate(), Err(ProtocolError::MissingField));
    assert!(PayloadRef::external("p", "cas:1", 1).is_referenced());
    assert_eq!(PayloadRef::external("p", "cas:1", 1).validate(), Ok(()));
    assert_eq!(
        PayloadRef::inline("p", 0, 1)
            .with_redaction(DataClass::Public, RedactionState::Public)
            .validate(),
        Ok(())
    );
}

#[test]
fn payload_constructors_set_fields() {
    let p = PayloadRef::inline("in", 7, 9);
    assert_eq!((p.offset, p.len, p.content_ref), (7, 9, ""));
    assert_eq!(p.storage, PayloadStorage::Inline);
    let s = PayloadRef::shared("sh", "shm:1", 3);
    assert_eq!((s.offset, s.len, s.content_ref), (0, 3, "shm:1"));
    assert_eq!(s.storage.label(), "shared_memory");
    assert_eq!(PayloadRef::external("e", "x", 1).storage.label(), "external");
    assert_eq!(PayloadStorage::Inline.label(), "inline");
}

#[test]
fn header_validation_errors() {
    assert_eq!(header(1).validate(), Ok(()));
    assert_eq!(header(0).validate(), Err(ProtocolError::InvalidMessage));
    assert_eq!(header(1).with_flags(0x20).validate(), Err(ProtocolError::ReservedBits));
    assert_eq!(
        header(1).with_trace(TraceContext::new(1, 0)).validate(),
        Err(ProtocolError::InvalidTrace)
    );
    assert_eq!(
        header(1)
            .with_redaction(DataClass::Secret, RedactionState::Public)
            .validate(),
        Err(ProtocolError::InvalidRedaction)
    );
    let mut bad_version = header(1);
    bad_version.schema_version = "alani.message.v2";
    assert_eq!(bad_version.validate(), Err(ProtocolError::InvalidSchemaVersion));
    let empty_target = MessageHeader::new(1, "a", "", "op", MessageKind::Event);
    assert_eq!(empty_target.validate(), Err(ProtocolError::MissingField));
}

#[test]
fn header_audit_and_kind_labels() {
    assert!(!header(1).requires_audit());
    assert!(header(1).with_flags(MESSAGE_FLAG_AUDIT_REQUIRED).requires_audit());
    let control = MessageHeader::new(1, "a", "b", "c", MessageKind::Control);
    assert!(control.requires_audit());
    assert!(MessageKind::Evidence.is_audit_relevant());
    assert!(!MessageKind::Signal.is_audit_relevant());
    assert_eq!(MessageKind::Request.label(), "request");
    assert_eq!(MessageKind::Response.label(), "response");
    assert_eq!(MessageKind::Evidence.label(), "evidence");
    assert_eq!(header(1).with_correlation(9).correlation_id, 9);
}

#[test]
fn envelope_capacity_is_the_smaller_of_n_and_four() {
    let mut small = MessageEnvelope::<2>::new(header(1));
    assert!(small.is_empty());
    assert_eq!(small.add_payload(PayloadRef::inline("a", 0, 1)), Ok(()));
    assert_eq!(small.add_payload(PayloadRef::inline("b", 0, 2)), Ok(()));
    assert_eq!(
        small.add_payload(PayloadRef::inline("c", 0, 3)),
        Err(ProtocolError::CapacityExceeded)
    );
    assert_eq!(small.payload_count(), 2);

    let mut large = MessageEnvelope::<8>::new(header(1));
    for i in 0..4u32 {
        assert_eq!(large.add_payload(PayloadRef::inline("p", 0, i + 1)), Ok(()));
    }
    assert_eq!(
        large.add_payload(PayloadRef::inline("p", 0, 9)),
        Err(ProtocolError::CapacityExceeded)
    );
    assert_eq!(large.payload_count(), 4);
    assert_eq!(large.payload_len(), 1 + 2 + 3 + 4);
    assert_eq!(large.validate(), Ok(()));
}

#[test]
fn rejected_payload_leaves_envelope_unchanged() {
    let mut envelope = MessageEnvelope::<4>::new(header(1));
    let before = envelope;
    assert_eq!(
        envelope.add_payload(PayloadRef::inline("p", 0, 0)),
        Err(ProtocolError::InvalidMessage)
    );
    assert_eq!(envelope, before);
    assert_eq!(envelope.payload(0), None);
}

#[test]
fn added_payload_is_read_back() {
    let mut envelope = MessageEnvelope::<4>::new(header(1));
    let first = PayloadRef::inline("first", 0, 10);
    let second = PayloadRef::external("second", "cas:2", 20);
    envelope.add_payload(first).unwrap();
    envelope.add_payload(second).unwrap();
    assert_eq!(envelope.payload(0), Some(first));
    assert_eq!(envelope.payload(1), Some(second));
    assert_eq!(envelope.payload(2), None);
    assert_eq!(envelope.payload(100), None);
    assert_eq!(envelope.payload_len(), 30);
    assert!(!envelope.is_empty());
}

#[test]
fn payload_len_of_maximal_payloads_is_exact() {
    let mut envelope = MessageEnvelope::<4>::new(header(1));
    for _ in 0..4 {
        envelope.add_payload(PayloadRef::inline("p", 0, 65536)).unwrap();
    }
    assert_eq!(envelope.payload_len(), 4 * 65536);
}

#[test]
fn envelope_validation_checks_header_first() {
    let mut envelope = MessageEnvelope::<2>::new(header(0));
    envelope.add_payload(PayloadRef::shared("p", "shm:1", 1)).unwrap();
    assert_eq!(envelope.validate(), Err(ProtocolError::InvalidMessage));
    let mut flagged =
        MessageEnvelope::<2>::new(header(1).with_flags(MESSAGE_FLAG_SHARED_MEMORY));
    flagged.add_payload(PayloadRef::shared("p", "shm:1", 1)).unwrap();
    assert_eq!(flagged.validate(), Ok(()));
    let mut unflagged = MessageEnvelope::<2>::new(header(1));
    unflagged.add_payload(PayloadRef::inline("p", 0, 1)).unwrap();
    assert_eq!(unflagged.validate(), Ok(()));
}

#[test]
fn message_descriptor_fields() {
    let d = MessageDescriptor::new("message", 3);
    assert_eq!((d.name, d.version), ("message", 3));
    let d = IpcDescriptor::new("ipc", 4);
    assert_eq!((d.name, d.version), ("ipc", 4));
}

fn endpoints() -> (IpcEndpoint<'static>, IpcEndpoint<'static>) {
    (
        IpcEndpoint::new(1, EndpointKind::Runtime, "runtime:init", "runtime"),
        IpcEndpoint::new(2, EndpointKind::Agent, "agent:alpha", "runtime"),
    )
}

#[test]
fn endpoint_validation_errors() {
    let (source, _) = endpoints();
    assert!(source.can_send() && source.can_receive());
    assert_eq!(source.validate(), Ok(()));
    let mut zero = source;
    zero.endpoint_id = 0;
    assert_eq!(zero.validate(), Err(ProtocolError::InvalidIpc));
    assert_eq!(source.with_flags(0).validate(), Err(ProtocolError::InvalidIpc));
    assert_eq!(source.with_flags(0x10).validate(), Err(ProtocolError::ReservedBits));
    assert_eq!(source.with_flags(0x01).validate(), Ok(()));
    let long_label = "l".repeat(97);
    let long = IpcEndpoint::new(1, EndpointKind::Agent, &long_label, "c");
    assert_eq!(long.validate(), Err(ProtocolError::FieldTooLong));
}

#[test]
fn endpoint_and_status_audit_rules() {
    let (source, target) = endpoints();
    assert!(!source.requires_audit());
    assert!(source.with_flags(0x03 | IPC_ENDPOINT_FLAG_AUDIT).requires_audit());
    let kernel = IpcEndpoint::new(3, EndpointKind::Kernel, "k", "kernel");
    assert!(kernel.requires_audit());
    assert!(IpcStatus::Denied.requires_audit());
    assert!(!IpcStatus::Delivered.requires_audit());
    assert_eq!(IpcStatus::Expired.label(), "expired");
    assert_eq!(EndpointKind::Observability.label(), "observability");
    let flow = IpcFlow::new(source, target, "f");
    assert!(!flow.requires_audit());
    assert!(flow.with_status(IpcStatus::Failed).requires_audit());
}

#[test]
fn flow_validation_and_expiry() {
    let (source, target) = endpoints();
    let flow = IpcFlow::new(source, target, "runtime_to_agent");
    assert_eq!(flow.validate(), Ok(()));
    assert_eq!(
        IpcFlow::new(source, target.with_flags(0x01), "f").validate(),
        Err(ProtocolError::AccessDenied)
    );
    assert_eq!(
        IpcFlow::new(source.with_flags(0x02), target, "f").validate(),
        Err(ProtocolError::AccessDenied)
    );
    assert_eq!(IpcFlow::new(source, target, "").validate(), Err(ProtocolError::MissingField));
    assert!(!flow.is_expired(u64::MAX));
    let timed = flow.with_deadline(100);
    assert!(!timed.is_expired(100));
    assert!(timed.is_expired(101));
    assert!(timed.is_expired(u64::MAX));
}

#[test]
fn route_hint_rules() {
    assert!(IpcRouteHint::empty().is_empty());
    assert_eq!(IpcRouteHint::empty().validate(), Ok(()));
    assert_eq!(IpcRouteHint::new(5, "r", 4).validate(), Ok(()));
    assert_eq!(IpcRouteHint::new(0, "r", 4).validate(), Err(ProtocolError::InvalidIpc));
    assert_eq!(IpcRouteHint::new(5, "r", 0).validate(), Err(ProtocolError::InvalidIpc));
    let mut hops = IpcRouteHint::new(5, "r", 2);
    hops.hop_count = 3;
    assert_eq!(hops.validate(), Err(ProtocolError::InvalidIpc));
    assert_eq!(IpcRouteHint::new(5, "", 2).validate(), Err(ProtocolError::MissingField));
    let broker = "b".repeat(97);
    assert_eq!(
        IpcRouteHint::new(5, "r", 2).with_broker(&broker).validate(),
        Err(ProtocolError::FieldTooLong)
    );
    assert_eq!(IpcRouteHint::new(5, "r", 2).with_broker("broker").validate(), Ok(()));
}

#[test]
fn valid_ipc_envelope_guarantees() {
    let (source, target) = endpoints();
    let flow = IpcFlow::new(source, target, "f");
    let response = MessageHeader::new(9, "runtime:init", "agent:alpha", "r", MessageKind::Response)
        .with_correlation(3);
    let ipc = IpcEnvelope::new(flow, MessageEnvelope::<1>::new(response));
    assert_eq!(ipc.validate(), Ok(()));
    assert!(ipc.route.is_empty());
    assert!(!ipc.requires_audit());
    let swapped = MessageHeader::new(9, "agent:alpha", "runtime:init", "r", MessageKind::Event);
    assert_eq!(
        IpcEnvelope::new(flow, MessageEnvelope::<1>::new(swapped)).validate(),
        Err(ProtocolError::InvalidIpc)
    );
    let bad_route = ipc.with_route(IpcRouteHint::new(0, "r", 1));
    assert_eq!(bad_route.validate(), Err(ProtocolError::InvalidIpc));
    let audited = MessageHeader::new(9, "runtime:init", "agent:alpha", "r", MessageKind::Control);
    assert!(IpcEnvelope::new(flow, MessageEnvelope::<1>::new(audited)).requires_audit());
}

#[test]
fn message_and_ipc_wire_codes() {
    assert_eq!(MessageKind::Request.code(), 1);
    assert_eq!(MessageKind::Evidence.code(), 6);
    assert_eq!(PayloadStorage::Inline.code(), 1);
    assert_eq!(PayloadStorage::External.code(), 3);
    assert_eq!(EndpointKind::Kernel.code(), 1);
    assert_eq!(EndpointKind::External.code(), 8);
    assert_eq!(IpcStatus::Pending.code(), 1);
    assert_eq!(IpcStatus::Failed.code(), 5);
}

#[test]
fn envelope_header_getter_and_new_header_validation() {
    let h = header(5);
    assert_eq!(MessageEnvelope::<1>::new(h).header(), h);
    let wide = "\u{e9}".repeat(64);
    assert_eq!(
        MessageHeader::new(1, &wide, "t", "o", MessageKind::Event).validate(),
        Ok(())
    );
    let wider = format!("{}x", wide);
    assert_eq!(
        MessageHeader::new(1, &wider, "t", "o", MessageKind::Event).validate(),
        Err(ProtocolError::FieldTooLong)
    );
    assert_eq!(
        MessageHeader::new(0, "s", "t", "o", MessageKind::Event).validate(),
        Err(ProtocolError::InvalidMessage)
    );
}

#[test]
fn flow_validation_order() {
    let (source, target) = endpoints();
    let mut bad_source = source;
    bad_source.endpoint_id = 0;
    // Endpoint errors come before the label and the send/receive rule.
    assert_eq!(
        IpcFlow::new(bad_source, target.with_flags(0x01), "").validate(),
        Err(ProtocolError::InvalidIpc)
    );
    assert_eq!(
        IpcFlow::new(source, target.with_flags(0x01), "").validate(),
        Err(ProtocolError::MissingField)
    );
}
