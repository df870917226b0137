//! Transport message envelopes and payload reference schemas.
//!
//! These types describe message metadata shared by IPC, runtime, terminal,
//! observability, and test crates. They validate sizes, schema versions,
//! redaction state, trace context, and reserved flag bits, but they do not own
//! delivery or queueing behavior.

use vstd::prelude::*;
use vstd::string::StringSliceAdditionalSpecFns;

use crate::{
    first_failure, validate_label, validate_redaction, validate_schema_version, DataClass,
    ProtocolError, ProtocolResult, RedactionState, TraceContext, INVALID_PROTOCOL_ID,
    MAX_PROTOCOL_LABEL_LEN,
};

verus! {

/// Message schema version owned by this crate.
pub const MESSAGE_SCHEMA_VERSION: &'static str = "alani.message.v1";

/// Maximum component, route, or payload label length.
pub const MAX_MESSAGE_LABEL_LEN: usize = 128;

/// Maximum inline message payload bytes (64 KiB).
pub const MAX_INLINE_PAYLOAD_BYTES: u64 = 65536;

/// Maximum payload references in one envelope.
pub const MAX_PAYLOAD_REFS: usize = 4;

/// Message expects a response.
pub const MESSAGE_FLAG_REQUIRES_REPLY: u32 = 0x01;

/// Message references shared memory.
pub const MESSAGE_FLAG_SHARED_MEMORY: u32 = 0x02;

/// Message decision or operation must be audited.
pub const MESSAGE_FLAG_AUDIT_REQUIRED: u32 = 0x04;

/// Payload is encrypted and requires decryption metadata outside this schema.
pub const MESSAGE_FLAG_ENCRYPTED: u32 = 0x08;

/// Payload is compressed.
pub const MESSAGE_FLAG_COMPRESSED: u32 = 0x10;

/// All message flags known by this crate version (the union of the five
/// flags above).
pub const MESSAGE_KNOWN_FLAGS: u32 = 0x1f;

/// Message kind used by protocol envelopes.
#[derive(Clone, Copy, Debug, PartialEq, Eq, Structural)]
pub enum MessageKind {
    /// Request expecting optional response.
    Request,
    /// Response to a request.
    Response,
    /// Event notification.
    Event,
    /// Signal or wakeup notification.
    Signal,
    /// Control-plane message.
    Control,
    /// Audit/event evidence transport.
    Evidence,
}

impl MessageKind {
    /// Stable numeric wire code of the message kind.
    #[verifier::allow_in_spec]
    pub fn code(self) -> u8
        returns
            match self {
                MessageKind::Request => 1u8,
                MessageKind::Response => 2u8,
                MessageKind::Event => 3u8,
                MessageKind::Signal => 4u8,
                MessageKind::Control => 5u8,
                MessageKind::Evidence => 6u8,
            },
    {
        match self {
            MessageKind::Request => 1,
            MessageKind::Response => 2,
            MessageKind::Event => 3,
            MessageKind::Signal => 4,
            MessageKind::Control => 5,
            MessageKind::Evidence => 6,
        }
    }

    /// Stable kind label.
    #[verifier::allow_in_spec]
    pub fn label(self) -> &'static str
        returns
            match self {
                MessageKind::Request => "request",
                MessageKind::Response => "response",
                MessageKind::Event => "event",
                MessageKind::Signal => "signal",
                MessageKind::Control => "control",
                MessageKind::Evidence => "evidence",
            },
    {
        match self {
            MessageKind::Request => "request",
            MessageKind::Response => "response",
            MessageKind::Event => "event",
            MessageKind::Signal => "signal",
            MessageKind::Control => "control",
            MessageKind::Evidence => "evidence",
        }
    }

    /// Returns `true` when messages of this kind are security-sensitive.
    #[verifier::allow_in_spec]
    pub fn is_audit_relevant(self) -> bool
        returns
            self is Control || self is Evidence,
    {
        matches!(self, MessageKind::Control | MessageKind::Evidence)
    }
}

/// Payload storage class.
#[derive(Clone, Copy, Debug, PartialEq, Eq, Structural)]
pub enum PayloadStorage {
    /// Payload bytes are carried inline by the transport.
    Inline,
    /// Payload bytes are in a shared-memory handle described by the sender.
    SharedMemory,
    /// Payload bytes are external and content-addressed.
    External,
}

impl PayloadStorage {
    /// Stable numeric wire code of the payload storage.
    #[verifier::allow_in_spec]
    pub fn code(self) -> u8
        returns
            match self {
                PayloadStorage::Inline => 1u8,
                PayloadStorage::SharedMemory => 2u8,
                PayloadStorage::External => 3u8,
            },
    {
        match self {
            PayloadStorage::Inline => 1,
            PayloadStorage::SharedMemory => 2,
            PayloadStorage::External => 3,
        }
    }

    /// Stable storage label.
    #[verifier::allow_in_spec]
    pub fn label(self) -> &'static str
        returns
            match self {
                PayloadStorage::Inline => "inline",
                PayloadStorage::SharedMemory => "shared_memory",
                PayloadStorage::External => "external",
            },
    {
        match self {
            PayloadStorage::Inline => "inline",
            PayloadStorage::SharedMemory => "shared_memory",
            PayloadStorage::External => "external",
        }
    }
}

/// Payload reference inside a protocol message envelope.
#[derive(Clone, Copy, Debug, PartialEq, Eq)]
pub struct PayloadRef<'a> {
    /// Human-readable payload label.
    pub label: &'a str,
    /// Storage class.
    pub storage: PayloadStorage,
    /// Offset within inline/shared storage.
    pub offset: u32,
    /// Payload length in bytes.
    pub len: u32,
    /// Stable content identifier or external URI. Empty for purely inline data.
    pub content_ref: &'a str,
    /// Payload data class.
    pub data_class: DataClass,
    /// Payload redaction state.
    pub redaction: RedactionState,
}

impl<'a> PayloadRef<'a> {
    /// Creates an inline payload reference.
    #[verifier::allow_in_spec]
    pub fn inline(label: &'a str, offset: u32, len: u32) -> Self
        returns
            (PayloadRef {
                label,
                storage: PayloadStorage::Inline,
                offset,
                len,
                content_ref: "",
                data_class: DataClass::Operational,
                redaction: RedactionState::Operational,
            }),
    {
        PayloadRef {
            label,
            storage: PayloadStorage::Inline,
            offset,
            len,
            content_ref: "",
            data_class: DataClass::Operational,
            redaction: RedactionState::Operational,
        }
    }

    /// Creates a shared-memory payload reference.
    #[verifier::allow_in_spec]
    pub fn shared(label: &'a str, content_ref: &'a str, len: u32) -> Self
        returns
            (PayloadRef {
                label,
                storage: PayloadStorage::SharedMemory,
                offset: 0,
                len,
                content_ref,
                data_class: DataClass::Operational,
                redaction: RedactionState::Operational,
            }),
    {
        PayloadRef {
            label,
            storage: PayloadStorage::SharedMemory,
            offset: 0,
            len,
            content_ref,
            data_class: DataClass::Operational,
            redaction: RedactionState::Operational,
        }
    }

    /// Creates an external content-addressed payload reference.
    #[verifier::allow_in_spec]
    pub fn external(label: &'a str, content_ref: &'a str, len: u32) -> Self
        returns
            (PayloadRef {
                label,
                storage: PayloadStorage::External,
                offset: 0,
                len,
                content_ref,
                data_class: DataClass::Operational,
                redaction: RedactionState::Operational,
            }),
    {
        PayloadRef {
            label,
            storage: PayloadStorage::External,
            offset: 0,
            len,
            content_ref,
            data_class: DataClass::Operational,
            redaction: RedactionState::Operational,
        }
    }

    /// Sets redaction metadata.
    #[verifier::allow_in_spec]
    pub fn with_redaction(self, data_class: DataClass, redaction: RedactionState) -> Self
        returns
            (PayloadRef { data_class, redaction, ..self }),
    {
        let mut r = self;
        r.data_class = data_class;
        r.redaction = redaction;
        r
    }

    /// Returns `true` when the payload is carried outside the inline envelope.
    #[verifier::allow_in_spec]
    pub fn is_referenced(self) -> bool
        returns
            !(self.storage is Inline),
    {
        !matches!(self.storage, PayloadStorage::Inline)
    }

    /// Validates payload metadata: the label, a non-zero length of at most
    /// `MAX_INLINE_PAYLOAD_BYTES`, a content reference for referenced
    /// payloads, and the redaction state.
    #[verifier::allow_in_spec]
    pub fn validate(self) -> ProtocolResult<()>
        returns
            first_failure(
                validate_label(self.label, MAX_MESSAGE_LABEL_LEN),
                if self.len == 0 {
                    Err(ProtocolError::InvalidMessage)
                } else if self.len > MAX_INLINE_PAYLOAD_BYTES {
                    Err(ProtocolError::PayloadTooLarge)
                } else {
                    first_failure(
                        if self.is_referenced() {
                            validate_label(self.content_ref, MAX_PROTOCOL_LABEL_LEN)
                        } else {
                            Ok(())
                        },
                        validate_redaction(self.data_class, self.redaction),
                    )
                },
            ),
    {
        validate_label(self.label, MAX_MESSAGE_LABEL_LEN)?;
        if self.len == 0 {
            return Err(ProtocolError::InvalidMessage);
        }
        if self.len as u64 > MAX_INLINE_PAYLOAD_BYTES {
            return Err(ProtocolError::PayloadTooLarge);
        }
        if self.is_referenced() {
            validate_label(self.content_ref, MAX_PROTOCOL_LABEL_LEN)?;
        }
        validate_redaction(self.data_class, self.redaction)
    }
}

/// Message header shared by transport and IPC envelopes.
#[derive(Clone, Copy, Debug, PartialEq, Eq)]
pub struct MessageHeader<'a> {
    /// Schema version.
    pub schema_version: &'a str,
    /// Stable message identifier.
    pub message_id: u128,
    /// Correlation identifier for request/response flows.
    pub correlation_id: u128,
    /// Source component or endpoint label.
    pub source: &'a str,
    /// Target component or endpoint label.
    pub target: &'a str,
    /// Operation name.
    pub operation: &'a str,
    /// Message kind.
    pub kind: MessageKind,
    /// Priority bucket. Zero is normal.
    pub priority: u8,
    /// Message flags.
    pub flags: u32,
    /// Trace context.
    pub trace: TraceContext,
    /// Header data class.
    pub data_class: DataClass,
    /// Header redaction state.
    pub redaction: RedactionState,
}

impl<'a> MessageHeader<'a> {
    /// Creates a message header.
    #[verifier::allow_in_spec]
    pub fn new(
        message_id: u128,
        source: &'a str,
        target: &'a str,
        operation: &'a str,
        kind: MessageKind,
    ) -> Self
        returns
            (MessageHeader {
                schema_version: MESSAGE_SCHEMA_VERSION,
                message_id,
                correlation_id: 0,
                source,
                target,
                operation,
                kind,
                priority: 0,
                flags: 0,
                trace: TraceContext::empty(),
                data_class: DataClass::Operational,
                redaction: RedactionState::Operational,
            }),
    {
        MessageHeader {
            schema_version: MESSAGE_SCHEMA_VERSION,
            message_id,
            correlation_id: 0,
            source,
            target,
            operation,
            kind,
            priority: 0,
            flags: 0,
            trace: TraceContext::empty(),
            data_class: DataClass::Operational,
            redaction: RedactionState::Operational,
        }
    }

    /// Sets correlation id.
    #[verifier::allow_in_spec]
    pub fn with_correlation(self, correlation_id: u128) -> Self
        returns
            (MessageHeader { correlation_id, ..self }),
    {
        let mut r = self;
        r.correlation_id = correlation_id;
        r
    }

    /// Sets flags.
    #[verifier::allow_in_spec]
    pub fn with_flags(self, flags: u32) -> Self
        returns
            (MessageHeader { flags, ..self }),
    {
        let mut r = self;
        r.flags = flags;
        r
    }

    /// Sets trace context.
    #[verifier::allow_in_spec]
    pub fn with_trace(self, trace: TraceContext) -> Self
        returns
            (MessageHeader { trace, ..self }),
    {
        let mut r = self;
        r.trace = trace;
        r
    }

    /// Sets data classification.
    #[verifier::allow_in_spec]
    pub fn with_redaction(self, data_class: DataClass, redaction: RedactionState) -> Self
        returns
            (MessageHeader { data_class, redaction, ..self }),
    {
        let mut r = self;
        r.data_class = data_class;
        r.redaction = redaction;
        r
    }

    /// Returns `true` when audit evidence should be emitted.
    #[verifier::allow_in_spec]
    pub fn requires_audit(self) -> bool
        returns
            self.kind.is_audit_relevant() || self.flags & MESSAGE_FLAG_AUDIT_REQUIRED != 0,
    {
        self.kind.is_audit_relevant() || self.flags & MESSAGE_FLAG_AUDIT_REQUIRED != 0
    }

    /// Validates header metadata: schema version, a non-zero message id, the
    /// source, target and operation labels, reserved flag bits, the trace
    /// context and the redaction state, in that order.
    #[verifier::allow_in_spec]
    pub fn validate(self) -> ProtocolResult<()>
        returns
            first_failure(
                validate_schema_version(self.schema_version),
                if self.message_id == INVALID_PROTOCOL_ID {
                    Err(ProtocolError::InvalidMessage)
                } else {
                    first_failure(
                        validate_label(self.source, MAX_MESSAGE_LABEL_LEN),
                        first_failure(
                            validate_label(self.target, MAX_MESSAGE_LABEL_LEN),
                            first_failure(
                                validate_label(self.operation, MAX_MESSAGE_LABEL_LEN),
                                if self.flags & !MESSAGE_KNOWN_FLAGS != 0 {
                                    Err(ProtocolError::ReservedBits)
                                } else {
                                    first_failure(
                                        self.trace.validate(),
                                        validate_redaction(self.data_class, self.redaction),
                                    )
                                },
                            ),
                        ),
                    )
                },
            ),
    {
        validate_schema_version(self.schema_version)?;
        if self.message_id == INVALID_PROTOCOL_ID {
            return Err(ProtocolError::InvalidMessage);
        }
        validate_label(self.source, MAX_MESSAGE_LABEL_LEN)?;
        validate_label(self.target, MAX_MESSAGE_LABEL_LEN)?;
        validate_label(self.operation, MAX_MESSAGE_LABEL_LEN)?;
        if self.flags & !MESSAGE_KNOWN_FLAGS != 0 {
            return Err(ProtocolError::ReservedBits);
        }
        self.trace.validate()?;
        validate_redaction(self.data_class, self.redaction)
    }
}

/// The outcome of validating stored payload slots front to back: the first
/// empty slot is an internal failure, the first invalid payload gives its own
/// error.
pub open spec fn payloads_outcome<'a>(slots: Seq<Option<PayloadRef<'a>>>) -> ProtocolResult<()>
    decreases slots.len(),
{
    if slots.len() == 0 {
        Ok(())
    } else {
        match slots[0] {
            None => Err(ProtocolError::Internal),
            Some(p) => first_failure(p.validate(), payloads_outcome(slots.drop_first())),
        }
    }
}

/// Some stored payload lives in shared memory.
pub open spec fn references_shared_memory<'a>(slots: Seq<Option<PayloadRef<'a>>>) -> bool {
    exists|i: int|
        0 <= i < slots.len() && (#[trigger] slots[i] matches Some(p) && p.storage is SharedMemory)
}

/// Sum of the declared lengths of the stored payloads.
pub open spec fn declared_len<'a>(slots: Seq<Option<PayloadRef<'a>>>) -> int
    decreases slots.len(),
{
    if slots.len() == 0 {
        0
    } else {
        declared_len(slots.drop_last()) + match slots.last() {
            Some(p) => p.len as int,
            None => 0,
        }
    }
}

/// Abstract state of a message envelope: its header, its `capacity`
/// payload slots, and how many of them are in use.
pub ghost struct MessageEnvelopeView<'a> {
    pub header: MessageHeader<'a>,
    pub capacity: nat,
    pub slots: Seq<Option<PayloadRef<'a>>>,
    pub count: nat,
}

impl<'a> MessageEnvelopeView<'a> {
    /// The slots in use, oldest first.
    pub open spec fn payloads(self) -> Seq<Option<PayloadRef<'a>>> {
        self.slots.subrange(0, self.count as int)
    }

    /// The slots in use lie within the envelope's capacity.
    pub open spec fn bounded(self) -> bool {
        self.slots.len() == self.capacity && self.count <= self.capacity
    }

    /// The state that every envelope built by `new` and `add_payload` is in:
    /// no more payloads than the capacity and `MAX_PAYLOAD_REFS`, and every
    /// slot in use holds a payload that validates.
    pub open spec fn well_formed(self) -> bool {
        &&& self.bounded()
        &&& self.count <= MAX_PAYLOAD_REFS
        &&& forall|i: int|
            0 <= i < self.count ==> (#[trigger] self.slots[i] matches Some(p) && p.validate()
                is Ok)
    }

    /// The payload at `index`, if that slot is in use.
    pub open spec fn payload_at(self, index: int) -> Option<PayloadRef<'a>> {
        if 0 <= index < self.count {
            self.slots[index]
        } else {
            None
        }
    }

    /// What `add_payload` answers: the envelope must have room, then the
    /// payload must validate.
    pub open spec fn add_outcome(self, payload: PayloadRef<'a>) -> ProtocolResult<()> {
        if self.count >= self.capacity || self.count >= MAX_PAYLOAD_REFS {
            Err(ProtocolError::CapacityExceeded)
        } else {
            payload.validate()
        }
    }

    /// The envelope with `payload` stored in the next free slot.
    pub open spec fn with_payload(self, payload: PayloadRef<'a>) -> MessageEnvelopeView<'a> {
        MessageEnvelopeView {
            slots: self.slots.update(self.count as int, Some(payload)),
            count: self.count + 1,
            ..self
        }
    }

    /// What `validate` answers: the header, the slot count, each stored
    /// payload in order, and then the rule that shared-memory payloads need
    /// the shared-memory flag.
    pub open spec fn validation(self) -> ProtocolResult<()> {
        first_failure(
            self.header.validate(),
            if self.count > self.capacity || self.count > MAX_PAYLOAD_REFS {
                Err(ProtocolError::InvalidMessage)
            } else {
                first_failure(
                    payloads_outcome(self.payloads()),
                    if references_shared_memory(self.payloads()) && self.header.flags
                        & MESSAGE_FLAG_SHARED_MEMORY == 0 {
                        Err(ProtocolError::InvalidMessage)
                    } else {
                        Ok(())
                    },
                )
            },
        )
    }
}

/// Complete protocol message envelope with fixed payload-reference capacity.
#[derive(Clone, Copy, Debug, PartialEq, Eq)]
pub struct MessageEnvelope<'a, const N: usize> {
    /// Message header.
    pub header: MessageHeader<'a>,
    payloads: [Option<PayloadRef<'a>>; N],
    payload_count: usize,
}

impl<'a, const N: usize> View for MessageEnvelope<'a, N> {
    type V = MessageEnvelopeView<'a>;

    closed spec fn view(&self) -> MessageEnvelopeView<'a> {
        MessageEnvelopeView {
            header: self.header,
            capacity: N as nat,
            slots: self.payloads@,
            count: self.payload_count as nat,
        }
    }
}

impl<'a, const N: usize> MessageEnvelope<'a, N> {
    /// The envelope's invariant (see `MessageEnvelopeView::well_formed`).
    pub open spec fn wf(self) -> bool {
        self@.well_formed() && self@.capacity == N
    }

    /// Returns the message header.
    pub fn header(self) -> (r: MessageHeader<'a>)
        ensures
            r == self@.header,
    {
        self.header
    }

    /// Creates an empty message envelope.
    pub fn new(header: MessageHeader<'a>) -> (r: Self)
        ensures
            r@.header == header,
            r@.capacity == N,
            r@.count == 0,
            r@.slots == Seq::new(N as nat, |i: int| None::<PayloadRef<'a>>),
            r.wf(),
    {
        let r = MessageEnvelope { header, payloads: [None; N], payload_count: 0 };
        assert(r@.slots =~= Seq::new(N as nat, |i: int| None::<PayloadRef<'a>>));
        r
    }

    /// Returns payload-reference count.
    pub fn payload_count(self) -> (r: usize)
        ensures
            r == self@.count,
    {
        self.payload_count
    }

    /// Returns `true` when no payload references are present.
    pub fn is_empty(self) -> (r: bool)
        ensures
            r == (self@.count == 0),
    {
        self.payload_count == 0
    }

    /// Adds a payload reference. On success the payload occupies the next
    /// slot; on failure the envelope is unchanged.
    pub fn add_payload(&mut self, payload: PayloadRef<'a>) -> (r: ProtocolResult<()>)
        ensures
            old(self).wf() ==> final(self).wf(),
            final(self)@.capacity == old(self)@.capacity,
            r == old(self)@.add_outcome(payload),
            r is Ok ==> final(self)@ == old(self)@.with_payload(payload),
            r is Err ==> final(self)@ == old(self)@,
    {
        if self.payload_count >= N || self.payload_count >= MAX_PAYLOAD_REFS {
            return Err(ProtocolError::CapacityExceeded);
        }
        payload.validate()?;
        self.payloads[self.payload_count] = Some(payload);
        self.payload_count += 1;
        proof {
            let v = final(self)@;
            assert(v.slots =~= old(self)@.with_payload(payload).slots);
        }
        Ok(())
    }

    /// Returns a payload by index.
    pub fn payload(self, index: usize) -> (r: Option<PayloadRef<'a>>)
        requires
            self@.bounded(),
        ensures
            r == self@.payload_at(index as int),
    {
        if index >= self.payload_count {
            None
        } else {
            self.payloads[index]
        }
    }

    /// Computes the declared payload byte length, saturating at `u64::MAX`.
    pub fn payload_len(self) -> (r: u64)
        requires
            self@.bounded(),
        ensures
            r == if declared_len(self@.payloads()) > u64::MAX {
                u64::MAX as int
            } else {
                declared_len(self@.payloads())
            },
    {
        let mut total: u64 = 0;
        let mut index: usize = 0;
        while index < self.payload_count
            invariant
                self@.bounded(),
                index <= self.payload_count,
                total == if declared_len(self@.payloads().subrange(0, index as int)) > u64::MAX {
                    u64::MAX as int
                } else {
                    declared_len(self@.payloads().subrange(0, index as int))
                },
            decreases self.payload_count - index,
        {
            let ghost s = self@.payloads();
            proof {
                assert(s.subrange(0, index + 1).drop_last() =~= s.subrange(0, index as int));
                assert(s.subrange(0, index + 1).last() == s[index as int]);
                assert(s[index as int] == self.payloads@[index as int]);
                assert(declared_len(s.subrange(0, index as int)) >= 0) by {
                    lemma_declared_len_nonneg(s.subrange(0, index as int));
                }
            }
            if let Some(payload) = self.payloads[index] {
                total = total.saturating_add(payload.len as u64);
            }
            index += 1;
        }
        assert(self@.payloads().subrange(0, index as int) =~= self@.payloads());
        total
    }

    /// Validates header and payload references.
    #[verifier::allow_in_spec]
    pub fn validate(self) -> ProtocolResult<()>
        returns
            self@.validation(),
    {
        self.header.validate()?;
        if self.payload_count > N || self.payload_count > MAX_PAYLOAD_REFS {
            return Err(ProtocolError::InvalidMessage);
        }
        let ghost s = self@.payloads();
        let mut has_shared = false;
        let mut index: usize = 0;
        assert(s.skip(0) =~= s);
        while index < self.payload_count
            invariant
                s == self@.payloads(),
                self.header.validate() is Ok,
                self.payload_count <= N,
                self.payload_count <= MAX_PAYLOAD_REFS,
                index <= self.payload_count,
                s.len() == self.payload_count,
                payloads_outcome(s) == payloads_outcome(s.skip(index as int)),
                has_shared == exists|j: int|
                    0 <= j < index && (#[trigger] s[j] matches Some(p) && p.storage is SharedMemory),
            decreases self.payload_count - index,
        {
            assert(s[index as int] == self.payloads@[index as int]);
            assert(s.skip(index as int)[0] == s[index as int]);
            assert(s.skip(index as int).drop_first() =~= s.skip(index + 1));
            match self.payloads[index] {
                None => {
                    return Err(ProtocolError::Internal);
                },
                Some(payload) => {
                    payload.validate()?;
                    if matches!(payload.storage, PayloadStorage::SharedMemory) {
                        has_shared = true;
                    }
                },
            }
            index += 1;
        }
        assert(s.skip(index as int).len() == 0);
        if has_shared && self.header.flags & MESSAGE_FLAG_SHARED_MEMORY == 0 {
            return Err(ProtocolError::InvalidMessage);
        }
        Ok(())
    }
}

/// `declared_len` never goes below zero.
pub proof fn lemma_declared_len_nonneg<'a>(slots: Seq<Option<PayloadRef<'a>>>)
    ensures
        declared_len(slots) >= 0,
    decreases slots.len(),
{
    if slots.len() > 0 {
        lemma_declared_len_nonneg(slots.drop_last());
    }
}

/// When every slot holds a payload that validates, walking the slots finds
/// no failure.
proof fn lemma_valid_slots_outcome<'a>(slots: Seq<Option<PayloadRef<'a>>>)
    requires
        forall|i: int|
            0 <= i < slots.len() ==> (#[trigger] slots[i] matches Some(p) && p.validate() is Ok),
    ensures
        payloads_outcome(slots) == Ok::<(), ProtocolError>(()),
    decreases slots.len(),
{
    if slots.len() > 0 {
        assert forall|i: int| 0 <= i < slots.drop_first().len() implies (
        #[trigger] slots.drop_first()[i] matches Some(p) && p.validate() is Ok) by {
            assert(slots.drop_first()[i] == slots[i + 1]);
        }
        lemma_valid_slots_outcome(slots.drop_first());
    }
}

/// The declared length of `n` payloads is at most `n` times `u32::MAX`.
proof fn lemma_declared_len_bound<'a>(slots: Seq<Option<PayloadRef<'a>>>)
    ensures
        0 <= declared_len(slots) <= slots.len() * 0xffff_ffff,
    decreases slots.len(),
{
    if slots.len() > 0 {
        lemma_declared_len_bound(slots.drop_last());
    }
}

/// A well-formed envelope (one built by `new` and `add_payload`) fails
/// validation only through its header or through a shared-memory payload
/// without the shared-memory flag: its stored payloads always validate.
pub proof fn law_well_formed_envelope_validation<'a>(v: MessageEnvelopeView<'a>)
    requires
        v.well_formed(),
    ensures
        v.validation() == first_failure(
            v.header.validate(),
            if references_shared_memory(v.payloads()) && v.header.flags
                & MESSAGE_FLAG_SHARED_MEMORY == 0 {
                Err(ProtocolError::InvalidMessage)
            } else {
                Ok(())
            },
        ),
{
    assert forall|i: int| 0 <= i < v.payloads().len() implies (
    #[trigger] v.payloads()[i] matches Some(p) && p.validate() is Ok) by {
        assert(v.payloads()[i] == v.slots[i]);
    }
    lemma_valid_slots_outcome(v.payloads());
}

/// A validated envelope that carries a shared-memory payload has the
/// shared-memory flag set.
pub proof fn law_shared_payload_needs_flag<'a>(v: MessageEnvelopeView<'a>)
    requires
        v.validation() is Ok,
        references_shared_memory(v.payloads()),
    ensures
        v.header.flags & MESSAGE_FLAG_SHARED_MEMORY != 0,
{
}

/// A payload accepted by `add_payload` is read back by `payload` at the
/// index it was added at, earlier payloads read back as before, the
/// envelope stays well-formed, and the declared length grows by exactly the
/// payload's length.
pub proof fn law_added_payload_read_back<'a>(v: MessageEnvelopeView<'a>, p: PayloadRef<'a>)
    requires
        v.well_formed(),
        v.add_outcome(p) is Ok,
    ensures
        v.with_payload(p).well_formed(),
        v.with_payload(p).count == v.count + 1,
        v.with_payload(p).payload_at(v.count as int) == Some(p),
        forall|i: int| 0 <= i < v.count ==> v.with_payload(p).payload_at(i) == v.payload_at(i),
        declared_len(v.with_payload(p).payloads()) == declared_len(v.payloads()) + p.len,
{
    let w = v.with_payload(p);
    assert(w.payloads() =~= v.payloads().push(Some(p)));
    assert(w.payloads().drop_last() =~= v.payloads());
}

/// The declared length of a well-formed envelope never reaches `u64::MAX`,
/// so `payload_len` reports it exactly.
pub proof fn law_payload_len_exact<'a>(v: MessageEnvelopeView<'a>)
    requires
        v.well_formed(),
    ensures
        0 <= declared_len(v.payloads()) < u64::MAX,
{
    lemma_declared_len_bound(v.payloads());
}

/// A header validates exactly when its schema version is valid, its message
/// id is non-zero, its source, target and operation each have between one
/// and `MAX_MESSAGE_LABEL_LEN` UTF-8 bytes, it sets no reserved flag, and
/// its trace and redaction state validate. An invalid schema version gives
/// its own error; with a valid one, a zero message id is an invalid message.
pub proof fn law_header_validation<'a>(h: MessageHeader<'a>)
    requires
        h.source.spec_bytes().len() <= usize::MAX,
        h.target.spec_bytes().len() <= usize::MAX,
        h.operation.spec_bytes().len() <= usize::MAX,
    ensures
        (h.validate() is Ok) == (validate_schema_version(h.schema_version) is Ok && h.message_id
            != 0 && 1 <= h.source.spec_bytes().len() <= MAX_MESSAGE_LABEL_LEN && 1
            <= h.target.spec_bytes().len() <= MAX_MESSAGE_LABEL_LEN && 1
            <= h.operation.spec_bytes().len() <= MAX_MESSAGE_LABEL_LEN && h.flags
            & !MESSAGE_KNOWN_FLAGS == 0 && h.trace.validate() is Ok && validate_redaction(
            h.data_class,
            h.redaction,
        ) is Ok),
        validate_schema_version(h.schema_version) is Ok && h.message_id == 0 ==> h.validate()
            == Err::<(), ProtocolError>(ProtocolError::InvalidMessage),
        validate_schema_version(h.schema_version) is Err ==> h.validate() == validate_schema_version(
            h.schema_version,
        ),
{
    crate::law_label_by_bytes(h.source, MAX_MESSAGE_LABEL_LEN);
    crate::law_label_by_bytes(h.target, MAX_MESSAGE_LABEL_LEN);
    crate::law_label_by_bytes(h.operation, MAX_MESSAGE_LABEL_LEN);
}

/// A freshly created header validates exactly when its message id is
/// non-zero and its source, target and operation each have between one and
/// `MAX_MESSAGE_LABEL_LEN` UTF-8 bytes.
pub proof fn law_new_header_validation<'a>(
    message_id: u128,
    source: &'a str,
    target: &'a str,
    operation: &'a str,
    kind: MessageKind,
)
    requires
        source.spec_bytes().len() <= usize::MAX,
        target.spec_bytes().len() <= usize::MAX,
        operation.spec_bytes().len() <= usize::MAX,
    ensures
        (MessageHeader::new(message_id, source, target, operation, kind).validate() is Ok) == (
        message_id != 0 && 1 <= source.spec_bytes().len() <= MAX_MESSAGE_LABEL_LEN && 1
            <= target.spec_bytes().len() <= MAX_MESSAGE_LABEL_LEN && 1
            <= operation.spec_bytes().len() <= MAX_MESSAGE_LABEL_LEN),
{
    crate::law_crate_schema_versions_validate();
    assert(0u32 & !0x1fu32 == 0) by (bit_vector);
    law_header_validation(MessageHeader::new(message_id, source, target, operation, kind));
}

/// Walking payload slots succeeds exactly when every slot holds a payload
/// that validates.
proof fn lemma_payloads_outcome_ok<'a>(slots: Seq<Option<PayloadRef<'a>>>)
    ensures
        (payloads_outcome(slots) is Ok) == (forall|i: int|
            0 <= i < slots.len() ==> (#[trigger] slots[i] matches Some(p) && p.validate() is Ok)),
    decreases slots.len(),
{
    if slots.len() > 0 {
        lemma_payloads_outcome_ok(slots.drop_first());
        if payloads_outcome(slots) is Ok {
            assert forall|i: int| 0 <= i < slots.len() implies (#[trigger] slots[i] matches Some(p)
                && p.validate() is Ok) by {
                if i > 0 {
                    assert(slots[i] == slots.drop_first()[i - 1]);
                }
            }
        } else if forall|i: int|
            0 <= i < slots.len() ==> (#[trigger] slots[i] matches Some(p) && p.validate() is Ok) {
            assert(slots[0] matches Some(p) && p.validate() is Ok);
            assert forall|i: int| 0 <= i < slots.drop_first().len() implies (
            #[trigger] slots.drop_first()[i] matches Some(p) && p.validate() is Ok) by {
                assert(slots.drop_first()[i] == slots[i + 1]);
            }
        }
    }
}

/// An envelope validates exactly when its header validates, it holds no more
/// payloads than its capacity and `MAX_PAYLOAD_REFS`, every slot in use holds
/// a payload that validates, and, if any of those payloads (at any index)
/// lives in shared memory, the header carries the shared-memory flag. A
/// header that fails gives its own error, and too many payloads behind a
/// valid header are an invalid message.
pub proof fn law_envelope_validation_characterized<'a>(v: MessageEnvelopeView<'a>)
    requires
        v.slots.len() == v.capacity,
    ensures
        (v.validation() is Ok) == (v.header.validate() is Ok && v.count <= v.capacity && v.count
            <= MAX_PAYLOAD_REFS && (forall|i: int|
            0 <= i < v.count ==> (#[trigger] v.slots[i] matches Some(p) && p.validate() is Ok))
            && (forall|i: int|
            0 <= i < v.count && (#[trigger] v.slots[i] matches Some(p) && p.storage is SharedMemory)
                ==> v.header.flags & MESSAGE_FLAG_SHARED_MEMORY != 0)),
        v.header.validate() is Err ==> v.validation() == v.header.validate(),
        v.header.validate() is Ok && (v.count > v.capacity || v.count > MAX_PAYLOAD_REFS)
            ==> v.validation() == Err::<(), ProtocolError>(ProtocolError::InvalidMessage),
{
    if v.count <= v.capacity {
        let s = v.payloads();
        lemma_payloads_outcome_ok(s);
        assert forall|i: int| 0 <= i < v.count implies #[trigger] v.slots[i] == s[i] by {}
        if references_shared_memory(s) {
            let j = choose|j: int|
                0 <= j < s.len() && (#[trigger] s[j] matches Some(p) && p.storage is SharedMemory);
            assert(v.slots[j] == s[j]);
        }
    }
}

/// In a validated envelope, a shared-memory payload at any index in use
/// means the header carries the shared-memory flag.
pub proof fn law_validated_shared_payload_has_flag<'a>(v: MessageEnvelopeView<'a>, i: int)
    requires
        v.slots.len() == v.capacity,
        v.validation() is Ok,
        0 <= i < v.count,
        v.slots[i] matches Some(p) && p.storage is SharedMemory,
    ensures
        v.header.flags & MESSAGE_FLAG_SHARED_MEMORY != 0,
{
    law_envelope_validation_characterized(v);
}

/// A payload reference validates exactly when its label is valid, its
/// length is between 1 and 65536 bytes, a payload held outside the envelope
/// (shared memory or external) has a valid content reference, and its
/// redaction state suits its data class. An invalid label gives its own
/// error; once the label passes, a zero length is an invalid message and a
/// longer one is too large.
pub proof fn law_payload_rules<'a>(p: PayloadRef<'a>)
    ensures
        (p.validate() is Ok) == (validate_label(p.label, MAX_MESSAGE_LABEL_LEN) is Ok && 1 <= p.len
            <= 65536 && (!(p.storage is Inline) ==> validate_label(
            p.content_ref,
            MAX_PROTOCOL_LABEL_LEN,
        ) is Ok) && validate_redaction(p.data_class, p.redaction) is Ok),
        validate_label(p.label, MAX_MESSAGE_LABEL_LEN) is Ok && p.len == 0 ==> p.validate()
            == Err::<(), ProtocolError>(ProtocolError::InvalidMessage),
        validate_label(p.label, MAX_MESSAGE_LABEL_LEN) is Ok && p.len > 65536 ==> p.validate()
            == Err::<(), ProtocolError>(ProtocolError::PayloadTooLarge),
        validate_label(p.label, MAX_MESSAGE_LABEL_LEN) is Err ==> p.validate() == validate_label(
            p.label,
            MAX_MESSAGE_LABEL_LEN,
        ),
{
}

/// Adding a payload: with fewer payloads than both the capacity and
/// `MAX_PAYLOAD_REFS` the answer is the payload's own validation, otherwise
/// it is refused as over capacity.
pub proof fn law_add_payload_outcome<'a>(v: MessageEnvelopeView<'a>, p: PayloadRef<'a>)
    ensures
        v.count < v.capacity && v.count < MAX_PAYLOAD_REFS ==> v.add_outcome(p) == p.validate(),
        v.count >= v.capacity || v.count >= MAX_PAYLOAD_REFS ==> v.add_outcome(p) == Err::<
            (),
            ProtocolError,
        >(ProtocolError::CapacityExceeded),
{
}

/// An envelope with no payloads declares no payload bytes, and each added
/// payload adds exactly its length.
pub proof fn law_declared_len_counts_payloads<'a>(v: MessageEnvelopeView<'a>, p: PayloadRef<'a>)
    requires
        v.count <= v.capacity,
        v.slots.len() == v.capacity,
    ensures
        v.count == 0 ==> declared_len(v.payloads()) == 0,
        v.count < v.capacity ==> declared_len(v.with_payload(p).payloads()) == declared_len(
            v.payloads(),
        ) + p.len,
{
    if v.count < v.capacity {
        let w = v.with_payload(p);
        assert(w.payloads() =~= v.payloads().push(Some(p)));
        assert(w.payloads().drop_last() =~= v.payloads());
    }
}

/// Module boundary descriptor.
#[derive(Clone, Debug, PartialEq, Eq)]
pub struct MessageDescriptor<'a> {
    /// Human-readable descriptor name.
    pub name: &'a str,
    /// Descriptor version.
    pub version: u32,
}

impl<'a> MessageDescriptor<'a> {
    /// Creates a message descriptor.
    pub fn new(name: &'a str, version: u32) -> (r: Self)
        ensures
            r.name == name,
            r.version == version,
    {
        MessageDescriptor { name, version }
    }
}

} // verus!
