//! IPC endpoint, route, and envelope schemas.
//!
//! This crate owns the wire-facing IPC metadata; concrete queues, routing
//! tables, shared-memory grants, and enforcement live elsewhere.

use vstd::prelude::*;
use vstd::string::StringSliceAdditionalSpecFns;

use crate::message::{MessageEnvelope, MessageKind};
use crate::text::str_eq;
use crate::{first_failure, validate_label, ProtocolError, ProtocolResult, MAX_PROTOCOL_LABEL_LEN};

verus! {

/// Maximum endpoint label length.
pub const MAX_ENDPOINT_LABEL_LEN: usize = 96;

/// IPC schema version.
pub const IPC_SCHEMA_VERSION: &'static str = "alani.ipc.v1";

/// Endpoint may send messages.
pub const IPC_ENDPOINT_FLAG_SEND: u32 = 0x01;

/// Endpoint may receive messages.
pub const IPC_ENDPOINT_FLAG_RECEIVE: u32 = 0x02;

/// Endpoint may be routed through a broker.
pub const IPC_ENDPOINT_FLAG_ROUTABLE: u32 = 0x04;

/// Endpoint is audit critical.
pub const IPC_ENDPOINT_FLAG_AUDIT: u32 = 0x08;

/// All endpoint flags known by this crate version (the union of the four
/// flags above).
pub const IPC_ENDPOINT_KNOWN_FLAGS: u32 = 0x0f;

/// IPC endpoint kind.
#[derive(Clone, Copy, Debug, PartialEq, Eq, Structural)]
pub enum EndpointKind {
    /// Kernel endpoint.
    Kernel,
    /// Runtime service endpoint.
    Runtime,
    /// Agent endpoint.
    Agent,
    /// Device endpoint.
    Device,
    /// Audit service endpoint.
    Audit,
    /// Observability service endpoint.
    Observability,
    /// Terminal/user endpoint.
    Terminal,
    /// External adapter endpoint.
    External,
}

impl EndpointKind {
    /// Stable numeric wire code of the endpoint kind.
    #[verifier::allow_in_spec]
    pub fn code(self) -> u8
        returns
            match self {
                EndpointKind::Kernel => 1u8,
                EndpointKind::Runtime => 2u8,
                EndpointKind::Agent => 3u8,
                EndpointKind::Device => 4u8,
                EndpointKind::Audit => 5u8,
                EndpointKind::Observability => 6u8,
                EndpointKind::Terminal => 7u8,
                EndpointKind::External => 8u8,
            },
    {
        match self {
            EndpointKind::Kernel => 1,
            EndpointKind::Runtime => 2,
            EndpointKind::Agent => 3,
            EndpointKind::Device => 4,
            EndpointKind::Audit => 5,
            EndpointKind::Observability => 6,
            EndpointKind::Terminal => 7,
            EndpointKind::External => 8,
        }
    }

    /// Stable kind label.
    #[verifier::allow_in_spec]
    pub fn label(self) -> &'static str
        returns
            match self {
                EndpointKind::Kernel => "kernel",
                EndpointKind::Runtime => "runtime",
                EndpointKind::Agent => "agent",
                EndpointKind::Device => "device",
                EndpointKind::Audit => "audit",
                EndpointKind::Observability => "observability",
                EndpointKind::Terminal => "terminal",
                EndpointKind::External => "external",
            },
    {
        match self {
            EndpointKind::Kernel => "kernel",
            EndpointKind::Runtime => "runtime",
            EndpointKind::Agent => "agent",
            EndpointKind::Device => "device",
            EndpointKind::Audit => "audit",
            EndpointKind::Observability => "observability",
            EndpointKind::Terminal => "terminal",
            EndpointKind::External => "external",
        }
    }

    /// Returns `true` when endpoint traffic is security sensitive by default.
    #[verifier::allow_in_spec]
    pub fn is_audit_relevant(self) -> bool
        returns
            self is Kernel || self is Device || self is Audit,
    {
        matches!(self, EndpointKind::Kernel | EndpointKind::Device | EndpointKind::Audit)
    }
}

/// Stable IPC endpoint descriptor.
#[derive(Clone, Copy, Debug, PartialEq, Eq)]
pub struct IpcEndpoint<'a> {
    /// Endpoint identifier. Zero is invalid.
    pub endpoint_id: u64,
    /// Endpoint kind.
    pub kind: EndpointKind,
    /// Stable endpoint label.
    pub label: &'a str,
    /// Owning component label.
    pub component: &'a str,
    /// Endpoint flags.
    pub flags: u32,
}

impl<'a> IpcEndpoint<'a> {
    /// Creates an IPC endpoint that may send and receive.
    #[verifier::allow_in_spec]
    pub fn new(endpoint_id: u64, kind: EndpointKind, label: &'a str, component: &'a str) -> Self
        returns
            (IpcEndpoint {
                endpoint_id,
                kind,
                label,
                component,
                flags: IPC_ENDPOINT_FLAG_SEND | IPC_ENDPOINT_FLAG_RECEIVE,
            }),
    {
        IpcEndpoint {
            endpoint_id,
            kind,
            label,
            component,
            flags: IPC_ENDPOINT_FLAG_SEND | IPC_ENDPOINT_FLAG_RECEIVE,
        }
    }

    /// Sets endpoint flags.
    #[verifier::allow_in_spec]
    pub fn with_flags(self, flags: u32) -> Self
        returns
            (IpcEndpoint { flags, ..self }),
    {
        let mut r = self;
        r.flags = flags;
        r
    }

    /// Returns `true` when endpoint can send.
    #[verifier::allow_in_spec]
    pub fn can_send(self) -> bool
        returns
            self.flags & IPC_ENDPOINT_FLAG_SEND != 0,
    {
        self.flags & IPC_ENDPOINT_FLAG_SEND != 0
    }

    /// Returns `true` when endpoint can receive.
    #[verifier::allow_in_spec]
    pub fn can_receive(self) -> bool
        returns
            self.flags & IPC_ENDPOINT_FLAG_RECEIVE != 0,
    {
        self.flags & IPC_ENDPOINT_FLAG_RECEIVE != 0
    }

    /// Returns `true` when endpoint traffic should be audited.
    #[verifier::allow_in_spec]
    pub fn requires_audit(self) -> bool
        returns
            self.kind.is_audit_relevant() || self.flags & IPC_ENDPOINT_FLAG_AUDIT != 0,
    {
        self.kind.is_audit_relevant() || self.flags & IPC_ENDPOINT_FLAG_AUDIT != 0
    }

    /// Validates endpoint metadata: a non-zero id, the endpoint and component
    /// labels, no reserved flag bits, and at least one of send and receive.
    #[verifier::allow_in_spec]
    pub fn validate(self) -> ProtocolResult<()>
        returns
            if self.endpoint_id == 0 {
                Err(ProtocolError::InvalidIpc)
            } else {
                first_failure(
                    validate_label(self.label, MAX_ENDPOINT_LABEL_LEN),
                    first_failure(
                        validate_label(self.component, MAX_PROTOCOL_LABEL_LEN),
                        if self.flags & !IPC_ENDPOINT_KNOWN_FLAGS != 0 {
                            Err(ProtocolError::ReservedBits)
                        } else if !self.can_send() && !self.can_receive() {
                            Err(ProtocolError::InvalidIpc)
                        } else {
                            Ok(())
                        },
                    ),
                )
            },
    {
        if self.endpoint_id == 0 {
            return Err(ProtocolError::InvalidIpc);
        }
        validate_label(self.label, MAX_ENDPOINT_LABEL_LEN)?;
        validate_label(self.component, MAX_PROTOCOL_LABEL_LEN)?;
        if self.flags & !IPC_ENDPOINT_KNOWN_FLAGS != 0 {
            return Err(ProtocolError::ReservedBits);
        }
        if !self.can_send() && !self.can_receive() {
            return Err(ProtocolError::InvalidIpc);
        }
        Ok(())
    }
}

/// IPC delivery status.
#[derive(Clone, Copy, Debug, PartialEq, Eq, Structural)]
pub enum IpcStatus {
    /// Envelope is pending delivery.
    Pending,
    /// Envelope was delivered.
    Delivered,
    /// Envelope was denied by policy or capability gates.
    Denied,
    /// Envelope expired before delivery.
    Expired,
    /// Delivery failed.
    Failed,
}

impl IpcStatus {
    /// Stable numeric wire code of the ipc status.
    #[verifier::allow_in_spec]
    pub fn code(self) -> u8
        returns
            match self {
                IpcStatus::Pending => 1u8,
                IpcStatus::Delivered => 2u8,
                IpcStatus::Denied => 3u8,
                IpcStatus::Expired => 4u8,
                IpcStatus::Failed => 5u8,
            },
    {
        match self {
            IpcStatus::Pending => 1,
            IpcStatus::Delivered => 2,
            IpcStatus::Denied => 3,
            IpcStatus::Expired => 4,
            IpcStatus::Failed => 5,
        }
    }

    /// Stable status label.
    #[verifier::allow_in_spec]
    pub fn label(self) -> &'static str
        returns
            match self {
                IpcStatus::Pending => "pending",
                IpcStatus::Delivered => "delivered",
                IpcStatus::Denied => "denied",
                IpcStatus::Expired => "expired",
                IpcStatus::Failed => "failed",
            },
    {
        match self {
            IpcStatus::Pending => "pending",
            IpcStatus::Delivered => "delivered",
            IpcStatus::Denied => "denied",
            IpcStatus::Expired => "expired",
            IpcStatus::Failed => "failed",
        }
    }

    /// Returns `true` when status should be audited.
    #[verifier::allow_in_spec]
    pub fn requires_audit(self) -> bool
        returns
            self is Denied || self is Failed,
    {
        matches!(self, IpcStatus::Denied | IpcStatus::Failed)
    }
}

/// IPC flow metadata.
#[derive(Clone, Copy, Debug, PartialEq, Eq)]
pub struct IpcFlow<'a> {
    /// Source endpoint.
    pub source: IpcEndpoint<'a>,
    /// Target endpoint.
    pub target: IpcEndpoint<'a>,
    /// Flow label.
    pub flow_label: &'a str,
    /// Deadline in monotonic nanoseconds. Zero means no deadline.
    pub deadline_ns: u64,
    /// Delivery status.
    pub status: IpcStatus,
}

impl<'a> IpcFlow<'a> {
    /// Creates a pending IPC flow without a deadline.
    #[verifier::allow_in_spec]
    pub fn new(source: IpcEndpoint<'a>, target: IpcEndpoint<'a>, flow_label: &'a str) -> Self
        returns
            (IpcFlow { source, target, flow_label, deadline_ns: 0, status: IpcStatus::Pending }),
    {
        IpcFlow { source, target, flow_label, deadline_ns: 0, status: IpcStatus::Pending }
    }

    /// Sets deadline.
    #[verifier::allow_in_spec]
    pub fn with_deadline(self, deadline_ns: u64) -> Self
        returns
            (IpcFlow { deadline_ns, ..self }),
    {
        let mut r = self;
        r.deadline_ns = deadline_ns;
        r
    }

    /// Sets status.
    #[verifier::allow_in_spec]
    pub fn with_status(self, status: IpcStatus) -> Self
        returns
            (IpcFlow { status, ..self }),
    {
        let mut r = self;
        r.status = status;
        r
    }

    /// Returns `true` when the flow is expired at `now_ns`.
    #[verifier::allow_in_spec]
    pub fn is_expired(self, now_ns: u64) -> bool
        returns
            self.deadline_ns != 0 && now_ns > self.deadline_ns,
    {
        self.deadline_ns != 0 && now_ns > self.deadline_ns
    }

    /// Returns `true` when the flow should emit audit evidence.
    #[verifier::allow_in_spec]
    pub fn requires_audit(self) -> bool
        returns
            self.source.requires_audit() || self.target.requires_audit()
                || self.status.requires_audit(),
    {
        self.source.requires_audit() || self.target.requires_audit() || self.status.requires_audit()
    }

    /// Validates flow metadata: both endpoints, the flow label, and that the
    /// source may send and the target may receive.
    #[verifier::allow_in_spec]
    pub fn validate(self) -> ProtocolResult<()>
        returns
            first_failure(
                self.source.validate(),
                first_failure(
                    self.target.validate(),
                    first_failure(
                        validate_label(self.flow_label, MAX_ENDPOINT_LABEL_LEN),
                        if !self.source.can_send() || !self.target.can_receive() {
                            Err(ProtocolError::AccessDenied)
                        } else {
                            Ok(())
                        },
                    ),
                ),
            ),
    {
        self.source.validate()?;
        self.target.validate()?;
        validate_label(self.flow_label, MAX_ENDPOINT_LABEL_LEN)?;
        if !self.source.can_send() || !self.target.can_receive() {
            return Err(ProtocolError::AccessDenied);
        }
        Ok(())
    }
}

/// Route hint carried in a protocol envelope.
#[derive(Clone, Copy, Debug, PartialEq, Eq)]
pub struct IpcRouteHint<'a> {
    /// Route identifier. Zero means unassigned.
    pub route_id: u64,
    /// Route label.
    pub route_label: &'a str,
    /// Optional broker or router endpoint.
    pub broker: &'a str,
    /// Hop count already traversed.
    pub hop_count: u8,
    /// Maximum hops allowed.
    pub max_hops: u8,
}

impl<'a> IpcRouteHint<'a> {
    /// Empty route hint.
    #[verifier::allow_in_spec]
    pub fn empty() -> Self
        returns
            (IpcRouteHint { route_id: 0, route_label: "", broker: "", hop_count: 0, max_hops: 0 }),
    {
        IpcRouteHint { route_id: 0, route_label: "", broker: "", hop_count: 0, max_hops: 0 }
    }

    /// Creates a route hint.
    #[verifier::allow_in_spec]
    pub fn new(route_id: u64, route_label: &'a str, max_hops: u8) -> Self
        returns
            (IpcRouteHint { route_id, route_label, broker: "", hop_count: 0, max_hops }),
    {
        IpcRouteHint { route_id, route_label, broker: "", hop_count: 0, max_hops }
    }

    /// Sets broker label.
    #[verifier::allow_in_spec]
    pub fn with_broker(self, broker: &'a str) -> Self
        returns
            (IpcRouteHint { broker, ..self }),
    {
        let mut r = self;
        r.broker = broker;
        r
    }

    /// Returns `true` when no route hint is present.
    #[verifier::allow_in_spec]
    pub fn is_empty(self) -> bool
        returns
            self.route_id == 0 && self.max_hops == 0,
    {
        self.route_id == 0 && self.max_hops == 0
    }

    /// Validates route metadata: an empty hint is valid; otherwise the route
    /// needs an id, a hop limit that the hop count stays within, a route
    /// label, and a valid broker label when a broker is named.
    #[verifier::allow_in_spec]
    pub fn validate(self) -> ProtocolResult<()>
        returns
            if self.is_empty() {
                Ok(())
            } else if self.route_id == 0 || self.max_hops == 0 || self.hop_count > self.max_hops {
                Err(ProtocolError::InvalidIpc)
            } else {
                first_failure(
                    validate_label(self.route_label, MAX_ENDPOINT_LABEL_LEN),
                    if self.broker@.len() != 0 {
                        validate_label(self.broker, MAX_ENDPOINT_LABEL_LEN)
                    } else {
                        Ok(())
                    },
                )
            },
    {
        if self.is_empty() {
            return Ok(());
        }
        if self.route_id == 0 || self.max_hops == 0 || self.hop_count > self.max_hops {
            return Err(ProtocolError::InvalidIpc);
        }
        validate_label(self.route_label, MAX_ENDPOINT_LABEL_LEN)?;
        if !self.broker.is_empty() {
            validate_label(self.broker, MAX_ENDPOINT_LABEL_LEN)?;
        }
        Ok(())
    }
}

/// IPC protocol envelope over a message envelope.
#[derive(Clone, Copy, Debug, PartialEq, Eq)]
pub struct IpcEnvelope<'a, const N: usize> {
    /// IPC flow metadata.
    pub flow: IpcFlow<'a>,
    /// Route hint.
    pub route: IpcRouteHint<'a>,
    /// Message envelope.
    pub message: MessageEnvelope<'a, N>,
}

impl<'a, const N: usize> IpcEnvelope<'a, N> {
    /// Creates an IPC envelope without a route hint.
    #[verifier::allow_in_spec]
    pub fn new(flow: IpcFlow<'a>, message: MessageEnvelope<'a, N>) -> Self
        returns
            (IpcEnvelope { flow, route: IpcRouteHint::empty(), message }),
    {
        IpcEnvelope { flow, route: IpcRouteHint::empty(), message }
    }

    /// Sets route hint.
    #[verifier::allow_in_spec]
    pub fn with_route(self, route: IpcRouteHint<'a>) -> Self
        returns
            (IpcEnvelope { route, ..self }),
    {
        let mut r = self;
        r.route = route;
        r
    }

    /// Returns `true` when audit evidence should be emitted.
    pub fn requires_audit(self) -> (r: bool)
        ensures
            r == (self.flow.requires_audit() || self.message@.header.requires_audit()),
    {
        self.flow.requires_audit() || self.message.header().requires_audit()
    }

    /// Validates envelope metadata: the flow, the route, the message, that
    /// the message header names the flow's endpoints as its source and
    /// target, and that a response carries a correlation id.
    #[verifier::allow_in_spec]
    pub fn validate(self) -> ProtocolResult<()>
        returns
            first_failure(
                self.flow.validate(),
                first_failure(
                    self.route.validate(),
                    first_failure(
                        self.message.validate(),
                        if self.message@.header.source@ != self.flow.source.label@
                            || self.message@.header.target@ != self.flow.target.label@ {
                            Err(ProtocolError::InvalidIpc)
                        } else if self.message@.header.kind is Response
                            && self.message@.header.correlation_id == 0 {
                            Err(ProtocolError::InvalidMessage)
                        } else {
                            Ok(())
                        },
                    ),
                ),
            ),
    {
        self.flow.validate()?;
        self.route.validate()?;
        self.message.validate()?;
        let header = self.message.header();
        if !str_eq(header.source, self.flow.source.label) || !str_eq(
            header.target,
            self.flow.target.label,
        ) {
            return Err(ProtocolError::InvalidIpc);
        }
        if matches!(header.kind, MessageKind::Response) && header.correlation_id == 0 {
            return Err(ProtocolError::InvalidMessage);
        }
        Ok(())
    }
}

/// A validated IPC envelope names the flow's endpoints as its message's
/// source and target, its source may send, its target may receive, and a
/// response in it carries a correlation id.
pub proof fn law_valid_envelope_guarantees<'a, const N: usize>(e: IpcEnvelope<'a, N>)
    requires
        e.validate() is Ok,
    ensures
        e.message@.header.source@ == e.flow.source.label@,
        e.message@.header.target@ == e.flow.target.label@,
        e.flow.source.can_send(),
        e.flow.target.can_receive(),
        e.message@.header.kind is Response ==> e.message@.header.correlation_id != 0,
        e.message.validate() is Ok,
{
}

/// A freshly created endpoint may both send and receive, and is not marked
/// audit critical by its flags.
pub proof fn law_new_endpoint_sends_and_receives<'a>(
    endpoint_id: u64,
    kind: EndpointKind,
    label: &'a str,
    component: &'a str,
)
    ensures
        IpcEndpoint::new(endpoint_id, kind, label, component).can_send(),
        IpcEndpoint::new(endpoint_id, kind, label, component).can_receive(),
        IpcEndpoint::new(endpoint_id, kind, label, component).requires_audit()
            == kind.is_audit_relevant(),
{
    assert((0x01u32 | 0x02u32) & 0x01u32 != 0) by (bit_vector);
    assert((0x01u32 | 0x02u32) & 0x02u32 != 0) by (bit_vector);
    assert((0x01u32 | 0x02u32) & 0x08u32 == 0) by (bit_vector);
}

/// Once a flow has expired it stays expired as time goes on.
pub proof fn law_expiry_is_monotonic<'a>(flow: IpcFlow<'a>, earlier_ns: u64, later_ns: u64)
    requires
        earlier_ns <= later_ns,
        flow.is_expired(earlier_ns),
    ensures
        flow.is_expired(later_ns),
{
}

/// The empty route hint validates.
pub proof fn law_empty_route_validates()
    ensures
        IpcRouteHint::empty().validate() == Ok::<(), ProtocolError>(()),
{
}

/// A flow validates exactly when both endpoints validate, its label has
/// between one and `MAX_ENDPOINT_LABEL_LEN` UTF-8 bytes, its source may send
/// and its target may receive; valid endpoints and label with a source that
/// cannot send or a target that cannot receive are refused as access denied.
pub proof fn law_flow_validation<'a>(f: IpcFlow<'a>)
    requires
        f.flow_label.spec_bytes().len() <= usize::MAX,
    ensures
        (f.validate() is Ok) == (f.source.validate() is Ok && f.target.validate() is Ok && 1
            <= f.flow_label.spec_bytes().len() <= MAX_ENDPOINT_LABEL_LEN && f.source.can_send()
            && f.target.can_receive()),
        f.source.validate() is Ok && f.target.validate() is Ok && validate_label(
            f.flow_label,
            MAX_ENDPOINT_LABEL_LEN,
        ) is Ok && (!f.source.can_send() || !f.target.can_receive()) ==> f.validate() == Err::<
            (),
            ProtocolError,
        >(ProtocolError::AccessDenied),
{
    crate::law_label_by_bytes(f.flow_label, MAX_ENDPOINT_LABEL_LEN);
}

/// An endpoint validates exactly when its id is non-zero, its label and
/// component are valid, it sets no flag outside the four known ones, and it
/// may send or receive (flag bit 0x01 or 0x02). Checked in that order: a
/// zero id is an invalid IPC, an invalid label gives its own error, an
/// unknown flag is a reserved bit, and an endpoint that may neither send nor
/// receive is an invalid IPC.
pub proof fn law_endpoint_rules<'a>(e: IpcEndpoint<'a>)
    ensures
        (e.validate() is Ok) == (e.endpoint_id != 0 && validate_label(
            e.label,
            MAX_ENDPOINT_LABEL_LEN,
        ) is Ok && validate_label(e.component, MAX_PROTOCOL_LABEL_LEN) is Ok && e.flags & !0x0fu32
            == 0 && (e.flags & 0x01u32 != 0 || e.flags & 0x02u32 != 0)),
        e.endpoint_id == 0 ==> e.validate() == Err::<(), ProtocolError>(ProtocolError::InvalidIpc),
        e.endpoint_id != 0 && validate_label(e.label, MAX_ENDPOINT_LABEL_LEN) is Ok && validate_label(
            e.component,
            MAX_PROTOCOL_LABEL_LEN,
        ) is Ok && e.flags & !0x0fu32 != 0 ==> e.validate() == Err::<(), ProtocolError>(
            ProtocolError::ReservedBits,
        ),
        e.endpoint_id != 0 && validate_label(e.label, MAX_ENDPOINT_LABEL_LEN) is Ok && validate_label(
            e.component,
            MAX_PROTOCOL_LABEL_LEN,
        ) is Ok && e.flags & !0x0fu32 == 0 && e.flags & 0x01u32 == 0 && e.flags & 0x02u32 == 0
            ==> e.validate() == Err::<(), ProtocolError>(ProtocolError::InvalidIpc),
        e.endpoint_id != 0 && validate_label(e.label, MAX_ENDPOINT_LABEL_LEN) is Err ==> e.validate()
            == validate_label(e.label, MAX_ENDPOINT_LABEL_LEN),
{
}

/// A route hint validates exactly when it is empty (no id and no hop
/// limit), or it has an id, a non-zero hop limit that the hop count stays
/// within, a valid route label, and either no broker or a valid broker label.
/// A route that is not empty but lacks an id or hop limit, or has gone past
/// its hop limit, is an invalid IPC.
pub proof fn law_route_rules<'a>(r: IpcRouteHint<'a>)
    ensures
        (r.validate() is Ok) == ((r.route_id == 0 && r.max_hops == 0) || (r.route_id != 0
            && r.max_hops != 0 && r.hop_count <= r.max_hops && validate_label(
            r.route_label,
            MAX_ENDPOINT_LABEL_LEN,
        ) is Ok && (r.broker@.len() == 0 || validate_label(r.broker, MAX_ENDPOINT_LABEL_LEN)
            is Ok))),
        !(r.route_id == 0 && r.max_hops == 0) && (r.route_id == 0 || r.max_hops == 0 || r.hop_count
            > r.max_hops) ==> r.validate() == Err::<(), ProtocolError>(ProtocolError::InvalidIpc),
{
}

/// An IPC envelope validates exactly when its flow, route and message
/// validate, the message's source and target text equal the flow's source
/// and target endpoint labels, and a response carries a non-zero correlation
/// id. A flow that fails gives its own error; with valid parts, endpoints
/// that do not match are an invalid IPC and a response without correlation
/// id an invalid message.
pub proof fn law_ipc_envelope_rules<'a, const N: usize>(e: IpcEnvelope<'a, N>)
    ensures
        (e.validate() is Ok) == (e.flow.validate() is Ok && e.route.validate() is Ok
            && e.message.validate() is Ok && e.message@.header.source@ == e.flow.source.label@
            && e.message@.header.target@ == e.flow.target.label@ && (e.message@.header.kind is Response
            ==> e.message@.header.correlation_id != 0)),
        e.flow.validate() is Err ==> e.validate() == e.flow.validate(),
        e.flow.validate() is Ok && e.route.validate() is Ok && e.message.validate() is Ok && (
        e.message@.header.source@ != e.flow.source.label@ || e.message@.header.target@
            != e.flow.target.label@) ==> e.validate() == Err::<(), ProtocolError>(ProtocolError::InvalidIpc),
        e.flow.validate() is Ok && e.route.validate() is Ok && e.message.validate() is Ok
            && e.message@.header.source@ == e.flow.source.label@ && e.message@.header.target@
            == e.flow.target.label@ && e.message@.header.kind is Response
            && e.message@.header.correlation_id == 0 ==> e.validate() == Err::<(), ProtocolError>(
            ProtocolError::InvalidMessage,
        ),
{
}

/// Module boundary descriptor.
#[derive(Clone, Debug, PartialEq, Eq)]
pub struct IpcDescriptor<'a> {
    /// Human-readable descriptor name.
    pub name: &'a str,
    /// Descriptor version.
    pub version: u32,
}

impl<'a> IpcDescriptor<'a> {
    /// Creates an IPC descriptor.
    pub fn new(name: &'a str, version: u32) -> (r: Self)
        ensures
            r.name == name,
            r.version == version,
    {
        IpcDescriptor { name, version }
    }
}

} // verus!
