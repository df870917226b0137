//! Configuration payload schemas.
//!
//! Loading and typed accessors live elsewhere. This module defines the shared
//! protocol representation for configuration documents and scalar entries
//! crossing repository boundaries.

use vstd::prelude::*;
use vstd::string::StringSliceAdditionalSpecFns;

use crate::text::str_eq;
use crate::{
    first_failure, validate_label, validate_redaction, validate_schema_version, DataClass,
    ProtocolError, ProtocolResult, RedactionState, TraceContext, MAX_PROTOCOL_LABEL_LEN,
};

verus! {

/// Config schema version.
pub const CONFIG_SCHEMA_VERSION: &'static str = "alani.config.v1";

/// Maximum config key length.
pub const MAX_CONFIG_KEY_LEN: usize = 96;

/// Maximum config scalar string length.
pub const MAX_CONFIG_VALUE_LEN: usize = 256;

/// Maximum entries in a host-mode config document.
pub const MAX_CONFIG_ENTRIES: usize = 64;

/// Config document domain.
#[derive(Clone, Copy, Debug, PartialEq, Eq, Structural)]
pub enum ConfigDomain {
    /// Bootloader and kernel handoff settings.
    Boot,
    /// Device discovery and device policy settings.
    Devices,
    /// Userspace runtime settings.
    Runtime,
    /// Security and trust settings.
    Security,
    /// Policy bundle and policy-engine settings.
    Policy,
    /// Corpus and dataset settings.
    Corpus,
    /// Release and evidence settings.
    Release,
    /// Environment profile settings.
    Environment,
}

impl ConfigDomain {
    /// Stable numeric wire code of the config domain.
    #[verifier::allow_in_spec]
    pub fn code(self) -> u8
        returns
            match self {
                ConfigDomain::Boot => 1u8,
                ConfigDomain::Devices => 2u8,
                ConfigDomain::Runtime => 3u8,
                ConfigDomain::Security => 4u8,
                ConfigDomain::Policy => 5u8,
                ConfigDomain::Corpus => 6u8,
                ConfigDomain::Release => 7u8,
                ConfigDomain::Environment => 8u8,
            },
    {
        match self {
            ConfigDomain::Boot => 1,
            ConfigDomain::Devices => 2,
            ConfigDomain::Runtime => 3,
            ConfigDomain::Security => 4,
            ConfigDomain::Policy => 5,
            ConfigDomain::Corpus => 6,
            ConfigDomain::Release => 7,
            ConfigDomain::Environment => 8,
        }
    }

    /// Stable domain label.
    #[verifier::allow_in_spec]
    pub fn label(self) -> &'static str
        returns
            match self {
                ConfigDomain::Boot => "boot",
                ConfigDomain::Devices => "devices",
                ConfigDomain::Runtime => "runtime",
                ConfigDomain::Security => "security",
                ConfigDomain::Policy => "policy",
                ConfigDomain::Corpus => "corpus",
                ConfigDomain::Release => "release",
                ConfigDomain::Environment => "environment",
            },
    {
        match self {
            ConfigDomain::Boot => "boot",
            ConfigDomain::Devices => "devices",
            ConfigDomain::Runtime => "runtime",
            ConfigDomain::Security => "security",
            ConfigDomain::Policy => "policy",
            ConfigDomain::Corpus => "corpus",
            ConfigDomain::Release => "release",
            ConfigDomain::Environment => "environment",
        }
    }

    /// Returns `true` when changes in this domain should be audited: every
    /// domain but corpus and environment settings.
    #[verifier::allow_in_spec]
    pub fn is_audit_relevant(self) -> bool
        returns
            !(self is Corpus || self is Environment),
    {
        matches!(
            self,
            ConfigDomain::Boot | ConfigDomain::Devices | ConfigDomain::Runtime
                | ConfigDomain::Security | ConfigDomain::Policy | ConfigDomain::Release
        )
    }
}

/// Config serialization format.
#[derive(Clone, Copy, Debug, PartialEq, Eq, Structural)]
pub enum ConfigFormat {
    /// TOML config document.
    Toml,
    /// JSON config document.
    Json,
    /// Binary ABI-facing config payload.
    Binary,
}

impl ConfigFormat {
    /// Stable numeric wire code of the config format.
    #[verifier::allow_in_spec]
    pub fn code(self) -> u8
        returns
            match self {
                ConfigFormat::Toml => 1u8,
                ConfigFormat::Json => 2u8,
                ConfigFormat::Binary => 3u8,
            },
    {
        match self {
            ConfigFormat::Toml => 1,
            ConfigFormat::Json => 2,
            ConfigFormat::Binary => 3,
        }
    }

    /// Stable format label.
    #[verifier::allow_in_spec]
    pub fn label(self) -> &'static str
        returns
            match self {
                ConfigFormat::Toml => "toml",
                ConfigFormat::Json => "json",
                ConfigFormat::Binary => "binary",
            },
    {
        match self {
            ConfigFormat::Toml => "toml",
            ConfigFormat::Json => "json",
            ConfigFormat::Binary => "binary",
        }
    }
}

/// Config scalar kind.
#[derive(Clone, Copy, Debug, PartialEq, Eq, Structural)]
pub enum ConfigValueKind {
    /// UTF-8 string scalar.
    String,
    /// Unsigned integer scalar.
    Integer,
    /// Boolean scalar.
    Boolean,
}

impl ConfigValueKind {
    /// Stable numeric wire code of the config value kind.
    #[verifier::allow_in_spec]
    pub fn code(self) -> u8
        returns
            match self {
                ConfigValueKind::String => 1u8,
                ConfigValueKind::Integer => 2u8,
                ConfigValueKind::Boolean => 3u8,
            },
    {
        match self {
            ConfigValueKind::String => 1,
            ConfigValueKind::Integer => 2,
            ConfigValueKind::Boolean => 3,
        }
    }

    /// Stable kind label.
    #[verifier::allow_in_spec]
    pub fn label(self) -> &'static str
        returns
            match self {
                ConfigValueKind::String => "string",
                ConfigValueKind::Integer => "integer",
                ConfigValueKind::Boolean => "boolean",
            },
    {
        match self {
            ConfigValueKind::String => "string",
            ConfigValueKind::Integer => "integer",
            ConfigValueKind::Boolean => "boolean",
        }
    }
}

/// Borrowed config scalar value.
#[derive(Clone, Copy, Debug, PartialEq, Eq)]
pub enum ConfigValue<'a> {
    /// Empty placeholder.
    Empty,
    /// String scalar.
    String(&'a str),
    /// Integer scalar.
    Integer(u64),
    /// Boolean scalar.
    Boolean(bool),
}

impl<'a> ConfigValue<'a> {
    /// Returns value kind; the empty placeholder has none.
    #[verifier::allow_in_spec]
    pub fn kind(self) -> Option<ConfigValueKind>
        returns
            match self {
                ConfigValue::Empty => None,
                ConfigValue::String(_) => Some(ConfigValueKind::String),
                ConfigValue::Integer(_) => Some(ConfigValueKind::Integer),
                ConfigValue::Boolean(_) => Some(ConfigValueKind::Boolean),
            },
    {
        match self {
            ConfigValue::Empty => None,
            ConfigValue::String(_) => Some(ConfigValueKind::String),
            ConfigValue::Integer(_) => Some(ConfigValueKind::Integer),
            ConfigValue::Boolean(_) => Some(ConfigValueKind::Boolean),
        }
    }

    /// Validates scalar metadata: the empty placeholder is invalid and a
    /// string scalar must be a label of at most `MAX_CONFIG_VALUE_LEN` bytes.
    #[verifier::allow_in_spec]
    pub fn validate(self) -> ProtocolResult<()>
        returns
            match self {
                ConfigValue::Empty => Err(ProtocolError::InvalidConfig),
                ConfigValue::String(value) => validate_label(value, MAX_CONFIG_VALUE_LEN),
                ConfigValue::Integer(_) => Ok(()),
                ConfigValue::Boolean(_) => Ok(()),
            },
    {
        match self {
            ConfigValue::Empty => Err(ProtocolError::InvalidConfig),
            ConfigValue::String(value) => {
                validate_label(value, MAX_CONFIG_VALUE_LEN)?;
                Ok(())
            },
            ConfigValue::Integer(_) | ConfigValue::Boolean(_) => Ok(()),
        }
    }
}

/// One config entry in a protocol document.
#[derive(Clone, Copy, Debug, PartialEq, Eq)]
pub struct ConfigEntry<'a> {
    /// Config domain.
    pub domain: ConfigDomain,
    /// Key within domain.
    pub key: &'a str,
    /// Scalar value.
    pub value: ConfigValue<'a>,
    /// Data class.
    pub data_class: DataClass,
    /// Redaction state.
    pub redaction: RedactionState,
    /// Source line when known.
    pub source_line: u32,
}

impl<'a> ConfigEntry<'a> {
    /// Creates a config entry with operational data and no source line.
    #[verifier::allow_in_spec]
    pub fn new(domain: ConfigDomain, key: &'a str, value: ConfigValue<'a>) -> Self
        returns
            (ConfigEntry {
                domain,
                key,
                value,
                data_class: DataClass::Operational,
                redaction: RedactionState::Operational,
                source_line: 0,
            }),
    {
        ConfigEntry {
            domain,
            key,
            value,
            data_class: DataClass::Operational,
            redaction: RedactionState::Operational,
            source_line: 0,
        }
    }

    /// Sets redaction metadata.
    #[verifier::allow_in_spec]
    pub fn with_redaction(self, data_class: DataClass, redaction: RedactionState) -> Self
        returns
            (ConfigEntry { data_class, redaction, ..self }),
    {
        let mut r = self;
        r.data_class = data_class;
        r.redaction = redaction;
        r
    }

    /// Sets source line.
    #[verifier::allow_in_spec]
    pub fn with_source_line(self, source_line: u32) -> Self
        returns
            (ConfigEntry { source_line, ..self }),
    {
        let mut r = self;
        r.source_line = source_line;
        r
    }

    /// Returns `true` when entry should be audited.
    #[verifier::allow_in_spec]
    pub fn requires_audit(self) -> bool
        returns
            self.domain.is_audit_relevant(),
    {
        self.domain.is_audit_relevant()
    }

    /// Validates entry metadata: the key, the value and the redaction state.
    #[verifier::allow_in_spec]
    pub fn validate(self) -> ProtocolResult<()>
        returns
            first_failure(
                validate_label(self.key, MAX_CONFIG_KEY_LEN),
                first_failure(
                    self.value.validate(),
                    validate_redaction(self.data_class, self.redaction),
                ),
            ),
    {
        validate_label(self.key, MAX_CONFIG_KEY_LEN)?;
        self.value.validate()?;
        validate_redaction(self.data_class, self.redaction)
    }
}

/// The entry `e` is filed under `domain` and `key`.
pub open spec fn entry_matches<'a>(e: ConfigEntry<'a>, domain: ConfigDomain, key: Seq<char>) -> bool {
    e.domain == domain && e.key@ == key
}

/// The first stored entry filed under `domain` and `key`, if any.
pub open spec fn find_entry<'a>(
    slots: Seq<Option<ConfigEntry<'a>>>,
    domain: ConfigDomain,
    key: Seq<char>,
) -> Option<ConfigEntry<'a>>
    decreases slots.len(),
{
    if slots.len() == 0 {
        None
    } else if slots[0] matches Some(e) && entry_matches(e, domain, key) {
        slots[0]
    } else {
        find_entry(slots.drop_first(), domain, key)
    }
}

/// The outcome of validating stored entries front to back: the first empty
/// slot is an internal failure, the first invalid entry gives its own error.
pub open spec fn entries_outcome<'a>(slots: Seq<Option<ConfigEntry<'a>>>) -> ProtocolResult<()>
    decreases slots.len(),
{
    if slots.len() == 0 {
        Ok(())
    } else {
        match slots[0] {
            None => Err(ProtocolError::Internal),
            Some(e) => first_failure(e.validate(), entries_outcome(slots.drop_first())),
        }
    }
}

/// Abstract state of a config document: its header fields, its `capacity`
/// entry slots, and how many of them are in use.
pub ghost struct ConfigDocumentView<'a> {
    pub schema_version: &'a str,
    pub profile: &'a str,
    pub format: ConfigFormat,
    pub trace: TraceContext,
    pub capacity: nat,
    pub slots: Seq<Option<ConfigEntry<'a>>>,
    pub count: nat,
}

impl<'a> ConfigDocumentView<'a> {
    /// The slots in use, oldest first.
    pub open spec fn entries(self) -> Seq<Option<ConfigEntry<'a>>> {
        self.slots.subrange(0, self.count as int)
    }

    /// No two stored entries share a domain and key.
    pub open spec fn unique_keys(self) -> bool {
        forall|i: int, j: int|
            #![trigger self.slots[i], self.slots[j]]
            0 <= i < self.count && 0 <= j < self.count && i != j && self.slots[i] is Some
                && self.slots[j] is Some ==> !entry_matches(
                self.slots[i].unwrap(),
                self.slots[j].unwrap().domain,
                self.slots[j].unwrap().key@,
            )
    }

    /// The slots in use lie within the document's capacity.
    pub open spec fn bounded(self) -> bool {
        self.slots.len() == self.capacity && self.count <= self.capacity
    }

    /// The state that every document built by `new` and `add_entry` is in:
    /// no more entries than the capacity and `MAX_CONFIG_ENTRIES`, every slot
    /// in use holds an entry that validates, and no domain/key pair repeats.
    pub open spec fn well_formed(self) -> bool {
        &&& self.bounded()
        &&& self.count <= MAX_CONFIG_ENTRIES
        &&& forall|i: int|
            0 <= i < self.count ==> (#[trigger] self.slots[i] matches Some(e) && e.validate()
                is Ok)
        &&& self.unique_keys()
    }

    /// The entry at `index`, if that slot is in use.
    pub open spec fn entry_at(self, index: int) -> Option<ConfigEntry<'a>> {
        if 0 <= index < self.count {
            self.slots[index]
        } else {
            None
        }
    }

    /// The first stored entry filed under `domain` and `key`.
    pub open spec fn lookup(self, domain: ConfigDomain, key: Seq<char>) -> Option<ConfigEntry<'a>> {
        find_entry(self.entries(), domain, key)
    }

    /// What `add_entry` answers: the document must have room, the entry must
    /// validate, and its domain/key pair must be new.
    pub open spec fn add_outcome(self, entry: ConfigEntry<'a>) -> ProtocolResult<()> {
        if self.count >= self.capacity || self.count >= MAX_CONFIG_ENTRIES {
            Err(ProtocolError::CapacityExceeded)
        } else {
            first_failure(
                entry.validate(),
                if self.lookup(entry.domain, entry.key@) is Some {
                    Err(ProtocolError::InvalidConfig)
                } else {
                    Ok(())
                },
            )
        }
    }

    /// The document with `entry` stored in the next free slot.
    pub open spec fn with_entry(self, entry: ConfigEntry<'a>) -> ConfigDocumentView<'a> {
        ConfigDocumentView {
            slots: self.slots.update(self.count as int, Some(entry)),
            count: self.count + 1,
            ..self
        }
    }

    /// What `validate` answers: schema version, profile, trace, the entry
    /// count, then each stored entry in order.
    pub open spec fn validation(self) -> ProtocolResult<()> {
        first_failure(
            validate_schema_version(self.schema_version),
            first_failure(
                validate_label(self.profile, MAX_PROTOCOL_LABEL_LEN),
                first_failure(
                    self.trace.validate(),
                    if self.count > self.capacity || self.count > MAX_CONFIG_ENTRIES {
                        Err(ProtocolError::InvalidConfig)
                    } else {
                        entries_outcome(self.entries())
                    },
                ),
            ),
        )
    }
}

/// When no stored entry is filed under `domain` and `key`, no slot holds
/// such an entry.
pub proof fn lemma_find_entry_none<'a>(
    slots: Seq<Option<ConfigEntry<'a>>>,
    domain: ConfigDomain,
    key: Seq<char>,
)
    ensures
        find_entry(slots, domain, key) is None ==> forall|i: int|
            0 <= i < slots.len() ==> !(#[trigger] slots[i] matches Some(e) && entry_matches(
                e,
                domain,
                key,
            )),
        find_entry(slots, domain, key) matches Some(e) ==> entry_matches(e, domain, key)
            && exists|i: int| 0 <= i < slots.len() && #[trigger] slots[i] == Some(e),
    decreases slots.len(),
{
    if slots.len() > 0 {
        lemma_find_entry_none(slots.drop_first(), domain, key);
        if find_entry(slots, domain, key) is None {
            assert forall|i: int| 0 <= i < slots.len() implies !(#[trigger] slots[i] matches Some(
                e,
            ) && entry_matches(e, domain, key)) by {
                if i > 0 {
                    assert(slots[i] == slots.drop_first()[i - 1]);
                }
            }
        }
        if let Some(e) = find_entry(slots, domain, key) {
            if !(slots[0] matches Some(e0) && entry_matches(e0, domain, key)) {
                let i = choose|i: int|
                    0 <= i < slots.drop_first().len() && #[trigger] slots.drop_first()[i] == Some(
                        e,
                    );
                assert(slots[i + 1] == Some(e));
            }
        }
    }
}

/// Fixed-capacity config document.
#[derive(Clone, Copy, Debug, PartialEq, Eq)]
pub struct ConfigDocument<'a, const N: usize> {
    /// Schema version.
    pub schema_version: &'a str,
    /// Profile label.
    pub profile: &'a str,
    /// Document format.
    pub format: ConfigFormat,
    /// Trace context for loading or export.
    pub trace: TraceContext,
    entries: [Option<ConfigEntry<'a>>; N],
    len: usize,
}

impl<'a, const N: usize> View for ConfigDocument<'a, N> {
    type V = ConfigDocumentView<'a>;

    closed spec fn view(&self) -> ConfigDocumentView<'a> {
        ConfigDocumentView {
            schema_version: self.schema_version,
            profile: self.profile,
            format: self.format,
            trace: self.trace,
            capacity: N as nat,
            slots: self.entries@,
            count: self.len as nat,
        }
    }
}

impl<'a, const N: usize> ConfigDocument<'a, N> {
    /// The document's invariant (see `ConfigDocumentView::well_formed`).
    pub open spec fn wf(self) -> bool {
        self@.well_formed() && self@.capacity == N
    }

    /// Creates an empty config document.
    pub fn new(profile: &'a str, format: ConfigFormat) -> (r: Self)
        ensures
            r@.schema_version == CONFIG_SCHEMA_VERSION,
            r@.profile == profile,
            r@.format == format,
            r@.trace == TraceContext::empty(),
            r@.capacity == N,
            r@.count == 0,
            r@.slots == Seq::new(N as nat, |i: int| None::<ConfigEntry<'a>>),
            r.wf(),
    {
        let r = ConfigDocument {
            schema_version: CONFIG_SCHEMA_VERSION,
            profile,
            format,
            trace: TraceContext::empty(),
            entries: [None; N],
            len: 0,
        };
        assert(r@.slots =~= Seq::new(N as nat, |i: int| None::<ConfigEntry<'a>>));
        r
    }

    /// Returns the schema version.
    pub fn schema_version(self) -> (r: &'a str)
        ensures
            r == self@.schema_version,
    {
        self.schema_version
    }

    /// Returns the profile label.
    pub fn profile(self) -> (r: &'a str)
        ensures
            r == self@.profile,
    {
        self.profile
    }

    /// Returns the document format.
    pub fn format(self) -> (r: ConfigFormat)
        ensures
            r == self@.format,
    {
        self.format
    }

    /// Returns the trace context.
    pub fn trace(self) -> (r: TraceContext)
        ensures
            r == self@.trace,
    {
        self.trace
    }

    /// Sets trace context.
    pub fn with_trace(self, trace: TraceContext) -> (r: Self)
        ensures
            r@ == (ConfigDocumentView { trace, ..self@ }),
    {
        let mut r = self;
        r.trace = trace;
        r
    }

    /// Returns entry count.
    pub fn len(self) -> (r: usize)
        ensures
            r == self@.count,
    {
        self.len
    }

    /// Returns `true` when document is empty.
    pub fn is_empty(self) -> (r: bool)
        ensures
            r == (self@.count == 0),
    {
        self.len == 0
    }

    /// Adds an entry. On success the entry occupies the next slot; on
    /// failure the document is unchanged.
    pub fn add_entry(&mut self, entry: ConfigEntry<'a>) -> (r: ProtocolResult<()>)
        ensures
            old(self).wf() ==> final(self).wf(),
            final(self)@.capacity == old(self)@.capacity,
            r == old(self)@.add_outcome(entry),
            r is Ok ==> final(self)@ == old(self)@.with_entry(entry),
            r is Err ==> final(self)@ == old(self)@,
    {
        if self.len >= N || self.len >= MAX_CONFIG_ENTRIES {
            return Err(ProtocolError::CapacityExceeded);
        }
        entry.validate()?;
        if self.contains(entry.domain, entry.key) {
            return Err(ProtocolError::InvalidConfig);
        }
        let ghost before = self@;
        self.entries[self.len] = Some(entry);
        self.len += 1;
        proof {
            assert(final(self)@.slots =~= before.with_entry(entry).slots);
            if before.well_formed() {
                lemma_with_entry_well_formed(before, entry);
            }
        }
        Ok(())
    }

    /// Returns an entry by index.
    pub fn entry(self, index: usize) -> (r: Option<ConfigEntry<'a>>)
        requires
            self@.bounded(),
        ensures
            r == self@.entry_at(index as int),
    {
        if index >= self.len {
            None
        } else {
            self.entries[index]
        }
    }

    /// Finds the first entry filed under `domain` and `key`.
    pub fn find(self, domain: ConfigDomain, key: &str) -> (r: Option<ConfigEntry<'a>>)
        requires
            self@.bounded(),
        ensures
            r == self@.lookup(domain, key@),
    {
        let ghost s = self@.entries();
        let mut index: usize = 0;
        assert(s.skip(0) =~= s);
        while index < self.len
            invariant
                s == self@.entries(),
                self@.bounded(),
                index <= self.len,
                s.len() == self.len,
                find_entry(s, domain, key@) == find_entry(s.skip(index as int), domain, key@),
            decreases self.len - index,
        {
            assert(s[index as int] == self.entries@[index as int]);
            assert(s.skip(index as int)[0] == s[index as int]);
            assert(s.skip(index as int).drop_first() =~= s.skip(index + 1));
            if let Some(entry) = self.entries[index] {
                if entry.domain == domain && str_eq(entry.key, key) {
                    return Some(entry);
                }
            }
            index += 1;
        }
        assert(s.skip(index as int).len() == 0);
        None
    }

    /// Returns `true` when a domain/key exists.
    pub fn contains(self, domain: ConfigDomain, key: &str) -> (r: bool)
        requires
            self@.bounded(),
        ensures
            r == self@.lookup(domain, key@) is Some,
    {
        self.find(domain, key).is_some()
    }

    /// Validates document metadata and every stored entry.
    #[verifier::allow_in_spec]
    pub fn validate(self) -> ProtocolResult<()>
        returns
            self@.validation(),
    {
        validate_schema_version(self.schema_version)?;
        validate_label(self.profile, MAX_PROTOCOL_LABEL_LEN)?;
        self.trace.validate()?;
        if self.len > N || self.len > MAX_CONFIG_ENTRIES {
            return Err(ProtocolError::InvalidConfig);
        }
        let ghost s = self@.entries();
        let mut index: usize = 0;
        assert(s.skip(0) =~= s);
        while index < self.len
            invariant
                s == self@.entries(),
                validate_schema_version(self.schema_version) is Ok,
                validate_label(self.profile, MAX_PROTOCOL_LABEL_LEN) is Ok,
                self.trace.validate() is Ok,
                self.len <= N,
                self.len <= MAX_CONFIG_ENTRIES,
                index <= self.len,
                s.len() == self.len,
                entries_outcome(s) == entries_outcome(s.skip(index as int)),
            decreases self.len - index,
        {
            assert(s[index as int] == self.entries@[index as int]);
            assert(s.skip(index as int)[0] == s[index as int]);
            assert(s.skip(index as int).drop_first() =~= s.skip(index + 1));
            match self.entries[index] {
                None => {
                    return Err(ProtocolError::Internal);
                },
                Some(entry) => {
                    entry.validate()?;
                },
            }
            index += 1;
        }
        assert(s.skip(index as int).len() == 0);
        Ok(())
    }
}

/// Looking up in a sequence with one more slot at the end finds what the
/// shorter sequence finds, or else the new slot when it matches.
pub proof fn lemma_find_entry_push<'a>(
    slots: Seq<Option<ConfigEntry<'a>>>,
    last: ConfigEntry<'a>,
    domain: ConfigDomain,
    key: Seq<char>,
)
    ensures
        find_entry(slots.push(Some(last)), domain, key) == if find_entry(slots, domain, key) is Some {
            find_entry(slots, domain, key)
        } else if entry_matches(last, domain, key) {
            Some(last)
        } else {
            None
        },
    decreases slots.len(),
{
    if slots.len() > 0 {
        assert(slots.push(Some(last)).drop_first() =~= slots.drop_first().push(Some(last)));
        assert(slots.push(Some(last))[0] == slots[0]);
        lemma_find_entry_push(slots.drop_first(), last, domain, key);
    } else {
        let e = Seq::<Option<ConfigEntry<'a>>>::empty();
        assert(slots.push(Some(last)).drop_first() =~= e);
        assert(find_entry(e, domain, key) is None);
        assert(slots.push(Some(last))[0] == Some(last));
    }
}

/// Storing an entry that `add_entry` accepts keeps a document well-formed.
proof fn lemma_with_entry_well_formed<'a>(v: ConfigDocumentView<'a>, entry: ConfigEntry<'a>)
    requires
        v.well_formed(),
        v.add_outcome(entry) is Ok,
    ensures
        v.with_entry(entry).well_formed(),
{
    let after = v.with_entry(entry);
    lemma_find_entry_none(v.entries(), entry.domain, entry.key@);
    assert forall|i: int, j: int|
        #![trigger after.slots[i], after.slots[j]]
        0 <= i < after.count && 0 <= j < after.count && i != j && after.slots[i] is Some
            && after.slots[j] is Some implies !entry_matches(
        after.slots[i].unwrap(),
        after.slots[j].unwrap().domain,
        after.slots[j].unwrap().key@,
    ) by {
        if i == v.count {
            assert(v.entries()[j] == v.slots[j]);
        } else if j == v.count {
            assert(v.entries()[i] == v.slots[i]);
        } else {
            assert(v.slots[i] == after.slots[i]);
            assert(v.slots[j] == after.slots[j]);
        }
    }
}

/// When every slot holds an entry that validates, walking the slots finds
/// no failure.
proof fn lemma_valid_entries_outcome<'a>(slots: Seq<Option<ConfigEntry<'a>>>)
    requires
        forall|i: int|
            0 <= i < slots.len() ==> (#[trigger] slots[i] matches Some(e) && e.validate() is Ok),
    ensures
        entries_outcome(slots) == Ok::<(), ProtocolError>(()),
    decreases slots.len(),
{
    if slots.len() > 0 {
        assert forall|i: int| 0 <= i < slots.drop_first().len() implies (
        #[trigger] slots.drop_first()[i] matches Some(e) && e.validate() is Ok) by {
            assert(slots.drop_first()[i] == slots[i + 1]);
        }
        lemma_valid_entries_outcome(slots.drop_first());
    }
}

/// An entry accepted by `add_entry` is then found under its domain and key,
/// read back at the index it was added at, lookups of every other domain/key
/// pair are unchanged, and the document stays well-formed.
pub proof fn law_added_entry_is_found<'a>(v: ConfigDocumentView<'a>, entry: ConfigEntry<'a>)
    requires
        v.well_formed(),
        v.add_outcome(entry) is Ok,
    ensures
        v.with_entry(entry).well_formed(),
        v.with_entry(entry).count == v.count + 1,
        v.with_entry(entry).lookup(entry.domain, entry.key@) == Some(entry),
        v.with_entry(entry).entry_at(v.count as int) == Some(entry),
        forall|domain: ConfigDomain, key: Seq<char>|
            !entry_matches(entry, domain, key) ==> #[trigger] v.with_entry(entry).lookup(domain, key)
                == v.lookup(domain, key),
{
    lemma_with_entry_well_formed(v, entry);
    let w = v.with_entry(entry);
    assert(w.entries() =~= v.entries().push(Some(entry)));
    lemma_find_entry_push(v.entries(), entry, entry.domain, entry.key@);
    assert forall|domain: ConfigDomain, key: Seq<char>|
        !entry_matches(entry, domain, key) implies #[trigger] w.lookup(domain, key) == v.lookup(
        domain,
        key,
    ) by {
        lemma_find_entry_push(v.entries(), entry, domain, key);
    }
}

/// Once an entry is stored, adding another valid entry under the same
/// domain and key is refused as an invalid config, even when there is room.
pub proof fn law_duplicate_key_rejected<'a>(
    v: ConfigDocumentView<'a>,
    first: ConfigEntry<'a>,
    second: ConfigEntry<'a>,
)
    requires
        v.well_formed(),
        v.add_outcome(first) is Ok,
        second.validate() is Ok,
        second.domain == first.domain,
        second.key@ == first.key@,
    ensures
        v.with_entry(first).add_outcome(second) == Err::<(), ProtocolError>(
            if v.count + 1 >= v.capacity || v.count + 1 >= MAX_CONFIG_ENTRIES {
                ProtocolError::CapacityExceeded
            } else {
                ProtocolError::InvalidConfig
            },
        ),
{
    law_added_entry_is_found(v, first);
}

/// A well-formed document (one built by `new` and `add_entry`) fails
/// validation only through its schema version, profile or trace: its stored
/// entries always validate.
pub proof fn law_well_formed_document_validation<'a>(v: ConfigDocumentView<'a>)
    requires
        v.well_formed(),
    ensures
        v.validation() == first_failure(
            validate_schema_version(v.schema_version),
            first_failure(validate_label(v.profile, MAX_PROTOCOL_LABEL_LEN), v.trace.validate()),
        ),
{
    assert forall|i: int| 0 <= i < v.entries().len() implies (
    #[trigger] v.entries()[i] matches Some(e) && e.validate() is Ok) by {
        assert(v.entries()[i] == v.slots[i]);
    }
    lemma_valid_entries_outcome(v.entries());
}

/// A freshly created entry fails first on its key, measured in UTF-8 bytes
/// (none is a missing field, more than `MAX_CONFIG_KEY_LEN` is too long),
/// and otherwise validates exactly as its value does.
pub proof fn law_new_entry_validation<'a>(
    domain: ConfigDomain,
    key: &'a str,
    value: ConfigValue<'a>,
)
    requires
        key.spec_bytes().len() <= usize::MAX,
    ensures
        ConfigEntry::new(domain, key, value).validate() == if key.spec_bytes().len() == 0 {
            Err::<(), ProtocolError>(ProtocolError::MissingField)
        } else if key.spec_bytes().len() > MAX_CONFIG_KEY_LEN {
            Err(ProtocolError::FieldTooLong)
        } else {
            value.validate()
        },
{
    crate::law_label_by_bytes(key, MAX_CONFIG_KEY_LEN);
}

/// Looking up a domain/key pair in a bounded document finds an entry
/// exactly when some slot in use holds an entry with that domain and that
/// key text, and what it finds is such an entry.
pub proof fn law_lookup_matches_stored_pair<'a>(
    v: ConfigDocumentView<'a>,
    domain: ConfigDomain,
    key: Seq<char>,
)
    requires
        v.bounded(),
    ensures
        (v.lookup(domain, key) is Some) == (exists|i: int|
            0 <= i < v.count && (#[trigger] v.slots[i] matches Some(e) && e.domain == domain
                && e.key@ == key)),
        v.lookup(domain, key) matches Some(e) ==> e.domain == domain && e.key@ == key && exists|
            i: int,
        | 0 <= i < v.count && #[trigger] v.slots[i] == Some(e),
{
    let s = v.entries();
    lemma_find_entry_none(s, domain, key);
    if v.lookup(domain, key) is None {
        assert forall|i: int| 0 <= i < v.count implies !(#[trigger] v.slots[i] matches Some(e)
            && e.domain == domain && e.key@ == key) by {
            assert(s[i] == v.slots[i]);
        }
    } else {
        let e = v.lookup(domain, key).unwrap();
        let i = choose|i: int| 0 <= i < s.len() && #[trigger] s[i] == Some(e);
        assert(v.slots[i] == s[i]);
    }
}

/// Adding to a well-formed document with room: an entry that fails its own
/// validation is refused with that error; a valid entry whose domain and key
/// text are both already stored together is refused as an invalid config;
/// every other valid entry is accepted, including a new key in a domain
/// that already has entries and an existing key in another domain.
pub proof fn law_add_entry_outcome<'a>(v: ConfigDocumentView<'a>, entry: ConfigEntry<'a>)
    requires
        v.well_formed(),
        v.count < v.capacity,
        v.count < MAX_CONFIG_ENTRIES,
    ensures
        entry.validate() is Err ==> v.add_outcome(entry) == entry.validate(),
        entry.validate() is Ok && (exists|i: int|
            0 <= i < v.count && (#[trigger] v.slots[i] matches Some(e) && e.domain
                == entry.domain && e.key@ == entry.key@)) ==> v.add_outcome(entry) == Err::<
            (),
            ProtocolError,
        >(ProtocolError::InvalidConfig),
        entry.validate() is Ok && (forall|i: int|
            0 <= i < v.count ==> !(#[trigger] v.slots[i] matches Some(e) && e.domain
                == entry.domain && e.key@ == entry.key@)) ==> v.add_outcome(entry) is Ok,
{
    law_lookup_matches_stored_pair(v, entry.domain, entry.key@);
}

/// Two valid entries that differ in domain or in key text (two keys of one
/// domain among them) are both accepted, one after the other, by a
/// well-formed document with room for both whose slots hold neither pair:
/// the document then holds two more entries and finds each of them.
pub proof fn law_distinct_pairs_both_added<'a>(
    v: ConfigDocumentView<'a>,
    first: ConfigEntry<'a>,
    second: ConfigEntry<'a>,
)
    requires
        v.well_formed(),
        v.count + 2 <= v.capacity,
        v.count + 2 <= MAX_CONFIG_ENTRIES,
        first.validate() is Ok,
        second.validate() is Ok,
        !(first.domain == second.domain && first.key@ == second.key@),
        forall|i: int|
            0 <= i < v.count ==> !(#[trigger] v.slots[i] matches Some(e) && ((e.domain
                == first.domain && e.key@ == first.key@) || (e.domain == second.domain && e.key@
                == second.key@))),
    ensures
        v.add_outcome(first) is Ok,
        v.with_entry(first).add_outcome(second) is Ok,
        v.with_entry(first).with_entry(second).count == v.count + 2,
        v.with_entry(first).with_entry(second).lookup(first.domain, first.key@) == Some(first),
        v.with_entry(first).with_entry(second).lookup(second.domain, second.key@) == Some(second),
{
    law_add_entry_outcome(v, first);
    law_added_entry_is_found(v, first);
    let w = v.with_entry(first);
    assert forall|i: int| 0 <= i < w.count implies !(#[trigger] w.slots[i] matches Some(e)
        && e.domain == second.domain && e.key@ == second.key@) by {
        if i < v.count {
            assert(w.slots[i] == v.slots[i]);
        }
    }
    law_add_entry_outcome(w, second);
    law_added_entry_is_found(w, second);
}

/// An entry validates exactly when its key is a valid label of at most
/// `MAX_CONFIG_KEY_LEN` bytes, its value is not the empty placeholder, a
/// string value is a valid label of at most `MAX_CONFIG_VALUE_LEN` bytes, and
/// its redaction state suits its data class. An invalid key gives its own
/// error, and an empty value behind a valid key is an invalid config.
pub proof fn law_entry_validation_fields<'a>(e: ConfigEntry<'a>)
    ensures
        (e.validate() is Ok) == (validate_label(e.key, MAX_CONFIG_KEY_LEN) is Ok && !(e.value is Empty)
            && (e.value matches ConfigValue::String(text) ==> validate_label(
            text,
            MAX_CONFIG_VALUE_LEN,
        ) is Ok) && validate_redaction(e.data_class, e.redaction) is Ok),
        validate_label(e.key, MAX_CONFIG_KEY_LEN) is Ok && e.value is Empty ==> e.validate()
            == Err::<(), ProtocolError>(ProtocolError::InvalidConfig),
        validate_label(e.key, MAX_CONFIG_KEY_LEN) is Err ==> e.validate() == validate_label(
            e.key,
            MAX_CONFIG_KEY_LEN,
        ),
{
}

/// Walking entry slots succeeds exactly when every slot holds an entry that
/// validates.
proof fn lemma_entries_outcome_ok<'a>(slots: Seq<Option<ConfigEntry<'a>>>)
    ensures
        (entries_outcome(slots) is Ok) == (forall|i: int|
            0 <= i < slots.len() ==> (#[trigger] slots[i] matches Some(e) && e.validate() is Ok)),
    decreases slots.len(),
{
    if slots.len() > 0 {
        lemma_entries_outcome_ok(slots.drop_first());
        if entries_outcome(slots) is Ok {
            assert forall|i: int| 0 <= i < slots.len() implies (#[trigger] slots[i] matches Some(e)
                && e.validate() is Ok) by {
                if i > 0 {
                    assert(slots[i] == slots.drop_first()[i - 1]);
                }
            }
        } else if forall|i: int|
            0 <= i < slots.len() ==> (#[trigger] slots[i] matches Some(e) && e.validate() is Ok) {
            assert(slots[0] matches Some(e) && e.validate() is Ok);
            assert forall|i: int| 0 <= i < slots.drop_first().len() implies (
            #[trigger] slots.drop_first()[i] matches Some(e) && e.validate() is Ok) by {
                assert(slots.drop_first()[i] == slots[i + 1]);
            }
        }
    }
}

/// A document validates exactly when its schema version, profile and trace
/// validate, it holds no more entries than its capacity and
/// `MAX_CONFIG_ENTRIES`, and every slot in use holds an entry that
/// validates. An invalid schema version gives its own error.
pub proof fn law_document_validation_characterized<'a>(v: ConfigDocumentView<'a>)
    requires
        v.slots.len() == v.capacity,
    ensures
        (v.validation() is Ok) == (validate_schema_version(v.schema_version) is Ok && validate_label(
            v.profile,
            MAX_PROTOCOL_LABEL_LEN,
        ) is Ok && v.trace.validate() is Ok && v.count <= v.capacity && v.count
            <= MAX_CONFIG_ENTRIES && (forall|i: int|
            0 <= i < v.count ==> (#[trigger] v.slots[i] matches Some(e) && e.validate() is Ok))),
        validate_schema_version(v.schema_version) is Err ==> v.validation() == validate_schema_version(
            v.schema_version,
        ),
{
    if v.count <= v.capacity {
        let s = v.entries();
        lemma_entries_outcome_ok(s);
        assert forall|i: int| 0 <= i < v.count implies #[trigger] v.slots[i] == s[i] by {}
    }
}

/// Adding to a full document, or one holding `MAX_CONFIG_ENTRIES` entries,
/// is refused as over capacity whatever the entry.
pub proof fn law_full_document_refuses<'a>(v: ConfigDocumentView<'a>, entry: ConfigEntry<'a>)
    requires
        v.count >= v.capacity || v.count >= MAX_CONFIG_ENTRIES,
    ensures
        v.add_outcome(entry) == Err::<(), ProtocolError>(ProtocolError::CapacityExceeded),
{
}

/// Module boundary descriptor.
#[derive(Clone, Debug, PartialEq, Eq)]
pub struct ConfigDescriptor<'a> {
    /// Human-readable descriptor name.
    pub name: &'a str,
    /// Descriptor version.
    pub version: u32,
}

impl<'a> ConfigDescriptor<'a> {
    /// Creates a config descriptor.
    pub fn new(name: &'a str, version: u32) -> (r: Self)
        ensures
            r.name == name,
            r.version == version,
    {
        ConfigDescriptor { name, version }
    }
}

} // verus!
