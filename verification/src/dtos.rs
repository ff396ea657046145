//! The data shapes exchanged with the service registry, authorization and
//! orchestrator core systems, and how the printable ones present themselves
//! as values.
//!
//! Metadata and token tables keep their entries as ordered pairs with
//! unique keys; printing preserves that order.

use vstd::prelude::*;

use crate::text::dec_str;
use crate::value::{Node, Value};

verus! {

/// A query for services, sent to the service registry.
#[derive(Debug, PartialEq)]
pub struct ServiceQueryForm {
    pub service_requirements: ServiceRequirements,
    pub ping_providers: Option<bool>,
}

/// The answer to a service query.
#[derive(Debug, PartialEq)]
pub struct ServiceQueryList {
    pub service_query_data: Vec<ArrowheadService<EntryTag>>,
    pub unfiltered_hits: u32,
}

/// How a service authenticates its consumers.
#[derive(Debug, PartialEq, Eq, Structural, Clone, Copy)]
pub enum SecurityType {
    NotSecure,
    Certificate,
    Token,
}

/// A service as the registry knows it. `T` is the registry's entry tag for
/// stored entries, or `NoEntryTag` for entries still to be stored.
#[derive(Debug, PartialEq)]
pub struct ArrowheadService<T> {
    pub entry_tag: T,
    pub service_definition: ServiceDefinitionEntry,
    pub provider_system: ArrowheadSystem<T>,
    pub service_uri: String,
    pub end_of_validity: Option<String>,
    pub secure: Option<SecurityType>,
    pub metadata: Option<Vec<(String, String)>>,
    pub version: Option<u32>,
    pub interfaces: Vec<InterfaceEntry>,
}

/// The bookkeeping a core system attaches to a stored entry.
#[derive(Debug, PartialEq)]
pub struct EntryTag {
    pub id: u32,
    pub created_at: String,
    pub updated_at: String,
}

/// A service definition: either the bare name, or a stored registry entry.
#[derive(Debug, PartialEq)]
pub enum ServiceDefinitionEntry {
    Value(String),
    Entry { entry_tag: EntryTag, service_definition: String },
}

/// A system as the registry knows it.
#[derive(Debug, PartialEq)]
pub struct ArrowheadSystem<T> {
    pub entry_tag: T,
    pub system_name: String,
    pub address: String,
    pub port: u32,
    pub authentication_info: Option<String>,
}

/// An interface a service speaks: either the bare name, or a stored entry.
#[derive(Debug, PartialEq)]
pub enum InterfaceEntry {
    Value(String),
    Entry { entry_tag: EntryTag, interface_name: String },
}

/// The tag of an entry that is not stored anywhere.
#[derive(Debug, PartialEq, Eq, Structural, Clone, Copy)]
pub struct NoEntryTag {}

/// What is required of a service in a query or an orchestration request.
#[derive(Debug, PartialEq)]
pub struct ServiceRequirements {
    pub service_definition_requirement: String,
    pub interface_requirements: Option<Vec<String>>,
    pub security_requirements: Option<Vec<SecurityType>>,
    pub metadata_requirements: Option<Vec<(String, String)>>,
    pub version_requirement: Option<u32>,
    pub max_version_requirement: Option<u32>,
    pub min_version_requirement: Option<u32>,
}

/// An orchestration request as the orchestrator takes it.
#[derive(Debug, PartialEq)]
pub struct ServiceRequestForm {
    pub requester_system: ArrowheadSystem<NoEntryTag>,
    pub requested_service: ServiceRequirements,
    pub preferred_providers: Option<Vec<ArrowheadProvider>>,
    pub orchestration_flags: Option<Vec<(OrchestrationFlagKey, bool)>>,
}

/// A preferred provider for an orchestration request.
#[derive(Debug, PartialEq)]
pub struct ArrowheadProvider {
    pub provider_cloud: ArrowheadCloud,
    pub provider_system: ArrowheadSystem<NoEntryTag>,
}

/// The cloud a provider lives in.
#[derive(Debug, PartialEq)]
pub struct ArrowheadCloud {
    pub operator: String,
    pub name: String,
}

/// The switches an orchestration request can set.
#[derive(Debug, PartialEq, Eq, Structural, Clone, Copy)]
pub enum OrchestrationFlagKey {
    Machmaking,
    MetadataSearch,
    OnlyPreferred,
    PingProviders,
    OverrideStore,
    EnableInterCloud,
    TriggerInterCloud,
}

/// The orchestrator's answer: the matched providers in its order.
#[derive(Debug, PartialEq)]
pub struct OrchestrationResponse {
    pub response: Vec<Orchestration>,
}

/// One orchestration match.
#[derive(Debug, PartialEq)]
pub struct Orchestration {
    pub provider: ArrowheadSystem<EntryTag>,
    pub service: ServiceDefinitionEntry,
    pub service_uri: String,
    pub secure: SecurityType,
    pub metadata: Vec<(String, String)>,
    pub interfaces: Vec<InterfaceEntry>,
    pub version: u32,
    pub authorization_tokens: Option<Vec<(String, String)>>,
    pub warnings: Vec<OrchestrationWarning>,
}

/// A caveat the orchestrator attaches to a match.
#[derive(Debug, PartialEq, Eq, Structural, Clone, Copy)]
pub enum OrchestrationWarning {
    FromOtherCloud,
    TtlExpired,
    TtlExpiring,
    TtlUnknown,
}

/// The error body a core system answers a rejected request with.
#[derive(Debug, PartialEq)]
pub struct ArrowheadServerException {
    pub error_message: String,
    pub error_code: u32,
    pub exception_type: String,
    pub origin: String,
}

/// What a caller supplies to register a service.
#[derive(Debug, PartialEq)]
pub struct RegisterServiceInput {
    pub service_definition: ServiceDefinitionEntry,
    pub service_uri: String,
    pub end_of_validity: Option<String>,
    pub secure: Option<SecurityType>,
    pub metadata: Option<Vec<(String, String)>>,
    pub version: Option<u32>,
    pub interfaces: Vec<InterfaceEntry>,
}

/// What a caller supplies to request an orchestration.
#[derive(Debug, PartialEq)]
pub struct RequestOrchestrationInput {
    pub requested_service: ServiceRequirements,
    pub preferred_providers: Option<Vec<ArrowheadProvider>>,
    pub orchestration_flags: Option<Vec<(OrchestrationFlagKey, bool)>>,
}

impl ServiceDefinitionEntry {
    /// The service definition name, whichever form carries it.
    pub fn get_service_definition(&self) -> (r: &str)
        ensures
            r@ == self.spec_service_definition(),
    {
        match self {
            Self::Value(string) => string.as_str(),
            Self::Entry { service_definition, .. } => service_definition.as_str(),
        }
    }

    /// The service definition name, whichever form carries it.
    pub open spec fn spec_service_definition(self) -> Seq<char> {
        match self {
            Self::Value(string) => string@,
            Self::Entry { service_definition, .. } => service_definition@,
        }
    }
}

impl InterfaceEntry {
    /// The interface name, whichever form carries it.
    pub fn get_interface_name(&self) -> (r: &str)
        ensures
            r@ == self.spec_interface_name(),
    {
        match self {
            Self::Value(string) => string.as_str(),
            Self::Entry { interface_name, .. } => interface_name.as_str(),
        }
    }

    /// The interface name, whichever form carries it.
    pub open spec fn spec_interface_name(self) -> Seq<char> {
        match self {
            Self::Value(string) => string@,
            Self::Entry { interface_name, .. } => interface_name@,
        }
    }
}

impl RegisterServiceInput {
    /// The service to send to the registry: this input joined with the
    /// system that provides it.
    pub fn to_arrowhead_service(
        self,
        provider_system: ArrowheadSystem<NoEntryTag>,
    ) -> (r: ArrowheadService<NoEntryTag>)
        ensures
            r.entry_tag == (NoEntryTag {  }),
            r.service_definition == self.service_definition,
            r.provider_system == provider_system,
            r.service_uri == self.service_uri,
            r.end_of_validity == self.end_of_validity,
            r.secure == self.secure,
            r.metadata == self.metadata,
            r.version == self.version,
            r.interfaces == self.interfaces,
    {
        ArrowheadService {
            provider_system,
            entry_tag: NoEntryTag {  },
            service_definition: self.service_definition,
            service_uri: self.service_uri,
            end_of_validity: self.end_of_validity,
            secure: self.secure,
            metadata: self.metadata,
            version: self.version,
            interfaces: self.interfaces,
        }
    }
}

impl RequestOrchestrationInput {
    /// The orchestration request to send: this input joined with the
    /// system that asks.
    pub fn to_service_request_form(
        self,
        requester_system: ArrowheadSystem<NoEntryTag>,
    ) -> (r: ServiceRequestForm)
        ensures
            r.requester_system == requester_system,
            r.requested_service == self.requested_service,
            r.preferred_providers == self.preferred_providers,
            r.orchestration_flags == self.orchestration_flags,
    {
        ServiceRequestForm {
            requester_system,
            requested_service: self.requested_service,
            preferred_providers: self.preferred_providers,
            orchestration_flags: self.orchestration_flags,
        }
    }
}

/// An exact copy of an optional text.
fn clone_opt_text(o: &Option<String>) -> (r: Option<String>)
    ensures
        r == *o,
{
    match o {
        Some(s) => Some(s.clone()),
        None => None,
    }
}

/// An exact copy of a table of text pairs.
fn clone_text_pairs(v: &Vec<(String, String)>) -> (r: Vec<(String, String)>)
    ensures
        r@ == v@,
{
    let mut out: Vec<(String, String)> = Vec::new();
    let mut i: usize = 0;
    while i < v.len()
        invariant
            i <= v@.len(),
            out@.len() == i,
            forall|j: int| 0 <= j < i ==> out@[j] == v@[j],
        decreases v@.len() - i,
    {
        let p = &v[i];
        out.push((p.0.clone(), p.1.clone()));
        i += 1;
    }
    proof {
        assert(out@ =~= v@);
    }
    out
}

/// Whether two tables of text pairs hold the same entries in the same
/// order.
pub open spec fn opt_text_pairs_eq(
    a: Option<Vec<(String, String)>>,
    b: Option<Vec<(String, String)>>,
) -> bool {
    match (a, b) {
        (Some(x), Some(y)) => x@ == y@,
        (None, None) => true,
        _ => false,
    }
}

/// Whether two services hold the same data: every field equal, tables
/// compared entry by entry.
pub open spec fn service_eq(
    a: ArrowheadService<EntryTag>,
    b: ArrowheadService<EntryTag>,
) -> bool {
    &&& a.entry_tag == b.entry_tag
    &&& a.service_definition == b.service_definition
    &&& a.provider_system == b.provider_system
    &&& a.service_uri == b.service_uri
    &&& a.end_of_validity == b.end_of_validity
    &&& a.secure == b.secure
    &&& opt_text_pairs_eq(a.metadata, b.metadata)
    &&& a.version == b.version
    &&& a.interfaces@ == b.interfaces@
}

/// Whether two orchestration matches hold the same data: every field
/// equal, tables compared entry by entry.
pub open spec fn orchestration_eq(a: Orchestration, b: Orchestration) -> bool {
    &&& a.provider == b.provider
    &&& a.service == b.service
    &&& a.service_uri == b.service_uri
    &&& a.secure == b.secure
    &&& a.metadata@ == b.metadata@
    &&& a.interfaces@ == b.interfaces@
    &&& a.version == b.version
    &&& opt_text_pairs_eq(a.authorization_tokens, b.authorization_tokens)
    &&& a.warnings@ == b.warnings@
}

/// An exact copy of an optional table of text pairs.
fn clone_opt_text_pairs(o: &Option<Vec<(String, String)>>) -> (r: Option<Vec<(String, String)>>)
    ensures
        opt_text_pairs_eq(r, *o),
{
    match o {
        Some(v) => Some(clone_text_pairs(v)),
        None => None,
    }
}

impl Clone for EntryTag {
    /// An exact copy.
    fn clone(&self) -> (r: Self)
        ensures
            r == *self,
    {
        EntryTag {
            id: self.id,
            created_at: self.created_at.clone(),
            updated_at: self.updated_at.clone(),
        }
    }
}

impl Clone for ServiceDefinitionEntry {
    /// An exact copy.
    fn clone(&self) -> (r: Self)
        ensures
            r == *self,
    {
        match self {
            Self::Value(string) => Self::Value(string.clone()),
            Self::Entry { entry_tag, service_definition } => Self::Entry {
                entry_tag: entry_tag.clone(),
                service_definition: service_definition.clone(),
            },
        }
    }
}

impl Clone for InterfaceEntry {
    /// An exact copy.
    fn clone(&self) -> (r: Self)
        ensures
            r == *self,
    {
        match self {
            Self::Value(string) => Self::Value(string.clone()),
            Self::Entry { entry_tag, interface_name } => Self::Entry {
                entry_tag: entry_tag.clone(),
                interface_name: interface_name.clone(),
            },
        }
    }
}

/// An exact copy of a list of interface entries.
fn clone_interfaces(v: &Vec<InterfaceEntry>) -> (r: Vec<InterfaceEntry>)
    ensures
        r@ == v@,
{
    let mut out: Vec<InterfaceEntry> = Vec::new();
    let mut i: usize = 0;
    while i < v.len()
        invariant
            i <= v@.len(),
            out@.len() == i,
            forall|j: int| 0 <= j < i ==> out@[j] == v@[j],
        decreases v@.len() - i,
    {
        out.push(v[i].clone());
        i += 1;
    }
    proof {
        assert(out@ =~= v@);
    }
    out
}

/// An exact copy of a list of warnings.
fn clone_warnings(v: &Vec<OrchestrationWarning>) -> (r: Vec<OrchestrationWarning>)
    ensures
        r@ == v@,
{
    let mut out: Vec<OrchestrationWarning> = Vec::new();
    let mut i: usize = 0;
    while i < v.len()
        invariant
            i <= v@.len(),
            out@.len() == i,
            forall|j: int| 0 <= j < i ==> out@[j] == v@[j],
        decreases v@.len() - i,
    {
        out.push(v[i]);
        i += 1;
    }
    proof {
        assert(out@ =~= v@);
    }
    out
}

impl Clone for ArrowheadSystem<EntryTag> {
    /// An exact copy.
    fn clone(&self) -> (r: Self)
        ensures
            r == *self,
    {
        ArrowheadSystem {
            entry_tag: self.entry_tag.clone(),
            system_name: self.system_name.clone(),
            address: self.address.clone(),
            port: self.port,
            authentication_info: clone_opt_text(&self.authentication_info),
        }
    }
}

impl Clone for ArrowheadSystem<NoEntryTag> {
    /// An exact copy.
    fn clone(&self) -> (r: Self)
        ensures
            r == *self,
    {
        ArrowheadSystem {
            entry_tag: self.entry_tag,
            system_name: self.system_name.clone(),
            address: self.address.clone(),
            port: self.port,
            authentication_info: clone_opt_text(&self.authentication_info),
        }
    }
}

impl Clone for ArrowheadService<EntryTag> {
    /// A copy with the same data.
    fn clone(&self) -> (r: Self)
        ensures
            service_eq(r, *self),
    {
        ArrowheadService {
            entry_tag: self.entry_tag.clone(),
            service_definition: self.service_definition.clone(),
            provider_system: self.provider_system.clone(),
            service_uri: self.service_uri.clone(),
            end_of_validity: clone_opt_text(&self.end_of_validity),
            secure: self.secure,
            metadata: clone_opt_text_pairs(&self.metadata),
            version: self.version,
            interfaces: clone_interfaces(&self.interfaces),
        }
    }
}

/// The three named nodes a stored entry's tag prints as.
pub open spec fn entry_tag_fields(t: EntryTag) -> Seq<(Seq<char>, Node)> {
    seq![
        ("id"@, Node::Scalar(dec_str(t.id as nat))),
        ("createdAt"@, Node::Scalar(t.created_at@)),
        ("updatedAt"@, Node::Scalar(t.updated_at@)),
    ]
}

/// The shape a security type prints as.
pub open spec fn security_node(s: SecurityType) -> Node {
    match s {
        SecurityType::NotSecure => Node::VariantName("NOT_SECURE"@),
        SecurityType::Certificate => Node::VariantName("CERTIFICATE"@),
        SecurityType::Token => Node::VariantName("TOKEN"@),
    }
}

/// The shape an orchestration warning prints as.
pub open spec fn warning_node(w: OrchestrationWarning) -> Node {
    match w {
        OrchestrationWarning::FromOtherCloud => Node::VariantName("FROM_OTHER_CLOUD"@),
        OrchestrationWarning::TtlExpired => Node::VariantName("TTL_EXPIRED"@),
        OrchestrationWarning::TtlExpiring => Node::VariantName("TTL_EXPIRING"@),
        OrchestrationWarning::TtlUnknown => Node::VariantName("TTL_UNKNOWN"@),
    }
}

/// The shape a service definition prints as: the bare name as a scalar, a
/// stored entry as a record.
pub open spec fn sde_node(e: ServiceDefinitionEntry) -> Node {
    match e {
        ServiceDefinitionEntry::Value(s) => Node::Scalar(s@),
        ServiceDefinitionEntry::Entry { entry_tag, service_definition } => Node::Record(
            entry_tag_fields(entry_tag).push(
                ("serviceDefinition"@, Node::Scalar(service_definition@)),
            ),
        ),
    }
}

/// The shape an interface entry prints as.
pub open spec fn iface_node(e: InterfaceEntry) -> Node {
    match e {
        InterfaceEntry::Value(s) => Node::Scalar(s@),
        InterfaceEntry::Entry { entry_tag, interface_name } => Node::Record(
            entry_tag_fields(entry_tag).push(("interfaceName"@, Node::Scalar(interface_name@))),
        ),
    }
}

/// The shape a stored system prints as.
pub open spec fn system_node(s: ArrowheadSystem<EntryTag>) -> Node {
    Node::Record(
        entry_tag_fields(s.entry_tag) + seq![
            ("systemName"@, Node::Scalar(s.system_name@)),
            ("address"@, Node::Scalar(s.address@)),
            ("port"@, Node::Scalar(dec_str(s.port as nat))),
        ] + opt_text_field("authenticationInfo"@, s.authentication_info),
    )
}

/// The named node an optional text field contributes: nothing when unset.
pub open spec fn opt_text_field(name: Seq<char>, o: Option<String>) -> Seq<(Seq<char>, Node)> {
    match o {
        Some(t) => seq![(name, Node::Present(Box::new(Node::Scalar(t@))))],
        None => Seq::empty(),
    }
}

/// The named node an optional security field contributes.
pub open spec fn opt_security_field(name: Seq<char>, o: Option<SecurityType>) -> Seq<
    (Seq<char>, Node),
> {
    match o {
        Some(s) => seq![(name, Node::Present(Box::new(security_node(s))))],
        None => Seq::empty(),
    }
}

/// The named node an optional table field contributes.
pub open spec fn opt_pairs_field(name: Seq<char>, o: Option<Vec<(String, String)>>) -> Seq<
    (Seq<char>, Node),
> {
    match o {
        Some(v) => seq![(name, Node::Present(Box::new(pairs_mapping_node(v@))))],
        None => Seq::empty(),
    }
}

/// The named node an optional number field contributes.
pub open spec fn opt_num_field(name: Seq<char>, o: Option<u32>) -> Seq<(Seq<char>, Node)> {
    match o {
        Some(n) => seq![(name, Node::Present(Box::new(Node::Scalar(dec_str(n as nat)))))],
        None => Seq::empty(),
    }
}

/// The shape a table of text pairs prints as: an ordered mapping of
/// scalars.
pub open spec fn pairs_mapping_node(pairs: Seq<(String, String)>) -> Node {
    Node::Mapping(
        Seq::new(pairs.len(), |i: int| (Node::Scalar(pairs[i].0@), Node::Scalar(pairs[i].1@))),
    )
}

/// The shape a list of interface entries prints as.
pub open spec fn interfaces_node(list: Seq<InterfaceEntry>) -> Node {
    Node::Sequence(Seq::new(list.len(), |i: int| iface_node(list[i])))
}

/// The shape a list of warnings prints as.
pub open spec fn warnings_node(list: Seq<OrchestrationWarning>) -> Node {
    Node::Sequence(Seq::new(list.len(), |i: int| warning_node(list[i])))
}

/// The shape a stored service prints as: the entry tag's fields, the
/// always-present fields, each optional field only when set, and the
/// interface list, in declared order.
pub open spec fn service_node(s: ArrowheadService<EntryTag>) -> Node {
    Node::Record(
        entry_tag_fields(s.entry_tag) + seq![
            ("serviceDefinition"@, sde_node(s.service_definition)),
            ("providerSystem"@, system_node(s.provider_system)),
            ("serviceUri"@, Node::Scalar(s.service_uri@)),
        ] + opt_text_field("endOfValidity"@, s.end_of_validity) + opt_security_field(
            "secure"@,
            s.secure,
        ) + opt_pairs_field("metadata"@, s.metadata) + opt_num_field("version"@, s.version)
            + seq![("interfaces"@, interfaces_node(s.interfaces@))],
    )
}

/// The shape an orchestration match prints as: all nine fields in declared
/// order, the optional token table shown as the empty marker when unset.
pub open spec fn orchestration_node(o: Orchestration) -> Node {
    Node::Record(
        seq![
            ("provider"@, system_node(o.provider)),
            ("service"@, sde_node(o.service)),
            ("serviceUri"@, Node::Scalar(o.service_uri@)),
            ("secure"@, security_node(o.secure)),
            ("metadata"@, pairs_mapping_node(o.metadata@)),
            ("interfaces"@, interfaces_node(o.interfaces@)),
            ("version"@, Node::Scalar(dec_str(o.version as nat))),
            ("authorizationTokens"@, opt_pairs_node(o.authorization_tokens)),
            ("warnings"@, warnings_node(o.warnings@)),
        ],
    )
}

/// The shape an optional table prints as when it stands as a field value.
pub open spec fn opt_pairs_node(o: Option<Vec<(String, String)>>) -> Node {
    match o {
        Some(v) => Node::Present(Box::new(pairs_mapping_node(v@))),
        None => Node::Absent,
    }
}

/// Services that hold the same data print as the same shape: a listing may
/// hand out copies, and what they render to is exactly what the stored
/// records render to.
pub proof fn lemma_service_eq_same_node(a: ArrowheadService<EntryTag>, b: ArrowheadService<EntryTag>)
    requires
        service_eq(a, b),
    ensures
        service_node(a) == service_node(b),
{
}

/// Orchestration matches that hold the same data print as the same shape.
pub proof fn lemma_orchestration_eq_same_node(a: Orchestration, b: Orchestration)
    requires
        orchestration_eq(a, b),
    ensures
        orchestration_node(a) == orchestration_node(b),
{
}

/// A text as a printable scalar.
fn text_value(s: &String) -> (r: Value)
    ensures
        r@ == Node::Scalar(s@),
{
    Value::Scalar(s.clone())
}

/// A text as a present optional printable value.
fn present_text_value(s: &String) -> (r: Value)
    ensures
        r@ == Node::Present(Box::new(Node::Scalar(s@))),
{
    let inner = Value::Scalar(s.clone());
    proof {
        assert(inner@ == Node::Scalar(s@));
    }
    Value::Present(Box::new(inner))
}

impl SecurityType {
    /// Present this security type as a printable value.
    pub fn to_value(&self) -> (r: Value)
        ensures
            r@ == security_node(*self),
    {
        match self {
            SecurityType::NotSecure => Value::VariantName(String::from_str("NOT_SECURE")),
            SecurityType::Certificate => Value::VariantName(String::from_str("CERTIFICATE")),
            SecurityType::Token => Value::VariantName(String::from_str("TOKEN")),
        }
    }
}

impl OrchestrationWarning {
    /// Present this warning as a printable value.
    pub fn to_value(&self) -> (r: Value)
        ensures
            r@ == warning_node(*self),
    {
        match self {
            OrchestrationWarning::FromOtherCloud => Value::VariantName(
                String::from_str("FROM_OTHER_CLOUD"),
            ),
            OrchestrationWarning::TtlExpired => Value::VariantName(String::from_str("TTL_EXPIRED")),
            OrchestrationWarning::TtlExpiring => Value::VariantName(
                String::from_str("TTL_EXPIRING"),
            ),
            OrchestrationWarning::TtlUnknown => Value::VariantName(String::from_str("TTL_UNKNOWN")),
        }
    }
}

/// Push the three fields of an entry tag.
fn push_entry_tag_fields(fields: &mut Vec<(String, Value)>, tag: &EntryTag)
    ensures
        final(fields)@.len() == old(fields)@.len() + 3,
        forall|j: int| 0 <= j < old(fields)@.len() ==> final(fields)@[j] == old(fields)@[j],
        forall|k: int|
            0 <= k < 3 ==> crate::value::field_node(final(fields)@[old(fields)@.len() + k])
                == entry_tag_fields(*tag)[k],
{
    fields.push((String::from_str("id"), Value::Scalar(crate::text::u32_to_string(tag.id))));
    fields.push((String::from_str("createdAt"), text_value(&tag.created_at)));
    fields.push((String::from_str("updatedAt"), text_value(&tag.updated_at)));
}

impl ServiceDefinitionEntry {
    /// Present this service definition as a printable value.
    pub fn to_value(&self) -> (r: Value)
        ensures
            r@ == sde_node(*self),
    {
        match self {
            Self::Value(s) => text_value(s),
            Self::Entry { entry_tag, service_definition } => {
                let mut fields: Vec<(String, Value)> = Vec::new();
                push_entry_tag_fields(&mut fields, entry_tag);
                fields.push(
                    (String::from_str("serviceDefinition"), text_value(service_definition)),
                );
                let ghost fs = fields@;
                let r = Value::Record(fields);
                proof {
                    crate::value::lemma_field_nodes_matches(fs, sde_node(*self)->Record_0);
                }
                r
            },
        }
    }
}

impl InterfaceEntry {
    /// Present this interface entry as a printable value.
    pub fn to_value(&self) -> (r: Value)
        ensures
            r@ == iface_node(*self),
    {
        match self {
            Self::Value(s) => text_value(s),
            Self::Entry { entry_tag, interface_name } => {
                let mut fields: Vec<(String, Value)> = Vec::new();
                push_entry_tag_fields(&mut fields, entry_tag);
                fields.push((String::from_str("interfaceName"), text_value(interface_name)));
                let ghost fs = fields@;
                let r = Value::Record(fields);
                proof {
                    crate::value::lemma_field_nodes_matches(fs, iface_node(*self)->Record_0);
                }
                r
            },
        }
    }
}

impl ArrowheadSystem<EntryTag> {
    /// Present this stored system as a printable value.
    pub fn to_value(&self) -> (r: Value)
        ensures
            r@ == system_node(*self),
    {
        let mut fields: Vec<(String, Value)> = Vec::new();
        push_entry_tag_fields(&mut fields, &self.entry_tag);
        fields.push((String::from_str("systemName"), text_value(&self.system_name)));
        fields.push((String::from_str("address"), text_value(&self.address)));
        fields.push(
            (String::from_str("port"), Value::Scalar(crate::text::u32_to_string(self.port))),
        );
        match &self.authentication_info {
            Some(t) => {
                fields.push((String::from_str("authenticationInfo"), present_text_value(t)));
            },
            None => {},
        }
        let ghost fs = fields@;
        let r = Value::Record(fields);
        proof {
            crate::value::lemma_field_nodes_matches(fs, system_node(*self)->Record_0);
        }
        r
    }
}

/// Present a table of text pairs as a printable mapping.
fn pairs_mapping_value(pairs: &Vec<(String, String)>) -> (r: Value)
    ensures
        r@ == pairs_mapping_node(pairs@),
{
    let mut entries: Vec<(Value, Value)> = Vec::new();
    let mut i: usize = 0;
    while i < pairs.len()
        invariant
            i <= pairs@.len(),
            entries@.len() == i,
            forall|j: int|
                0 <= j < i ==> crate::value::pair_node(entries@[j]) == (
                    Node::Scalar(pairs@[j].0@),
                    Node::Scalar(pairs@[j].1@),
                ),
        decreases pairs@.len() - i,
    {
        let p = &pairs[i];
        entries.push((Value::Scalar(p.0.clone()), Value::Scalar(p.1.clone())));
        i += 1;
    }
    let ghost es = entries@;
    let r = Value::Mapping(entries);
    proof {
        crate::value::lemma_pair_nodes_matches(es, pairs_mapping_node(pairs@)->Mapping_0);
    }
    r
}

/// Present a list of interface entries as a printable sequence.
fn interfaces_value(list: &Vec<InterfaceEntry>) -> (r: Value)
    ensures
        r@ == interfaces_node(list@),
{
    let mut items: Vec<Value> = Vec::new();
    let mut i: usize = 0;
    while i < list.len()
        invariant
            i <= list@.len(),
            items@.len() == i,
            forall|j: int|
                0 <= j < i ==> crate::value::value_node(items@[j]) == iface_node(list@[j]),
        decreases list@.len() - i,
    {
        items.push(list[i].to_value());
        i += 1;
    }
    let ghost is = items@;
    let r = Value::Sequence(items);
    proof {
        crate::value::lemma_item_nodes_matches(is, interfaces_node(list@)->Sequence_0);
    }
    r
}

/// Present a list of warnings as a printable sequence.
fn warnings_value(list: &Vec<OrchestrationWarning>) -> (r: Value)
    ensures
        r@ == warnings_node(list@),
{
    let mut items: Vec<Value> = Vec::new();
    let mut i: usize = 0;
    while i < list.len()
        invariant
            i <= list@.len(),
            items@.len() == i,
            forall|j: int|
                0 <= j < i ==> crate::value::value_node(items@[j]) == warning_node(list@[j]),
        decreases list@.len() - i,
    {
        items.push(list[i].to_value());
        i += 1;
    }
    let ghost is = items@;
    let r = Value::Sequence(items);
    proof {
        crate::value::lemma_item_nodes_matches(is, warnings_node(list@)->Sequence_0);
    }
    r
}

impl ArrowheadService<EntryTag> {
    /// Present this stored service as a printable value.
    pub fn to_value(&self) -> (r: Value)
        ensures
            r@ == service_node(*self),
    {
        let mut fields: Vec<(String, Value)> = Vec::new();
        push_entry_tag_fields(&mut fields, &self.entry_tag);
        fields.push((String::from_str("serviceDefinition"), self.service_definition.to_value()));
        fields.push((String::from_str("providerSystem"), self.provider_system.to_value()));
        fields.push((String::from_str("serviceUri"), text_value(&self.service_uri)));
        match &self.end_of_validity {
            Some(t) => {
                fields.push((String::from_str("endOfValidity"), present_text_value(t)));
            },
            None => {},
        }
        match &self.secure {
            Some(st) => {
                let inner = st.to_value();
                fields.push((String::from_str("secure"), Value::Present(Box::new(inner))));
            },
            None => {},
        }
        match &self.metadata {
            Some(m) => {
                let inner = pairs_mapping_value(m);
                fields.push((String::from_str("metadata"), Value::Present(Box::new(inner))));
            },
            None => {},
        }
        match &self.version {
            Some(v) => {
                let inner = Value::Scalar(crate::text::u32_to_string(*v));
                proof {
                    assert(inner@ == Node::Scalar(dec_str(*v as nat)));
                }
                fields.push((String::from_str("version"), Value::Present(Box::new(inner))));
            },
            None => {},
        }
        fields.push((String::from_str("interfaces"), interfaces_value(&self.interfaces)));
        let ghost fs = fields@;
        let r = Value::Record(fields);
        proof {
            crate::value::lemma_field_nodes_matches(fs, service_node(*self)->Record_0);
        }
        r
    }
}

impl Orchestration {
    /// Present this orchestration match as a printable value.
    pub fn to_value(&self) -> (r: Value)
        ensures
            r@ == orchestration_node(*self),
    {
        let mut fields: Vec<(String, Value)> = Vec::new();
        fields.push((String::from_str("provider"), self.provider.to_value()));
        fields.push((String::from_str("service"), self.service.to_value()));
        fields.push((String::from_str("serviceUri"), text_value(&self.service_uri)));
        fields.push((String::from_str("secure"), self.secure.to_value()));
        fields.push((String::from_str("metadata"), pairs_mapping_value(&self.metadata)));
        fields.push((String::from_str("interfaces"), interfaces_value(&self.interfaces)));
        fields.push(
            (String::from_str("version"), Value::Scalar(crate::text::u32_to_string(self.version))),
        );
        match &self.authorization_tokens {
            Some(m) => {
                let inner = pairs_mapping_value(m);
                fields.push(
                    (String::from_str("authorizationTokens"), Value::Present(Box::new(inner))),
                );
            },
            None => {
                fields.push((String::from_str("authorizationTokens"), Value::Absent));
            },
        }
        fields.push((String::from_str("warnings"), warnings_value(&self.warnings)));
        let ghost fs = fields@;
        let r = Value::Record(fields);
        proof {
            crate::value::lemma_field_nodes_matches(fs, orchestration_node(*self)->Record_0);
        }
        r
    }
}

impl Clone for Orchestration {
    /// A copy with the same data.
    fn clone(&self) -> (r: Self)
        ensures
            orchestration_eq(r, *self),
    {
        Orchestration {
            provider: self.provider.clone(),
            service: self.service.clone(),
            service_uri: self.service_uri.clone(),
            secure: self.secure,
            metadata: clone_text_pairs(&self.metadata),
            interfaces: clone_interfaces(&self.interfaces),
            version: self.version,
            authorization_tokens: clone_opt_text_pairs(&self.authorization_tokens),
            warnings: clone_warnings(&self.warnings),
        }
    }
}

} // verus!
