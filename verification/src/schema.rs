//! The documents that the host compute network service reads and writes: the
//! settings of a network and of a namespace, and the query that selects objects.
use vstd::prelude::*;
use vstd::string::StringExecFns;

verus! {

/// A JSON value of any shape, for the parts of a document that this library
/// passes through unread.
#[verifier::external_type_specification]
#[verifier::external_body]
pub struct ExJsonValue(serde_json::Value);

/// The settings and the state of a network.
#[derive(Debug)]
pub struct HostComputeNetwork {
    pub id: String,
    pub name: String,
    pub network_type: Option<NetworkType>,
    pub policies: Vec<NetworkPolicy>,
    pub mac_pool: Option<MacPool>,
    pub dns: Option<Dns>,
    pub ipams: Vec<Ipam>,
    pub flags: Option<NetworkFlags>,
    pub health: Option<Health>,
    pub schema_version: Version,
}

/// The version of the schema that a document follows.
#[derive(Debug, Clone, Copy, PartialEq, Eq, Structural)]
pub struct Version {
    pub major: u32,
    pub minor: u32,
}

/// What the service reports on the health of a network.
#[derive(Debug)]
pub struct Health {
    pub data: Option<serde_json::Value>,
    pub extra: Option<ExtraParams>,
}

/// Further parameters of a health report.
#[derive(Debug)]
pub struct ExtraParams {
    pub resources: Option<serde_json::Value>,
    pub shared_containers: Option<serde_json::Value>,
    pub layered_on: Option<String>,
    pub switch_guid: Option<String>,
    pub utility_vm: Option<String>,
    pub virtual_machine: Option<String>,
}

/// The name resolution of a network.
#[derive(Debug)]
pub struct Dns {
    pub domain: Option<String>,
    pub search: Option<Vec<String>>,
    pub server_list: Option<Vec<String>>,
    pub options: Option<Vec<String>>,
}

/// The flags of a network, as bits.
pub type NetworkFlags = u32;

/// The kind of a network.
#[derive(Debug, Clone, Copy, PartialEq, Eq, Structural)]
pub enum NetworkType {
    NAT,
    Transparent,
    L2Bridge,
    L2Tunnel,
    ICS,
    Private,
    Overlay,
}

/// A policy of a network: its kind, and settings in the shape that the kind asks for.
#[derive(Debug, PartialEq)]
pub struct NetworkPolicy {
    pub network_type: NetworkPolicyType,
    pub settings: Option<serde_json::Value>,
}

/// The address management of a network.
#[derive(Debug)]
pub struct Ipam {
    pub ipam_type: Option<String>,
    pub subnets: Vec<Subnet>,
}

/// A subnet of a network.
#[derive(Debug)]
pub struct Subnet {
    pub ip_address_prefix: Option<String>,
    pub policies: Vec<serde_json::Value>,
    pub routes: Vec<Route>,
}

/// A route of a subnet.
#[derive(Debug)]
pub struct Route {
    pub next_hop: Option<String>,
    pub destination_prefix: Option<String>,
    pub metric: Option<u16>,
}

/// The kind of a network policy.
#[derive(Debug, Clone, Copy, PartialEq, Eq, Structural)]
pub enum NetworkPolicyType {
    SourceMacAddress,
    NetAdapterName,
    VSwitchExtension,
    DrMacAddress,
    AutomaticDNS,
    InterfaceConstraint,
    ProviderAddress,
    RemoteSubnetRoute,
    VxlanPort,
    HostRoute,
    SetPolicy,
    NetworkL4Proxy,
    LayerConstraint,
    NetworkACL,
}

/// A range of hardware addresses.
#[derive(Debug, PartialEq)]
pub struct MacRange {
    pub start_mac_address: Option<String>,
    pub end_mac_address: Option<String>,
}

/// The hardware addresses that a network hands out.
#[derive(Debug, PartialEq)]
pub struct MacPool {
    pub ranges: Option<Vec<MacRange>>,
}

/// The settings and the state of a namespace.
#[derive(Debug)]
pub struct HostComputeNamespace {
    pub id: String,
    pub namespace_id: Option<u32>,
    pub namespace_type: Option<NamespaceType>,
    pub resources: Vec<NamespaceResource>,
    pub create_with_compartment: Option<bool>,
    pub schema_version: Version,
}

/// The kind of a namespace.
#[derive(Debug, Clone, Copy, PartialEq, Eq, Structural)]
pub enum NamespaceType {
    Host,
    HostDefault,
    Guest,
    GuestDefault,
}

/// A resource that belongs to a namespace.
#[derive(Debug)]
pub struct NamespaceResource {
    pub resource_type: Option<NamespaceResourceType>,
    pub data: Option<serde_json::Value>,
}

/// The kind of a resource of a namespace.
#[derive(Debug, Clone, Copy, PartialEq, Eq, Structural)]
pub enum NamespaceResourceType {
    Container,
    Endpoint,
}

/// How much a query asks for.
#[derive(Debug, Clone, Copy, PartialEq, Eq, Structural)]
pub enum HostComputeQueryFlags {
    Basic,
    Detailed,
}

/// A query: which objects to report, and in how much detail.
#[derive(Debug)]
pub struct HostComputeQuery {
    pub schema_version: Version,
    pub flags: HostComputeQueryFlags,
    pub filter: String,
}

impl Default for Version {
    /// The version that documents follow unless they say otherwise: 2.2.
    fn default() -> (version: Version)
        ensures
            version.major == 2,
            version.minor == 2,
    {
        Version { major: 2, minor: 2 }
    }
}

impl Route {
    /// Whether this is the route that a default subnet has: everything goes by
    /// way of 10.0.0.1.
    pub open spec fn is_default_route(&self) -> bool {
        &&& self.next_hop matches Some(hop) && hop@ == "10.0.0.1"@
        &&& self.destination_prefix matches Some(prefix) && prefix@ == "0.0.0.0/0"@
        &&& self.metric is None
    }
}

impl Default for Route {
    /// A route that says nothing.
    fn default() -> (route: Route)
        ensures
            route.next_hop is None,
            route.destination_prefix is None,
            route.metric is None,
    {
        Route { next_hop: None, destination_prefix: None, metric: None }
    }
}

impl Subnet {
    /// Whether this is the default subnet: 10.0.0.0/16, no policies, and the
    /// default route alone.
    pub open spec fn is_default_subnet(&self) -> bool {
        &&& self.ip_address_prefix matches Some(prefix) && prefix@ == "10.0.0.0/16"@
        &&& self.policies@.len() == 0
        &&& self.routes@.len() == 1
        &&& self.routes@[0].is_default_route()
    }
}

impl Default for Subnet {
    /// The subnet 10.0.0.0/16 with one route, to everywhere by way of 10.0.0.1.
    fn default() -> (subnet: Subnet)
        ensures
            subnet.is_default_subnet(),
    {
        Subnet {
            ip_address_prefix: Some("10.0.0.0/16".to_owned()),
            routes: vec![
                Route {
                    next_hop: Some("10.0.0.1".to_owned()),
                    destination_prefix: Some("0.0.0.0/0".to_owned()),
                    metric: None,
                },
            ],
            policies: Vec::new(),
        }
    }
}

impl Default for Ipam {
    /// Static address management of the default subnet.
    fn default() -> (ipam: Ipam)
        ensures
            ipam.ipam_type matches Some(kind) && kind@ == "Static"@,
            ipam.subnets@.len() == 1,
            ipam.subnets@[0].is_default_subnet(),
    {
        Ipam { ipam_type: Some("Static".to_owned()), subnets: vec![Subnet::default()] }
    }
}

impl Default for HostComputeNetwork {
    /// A network document that says nothing but its schema version, 2.2.
    fn default() -> (network: HostComputeNetwork)
        ensures
            network.id@.len() == 0,
            network.name@.len() == 0,
            network.network_type is None,
            network.policies@.len() == 0,
            network.mac_pool is None,
            network.dns is None,
            network.ipams@.len() == 0,
            network.flags is None,
            network.health is None,
            network.schema_version == (Version { major: 2, minor: 2 }),
    {
        HostComputeNetwork {
            id: String::new(),
            name: String::new(),
            network_type: None,
            policies: Vec::new(),
            mac_pool: None,
            dns: None,
            ipams: Vec::new(),
            flags: None,
            health: None,
            schema_version: Version::default(),
        }
    }
}

impl Default for Health {
    /// A health report that says nothing.
    fn default() -> (health: Health)
        ensures
            health.data is None,
            health.extra is None,
    {
        Health { data: None, extra: None }
    }
}

impl Default for ExtraParams {
    /// Parameters that say nothing.
    fn default() -> (extra: ExtraParams)
        ensures
            extra.resources is None,
            extra.shared_containers is None,
            extra.layered_on is None,
            extra.switch_guid is None,
            extra.utility_vm is None,
            extra.virtual_machine is None,
    {
        ExtraParams {
            resources: None,
            shared_containers: None,
            layered_on: None,
            switch_guid: None,
            utility_vm: None,
            virtual_machine: None,
        }
    }
}

impl Default for Dns {
    /// Name resolution that says nothing.
    fn default() -> (dns: Dns)
        ensures
            dns.domain is None,
            dns.search is None,
            dns.server_list is None,
            dns.options is None,
    {
        Dns { domain: None, search: None, server_list: None, options: None }
    }
}

impl Default for MacRange {
    /// A range without bounds.
    fn default() -> (range: MacRange)
        ensures
            range.start_mac_address is None,
            range.end_mac_address is None,
    {
        MacRange { start_mac_address: None, end_mac_address: None }
    }
}

impl Default for MacPool {
    /// A pool without ranges.
    fn default() -> (pool: MacPool)
        ensures
            pool.ranges is None,
    {
        MacPool { ranges: None }
    }
}

impl Default for HostComputeNamespace {
    /// A namespace document that says nothing but its schema version, 2.2.
    fn default() -> (namespace: HostComputeNamespace)
        ensures
            namespace.id@.len() == 0,
            namespace.namespace_id is None,
            namespace.namespace_type is None,
            namespace.resources@.len() == 0,
            namespace.create_with_compartment is None,
            namespace.schema_version == (Version { major: 2, minor: 2 }),
    {
        HostComputeNamespace {
            id: String::new(),
            namespace_id: None,
            namespace_type: None,
            resources: Vec::new(),
            create_with_compartment: None,
            schema_version: Version::default(),
        }
    }
}

impl HostComputeQueryFlags {
    /// The number that stands for the flags in a document.
    pub open spec fn spec_bits(&self) -> u32 {
        match self {
            HostComputeQueryFlags::Basic => 0,
            HostComputeQueryFlags::Detailed => 1,
        }
    }

    /// The number that stands for the flags in a document: 0 for the basic
    /// report, 1 for the detailed one.
    #[verifier::when_used_as_spec(spec_bits)]
    pub fn bits(&self) -> (bits: u32)
        ensures
            bits == self.spec_bits(),
    {
        match self {
            HostComputeQueryFlags::Basic => 0,
            HostComputeQueryFlags::Detailed => 1,
        }
    }
}

impl Default for HostComputeQueryFlags {
    /// The basic report.
    fn default() -> (flags: HostComputeQueryFlags)
        ensures
            flags == HostComputeQueryFlags::Basic,
    {
        HostComputeQueryFlags::Basic
    }
}

impl Default for HostComputeQuery {
    /// The query for the basic report on every object, in schema version 2.2.
    fn default() -> (query: HostComputeQuery)
        ensures
            query.schema_version == (Version { major: 2, minor: 2 }),
            query.flags == HostComputeQueryFlags::Basic,
            query.filter@.len() == 0,
    {
        HostComputeQuery {
            schema_version: Version::default(),
            flags: HostComputeQueryFlags::default(),
            filter: String::new(),
        }
    }
}

/// What `serde_json::to_string` makes of a string: the JSON string literal that
/// stands for it, quotes included.
pub uninterp spec fn json_string(text: Seq<char>) -> Seq<char>;

/// The character of a decimal digit.
pub open spec fn digit_char(digit: nat) -> char {
    if digit == 0 {
        '0'
    } else if digit == 1 {
        '1'
    } else if digit == 2 {
        '2'
    } else if digit == 3 {
        '3'
    } else if digit == 4 {
        '4'
    } else if digit == 5 {
        '5'
    } else if digit == 6 {
        '6'
    } else if digit == 7 {
        '7'
    } else if digit == 8 {
        '8'
    } else {
        '9'
    }
}

/// A number in decimal digits, without leading zeros.
pub open spec fn decimal(n: nat) -> Seq<char>
    decreases n,
{
    if n < 10 {
        seq![digit_char(n)]
    } else {
        decimal(n / 10).push(digit_char(n % 10))
    }
}

/// The JSON document of a query: the schema version, the flags as a number, and
/// the filter, as the JSON string literal `filter`, unless there is none.
pub open spec fn query_document(
    schema_version: Version,
    flags: HostComputeQueryFlags,
    filter: Option<Seq<char>>,
) -> Seq<char> {
    let head = "{\"SchemaVersion\":{\"Major\":"@ + decimal(schema_version.major as nat)
        + ",\"Minor\":"@ + decimal(schema_version.minor as nat) + "},\"Flags\":"@ + decimal(
        flags.spec_bits() as nat,
    );
    match filter {
        Some(literal) => head + ",\"Filter\":"@ + literal + "}"@,
        None => head + "}"@,
    }
}

/// Calls `serde_json::to_string` on a `u32`, which writes the number in decimal
/// digits and cannot fail.
#[verifier::external_body]
fn json_of_number(n: u32) -> (json: String)
    ensures
        json@ == decimal(n as nat),
{
    serde_json::to_string(&n).unwrap_or_default()
}

/// Calls `serde_json::to_string` on a string, which writes it between quotes
/// with the characters escaped that JSON wants escaped, and cannot fail. The
/// contract gives the outcome its name, `json_string`.
#[verifier::external_body]
fn json_of_text(text: &str) -> (json: String)
    ensures
        json@ == json_string(text@),
{
    serde_json::to_string(text).unwrap_or_default()
}

/// Writes the JSON document of a query whose filter, if it has one, is already
/// written as the JSON string literal `filter`.
pub fn frame_query(
    schema_version: Version,
    flags: HostComputeQueryFlags,
    filter: Option<&str>,
) -> (json: String)
    ensures
        json@ == query_document(
            schema_version,
            flags,
            match filter {
                Some(literal) => Some(literal@),
                None => None,
            },
        ),
{
    let mut json = "{\"SchemaVersion\":{\"Major\":".to_owned();
    json.append(json_of_number(schema_version.major).as_str());
    json.append(",\"Minor\":");
    json.append(json_of_number(schema_version.minor).as_str());
    json.append("},\"Flags\":");
    json.append(json_of_number(flags.bits()).as_str());
    match filter {
        Some(literal) => {
            json.append(",\"Filter\":");
            json.append(literal);
        },
        None => {},
    }
    json.append("}");
    json
}

impl HostComputeQuery {
    /// The characters of the query's JSON document: an empty filter is left
    /// out, another one is written as a JSON string.
    pub open spec fn json(&self) -> Seq<char> {
        query_document(
            self.schema_version,
            self.flags,
            if self.filter@.len() == 0 {
                None
            } else {
                Some(json_string(self.filter@))
            },
        )
    }

    /// The characters of the default query's JSON document.
    pub open spec fn default_json() -> Seq<char> {
        query_document(Version { major: 2, minor: 2 }, HostComputeQueryFlags::Basic, None)
    }

    /// Writes the query as a JSON document.
    pub fn to_json(&self) -> (json: String)
        ensures
            json@ == self.json(),
    {
        if self.filter.as_str().is_empty() {
            frame_query(self.schema_version, self.flags, None)
        } else {
            let literal = json_of_text(self.filter.as_str());
            frame_query(self.schema_version, self.flags, Some(literal.as_str()))
        }
    }
}

/// A one-digit number is written as its digit.
pub proof fn lemma_decimal_of_digit(n: nat)
    requires
        n < 10,
    ensures
        decimal(n) == seq![digit_char(n)],
{
}

/// The default query is the document
/// `{"SchemaVersion":{"Major":2,"Minor":2},"Flags":0}`.
pub proof fn lemma_default_query_json()
    ensures
        HostComputeQuery::default_json()
            == "{\"SchemaVersion\":{\"Major\":2,\"Minor\":2},\"Flags\":0}"@,
{
    reveal_strlit("{\"SchemaVersion\":{\"Major\":");
    reveal_strlit(",\"Minor\":");
    reveal_strlit("},\"Flags\":");
    reveal_strlit("}");
    reveal_strlit("{\"SchemaVersion\":{\"Major\":2,\"Minor\":2},\"Flags\":0}");
    lemma_decimal_of_digit(2);
    lemma_decimal_of_digit(0);
    assert(HostComputeQuery::default_json()
        =~= "{\"SchemaVersion\":{\"Major\":2,\"Minor\":2},\"Flags\":0}"@);
}

} // verus!
