use hcn::schema::{
    Dns, ExtraParams, Health, HostComputeNamespace, HostComputeNetwork, HostComputeQuery,
    HostComputeQueryFlags, Ipam, MacPool, MacRange, NamespaceResource, NamespaceResourceType,
    NamespaceType, NetworkPolicy, NetworkPolicyType, NetworkType, Route, Subnet, Version,
};

#[test]
fn default_version_is_two_two() {
    assert_eq!(Version::default(), Version { major: 2, minor: 2 });
    assert_eq!(Version::default().major, 2);
    assert_eq!(Version::default().minor, 2);
}

#[test]
fn default_subnet_has_one_route() {
    let subnet = Subnet::default();
    assert_eq!(subnet.ip_address_prefix.as_deref(), Some("10.0.0.0/16"));
    assert!(subnet.policies.is_empty());
    assert_eq!(subnet.routes.len(), 1);
    assert_eq!(subnet.routes[0].next_hop.as_deref(), Some("10.0.0.1"));
    assert_eq!(subnet.routes[0].destination_prefix.as_deref(), Some("0.0.0.0/0"));
    assert_eq!(subnet.routes[0].metric, None);
}

#[test]
fn default_ipam_is_static_with_the_default_subnet() {
    let ipam = Ipam::default();
    assert_eq!(ipam.ipam_type.as_deref(), Some("Static"));
    assert_eq!(ipam.subnets.len(), 1);
    assert_eq!(ipam.subnets[0].ip_address_prefix.as_deref(), Some("10.0.0.0/16"));
    assert!(ipam.subnets[0].policies.is_empty());
    assert_eq!(ipam.subnets[0].routes.len(), 1);
    assert_eq!(ipam.subnets[0].routes[0].next_hop.as_deref(), Some("10.0.0.1"));
    assert_eq!(ipam.subnets[0].routes[0].destination_prefix.as_deref(), Some("0.0.0.0/0"));
    assert_eq!(ipam.subnets[0].routes[0].metric, None);
}

#[test]
fn default_route_says_nothing() {
    let route = Route::default();
    assert_eq!(route.next_hop, None);
    assert_eq!(route.destination_prefix, None);
    assert_eq!(route.metric, None);
}

#[test]
fn default_network_says_nothing_but_its_version() {
    let network = HostComputeNetwork::default();
    assert_eq!(network.id, "");
    assert_eq!(network.name, "");
    assert_eq!(network.network_type, None);
    assert!(network.policies.is_empty());
    assert_eq!(network.mac_pool, None);
    assert!(network.dns.is_none());
    assert!(network.ipams.is_empty());
    assert_eq!(network.flags, None);
    assert!(network.health.is_none());
    assert_eq!(network.schema_version, Version { major: 2, minor: 2 });
}

#[test]
fn default_namespace_says_nothing_but_its_version() {
    let namespace = HostComputeNamespace::default();
    assert_eq!(namespace.id, "");
    assert_eq!(namespace.namespace_id, None);
    assert_eq!(namespace.namespace_type, None);
    assert!(namespace.resources.is_empty());
    assert_eq!(namespace.create_with_compartment, None);
    assert_eq!(namespace.schema_version, Version { major: 2, minor: 2 });
}

#[test]
fn default_parts_say_nothing() {
    let health = Health::default();
    assert!(health.data.is_none());
    assert!(health.extra.is_none());
    let extra = ExtraParams::default();
    assert!(extra.resources.is_none());
    assert!(extra.shared_containers.is_none());
    assert_eq!(extra.layered_on, None);
    assert_eq!(extra.switch_guid, None);
    assert_eq!(extra.utility_vm, None);
    assert_eq!(extra.virtual_machine, None);
    let dns = Dns::default();
    assert_eq!(dns.domain, None);
    assert_eq!(dns.search, None);
    assert_eq!(dns.server_list, None);
    assert_eq!(dns.options, None);
    assert_eq!(MacRange::default(), MacRange { start_mac_address: None, end_mac_address: None });
    assert_eq!(MacPool::default(), MacPool { ranges: None });
}

#[test]
fn default_query_asks_for_the_basic_report() {
    let query = HostComputeQuery::default();
    assert_eq!(query.schema_version, Version { major: 2, minor: 2 });
    assert_eq!(query.flags, HostComputeQueryFlags::Basic);
    assert_eq!(query.filter, "");
    assert_eq!(HostComputeQueryFlags::default(), HostComputeQueryFlags::Basic);
}

#[test]
fn query_flags_have_their_numbers() {
    assert_eq!(HostComputeQueryFlags::Basic.bits(), 0);
    assert_eq!(HostComputeQueryFlags::Detailed.bits(), 1);
}

#[test]
fn default_query_document() {
    assert_eq!(
        HostComputeQuery::default().to_json(),
        "{\"SchemaVersion\":{\"Major\":2,\"Minor\":2},\"Flags\":0}"
    );
}

#[test]
fn detailed_query_document_with_other_version() {
    let query = HostComputeQuery {
        schema_version: Version { major: 12, minor: 340 },
        flags: HostComputeQueryFlags::Detailed,
        filter: String::new(),
    };
    assert_eq!(query.to_json(), "{\"SchemaVersion\":{\"Major\":12,\"Minor\":340},\"Flags\":1}");
}

#[test]
fn query_document_with_extreme_versions() {
    let query = HostComputeQuery {
        schema_version: Version { major: 0, minor: u32::MAX },
        flags: HostComputeQueryFlags::Basic,
        filter: String::new(),
    };
    assert_eq!(
        query.to_json(),
        "{\"SchemaVersion\":{\"Major\":0,\"Minor\":4294967295},\"Flags\":0}"
    );
}

#[test]
fn query_document_with_filter() {
    let query = HostComputeQuery {
        schema_version: Version::default(),
        flags: HostComputeQueryFlags::Basic,
        filter: String::from("{\"Name\":\"nat\"}"),
    };
    assert_eq!(
        query.to_json(),
        "{\"SchemaVersion\":{\"Major\":2,\"Minor\":2},\"Flags\":0,\"Filter\":\"{\\\"Name\\\":\\\"nat\\\"}\"}"
    );
}

#[test]
fn query_document_escapes_the_filter() {
    let query = HostComputeQuery {
        schema_version: Version::default(),
        flags: HostComputeQueryFlags::Detailed,
        filter: String::from("a\\b\n\t\u{1}\u{e9}"),
    };
    assert_eq!(
        query.to_json(),
        "{\"SchemaVersion\":{\"Major\":2,\"Minor\":2},\"Flags\":1,\"Filter\":\"a\\\\b\\n\\t\\u0001\u{e9}\"}"
    );
}

#[test]
fn query_document_is_json_that_says_what_the_query_says() {
    let query = HostComputeQuery {
        schema_version: Version { major: 3, minor: 7 },
        flags: HostComputeQueryFlags::Detailed,
        filter: String::from("\"quoted\" / \\ \r\n"),
    };
    let value: serde_json::Value = serde_json::from_str(&query.to_json()).unwrap();
    assert_eq!(value["SchemaVersion"]["Major"].as_u64(), Some(3));
    assert_eq!(value["SchemaVersion"]["Minor"].as_u64(), Some(7));
    assert_eq!(value["Flags"].as_u64(), Some(1));
    assert_eq!(value["Filter"].as_str(), Some("\"quoted\" / \\ \r\n"));
    assert_eq!(value.as_object().unwrap().len(), 3);
}

#[test]
fn documents_hold_what_they_are_given() {
    let network = HostComputeNetwork {
        network_type: Some(NetworkType::NAT),
        name: String::from("test"),
        ipams: vec![Ipam::default()],
        policies: vec![NetworkPolicy {
            network_type: NetworkPolicyType::VxlanPort,
            settings: Some(serde_json::Value::from(4789)),
        }],
        ..Default::default()
    };
    assert_eq!(network.network_type, Some(NetworkType::NAT));
    assert_eq!(network.name, "test");
    assert_eq!(network.ipams.len(), 1);
    assert_eq!(network.policies[0].network_type, NetworkPolicyType::VxlanPort);
    assert_eq!(network.policies[0].settings, Some(serde_json::Value::from(4789)));
    assert_eq!(network.schema_version, Version::default());
    let namespace = HostComputeNamespace {
        namespace_type: Some(NamespaceType::Guest),
        create_with_compartment: Some(true),
        resources: vec![NamespaceResource {
            resource_type: Some(NamespaceResourceType::Endpoint),
            data: None,
        }],
        ..Default::default()
    };
    assert_eq!(namespace.namespace_type, Some(NamespaceType::Guest));
    assert_eq!(namespace.create_with_compartment, Some(true));
    assert_eq!(namespace.resources[0].resource_type, Some(NamespaceResourceType::Endpoint));
    assert_eq!(namespace.schema_version, Version { major: 2, minor: 2 });
}
