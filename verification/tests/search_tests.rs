//! The search flow: row flattening, the attribute filter, display
//! lines, the search path, and the status decision.

use knife::errors::KnifeError;
use knife::node::{ChefNode, ChefNodeAutomatic};
use knife::request::ChefServerResponse;
use knife::search::{
    rows_to_nodes, search_request_path, search_response_body, ChefNodeRowRaw, NodeAttribute,
    NodeDocumentRaw, SearchNode,
};
use knife::ssh::ssh_destination;

fn raw_doc() -> NodeDocumentRaw {
    NodeDocumentRaw {
        chef_environment: Some("production".to_string()),
        node_name: Some("web01".to_string()),
        run_list: vec!["role[web]".to_string(), "recipe[nginx]".to_string()],
        ipaddress: Some("10.0.0.5".to_string()),
        macaddress: None,
        hostname: Some("web01.internal".to_string()),
        os: Some("linux".to_string()),
        os_version: None,
        fqdn: Some("web01.example.org".to_string()),
        platform: Some("ubuntu".to_string()),
        platform_family: Some("debian".to_string()),
        platform_version: Some("22.04".to_string()),
        recipes: Some(vec!["nginx".to_string(), "base".to_string()]),
        roles: Some(vec!["web".to_string()]),
    }
}

fn sample_node() -> SearchNode {
    SearchNode::from_row(ChefNodeRowRaw { url: "https://x".to_string(), data: raw_doc() })
}

#[test]
fn from_row_flattens_and_defaults() {
    let node = sample_node();
    assert_eq!(node.name, "web01");
    assert_eq!(node.chef_environment, "production");
    assert_eq!(node.macaddress, "");
    assert_eq!(node.os_version, "");
    assert_eq!(node.machinename, "web01.internal");
    assert_eq!(node.hostname, "web01.internal");
    assert_eq!(node.recipes, vec!["nginx".to_string(), "base".to_string()]);
    assert_eq!(node.run_list, vec!["role[web]".to_string(), "recipe[nginx]".to_string()]);
}

#[test]
fn from_row_empty_document() {
    let node = SearchNode::from_row(ChefNodeRowRaw {
        url: String::new(),
        data: NodeDocumentRaw {
            chef_environment: None,
            node_name: None,
            run_list: vec![],
            ipaddress: None,
            macaddress: None,
            hostname: None,
            os: None,
            os_version: None,
            fqdn: None,
            platform: None,
            platform_family: None,
            platform_version: None,
            recipes: None,
            roles: None,
        },
    });
    assert_eq!(node.name, "");
    assert_eq!(node.roles, Vec::<String>::new());
    assert_eq!(node.recipes, Vec::<String>::new());
}

#[test]
fn rows_to_nodes_keeps_order_and_length() {
    let mut doc2 = raw_doc();
    doc2.node_name = Some("web02".to_string());
    let rows = vec![
        ChefNodeRowRaw { url: String::new(), data: raw_doc() },
        ChefNodeRowRaw { url: String::new(), data: doc2 },
    ];
    let nodes = rows_to_nodes(rows);
    assert_eq!(nodes.len(), 2);
    assert_eq!(nodes[0].name, "web01");
    assert_eq!(nodes[1].name, "web02");
}

#[test]
fn attribute_filter_is_case_insensitive_and_closed() {
    assert_eq!(NodeAttribute::from_str("ipaddress"), Some(NodeAttribute::IPAddress));
    assert_eq!(NodeAttribute::from_str("IPADDRESS"), Some(NodeAttribute::IPAddress));
    assert_eq!(NodeAttribute::from_str("Name"), Some(NodeAttribute::Name));
    assert_eq!(
        NodeAttribute::from_str("chef_environment"),
        Some(NodeAttribute::ChefEnvironment)
    );
    assert_eq!(NodeAttribute::from_str("Platform"), Some(NodeAttribute::Platform));
    assert_eq!(NodeAttribute::from_str("roles"), Some(NodeAttribute::Roles));
    assert_eq!(NodeAttribute::from_str("Recipes"), Some(NodeAttribute::Recipes));
    assert_eq!(NodeAttribute::from_str("hostname"), None);
    assert_eq!(NodeAttribute::from_str(""), None);
}

#[test]
fn attribute_display_lines() {
    let node = sample_node();
    assert_eq!(
        NodeAttribute::Name.display(&node),
        "Node name:        web01"
    );
    assert_eq!(
        NodeAttribute::IPAddress.display(&node),
        "IP Address:       10.0.0.5"
    );
    assert_eq!(
        NodeAttribute::Roles.display(&node),
        "Roles:            web"
    );
    assert_eq!(
        NodeAttribute::Recipes.display(&node),
        "Recipes:          nginx, base"
    );
    assert_eq!(
        NodeAttribute::Platform.display(&node),
        "Platform:          debian"
    );
}

#[test]
fn node_display_with_selected_attributes() {
    let node = sample_node();
    let out = node.display(&vec!["name".to_string(), "ipaddress".to_string()]);
    assert_eq!(
        out,
        "web01\nNode name:        web01\nIP Address:       10.0.0.5\n\n\n"
    );
}

#[test]
fn node_display_skips_unknown_attributes() {
    let node = sample_node();
    let out = node.display(&vec!["nonsense".to_string()]);
    assert_eq!(out, "web01\n\n\n");
}

#[test]
fn node_display_all_lines() {
    let node = sample_node();
    let out = node.display(&Vec::new());
    let expected = "Node name:        web01\n\
                    IP Address:       10.0.0.5\n\
                    Chef Environment: production\n\
                    Roles:            web\n\
                    Run List:         role[web], recipe[nginx]\n\
                    Recipes:          nginx, base\n\
                    Platform:          debian\n\
                    Platform version:  22.04\n\n\n";
    assert_eq!(out, expected);
}

#[test]
fn chef_node_display_lines() {
    let node = ChefNode {
        automatic: ChefNodeAutomatic {
            ipaddress: "10.0.0.5".to_string(),
            macaddress: "00:11:22:33:44:55".to_string(),
            hostname: "web01".to_string(),
            os: "linux".to_string(),
            os_version: "6.1".to_string(),
            machinename: "web01".to_string(),
            fqdn: "web01.example.org".to_string(),
            platform: "ubuntu".to_string(),
            platform_family: "debian".to_string(),
            platform_version: "22.04".to_string(),
            recipes: vec!["nginx".to_string()],
            roles: vec!["web".to_string(), "lb".to_string()],
        },
        chef_environment: "production".to_string(),
        name: "web01".to_string(),
        run_list: vec!["role[web]".to_string()],
    };
    let expected = "Node name:        web01\n\
                    IP Address:       10.0.0.5\n\
                    Chef Environment: production\n\
                    Roles:            web, lb\n\
                    Run List:         role[web]\n\
                    Recipes:          nginx\n\
                    Platform:          debian\n\
                    Platform version:  22.04\n\n\n";
    assert_eq!(node.display(), expected);
}

#[test]
fn search_path_embeds_the_organization() {
    assert_eq!(
        search_request_path("org1"),
        "/organizations/org1/search/node"
    );
}

#[test]
fn search_response_hands_on_200_bodies_only() {
    let ok = search_response_body(ChefServerResponse {
        status: 200,
        body: "{\"rows\":[]}".to_string(),
    });
    assert_eq!(ok, Ok("{\"rows\":[]}".to_string()));

    let err = search_response_body(ChefServerResponse {
        status: 403,
        body: "denied".to_string(),
    });
    assert_eq!(
        err,
        Err(KnifeError::ProtocolStatus { status: 403, body: "denied".to_string() })
    );
}

#[test]
fn ssh_destination_formats() {
    assert_eq!(ssh_destination("10.0.0.5", Some("admin".to_string())), "admin@10.0.0.5");
    assert_eq!(ssh_destination("10.0.0.5", None), "10.0.0.5");
}
