//! The search flow's data: the raw shape a partial search returns, its
//! flattening into search nodes, the closed set of attribute names a
//! caller may select for display, and the display lines themselves.

use vstd::prelude::*;

use crate::errors::KnifeError;
use crate::request::ChefServerResponse;
use vstd::string::StrSliceExecFns;
use vstd::string::StringExecFns;

verus! {

/// A search answer in its flat form: totals and the matched nodes.
#[derive(Debug, Clone, PartialEq, Eq)]
pub struct SearchResult {
    pub total: u16,
    pub start: u16,
    pub rows: Vec<SearchNode>,
}

/// One matched node, flattened: every optional field of the raw row
/// becomes empty text (or an empty list) when absent.
#[derive(Debug, Clone, PartialEq, Eq)]
pub struct SearchNode {
    /// Chef environment
    pub chef_environment: String,
    /// Node name
    pub name: String,
    /// Node run_list items
    pub run_list: Vec<String>,
    /// Node IP address
    pub ipaddress: String,
    /// MAC Address
    pub macaddress: String,
    /// Detected hostname
    pub hostname: String,
    /// Operating system
    pub os: String,
    /// Operating system version
    pub os_version: String,
    /// Machine name
    pub machinename: String,
    /// FQDN
    pub fqdn: String,
    /// OS Platform
    pub platform: String,
    /// Platform Family
    pub platform_family: String,
    /// Platform version
    pub platform_version: String,
    /// List of recipes in the node
    pub recipes: Vec<String>,
    /// List of roles assigned to the node
    pub roles: Vec<String>,
}

/// The raw shape of a search answer: totals and one row per match.
#[derive(Debug, Clone, PartialEq, Eq)]
pub struct ChefSearchResponseRaw {
    pub total: i32,
    pub start: i32,
    pub rows: Vec<ChefNodeRowRaw>,
}

/// One raw row: the node's URL and its partial-search document.
#[derive(Debug, Clone, PartialEq, Eq)]
pub struct ChefNodeRowRaw {
    pub url: String,
    pub data: NodeDocumentRaw,
}

/// The partial-search document of one node; every projected field may
/// be absent.
#[derive(Debug, Clone, PartialEq, Eq)]
pub struct NodeDocumentRaw {
    pub chef_environment: Option<String>,
    pub node_name: Option<String>,
    pub run_list: Vec<String>,
    pub ipaddress: Option<String>,
    pub macaddress: Option<String>,
    pub hostname: Option<String>,
    pub os: Option<String>,
    pub os_version: Option<String>,
    pub fqdn: Option<String>,
    pub platform: Option<String>,
    pub platform_family: Option<String>,
    pub platform_version: Option<String>,
    pub recipes: Option<Vec<String>>,
    pub roles: Option<Vec<String>>,
}

/// The text of an optional field: its value, or empty when absent.
pub open spec fn opt_text(o: Option<String>) -> Seq<char> {
    match o {
        Some(s) => s@,
        None => Seq::empty(),
    }
}

/// The items of an optional list: its value, or empty when absent.
pub open spec fn opt_list(o: Option<Vec<String>>) -> Seq<String> {
    match o {
        Some(v) => v@,
        None => Seq::empty(),
    }
}

/// How a flat node relates to the raw row it came from: field for
/// field, absent options as empty, and `machinename` mirroring
/// `hostname`.
pub open spec fn node_matches_row(n: SearchNode, raw: ChefNodeRowRaw) -> bool {
    &&& n.chef_environment@ == opt_text(raw.data.chef_environment)
    &&& n.name@ == opt_text(raw.data.node_name)
    &&& n.run_list@ == raw.data.run_list@
    &&& n.ipaddress@ == opt_text(raw.data.ipaddress)
    &&& n.macaddress@ == opt_text(raw.data.macaddress)
    &&& n.hostname@ == opt_text(raw.data.hostname)
    &&& n.os@ == opt_text(raw.data.os)
    &&& n.os_version@ == opt_text(raw.data.os_version)
    &&& n.machinename@ == opt_text(raw.data.hostname)
    &&& n.fqdn@ == opt_text(raw.data.fqdn)
    &&& n.platform@ == opt_text(raw.data.platform)
    &&& n.platform_family@ == opt_text(raw.data.platform_family)
    &&& n.platform_version@ == opt_text(raw.data.platform_version)
    &&& n.recipes@ == opt_list(raw.data.recipes)
    &&& n.roles@ == opt_list(raw.data.roles)
}

/// An optional text, or empty when absent.
fn opt_or_empty(o: Option<String>) -> (r: String)
    ensures
        r@ == opt_text(o),
{
    match o {
        Some(s) => s,
        None => String::new(),
    }
}

/// An optional list, or empty when absent.
fn opt_list_or_empty(o: Option<Vec<String>>) -> (r: Vec<String>)
    ensures
        r@ == opt_list(o),
{
    match o {
        Some(v) => v,
        None => Vec::new(),
    }
}

impl SearchNode {
    /// Flattens one raw row into a search node.
    pub fn from_row(raw: ChefNodeRowRaw) -> (r: SearchNode)
        ensures
            node_matches_row(r, raw),
    {
        let data = raw.data;
        let hostname = opt_or_empty(data.hostname);
        let machinename = hostname.clone();
        SearchNode {
            chef_environment: opt_or_empty(data.chef_environment),
            name: opt_or_empty(data.node_name),
            run_list: data.run_list,
            ipaddress: opt_or_empty(data.ipaddress),
            macaddress: opt_or_empty(data.macaddress),
            hostname,
            os: opt_or_empty(data.os),
            os_version: opt_or_empty(data.os_version),
            machinename,
            fqdn: opt_or_empty(data.fqdn),
            platform: opt_or_empty(data.platform),
            platform_family: opt_or_empty(data.platform_family),
            platform_version: opt_or_empty(data.platform_version),
            recipes: opt_list_or_empty(data.recipes),
            roles: opt_list_or_empty(data.roles),
        }
    }
}

/// Flattens every raw row, in order.
pub fn rows_to_nodes(rows: Vec<ChefNodeRowRaw>) -> (r: Vec<SearchNode>)
    ensures
        r@.len() == rows@.len(),
        forall|i: int| 0 <= i < rows@.len() ==> node_matches_row(#[trigger] r@[i], rows@[i]),
{
    let mut nodes: Vec<SearchNode> = Vec::new();
    let mut rest = rows;
    while rest.len() > 0
        invariant
            nodes@.len() + rest@.len() == rows@.len(),
            rest@ == rows@.subrange(nodes@.len() as int, rows@.len() as int),
            forall|i: int|
                0 <= i < nodes@.len() ==> node_matches_row(#[trigger] nodes@[i], rows@[i]),
        decreases rest@.len(),
    {
        let raw = rest.remove(0);
        nodes.push(SearchNode::from_row(raw));
        proof {
            assert(rest@ =~= rows@.subrange(nodes@.len() as int, rows@.len() as int));
        }
    }
    nodes
}

/// The request path of a node search within an organization.
pub fn search_request_path(organization: &str) -> (r: String)
    ensures
        r@ == "/organizations/"@ + organization@ + "/search/node"@,
{
    let mut s = String::from_str("/organizations/");
    s.append(organization);
    s.append("/search/node");
    s
}

/// What the search flow does with a response: a 200 hands the body on
/// to the JSON layer; any other status is a protocol status error
/// carrying the raw status and body, and nothing else ever is.
pub fn search_response_body(resp: ChefServerResponse) -> (r: Result<String, KnifeError>)
    ensures
        resp.status == 200 ==> (r matches Ok(b) && b@ == resp.body@),
        resp.status != 200 ==> (r matches Err(e) && (e matches KnifeError::ProtocolStatus {
            status,
            body,
        } && status == resp.status && body@ == resp.body@)),
{
    if resp.status == 200 {
        Ok(resp.body)
    } else {
        Err(KnifeError::ProtocolStatus { status: resp.status, body: resp.body })
    }
}

/// The closed set of attribute names a search caller may select for
/// display, one variant per supported name.
#[derive(Debug, Clone, Copy, PartialEq, Eq, Structural)]
pub enum NodeAttribute {
    IPAddress,
    ChefEnvironment,
    Name,
    Platform,
    Roles,
    Recipes,
}

/// ASCII lower-casing of one character; other characters are kept.
pub open spec fn lower_char_of(c: char) -> char {
    if 'A' <= c && c <= 'Z' {
        ((c as int + 32) as u8) as char
    } else {
        c
    }
}

/// ASCII lower-casing of a text, character by character.
pub open spec fn ascii_lower_of(s: Seq<char>) -> Seq<char> {
    Seq::new(s.len(), |i: int| lower_char_of(s[i]))
}

/// Lower-cases one ASCII capital; other characters pass through.
fn lower_char(c: char) -> (r: char)
    ensures
        r == lower_char_of(c),
{
    let u = c as u32;
    if 65 <= u && u <= 90 {
        ((u + 32) as u8) as char
    } else {
        c
    }
}

/// Whether `s`, ASCII lower-cased, equals the (already lower-case)
/// keyword `kw`.
fn matches_lower(s: &str, kw: &str) -> (b: bool)
    ensures
        b == (ascii_lower_of(s@) == kw@),
{
    let n = s.unicode_len();
    if n != kw.unicode_len() {
        proof {
            assert(ascii_lower_of(s@).len() == s@.len());
        }
        return false;
    }
    let mut i: usize = 0;
    while i < n
        invariant
            n == s@.len(),
            n == kw@.len(),
            i <= n,
            forall|j: int| 0 <= j < i ==> ascii_lower_of(s@)[j] == kw@[j],
        decreases n - i,
    {
        let c = lower_char(s.get_char(i));
        let k = kw.get_char(i);
        if c != k {
            proof {
                assert(ascii_lower_of(s@)[i as int] != kw@[i as int]);
            }
            return false;
        }
        i = i + 1;
    }
    proof {
        assert(ascii_lower_of(s@) =~= kw@);
    }
    true
}

/// Which attribute a name selects, ASCII case-insensitively; an
/// unsupported name selects none.
pub open spec fn from_str_spec(s: Seq<char>) -> Option<NodeAttribute> {
    if ascii_lower_of(s) == "ipaddress"@ {
        Some(NodeAttribute::IPAddress)
    } else if ascii_lower_of(s) == "chef_environment"@ {
        Some(NodeAttribute::ChefEnvironment)
    } else if ascii_lower_of(s) == "name"@ {
        Some(NodeAttribute::Name)
    } else if ascii_lower_of(s) == "platform"@ {
        Some(NodeAttribute::Platform)
    } else if ascii_lower_of(s) == "roles"@ {
        Some(NodeAttribute::Roles)
    } else if ascii_lower_of(s) == "recipes"@ {
        Some(NodeAttribute::Recipes)
    } else {
        None
    }
}

/// Joins items with a comma and a space, the separator between items
/// only.
pub open spec fn join_comma(items: Seq<String>) -> Seq<char>
    decreases items.len(),
{
    if items.len() == 0 {
        Seq::empty()
    } else if items.len() == 1 {
        items[0]@
    } else {
        join_comma(items.drop_last()) + ", "@ + items.last()@
    }
}

/// Joins items with `", "`.
pub fn join_comma_exec(items: &Vec<String>) -> (r: String)
    ensures
        r@ == join_comma(items@),
{
    let mut s = String::new();
    let mut i: usize = 0;
    while i < items.len()
        invariant
            i <= items@.len(),
            s@ =~= join_comma(items@.take(i as int)),
        decreases items@.len() - i,
    {
        if i > 0 {
            s.append(", ");
        }
        s.append(items[i].as_str());
        proof {
            assert(items@.take(i as int + 1).drop_last() =~= items@.take(i as int));
            assert(items@.take(i as int + 1).last() == items@[i as int]);
        }
        i = i + 1;
    }
    proof {
        assert(items@.take(items@.len() as int) =~= items@);
    }
    s
}

/// The display line of one attribute of a node: fixed label, aligned
/// colon, then the value (lists joined with `", "`).
pub open spec fn attr_line_of(a: NodeAttribute, n: SearchNode) -> Seq<char> {
    match a {
        NodeAttribute::Name => "Node name:        "@ + n.name@,
        NodeAttribute::IPAddress => "IP Address:       "@ + n.ipaddress@,
        NodeAttribute::ChefEnvironment => "Chef Environment: "@ + n.chef_environment@,
        NodeAttribute::Roles => "Roles:            "@ + join_comma(n.roles@),
        NodeAttribute::Platform => "Platform:          "@ + n.platform_family@,
        NodeAttribute::Recipes => "Recipes:          "@ + join_comma(n.recipes@),
    }
}

impl NodeAttribute {
    /// Parses an attribute name, ASCII case-insensitively.
    pub fn from_str(s: &str) -> (r: Option<NodeAttribute>)
        ensures
            r == from_str_spec(s@),
    {
        if matches_lower(s, "ipaddress") {
            Some(NodeAttribute::IPAddress)
        } else if matches_lower(s, "chef_environment") {
            Some(NodeAttribute::ChefEnvironment)
        } else if matches_lower(s, "name") {
            Some(NodeAttribute::Name)
        } else if matches_lower(s, "platform") {
            Some(NodeAttribute::Platform)
        } else if matches_lower(s, "roles") {
            Some(NodeAttribute::Roles)
        } else if matches_lower(s, "recipes") {
            Some(NodeAttribute::Recipes)
        } else {
            None
        }
    }

    /// The display line this attribute selects from `node`.
    pub fn display(&self, node: &SearchNode) -> (r: String)
        ensures
            r@ == attr_line_of(*self, *node),
    {
        match self {
            NodeAttribute::Name => node.display_node_name(),
            NodeAttribute::IPAddress => node.display_ipaddress(),
            NodeAttribute::ChefEnvironment => node.display_chef_environment(),
            NodeAttribute::Roles => node.display_roles(),
            NodeAttribute::Platform => node.display_platform(),
            NodeAttribute::Recipes => node.display_recipes(),
        }
    }
}

/// The full display of a node: its eight lines in fixed order, then
/// two trailing newlines, as the rendering always ended.
pub open spec fn display_all_of(n: SearchNode) -> Seq<char> {
    "Node name:        "@ + n.name@ + "\n"@ + "IP Address:       "@ + n.ipaddress@ + "\n"@
        + "Chef Environment: "@ + n.chef_environment@ + "\n"@ + "Roles:            "@ + join_comma(
        n.roles@,
    ) + "\n"@ + "Run List:         "@ + join_comma(n.run_list@) + "\n"@ + "Recipes:          "@
        + join_comma(n.recipes@) + "\n"@ + "Platform:          "@ + n.platform_family@ + "\n"@
        + "Platform version:  "@ + n.platform_version@ + "\n"@ + "\n\n"@
}

/// The lines of the selected attributes, in the order given; names that
/// select nothing contribute nothing.
pub open spec fn selected_lines_of(n: SearchNode, attrs: Seq<String>) -> Seq<char>
    decreases attrs.len(),
{
    if attrs.len() == 0 {
        Seq::empty()
    } else {
        selected_lines_of(n, attrs.drop_last()) + (match from_str_spec(attrs.last()@) {
            Some(a) => attr_line_of(a, n) + "\n"@,
            None => Seq::empty(),
        })
    }
}

/// The display of a node for a caller's attribute selection: all eight
/// lines when nothing is selected, else the node's name and the
/// selected lines, each form ending in two trailing newlines.
pub open spec fn display_of(n: SearchNode, attrs: Seq<String>) -> Seq<char> {
    if attrs.len() == 0 {
        display_all_of(n)
    } else {
        n.name@ + "\n"@ + selected_lines_of(n, attrs) + "\n\n"@
    }
}

impl SearchNode {
    /// The node-name line.
    pub fn display_node_name(&self) -> (r: String)
        ensures
            r@ == "Node name:        "@ + self.name@,
    {
        let mut s = String::from_str("Node name:        ");
        s.append(self.name.as_str());
        s
    }

    /// The IP-address line.
    pub fn display_ipaddress(&self) -> (r: String)
        ensures
            r@ == "IP Address:       "@ + self.ipaddress@,
    {
        let mut s = String::from_str("IP Address:       ");
        s.append(self.ipaddress.as_str());
        s
    }

    /// The environment line.
    pub fn display_chef_environment(&self) -> (r: String)
        ensures
            r@ == "Chef Environment: "@ + self.chef_environment@,
    {
        let mut s = String::from_str("Chef Environment: ");
        s.append(self.chef_environment.as_str());
        s
    }

    /// The roles line.
    pub fn display_roles(&self) -> (r: String)
        ensures
            r@ == "Roles:            "@ + join_comma(self.roles@),
    {
        let mut s = String::from_str("Roles:            ");
        let joined = join_comma_exec(&self.roles);
        s.append(joined.as_str());
        s
    }

    /// The platform line; it shows the platform family, as the protocol
    /// always did.
    pub fn display_platform(&self) -> (r: String)
        ensures
            r@ == "Platform:          "@ + self.platform_family@,
    {
        let mut s = String::from_str("Platform:          ");
        s.append(self.platform_family.as_str());
        s
    }

    /// The run-list line.
    pub fn display_runlist(&self) -> (r: String)
        ensures
            r@ == "Run List:         "@ + join_comma(self.run_list@),
    {
        let mut s = String::from_str("Run List:         ");
        let joined = join_comma_exec(&self.run_list);
        s.append(joined.as_str());
        s
    }

    /// The recipes line.
    pub fn display_recipes(&self) -> (r: String)
        ensures
            r@ == "Recipes:          "@ + join_comma(self.recipes@),
    {
        let mut s = String::from_str("Recipes:          ");
        let joined = join_comma_exec(&self.recipes);
        s.append(joined.as_str());
        s
    }

    /// The platform-family line (shown under the `Platform` label).
    pub fn display_platform_family(&self) -> (r: String)
        ensures
            r@ == "Platform:          "@ + self.platform_family@,
    {
        self.display_platform()
    }

    /// The platform-version line.
    pub fn display_platform_version(&self) -> (r: String)
        ensures
            r@ == "Platform version:  "@ + self.platform_version@,
    {
        let mut s = String::from_str("Platform version:  ");
        s.append(self.platform_version.as_str());
        s
    }

    /// The display of this node for the caller's attribute selection:
    /// every line when `attributes` is empty, else the name and the
    /// selected lines.
    pub fn display(&self, attributes: &Vec<String>) -> (r: String)
        ensures
            r@ == display_of(*self, attributes@),
    {
        if attributes.len() == 0 {
            let mut s = self.display_node_name();
            s.append("\n");
            s.append(self.display_ipaddress().as_str());
            s.append("\n");
            s.append(self.display_chef_environment().as_str());
            s.append("\n");
            s.append(self.display_roles().as_str());
            s.append("\n");
            s.append(self.display_runlist().as_str());
            s.append("\n");
            s.append(self.display_recipes().as_str());
            s.append("\n");
            s.append(self.display_platform_family().as_str());
            s.append("\n");
            s.append(self.display_platform_version().as_str());
            s.append("\n");
            s.append("\n\n");
            s
        } else {
            let mut s = String::from_str(self.name.as_str());
            s.append("\n");
            let mut i: usize = 0;
            while i < attributes.len()
                invariant
                    i <= attributes@.len(),
                    s@ =~= self.name@ + "\n"@ + selected_lines_of(
                        *self,
                        attributes@.take(i as int),
                    ),
                decreases attributes@.len() - i,
            {
                match NodeAttribute::from_str(attributes[i].as_str()) {
                    Some(attr) => {
                        let line = attr.display(self);
                        s.append(line.as_str());
                        s.append("\n");
                    },
                    None => {},
                }
                proof {
                    assert(attributes@.take(i as int + 1).drop_last() =~= attributes@.take(
                        i as int,
                    ));
                    assert(attributes@.take(i as int + 1).last() == attributes@[i as int]);
                }
                i = i + 1;
            }
            proof {
                assert(attributes@.take(attributes@.len() as int) =~= attributes@);
            }
            s.append("\n\n");
            s
        }
    }
}

} // verus!
