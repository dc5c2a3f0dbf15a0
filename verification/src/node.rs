//! A full node object as the server returns it, and its display: the
//! fixed fields, the relevant slice of the `automatic` attributes, and
//! the eight display lines a node-show renders.

use vstd::prelude::*;

use crate::search::join_comma;
use crate::search::join_comma_exec;
use vstd::string::StringExecFns;

verus! {

/// One node object: name, environment, run list, and the detected
/// (`automatic`) attributes.
#[derive(Debug, Clone, PartialEq, Eq)]
pub struct ChefNode {
    pub automatic: ChefNodeAutomatic,
    pub chef_environment: String,
    pub name: String,
    pub run_list: Vec<String>,
}

/// The relevant fields of a node's `automatic` attributes.
#[derive(Debug, Clone, PartialEq, Eq)]
pub struct ChefNodeAutomatic {
    pub ipaddress: String,
    pub macaddress: String,
    pub hostname: String,
    pub os: String,
    pub os_version: String,
    pub machinename: String,
    pub fqdn: String,
    pub platform: String,
    pub platform_family: String,
    pub platform_version: String,
    pub recipes: Vec<String>,
    pub roles: Vec<String>,
}

/// The display of a node: its eight lines in fixed order, then two
/// trailing newlines, as the rendering always ended.
pub open spec fn node_display_of(n: ChefNode) -> Seq<char> {
    "Node name:        "@ + n.name@ + "\n"@ + "IP Address:       "@ + n.automatic.ipaddress@
        + "\n"@ + "Chef Environment: "@ + n.chef_environment@ + "\n"@ + "Roles:            "@
        + join_comma(n.automatic.roles@) + "\n"@ + "Run List:         "@ + join_comma(n.run_list@)
        + "\n"@ + "Recipes:          "@ + join_comma(n.automatic.recipes@) + "\n"@
        + "Platform:          "@ + n.automatic.platform_family@ + "\n"@ + "Platform version:  "@
        + n.automatic.platform_version@ + "\n"@ + "\n\n"@
}

impl ChefNode {
    /// Renders the node's display lines.
    pub fn display(&self) -> (r: String)
        ensures
            r@ == node_display_of(*self),
    {
        let mut s = String::from_str("Node name:        ");
        s.append(self.name.as_str());
        s.append("\n");
        s.append("IP Address:       ");
        s.append(self.automatic.ipaddress.as_str());
        s.append("\n");
        s.append("Chef Environment: ");
        s.append(self.chef_environment.as_str());
        s.append("\n");
        s.append("Roles:            ");
        let roles = join_comma_exec(&self.automatic.roles);
        s.append(roles.as_str());
        s.append("\n");
        s.append("Run List:         ");
        let run_list = join_comma_exec(&self.run_list);
        s.append(run_list.as_str());
        s.append("\n");
        s.append("Recipes:          ");
        let recipes = join_comma_exec(&self.automatic.recipes);
        s.append(recipes.as_str());
        s.append("\n");
        s.append("Platform:          ");
        s.append(self.automatic.platform_family.as_str());
        s.append("\n");
        s.append("Platform version:  ");
        s.append(self.automatic.platform_version.as_str());
        s.append("\n");
        s.append("\n\n");
        s
    }
}

} // verus!
