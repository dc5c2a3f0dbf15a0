//! The credentials and server coordinates the core reads on every call.
//! Loading them from a knife.rb file is a collaborator's concern; the
//! core only requires the fields to be present.

use vstd::prelude::*;

verus! {

/// Client configuration: identity, key location, server URL and the
/// organization extracted from that URL. Read-only for the process
/// lifetime; passed by reference into every signing call.
#[derive(Debug, Clone)]
pub struct KnifeConfig {
    /// The node/user name used both as a header and as signature input.
    pub node_name: String,
    /// Path of the PEM file holding the RSA private key.
    pub client_key: String,
    /// Base URL of the server, ending in the organization segment.
    pub chef_server_url: String,
    /// The organization name, the last `/`-separated segment of the URL.
    pub organization: String,
}

} // verus!
