//! The one decision the remote-session collaborator takes from the
//! core: which destination text an SSH client is pointed at.

use vstd::prelude::*;

use vstd::string::StringExecFns;

verus! {

/// The SSH destination for a host: `user@host` when a user was given,
/// the bare host otherwise.
pub fn ssh_destination(host: &str, user: Option<String>) -> (r: String)
    ensures
        user matches Some(u) ==> r@ == u@ + "@"@ + host@,
        user is None ==> r@ == host@,
{
    match user {
        Some(u) => {
            let mut s = String::from_str(u.as_str());
            s.append("@");
            s.append(host);
            s
        },
        None => String::from_str(host),
    }
}

} // verus!
