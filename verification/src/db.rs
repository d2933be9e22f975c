//! The connection to the document store.

use vstd::prelude::*;

verus! {

/// The store connection that the repositories open.
pub struct Connection {}

/// The address of the store for a user, password and host, on the store's
/// default port.
pub open spec fn connection_address(user: Seq<char>, pass: Seq<char>, host: Seq<char>) -> Seq<
    char,
> {
    "mongodb://"@ + user + ":"@ + pass + "@"@ + host + ":27017"@
}

impl Connection {
    /// The address that `Connection::init` connects to:
    /// `mongodb://{user}:{pass}@{host}:27017`.
    pub fn connection_string(user: &str, pass: &str, host: &str) -> (res: String)
        ensures
            res@ == connection_address(user@, pass@, host@),
    {
        let mut s = String::from_str("mongodb://");
        s.append(user);
        s.append(":");
        s.append(pass);
        s.append("@");
        s.append(host);
        s.append(":27017");
        s
    }
}

} // verus!
