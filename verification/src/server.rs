//! The server's configuration value. Binding the address, accepting
//! connections and moving bytes are a transport's concern and stand outside
//! this library; the server value only carries the address the transport
//! should bind.

use vstd::prelude::*;

verus! {

/// A server bound to one socket address.
pub struct Server<'a> {
    pub socket_addr: &'a str,
}

impl<'a> Server<'a> {
    /// A server that will serve on `socket_addr`.
    pub fn new(socket_addr: &'a str) -> (s: Server<'a>)
        ensures
            s.socket_addr@ == socket_addr@,
    {
        Server { socket_addr }
    }
}

} // verus!
